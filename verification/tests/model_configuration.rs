use semantic_core::semantic_layer::layer_info::field::Field;
use semantic_core::semantic_layer::layer_info::table::Table;
use semantic_core::semantic_layer::layer_info::title::Title;
use semantic_core::{
    Aggregate, Dimension, DimensionConfiguration, Metric, MetricConfiguration, ModelConfiguration,
};

fn make_model_config() -> ModelConfiguration {
    let metrics = vec![
        (
            "revenue".to_string(),
            MetricConfiguration::new("Revenue", Aggregate::Sum, "amount"),
        ),
        (
            "orders_count".to_string(),
            MetricConfiguration::new("Orders count", Aggregate::Count, "order_id"),
        ),
    ];
    let dimensions = vec![
        (
            "country".to_string(),
            DimensionConfiguration::new("Country", "country"),
        ),
        (
            "status".to_string(),
            DimensionConfiguration::new("Status", "status"),
        ),
    ];
    ModelConfiguration::new("orders", metrics, dimensions)
}

#[test]
fn dimension_config_returns_config_for_existing_dimension() {
    let model_config = make_model_config();
    let result = model_config.dimension_config(&Dimension::new("country", "orders"));
    assert_eq!(
        result,
        Some(&DimensionConfiguration::new("Country", "country"))
    );
}

#[test]
fn dimension_config_returns_none_for_unknown_dimension() {
    let model_config = make_model_config();
    let result = model_config.dimension_config(&Dimension::new("city", "orders"));
    assert_eq!(result, None);
}

#[test]
fn metric_config_returns_config_for_existing_metric() {
    let model_config = make_model_config();
    let result = model_config.metric_config(&Metric::new("revenue", "orders"));
    assert_eq!(
        result,
        Some(&MetricConfiguration::new(
            "Revenue",
            Aggregate::Sum,
            "amount"
        ))
    );
}

#[test]
fn metric_config_returns_none_for_unknown_metric() {
    let model_config = make_model_config();
    let result = model_config.metric_config(&Metric::new("profit", "orders"));
    assert_eq!(result, None);
}

#[test]
fn column_returns_underlying_column_for_dimension() {
    let model_config = make_model_config();
    let result = model_config.column("country");
    assert_eq!(result, Some("country"));
}

#[test]
fn column_returns_underlying_column_for_metric() {
    let model_config = make_model_config();
    let result = model_config.column("revenue");
    assert_eq!(result, Some("amount"));
}

#[test]
fn column_returns_none_for_unknown_field() {
    let model_config = make_model_config();
    let result = model_config.column("profit");
    assert_eq!(result, None);
}

#[test]
fn column_prefers_dimension_over_metric_on_name_collision() {
    let model_config = ModelConfiguration::new(
        "orders",
        vec![(
            "price".to_string(),
            MetricConfiguration::new("Price metric", Aggregate::Sum, "price_met"),
        )],
        vec![(
            "price".to_string(),
            DimensionConfiguration::new("Price dimension", "price_dim"),
        )],
    );
    let result = model_config.column("price");
    assert_eq!(result, Some("price_dim"));
}

#[test]
fn model_configuration_later_entry_of_a_name_wins() {
    let model_config = ModelConfiguration::new(
        "orders",
        vec![
            (
                "revenue".to_string(),
                MetricConfiguration::new("Revenue", Aggregate::Sum, "amount"),
            ),
            (
                "revenue".to_string(),
                MetricConfiguration::new("Revenue net", Aggregate::Sum, "net_amount"),
            ),
        ],
        vec![],
    );
    assert_eq!(
        model_config.get_metric_configuration("revenue"),
        Some(&MetricConfiguration::new("Revenue net", Aggregate::Sum, "net_amount"))
    );
    assert_eq!(model_config.column("revenue"), Some("net_amount"));
}

#[test]
fn model_configuration_table_name_and_columns() {
    let model_config = make_model_config();
    assert_eq!(model_config.table_name(), "orders");
    assert_eq!(model_config.table().as_ref(), "orders");
    assert_eq!(
        model_config.dimension_column("status").map(|f| f.as_ref()),
        Some("status")
    );
    assert_eq!(model_config.dimension_column("revenue"), None);
    assert_eq!(
        model_config
            .get_metric_configuration("orders_count")
            .map(|m| (*m.aggregate(), m.field().as_ref().to_string(), m.title().as_ref().to_string())),
        Some((Aggregate::Count, "order_id".to_string(), "Orders count".to_string()))
    );
}

#[test]
fn lookups_of_names_differing_only_by_case_find_nothing() {
    let model_config = make_model_config();
    assert_eq!(model_config.column("Country"), None);
    assert_eq!(model_config.column(""), None);
    assert_eq!(
        model_config.dimension_config(&Dimension::new("country", "any_model")),
        Some(&DimensionConfiguration::new("Country", "country"))
    );
}

#[test]
fn titles_fields_and_tables_are_equal_exactly_when_their_texts_are() {
    assert_eq!(Title::new("Revenue"), Title::new("Revenue"));
    assert_ne!(Title::new("Revenue"), Title::new("revenue"));
    assert_eq!(Field::new("amount"), Field::new("amount"));
    assert_ne!(Field::new("amount"), Field::new("amounts"));
    assert_eq!(Table::new("orders"), Table::new("orders"));
    assert_ne!(Table::new("orders"), Table::new(""));
    assert_eq!(
        MetricConfiguration::new("Revenue", Aggregate::Sum, "amount").title(),
        &Title::new("Revenue")
    );
}
