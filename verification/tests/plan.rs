use semantic_core::query::Query;
use semantic_core::{
    build_plan, source_table, Aggregate, Dimension, DimensionConfiguration, Filter,
    FilterOperation, FilterValue, Literal, Metric, MetricConfiguration, ModelConfiguration,
    PlanError, SemanticLayerInfo,
};

fn make_semantic_layer_info() -> SemanticLayerInfo {
    let model = ModelConfiguration::new(
        "orders",
        vec![
            (
                "revenue".to_string(),
                MetricConfiguration::new("Revenue", Aggregate::Sum, "amount"),
            ),
            (
                "orders_count".to_string(),
                MetricConfiguration::new("Orders Count", Aggregate::Count, "order_id"),
            ),
        ],
        vec![(
            "country".to_string(),
            DimensionConfiguration::new("Country", "country"),
        )],
    );
    SemanticLayerInfo::new(vec![("orders".to_string(), model)])
}

#[test]
fn plan_groups_by_dimension_and_aggregates_metric() {
    let info = make_semantic_layer_info();
    let query = Query::try_new(
        vec![Metric::new("revenue", "orders")],
        vec![Dimension::new("country", "orders")],
        vec![Filter::new(
            "country",
            "orders",
            FilterOperation::Ne,
            FilterValue::String("US"),
        )],
    )
    .unwrap();

    assert_eq!(source_table(&info, &query).unwrap(), "orders");
    let plan = build_plan(&info, &query).unwrap();
    assert_eq!(plan.group_by().len(), 1);
    assert_eq!(plan.group_by()[0].field_name(), "country");
    assert_eq!(plan.group_by()[0].table_name(), "orders");
    assert_eq!(plan.aggregations().len(), 1);
    assert_eq!(*plan.aggregations()[0].aggregate(), Aggregate::Sum);
    assert_eq!(plan.aggregations()[0].column().field_name(), "amount");
    assert_eq!(plan.aggregations()[0].alias(), "revenue");
    assert_eq!(plan.predicates().len(), 1);
    assert_eq!(plan.predicates()[0].column(), "country");
    assert_eq!(plan.predicates()[0].operation(), FilterOperation::Ne);
    assert_eq!(plan.predicates()[0].value(), &Literal::String("US".to_string()));
}

#[test]
fn plan_leaves_out_unconfigured_metrics_and_dimensions() {
    let info = make_semantic_layer_info();
    let query = Query::try_new(
        vec![Metric::new("profit", "orders"), Metric::new("orders_count", "orders")],
        vec![Dimension::new("city", "orders")],
        vec![],
    )
    .unwrap();
    let plan = build_plan(&info, &query).unwrap();
    assert!(plan.group_by().is_empty());
    assert_eq!(plan.aggregations().len(), 1);
    assert_eq!(*plan.aggregations()[0].aggregate(), Aggregate::Count);
    assert_eq!(plan.aggregations()[0].alias(), "orders_count");
    assert!(plan.predicates().is_empty());
}

#[test]
fn plan_refuses_unknown_filter_field() {
    let info = make_semantic_layer_info();
    let query = Query::try_new(
        vec![Metric::new("revenue", "orders")],
        vec![],
        vec![
            Filter::new("revenue", "orders", FilterOperation::Gt, FilterValue::Int(100)),
            Filter::new("city", "orders", FilterOperation::Eq, FilterValue::String("Tbilisi")),
            Filter::new("zip", "orders", FilterOperation::Eq, FilterValue::Int(1)),
        ],
    )
    .unwrap();
    let err = build_plan(&info, &query).err().unwrap();
    assert_eq!(
        err,
        PlanError::InvalidField {
            model: "orders".to_string(),
            name: "city".to_string()
        }
    );
    assert_eq!(err.message(), "invalid field: model 'orders', field 'city'");
}

#[test]
fn filter_on_metric_field_uses_metric_column() {
    let info = make_semantic_layer_info();
    let query = Query::try_new(
        vec![Metric::new("revenue", "orders")],
        vec![],
        vec![Filter::new("revenue", "orders", FilterOperation::Gte, FilterValue::Int(100))],
    )
    .unwrap();
    let plan = build_plan(&info, &query).unwrap();
    assert_eq!(plan.predicates()[0].column(), "amount");
    assert_eq!(plan.predicates()[0].value(), &Literal::Int(100));
}

#[test]
fn source_table_errors() {
    let info = make_semantic_layer_info();
    let empty = Query::try_new(vec![], vec![], vec![]).unwrap();
    let err = source_table(&info, &empty).err().unwrap();
    assert_eq!(err, PlanError::EmptyQuery);
    assert_eq!(err.message(), "empty query");

    let unknown = Query::try_new(vec![Metric::new("revenue", "customers")], vec![], vec![]).unwrap();
    let err = source_table(&info, &unknown).err().unwrap();
    assert_eq!(err, PlanError::InvalidModel("customers".to_string()));
    assert_eq!(err.message(), "invalid model: customers");

    let by_dimension =
        Query::try_new(vec![], vec![Dimension::new("country", "orders")], vec![]).unwrap();
    assert_eq!(source_table(&info, &by_dimension).unwrap(), "orders");
}

#[test]
fn plan_output_lists_metrics_before_dimensions() {
    let info = make_semantic_layer_info();
    let query = Query::try_new(
        vec![Metric::new("revenue", "orders"), Metric::new("orders_count", "orders")],
        vec![Dimension::new("country", "orders")],
        vec![],
    )
    .unwrap();
    let plan = build_plan(&info, &query).unwrap();
    assert_eq!(
        plan.output_columns(),
        vec!["revenue".to_string(), "orders_count".to_string(), "country".to_string()]
    );
}
