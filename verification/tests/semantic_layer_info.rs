use semantic_core::{
    Aggregate, Dimension, DimensionConfiguration, Metric, MetricConfiguration, ModelConfiguration,
    SemanticLayerInfo,
};

fn orders() -> ModelConfiguration {
    ModelConfiguration::new(
        "orders_table",
        vec![
            (
                "revenue".to_string(),
                MetricConfiguration::new("Revenue", Aggregate::Sum, "amount"),
            ),
            (
                "orders_count".to_string(),
                MetricConfiguration::new("Orders count", Aggregate::Count, "order_id"),
            ),
        ],
        vec![(
            "country".to_string(),
            DimensionConfiguration::new("Country", "country"),
        )],
    )
}

fn products() -> ModelConfiguration {
    ModelConfiguration::new(
        "products_table",
        vec![(
            "stock".to_string(),
            MetricConfiguration::new("Stock", Aggregate::Sum, "quantity"),
        )],
        vec![(
            "category".to_string(),
            DimensionConfiguration::new("Category", "category"),
        )],
    )
}

fn layer() -> SemanticLayerInfo {
    SemanticLayerInfo::new(vec![
        ("orders".to_string(), orders()),
        ("products".to_string(), products()),
    ])
}

#[test]
fn layer_table_of_known_and_unknown_models() {
    let info = layer();
    assert_eq!(info.len(), 2);
    assert_eq!(info.table("orders").map(|t| t.as_ref()), Some("orders_table"));
    assert_eq!(info.table("products").map(|t| t.as_ref()), Some("products_table"));
    assert!(info.table("customers").is_none());
}

#[test]
fn layer_looks_up_references_in_their_own_model() {
    let info = layer();
    assert_eq!(
        info.dimension_config(&Dimension::new("category", "products")),
        Some(&DimensionConfiguration::new("Category", "category"))
    );
    assert_eq!(info.dimension_config(&Dimension::new("category", "orders")), None);
    assert_eq!(
        info.metric_config(&Metric::new("stock", "products")),
        Some(&MetricConfiguration::new("Stock", Aggregate::Sum, "quantity"))
    );
    assert_eq!(info.metric_config(&Metric::new("stock", "orders")), None);
    assert_eq!(info.metric_config(&Metric::new("revenue", "nowhere")), None);
}

#[test]
fn layer_column_and_field_lookups() {
    let info = layer();
    assert_eq!(info.column("orders", "country"), Some("country"));
    assert_eq!(info.column("orders", "revenue"), Some("amount"));
    assert_eq!(info.column("products", "revenue"), None);
    assert_eq!(info.column("nowhere", "revenue"), None);
    assert_eq!(
        info.get_dimension_column("orders", "country").map(|f| f.as_ref()),
        Some("country")
    );
    assert!(info.get_dimension_column("orders", "revenue").is_none());
    let (aggregate, field) = info.get_metric_info("orders", "orders_count").unwrap();
    assert_eq!(*aggregate, Aggregate::Count);
    assert_eq!(field.as_ref(), "order_id");
    assert!(info.get_metric_info("products", "orders_count").is_none());
}

#[test]
fn layer_later_model_of_a_name_wins() {
    let info = SemanticLayerInfo::new(vec![
        ("orders".to_string(), orders()),
        ("orders".to_string(), products()),
    ]);
    assert_eq!(info.len(), 1);
    assert_eq!(info.table("orders").map(|t| t.as_ref()), Some("products_table"));
    assert!(info.model("orders").unwrap().column("stock").is_some());
}
