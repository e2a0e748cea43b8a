use semantic_core::query::{Query, QueryValidationError};
use semantic_core::{Dimension, Filter, FilterOperation, FilterValue, Float64, Metric};

#[test]
fn try_new_accepts_distinct_references() {
    let query = Query::try_new(
        vec![Metric::new("revenue", "orders"), Metric::new("orders_count", "orders")],
        vec![Dimension::new("country", "orders")],
        vec![Filter::new("country", "orders", FilterOperation::Ne, FilterValue::String("US"))],
    )
    .unwrap();
    assert_eq!(query.metrics().len(), 2);
    assert_eq!(query.dimensions().len(), 1);
    assert_eq!(query.filters().len(), 1);
    assert_eq!(query.metrics()[1].name(), "orders_count");
    assert_eq!(query.dimensions()[0].model(), "orders");
}

#[test]
fn try_new_refuses_first_repeated_metric() {
    let err = Query::try_new(
        vec![
            Metric::new("revenue", "orders"),
            Metric::new("count", "orders"),
            Metric::new("count", "orders"),
            Metric::new("revenue", "orders"),
        ],
        vec![Dimension::new("country", "orders"), Dimension::new("country", "orders")],
        vec![],
    )
    .err()
    .unwrap();
    match &err {
        QueryValidationError::DuplicateMetric { model, name } => {
            assert_eq!(model, "orders");
            assert_eq!(name, "count");
        }
        other => panic!("unexpected error: {:?}", other),
    }
    assert_eq!(err.message(), "duplicate metric: model 'orders', name 'count'");
}

#[test]
fn try_new_refuses_repeated_dimension_after_metrics_pass() {
    let err = Query::try_new(
        vec![Metric::new("revenue", "orders"), Metric::new("revenue", "products")],
        vec![Dimension::new("country", "orders"), Dimension::new("country", "orders")],
        vec![],
    )
    .err()
    .unwrap();
    assert_eq!(
        err.message(),
        "duplicate dimension: model 'orders', name 'country'"
    );
}

#[test]
fn try_new_refuses_equal_filters() {
    let err = Query::try_new(
        vec![Metric::new("revenue", "orders")],
        vec![],
        vec![
            Filter::new("amount", "orders", FilterOperation::Gt, FilterValue::Int(10)),
            Filter::new("amount", "orders", FilterOperation::Lt, FilterValue::Int(10)),
            Filter::new("amount", "orders", FilterOperation::Gt, FilterValue::Int(10)),
        ],
    )
    .err()
    .unwrap();
    assert!(matches!(err, QueryValidationError::DuplicateFilter));
    assert_eq!(err.message(), "duplicate filter");
}

#[test]
fn float_filters_compare_as_ieee_numbers() {
    let zero = Float64::from_bits(0.0f64.to_bits());
    let minus_zero = Float64::from_bits((-0.0f64).to_bits());
    let nan = Float64::from_bits(f64::NAN.to_bits());
    assert!(zero == minus_zero);
    assert!(nan != nan);
    assert!(nan.is_nan());
    assert_eq!(Float64::from_bits(1.5f64.to_bits()).to_bits(), 1.5f64.to_bits());

    let with_zeros = Query::try_new(
        vec![],
        vec![],
        vec![
            Filter::new("amount", "orders", FilterOperation::Eq, FilterValue::Float(zero)),
            Filter::new("amount", "orders", FilterOperation::Eq, FilterValue::Float(minus_zero)),
        ],
    );
    assert!(matches!(with_zeros.err(), Some(QueryValidationError::DuplicateFilter)));

    let with_nans = Query::try_new(
        vec![],
        vec![],
        vec![
            Filter::new("amount", "orders", FilterOperation::Eq, FilterValue::Float(nan)),
            Filter::new("amount", "orders", FilterOperation::Eq, FilterValue::Float(nan)),
        ],
    );
    assert!(with_nans.is_ok());
}

#[test]
fn filters_of_different_kinds_are_not_equal() {
    let a = Filter::new("amount", "orders", FilterOperation::Eq, FilterValue::Int(1));
    let b = Filter::new(
        "amount",
        "orders",
        FilterOperation::Eq,
        FilterValue::Float(Float64::from_bits(1.0f64.to_bits())),
    );
    assert!(a != b);
    assert!(a == a);
    assert_eq!(a.field(), "amount");
    assert_eq!(a.model(), "orders");
    assert_eq!(*a.operation(), FilterOperation::Eq);
    assert!(matches!(a.value(), FilterValue::Int(1)));
}

#[test]
fn models_lists_each_model_once_metrics_first() {
    let query = Query::try_new(
        vec![Metric::new("revenue", "orders"), Metric::new("stock", "products")],
        vec![Dimension::new("country", "customers"), Dimension::new("status", "orders")],
        vec![],
    )
    .unwrap();
    assert_eq!(query.models(), vec!["orders", "products", "customers"]);

    let only_dimensions =
        Query::try_new(vec![], vec![Dimension::new("country", "customers")], vec![]).unwrap();
    assert_eq!(only_dimensions.models(), vec!["customers"]);

    let empty = Query::try_new(vec![], vec![], vec![]).unwrap();
    assert!(empty.models().is_empty());
}

#[test]
fn references_compare_by_name_and_model() {
    assert!(Metric::new("revenue", "orders") == Metric::new("revenue", "orders"));
    assert!(Metric::new("revenue", "orders") != Metric::new("revenue", "products"));
    assert!(Dimension::new("country", "orders") != Dimension::new("status", "orders"));
}
