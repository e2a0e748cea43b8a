use semantic_core::gateway::configuration::{Configuration, ServerConfiguration};
use semantic_core::gateway::error::ServerError;
use semantic_core::gateway::model_reader::model_name;
use semantic_core::gateway::query::{
    map_to_query, operation_from_name, split_reference, Filter, Primitive, QueryError,
    QueryRequest,
};
use semantic_core::gateway::server_arguments::{check_models_dir, parse_models_dir, ServerArguments};
use semantic_core::{FilterOperation, FilterValue, Float64};
use std::path::PathBuf;

fn strings(values: &[&str]) -> Vec<String> {
    values.iter().map(|s| s.to_string()).collect()
}

#[test]
fn split_reference_splits_at_first_dot() {
    assert_eq!(split_reference("orders.revenue"), Some(("orders", "revenue")));
    assert_eq!(split_reference("a.b.c"), Some(("a", "b.c")));
    assert_eq!(split_reference(".revenue"), Some(("", "revenue")));
    assert_eq!(split_reference("revenue"), None);
}

#[test]
fn request_maps_onto_query() {
    let request = QueryRequest::new(
        strings(&["orders.revenue", "orders.orders_count"]),
        strings(&["orders.country"]),
        Some(vec![Filter::new(
            "orders.status".to_string(),
            "eq".to_string(),
            Primitive::String("completed".to_string()),
        )]),
    );
    let query = map_to_query(&request).unwrap();
    assert_eq!(query.metrics().len(), 2);
    assert_eq!(query.metrics()[0].model(), "orders");
    assert_eq!(query.metrics()[0].name(), "revenue");
    assert_eq!(query.metrics()[1].name(), "orders_count");
    assert_eq!(query.dimensions()[0].name(), "country");
    let filter = &query.filters()[0];
    assert_eq!(filter.model(), "orders");
    assert_eq!(filter.field(), "status");
    assert_eq!(*filter.operation(), FilterOperation::Eq);
    assert!(matches!(filter.value(), FilterValue::String("completed")));
}

#[test]
fn request_errors_name_the_first_bad_reference() {
    let request = QueryRequest::new(strings(&["orders.revenue", "revenue", "x"]), strings(&["."]), None);
    let err = map_to_query(&request).err().unwrap();
    assert!(matches!(&err, QueryError::Metric(s) if s == "revenue"));
    assert_eq!(err.message(), "invalid metric: revenue");

    let request = QueryRequest::new(strings(&["orders.revenue"]), strings(&["orders."]), None);
    let err = map_to_query(&request).err().unwrap();
    assert_eq!(err.message(), "invalid dimension: orders.");

    let request = QueryRequest::new(
        vec![],
        vec![],
        Some(vec![Filter::new("status".to_string(), "eq".to_string(), Primitive::Int(1))]),
    );
    let err = map_to_query(&request).err().unwrap();
    assert_eq!(err.message(), "invalid filter field name: status");

    let request = QueryRequest::new(
        vec![],
        vec![],
        Some(vec![Filter::new("orders.status".to_string(), "like".to_string(), Primitive::Int(1))]),
    );
    let err = map_to_query(&request).err().unwrap();
    assert_eq!(err.message(), "invalid filter operation: like");

    let request = QueryRequest::new(strings(&["orders.revenue", "orders.revenue"]), vec![], None);
    let err = map_to_query(&request).err().unwrap();
    assert_eq!(err.message(), "duplicate metric: model 'orders', name 'revenue'");
    let response = ServerError::from_query_error(&err);
    assert_eq!(response.status_code(), 422);
    assert_eq!(response.message(), "duplicate metric: model 'orders', name 'revenue'");
}

#[test]
fn request_float_and_int_values_map_to_filter_values() {
    let request = QueryRequest::new(
        vec![],
        vec![],
        Some(vec![
            Filter::new(
                "orders.amount".to_string(),
                "gte".to_string(),
                Primitive::Float(Float64::from_bits(1.5f64.to_bits())),
            ),
            Filter::new("orders.order_id".to_string(), "lt".to_string(), Primitive::Int(4)),
        ]),
    );
    let query = map_to_query(&request).unwrap();
    match query.filters()[0].value() {
        FilterValue::Float(f) => assert_eq!(f64::from_bits(f.to_bits()), 1.5),
        _ => panic!("expected a float"),
    }
    assert_eq!(*query.filters()[1].operation(), FilterOperation::Lt);
}

#[test]
fn operation_names() {
    assert_eq!(operation_from_name("eq"), Some(FilterOperation::Eq));
    assert_eq!(operation_from_name("lt"), Some(FilterOperation::Lt));
    assert_eq!(operation_from_name("gt"), Some(FilterOperation::Gt));
    assert_eq!(operation_from_name("lte"), Some(FilterOperation::Lte));
    assert_eq!(operation_from_name("gte"), Some(FilterOperation::Gte));
    assert_eq!(operation_from_name("ne"), Some(FilterOperation::Ne));
    assert_eq!(operation_from_name("EQ"), None);
}

#[test]
fn server_errors_statuses_and_messages() {
    let internal = ServerError::InternalServerError("datafusion failed".to_string());
    assert_eq!(internal.status_code(), 500);
    assert_eq!(internal.message(), "internal server error");
    let unprocessable = ServerError::UnprocessableEntity("invalid metric: x".to_string());
    assert_eq!(unprocessable.status_code(), 422);
    assert_eq!(unprocessable.message(), "invalid metric: x");
}

#[test]
fn models_dir_checks() {
    assert_eq!(
        check_models_dir("", false, false),
        Err("models directory path is empty".to_string())
    );
    assert_eq!(
        check_models_dir("models", false, false),
        Err("models directory 'models' does not exist".to_string())
    );
    assert_eq!(
        check_models_dir("models", true, false),
        Err("models path 'models' is not a directory".to_string())
    );
    assert_eq!(check_models_dir("models", true, true), Ok(()));
    assert_eq!(parse_models_dir(""), Err("models directory path is empty".to_string()));
    let dir = tempfile::tempdir().unwrap();
    let path = dir.path().to_str().unwrap();
    assert_eq!(parse_models_dir(path), Ok(PathBuf::from(path)));
    assert_eq!(
        parse_models_dir("/tmp/semantic_gateway_definitely_nonexistent_dir_xyzzy"),
        Err("models directory '/tmp/semantic_gateway_definitely_nonexistent_dir_xyzzy' does not exist".to_string())
    );
    let file = tempfile::NamedTempFile::new().unwrap();
    let file_path = file.path().to_str().unwrap();
    assert_eq!(
        parse_models_dir(file_path),
        Err(format!("models path '{}' is not a directory", file_path))
    );
}

#[test]
fn model_files_are_yaml_files() {
    assert_eq!(model_name("orders.yaml", true), Some("orders".to_string()));
    assert_eq!(model_name("orders.yml", true), Some("orders".to_string()));
    assert_eq!(model_name("orders.json", true), None);
    assert_eq!(model_name("orders.yaml", false), None);
    assert_eq!(model_name(".yaml", true), None);
    assert_eq!(model_name("README", true), None);
}

#[test]
fn configuration_accessors() {
    let config = Configuration::new(ServerConfiguration::new(
        "127.0.0.1".to_string(),
        8080,
        "info".to_string(),
    ));
    assert_eq!(config.server().log_level(), "info");
    assert_eq!(config.server().host(), "127.0.0.1");
    assert_eq!(config.server().port(), 8080);
    assert_eq!(config.server().address(), ("127.0.0.1", 8080));
    let args = ServerArguments::new(PathBuf::from("models"), PathBuf::from("data"));
    assert_eq!(args.models_dir(), &PathBuf::from("models"));
    assert_eq!(args.data_dir(), &PathBuf::from("data"));
}
