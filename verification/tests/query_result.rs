use semantic_core::{ColumnMeta, ColumnType, QueryResultError, ValueType};
use semantic_core::semantic_layer::query_result::{arrow_type_to_value_type, schema_of};

#[test]
fn error_unexpected_display_includes_message() {
    let err = QueryResultError::Unexpected("something went wrong".to_string());
    let display = err.message();
    assert_eq!(display, "unexpected error: something went wrong");
}

#[test]
fn error_invalid_schema_display_is_correct() {
    let err = QueryResultError::InvalidSchema;
    let display = err.message();
    assert_eq!(display, "invalid schema");
}

#[test]
fn schema_utf8_column_maps_to_string_value_type() {
    let schema = schema_of(vec![("name".to_string(), ColumnType::Utf8)]);
    assert_eq!(schema[0].value_type(), ValueType::String);
    assert_eq!(schema[0].name(), "name");
}

#[test]
fn schema_int_types_map_to_int_value_type() {
    let schema = schema_of(vec![
        ("i8".to_string(), ColumnType::Int8),
        ("i16".to_string(), ColumnType::Int16),
        ("i32".to_string(), ColumnType::Int32),
        ("i64".to_string(), ColumnType::Int64),
    ]);
    for i in 0..4 {
        assert_eq!(schema[i].value_type(), ValueType::Int);
    }
}

#[test]
fn schema_uint_types_map_to_uint_value_type() {
    let schema = schema_of(vec![
        ("u8".to_string(), ColumnType::UInt8),
        ("u16".to_string(), ColumnType::UInt16),
        ("u32".to_string(), ColumnType::UInt32),
        ("u64".to_string(), ColumnType::UInt64),
    ]);
    for i in 0..4 {
        assert_eq!(schema[i].value_type(), ValueType::UInt);
    }
}

#[test]
fn schema_float_types_map_to_float_value_type() {
    let schema = schema_of(vec![
        ("f32".to_string(), ColumnType::Float32),
        ("f64".to_string(), ColumnType::Float64),
    ]);
    assert_eq!(schema[0].value_type(), ValueType::Float);
    assert_eq!(schema[1].value_type(), ValueType::Float);
}

#[test]
fn schema_boolean_column_maps_to_unknown_value_type() {
    let schema = schema_of(vec![("flag".to_string(), ColumnType::Other)]);
    assert_eq!(schema[0].value_type(), ValueType::Unknown);
}

#[test]
fn schema_keeps_column_order_and_names() {
    let schema = schema_of(vec![
        ("country".to_string(), ColumnType::Utf8View),
        ("revenue".to_string(), ColumnType::Float64),
        ("orders_count".to_string(), ColumnType::Int64),
    ]);
    assert_eq!(
        schema,
        vec![
            ColumnMeta::new("country".to_string(), ValueType::String),
            ColumnMeta::new("revenue".to_string(), ValueType::Float),
            ColumnMeta::new("orders_count".to_string(), ValueType::Int),
        ]
    );
    assert!(schema_of(vec![]).is_empty());
    assert_eq!(arrow_type_to_value_type(ColumnType::Utf8View), ValueType::String);
}
