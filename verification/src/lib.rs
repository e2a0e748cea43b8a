//! Semantic layer: business metrics and dimensions defined per model, queries over
//! them, and the plan that turns a query into a filtered, grouped aggregation over a
//! table.

pub mod data_source;
pub mod gateway;
pub mod registry;
pub mod semantic_layer;
pub mod text;

pub use data_source::parquet::{ParquetDataSource, ParquetDataSourceError};
pub use semantic_layer::context::{
    Aggregation,
    Literal,
    PlanError,
    Predicate,
    QueryPlan,
    build_plan,
    source_table,
};
pub use semantic_layer::dimension::Dimension;
pub use semantic_layer::filter::{Filter, FilterOperation, FilterValue, Float64};
pub use semantic_layer::layer_info::SemanticLayerInfo;
pub use semantic_layer::layer_info::aggregate::Aggregate;
pub use semantic_layer::layer_info::dimension_configuration::DimensionConfiguration;
pub use semantic_layer::layer_info::metric_configuration::MetricConfiguration;
pub use semantic_layer::layer_info::model_configuration::ModelConfiguration;
pub use semantic_layer::metric::Metric;
pub use semantic_layer::query;
pub use semantic_layer::query_result::{ColumnMeta, ColumnType, QueryResultError, ValueType};
