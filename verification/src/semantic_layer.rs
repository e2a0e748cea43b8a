//! The semantic layer: references to metrics and dimensions, filters, queries,
//! the configured models, the query plan and the description of query results.

pub mod context;
pub mod dimension;
pub mod filter;
pub mod layer_info;
pub mod metric;
pub mod query;
pub mod query_result;
