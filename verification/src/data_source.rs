//! Data sources: directories whose files become tables of the query engine.

pub mod parquet;
pub mod path;
