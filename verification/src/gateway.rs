//! The HTTP gateway's own logic: its command line and configuration, the mapping of a
//! query request onto a query, and the status of its error responses.

pub mod configuration;
pub mod error;
pub mod model_reader;
pub mod query;
pub mod server_arguments;
