//! Error responses of the gateway: their status and their message.

use vstd::prelude::*;
use vstd::string::StringExecFns;
use crate::gateway::query::QueryError;

verus! {

/// An error the gateway answers a request with.
#[derive(Debug, Clone, PartialEq)]
pub enum ServerError {
    /// The request is well-formed but cannot be served (status 422); the text says why.
    UnprocessableEntity(String),
    /// Serving the request failed (status 500); the text is logged, not sent.
    InternalServerError(String),
}

impl ServerError {
    /// The HTTP status code of the response.
    pub fn status_code(&self) -> (res: u16)
        ensures
            res == match self {
                ServerError::UnprocessableEntity(_) => 422u16,
                ServerError::InternalServerError(_) => 500u16,
            },
    {
        match self {
            ServerError::UnprocessableEntity(_) => 422,
            ServerError::InternalServerError(_) => 500,
        }
    }

    /// The message the response carries: the reason of an unprocessable request, and a
    /// fixed text for an internal error, whose details stay in the log.
    pub fn message(&self) -> (res: String)
        ensures
            res@ == match self {
                ServerError::UnprocessableEntity(m) => m@,
                ServerError::InternalServerError(_) => "internal server error"@,
            },
    {
        match self {
            ServerError::UnprocessableEntity(m) => m.clone(),
            ServerError::InternalServerError(_) => String::from_str("internal server error"),
        }
    }

    /// The response to a request that does not map onto a query: unprocessable, with the
    /// mapping error's message.
    pub fn from_query_error(err: &QueryError) -> (res: Self)
        ensures
            res matches ServerError::UnprocessableEntity(m) && m@ == err.message_spec(),
    {
        ServerError::UnprocessableEntity(err.message())
    }
}

} // verus!
