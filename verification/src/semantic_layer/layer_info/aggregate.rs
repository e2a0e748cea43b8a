//! Aggregation functions of metrics.

use vstd::prelude::*;

verus! {

/// Aggregation function applied to a metric's source column.
#[derive(Debug, Clone, Copy, PartialEq, Eq, Structural)]
pub enum Aggregate {
    /// Computes the sum of all non-null values.
    Sum,
    /// Counts non-null values.
    Count,
}

} // verus!
