//! A metric resolved to the source column it aggregates and the table holding it.

use vstd::prelude::*;
use vstd::string::StringExecFns;
use crate::semantic_layer::query::ColumnView;

verus! {

/// A metric resolved to the source column it aggregates and the table holding it.
#[derive(Debug, Clone, PartialEq)]
pub struct Metric {
    field: String,
    table: String,
}

impl View for Metric {
    type V = ColumnView;

    closed spec fn view(&self) -> ColumnView {
        ColumnView { field: self.field@, table: self.table@ }
    }
}

impl Metric {
    /// Column `field` of table `table`.
    pub fn new(field: &str, table: &str) -> (res: Self)
        ensures
            res@ == (ColumnView { field: field@, table: table@ }),
    {
        Metric { field: String::from_str(field), table: String::from_str(table) }
    }

    /// The table holding the column.
    pub fn table_name(&self) -> (res: &str)
        ensures
            res@ == self@.table,
    {
        self.table.as_str()
    }

    /// The column's name.
    pub fn field_name(&self) -> (res: &str)
        ensures
            res@ == self@.field,
    {
        self.field.as_str()
    }
}

} // verus!
