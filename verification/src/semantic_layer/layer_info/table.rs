//! The `Table` of the semantic model.

use vstd::prelude::*;
use vstd::string::StringExecFns;
use crate::text::str_eq;

verus! {

/// Name of the table a model reads.
#[derive(Debug, Clone)]
pub struct Table(String);

impl View for Table {
    type V = Seq<char>;

    closed spec fn view(&self) -> Seq<char> {
        self.0@
    }
}

impl Table {
    /// The table named `value`.
    pub fn new(value: &str) -> (res: Self)
        ensures
            res@ == value@,
    {
        Table(String::from_str(value))
    }

    /// The table as text.
    pub fn as_ref(&self) -> (res: &str)
        ensures
            res@ == self@,
    {
        self.0.as_str()
    }
}

impl PartialEq for Table {
    fn eq(&self, other: &Self) -> (res: bool) {
        str_eq(self.0.as_str(), other.0.as_str())
    }
}

impl vstd::std_specs::cmp::PartialEqSpecImpl for Table {
    open spec fn obeys_eq_spec() -> bool {
        true
    }

    open spec fn eq_spec(&self, other: &Self) -> bool {
        self@ == other@
    }
}

/// Two tables are equal exactly when their texts are.
pub proof fn lemma_table_equality(a: Table, b: Table)
    ensures
        vstd::std_specs::cmp::PartialEqSpec::eq_spec(&a, &b) <==> a@ == b@,
{
}

} // verus!
