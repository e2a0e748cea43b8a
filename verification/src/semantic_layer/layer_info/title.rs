//! The `Title` of the semantic model.

use vstd::prelude::*;
use vstd::string::StringExecFns;
use crate::text::str_eq;

verus! {

/// Display label of a metric or a dimension; part of the model, not of query results.
#[derive(Debug, Clone)]
pub struct Title(String);

impl View for Title {
    type V = Seq<char>;

    closed spec fn view(&self) -> Seq<char> {
        self.0@
    }
}

impl Title {
    /// The title named `value`.
    pub fn new(value: &str) -> (res: Self)
        ensures
            res@ == value@,
    {
        Title(String::from_str(value))
    }

    /// The title as text.
    pub fn as_ref(&self) -> (res: &str)
        ensures
            res@ == self@,
    {
        self.0.as_str()
    }
}

impl PartialEq for Title {
    fn eq(&self, other: &Self) -> (res: bool) {
        str_eq(self.0.as_str(), other.0.as_str())
    }
}

impl vstd::std_specs::cmp::PartialEqSpecImpl for Title {
    open spec fn obeys_eq_spec() -> bool {
        true
    }

    open spec fn eq_spec(&self, other: &Self) -> bool {
        self@ == other@
    }
}

/// Two titles are equal exactly when their texts are.
pub proof fn lemma_title_equality(a: Title, b: Title)
    ensures
        vstd::std_specs::cmp::PartialEqSpec::eq_spec(&a, &b) <==> a@ == b@,
{
}

} // verus!
