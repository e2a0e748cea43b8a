//! The `Field` of the semantic model.

use vstd::prelude::*;
use vstd::string::StringExecFns;
use crate::text::str_eq;

verus! {

/// Name of the source column a metric or a dimension reads.
#[derive(Debug, Clone)]
pub struct Field(String);

impl View for Field {
    type V = Seq<char>;

    closed spec fn view(&self) -> Seq<char> {
        self.0@
    }
}

impl Field {
    /// The field named `value`.
    pub fn new(value: &str) -> (res: Self)
        ensures
            res@ == value@,
    {
        Field(String::from_str(value))
    }

    /// The field as text.
    pub fn as_ref(&self) -> (res: &str)
        ensures
            res@ == self@,
    {
        self.0.as_str()
    }
}

impl PartialEq for Field {
    fn eq(&self, other: &Self) -> (res: bool) {
        str_eq(self.0.as_str(), other.0.as_str())
    }
}

impl vstd::std_specs::cmp::PartialEqSpecImpl for Field {
    open spec fn obeys_eq_spec() -> bool {
        true
    }

    open spec fn eq_spec(&self, other: &Self) -> bool {
        self@ == other@
    }
}

/// Two fields are equal exactly when their texts are.
pub proof fn lemma_field_equality(a: Field, b: Field)
    ensures
        vstd::std_specs::cmp::PartialEqSpec::eq_spec(&a, &b) <==> a@ == b@,
{
}

} // verus!
