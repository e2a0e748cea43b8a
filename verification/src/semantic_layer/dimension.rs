//! A reference to a dimension of a model, as a query names it.

use vstd::prelude::*;
use crate::semantic_layer::metric::ReferenceView;
use crate::text::str_eq;

verus! {

/// A dimension named in a query: `name` of model `model`.
#[derive(Debug, Clone, Copy, Eq, Hash)]
pub struct Dimension<'a> {
    name: &'a str,
    model: &'a str,
}

impl<'a> View for Dimension<'a> {
    type V = ReferenceView;

    closed spec fn view(&self) -> ReferenceView {
        ReferenceView { name: self.name@, model: self.model@ }
    }
}

impl<'a> Dimension<'a> {
    /// The dimension `name` of model `model`.
    pub fn new(name: &'a str, model: &'a str) -> (res: Self)
        ensures
            res@ == (ReferenceView { name: name@, model: model@ }),
    {
        Dimension { name, model }
    }

    /// The name of the model the dimension belongs to.
    pub fn model(&self) -> (res: &'a str)
        ensures
            res@ == self@.model,
    {
        self.model
    }

    /// The dimension's name within its model.
    pub fn name(&self) -> (res: &'a str)
        ensures
            res@ == self@.name,
    {
        self.name
    }
}

impl<'a> PartialEq for Dimension<'a> {
    fn eq(&self, other: &Self) -> (res: bool) {
        str_eq(self.name, other.name) && str_eq(self.model, other.model)
    }
}

impl<'a> vstd::std_specs::cmp::PartialEqSpecImpl for Dimension<'a> {
    open spec fn obeys_eq_spec() -> bool {
        true
    }

    open spec fn eq_spec(&self, other: &Self) -> bool {
        self@ == other@
    }
}

} // verus!
