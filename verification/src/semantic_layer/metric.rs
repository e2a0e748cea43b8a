//! A reference to a metric of a model, as a query names it.

use vstd::prelude::*;
use crate::text::str_eq;

verus! {

/// What a reference to a metric or a dimension holds: its name and its model's name.
pub struct ReferenceView {
    pub name: Seq<char>,
    pub model: Seq<char>,
}

/// A metric named in a query: `name` of model `model`.
#[derive(Debug, Clone, Copy, Eq, Hash)]
pub struct Metric<'a> {
    name: &'a str,
    model: &'a str,
}

impl<'a> View for Metric<'a> {
    type V = ReferenceView;

    closed spec fn view(&self) -> ReferenceView {
        ReferenceView { name: self.name@, model: self.model@ }
    }
}

impl<'a> Metric<'a> {
    /// The metric `name` of model `model`.
    pub fn new(name: &'a str, model: &'a str) -> (res: Self)
        ensures
            res@ == (ReferenceView { name: name@, model: model@ }),
    {
        Metric { name, model }
    }

    /// The name of the model the metric belongs to.
    pub fn model(&self) -> (res: &'a str)
        ensures
            res@ == self@.model,
    {
        self.model
    }

    /// The metric's name within its model.
    pub fn name(&self) -> (res: &'a str)
        ensures
            res@ == self@.name,
    {
        self.name
    }
}

impl<'a> PartialEq for Metric<'a> {
    fn eq(&self, other: &Self) -> (res: bool) {
        str_eq(self.name, other.name) && str_eq(self.model, other.model)
    }
}

impl<'a> vstd::std_specs::cmp::PartialEqSpecImpl for Metric<'a> {
    open spec fn obeys_eq_spec() -> bool {
        true
    }

    open spec fn eq_spec(&self, other: &Self) -> bool {
        self@ == other@
    }
}

} // verus!
