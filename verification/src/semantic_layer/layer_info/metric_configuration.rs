//! How a metric of a model is computed.

use vstd::prelude::*;
use crate::semantic_layer::layer_info::aggregate::Aggregate;
use crate::semantic_layer::layer_info::field::Field;
use crate::semantic_layer::layer_info::title::Title;

verus! {

/// What a metric configuration holds.
pub struct MetricConfigurationView {
    pub title: Seq<char>,
    pub aggregate: Aggregate,
    pub field: Seq<char>,
}

/// A metric of a model: its label, the aggregation, and the source column aggregated.
#[derive(Debug, Clone, PartialEq)]
pub struct MetricConfiguration {
    title: Title,
    aggregate: Aggregate,
    field: Field,
}

impl View for MetricConfiguration {
    type V = MetricConfigurationView;

    closed spec fn view(&self) -> MetricConfigurationView {
        MetricConfigurationView {
            title: self.title@,
            aggregate: self.aggregate,
            field: self.field@,
        }
    }
}

impl MetricConfiguration {
    /// The metric labelled `title` that applies `aggregate` to column `field`.
    pub fn new(title: &str, aggregate: Aggregate, field: &str) -> (res: Self)
        ensures
            res@ == (MetricConfigurationView {
                title: title@,
                aggregate: aggregate,
                field: field@,
            }),
    {
        MetricConfiguration { title: Title::new(title), aggregate, field: Field::new(field) }
    }

    /// The aggregation.
    pub fn aggregate(&self) -> (res: &Aggregate)
        ensures
            *res == self@.aggregate,
    {
        &self.aggregate
    }

    /// The aggregated source column.
    pub fn field(&self) -> (res: &Field)
        ensures
            res@ == self@.field,
    {
        &self.field
    }

    /// The label.
    pub fn title(&self) -> (res: &Title)
        ensures
            res@ == self@.title,
    {
        &self.title
    }
}

} // verus!
