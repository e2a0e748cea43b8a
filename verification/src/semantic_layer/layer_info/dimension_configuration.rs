//! Which column a dimension of a model groups by.

use vstd::prelude::*;
use crate::semantic_layer::layer_info::field::Field;
use crate::semantic_layer::layer_info::title::Title;

verus! {

/// What a dimension configuration holds.
pub struct DimensionConfigurationView {
    pub title: Seq<char>,
    pub field: Seq<char>,
}

/// A dimension of a model: its label and the source column it groups by.
#[derive(Debug, Clone, PartialEq)]
pub struct DimensionConfiguration {
    title: Title,
    field: Field,
}

impl View for DimensionConfiguration {
    type V = DimensionConfigurationView;

    closed spec fn view(&self) -> DimensionConfigurationView {
        DimensionConfigurationView { title: self.title@, field: self.field@ }
    }
}

impl DimensionConfiguration {
    /// The dimension labelled `title` that groups by column `field`.
    pub fn new(title: &str, field: &str) -> (res: Self)
        ensures
            res@ == (DimensionConfigurationView { title: title@, field: field@ }),
    {
        DimensionConfiguration { title: Title::new(title), field: Field::new(field) }
    }

    /// The source column.
    pub fn field(&self) -> (res: &Field)
        ensures
            res@ == self@.field,
    {
        &self.field
    }

    /// The label.
    pub fn title(&self) -> (res: &Title)
        ensures
            res@ == self@.title,
    {
        &self.title
    }
}

} // verus!
