//! The configured semantic layer: every model by name.

pub mod aggregate;
pub mod dimension_configuration;
pub mod field;
pub mod metric_configuration;
pub mod model_configuration;
pub mod table;
pub mod title;

use vstd::prelude::*;
use crate::registry::{Registry, entries_map};
use crate::semantic_layer::dimension::Dimension;
use crate::semantic_layer::layer_info::aggregate::Aggregate;
use crate::semantic_layer::layer_info::dimension_configuration::{
    DimensionConfiguration,
    DimensionConfigurationView,
};
use crate::semantic_layer::layer_info::field::Field;
use crate::semantic_layer::layer_info::metric_configuration::{
    MetricConfiguration,
    MetricConfigurationView,
};
use crate::semantic_layer::layer_info::model_configuration::{
    ModelConfiguration,
    ModelConfigurationView,
    model_column,
};
use crate::semantic_layer::layer_info::table::Table;
use crate::semantic_layer::metric::{Metric, ReferenceView};

verus! {

/// The configured models by name.
pub type LayerView = Map<Seq<char>, ModelConfigurationView>;

/// The configuration of the dimension `dimension` names, looked up in its own model.
pub open spec fn layer_dimension(layer: LayerView, dimension: ReferenceView) -> Option<DimensionConfigurationView> {
    if layer.contains_key(dimension.model) && layer[dimension.model].dimensions.contains_key(
        dimension.name,
    ) {
        Some(layer[dimension.model].dimensions[dimension.name])
    } else {
        None
    }
}

/// The configuration of the metric `metric` names, looked up in its own model.
pub open spec fn layer_metric(layer: LayerView, metric: ReferenceView) -> Option<MetricConfigurationView> {
    if layer.contains_key(metric.model) && layer[metric.model].metrics.contains_key(metric.name) {
        Some(layer[metric.model].metrics[metric.name])
    } else {
        None
    }
}

/// The source column of the semantic field `field` of model `model`.
pub open spec fn layer_column(layer: LayerView, model: Seq<char>, field: Seq<char>) -> Option<Seq<char>> {
    if layer.contains_key(model) {
        model_column(layer[model], field)
    } else {
        None
    }
}

/// Holds the complete semantic layer configuration loaded at startup, mapping model
/// names to their [`ModelConfiguration`].
#[derive(Debug, Clone)]
pub struct SemanticLayerInfo {
    layer: Registry<ModelConfiguration>,
}

impl View for SemanticLayerInfo {
    type V = LayerView;

    closed spec fn view(&self) -> LayerView {
        self.layer@.map_values(|m: ModelConfiguration| m@)
    }
}

impl SemanticLayerInfo {
    /// The layer made of the named models; where a name occurs more than once, its
    /// last entry wins.
    pub fn new(layer: Vec<(String, ModelConfiguration)>) -> (res: Self)
        ensures
            res@ == entries_map(layer@).map_values(|m: ModelConfiguration| m@),
    {
        let res = SemanticLayerInfo { layer: Registry::from_entries(layer) };
        assert(res@ =~= entries_map(layer@).map_values(|m: ModelConfiguration| m@));
        res
    }

    /// How many models the layer holds.
    pub fn len(&self) -> (res: usize)
        ensures
            res == self@.len(),
    {
        assert(self@.dom() =~= self.layer@.dom());
        self.layer.len()
    }

    /// The configuration of model `model`.
    pub fn model(&self, model: &str) -> (res: Option<&ModelConfiguration>)
        ensures
            match res {
                Some(m) => self@.contains_key(model@) && m@ == self@[model@],
                None => !self@.contains_key(model@),
            },
    {
        self.layer.get(model)
    }

    /// The table of model `model`.
    pub fn table(&self, model: &str) -> (res: Option<&Table>)
        ensures
            match res {
                Some(t) => self@.contains_key(model@) && t@ == self@[model@].table,
                None => !self@.contains_key(model@),
            },
    {
        match self.layer.get(model) {
            Some(m) => Some(m.table()),
            None => None,
        }
    }

    /// The configuration of the dimension `dimension` names, in its own model.
    pub fn dimension_config(&self, dimension: &Dimension) -> (res: Option<&DimensionConfiguration>)
        ensures
            match res {
                Some(c) => layer_dimension(self@, dimension@) == Some(c@),
                None => layer_dimension(self@, dimension@) is None,
            },
    {
        match self.layer.get(dimension.model()) {
            Some(m) => m.dimension_config(dimension),
            None => None,
        }
    }

    /// The configuration of the metric `metric` names, in its own model.
    pub fn metric_config(&self, metric: &Metric) -> (res: Option<&MetricConfiguration>)
        ensures
            match res {
                Some(c) => layer_metric(self@, metric@) == Some(c@),
                None => layer_metric(self@, metric@) is None,
            },
    {
        match self.layer.get(metric.model()) {
            Some(m) => m.metric_config(metric),
            None => None,
        }
    }

    /// The source column of the semantic field `field` of model `model`: a dimension of
    /// that name takes precedence over a metric of that name.
    pub fn column(&self, model: &str, field: &str) -> (res: Option<&str>)
        ensures
            match res {
                Some(c) => layer_column(self@, model@, field@) == Some(c@),
                None => layer_column(self@, model@, field@) is None,
            },
    {
        match self.layer.get(model) {
            Some(m) => m.column(field),
            None => None,
        }
    }

    /// The source column of dimension `dimension` of model `model`.
    pub fn get_dimension_column(&self, model: &str, dimension: &str) -> (res: Option<&Field>)
        ensures
            match res {
                Some(f) => layer_dimension(self@, ReferenceView { name: dimension@, model: model@ })
                    matches Some(c) && c.field == f@,
                None => layer_dimension(self@, ReferenceView { name: dimension@, model: model@ }) is None,
            },
    {
        match self.layer.get(model) {
            Some(m) => m.dimension_column(dimension),
            None => None,
        }
    }

    /// The aggregation and the source column of metric `metric` of model `model`.
    pub fn get_metric_info(&self, model: &str, metric: &str) -> (res: Option<(&Aggregate, &Field)>)
        ensures
            match res {
                Some((a, f)) => layer_metric(self@, ReferenceView { name: metric@, model: model@ }) matches Some(c)
                    && c.aggregate == *a && c.field == f@,
                None => layer_metric(self@, ReferenceView { name: metric@, model: model@ }) is None,
            },
    {
        match self.layer.get(model) {
            Some(m) => match m.get_metric_configuration(metric) {
                Some(c) => Some((c.aggregate(), c.field())),
                None => None,
            },
            None => None,
        }
    }
}

} // verus!
