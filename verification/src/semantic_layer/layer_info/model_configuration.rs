//! A model of the semantic layer: its table, metrics and dimensions.

use vstd::prelude::*;
use crate::registry::{Registry, entries_map};
use crate::semantic_layer::dimension::Dimension;
use crate::semantic_layer::layer_info::dimension_configuration::{
    DimensionConfiguration,
    DimensionConfigurationView,
};
use crate::semantic_layer::layer_info::field::Field;
use crate::semantic_layer::layer_info::metric_configuration::{
    MetricConfiguration,
    MetricConfigurationView,
};
use crate::semantic_layer::layer_info::table::Table;
use crate::semantic_layer::metric::Metric;

verus! {

/// What a model configuration holds: its table, and its metrics and dimensions by name.
pub struct ModelConfigurationView {
    pub table: Seq<char>,
    pub metrics: Map<Seq<char>, MetricConfigurationView>,
    pub dimensions: Map<Seq<char>, DimensionConfigurationView>,
}

/// The source column of the semantic field `field` of a model: a dimension of that name
/// takes precedence over a metric of that name.
pub open spec fn model_column(model: ModelConfigurationView, field: Seq<char>) -> Option<Seq<char>> {
    if model.dimensions.contains_key(field) {
        Some(model.dimensions[field].field)
    } else if model.metrics.contains_key(field) {
        Some(model.metrics[field].field)
    } else {
        None
    }
}

/// The source column of a semantic field is the dimension's when a dimension has that
/// name, even when a metric has it too; else the metric's; else there is none.
pub proof fn lemma_column_prefers_dimension(model: ModelConfigurationView, field: Seq<char>)
    ensures
        model.dimensions.contains_key(field) ==> model_column(model, field) == Some(
            model.dimensions[field].field,
        ),
        !model.dimensions.contains_key(field) && model.metrics.contains_key(field)
            ==> model_column(model, field) == Some(model.metrics[field].field),
        model_column(model, field) is None <==> (!model.dimensions.contains_key(field)
            && !model.metrics.contains_key(field)),
{
}

/// The views of name-keyed configuration entries, the last entry of a name winning.
pub open spec fn metric_entries_view(entries: Seq<(String, MetricConfiguration)>) -> Map<Seq<char>, MetricConfigurationView> {
    entries_map(entries).map_values(|m: MetricConfiguration| m@)
}

/// The views of name-keyed dimension entries, the last entry of a name winning.
pub open spec fn dimension_entries_view(entries: Seq<(String, DimensionConfiguration)>) -> Map<Seq<char>, DimensionConfigurationView> {
    entries_map(entries).map_values(|d: DimensionConfiguration| d@)
}

/// A model: the table it reads, and its metrics and dimensions by name.
#[derive(Debug, Clone)]
pub struct ModelConfiguration {
    table: Table,
    metrics: Registry<MetricConfiguration>,
    dimensions: Registry<DimensionConfiguration>,
}

impl View for ModelConfiguration {
    type V = ModelConfigurationView;

    closed spec fn view(&self) -> ModelConfigurationView {
        ModelConfigurationView {
            table: self.table@,
            metrics: self.metrics@.map_values(|m: MetricConfiguration| m@),
            dimensions: self.dimensions@.map_values(|d: DimensionConfiguration| d@),
        }
    }
}

impl ModelConfiguration {
    /// The model reading table `table` with the given metrics and dimensions; where a
    /// name occurs more than once, its last entry wins.
    pub fn new(
        table: &str,
        metrics: Vec<(String, MetricConfiguration)>,
        dimensions: Vec<(String, DimensionConfiguration)>,
    ) -> (res: Self)
        ensures
            res@ == (ModelConfigurationView {
                table: table@,
                metrics: metric_entries_view(metrics@),
                dimensions: dimension_entries_view(dimensions@),
            }),
    {
        let res = ModelConfiguration {
            table: Table::new(table),
            metrics: Registry::from_entries(metrics),
            dimensions: Registry::from_entries(dimensions),
        };
        assert(res@.metrics =~= metric_entries_view(metrics@));
        assert(res@.dimensions =~= dimension_entries_view(dimensions@));
        res
    }

    /// The table the model reads.
    pub fn table(&self) -> (res: &Table)
        ensures
            res@ == self@.table,
    {
        &self.table
    }

    /// The name of the table the model reads.
    pub fn table_name(&self) -> (res: &str)
        ensures
            res@ == self@.table,
    {
        self.table.as_ref()
    }

    /// The configuration of the metric named `metric`.
    pub fn get_metric_configuration(&self, metric: &str) -> (res: Option<&MetricConfiguration>)
        ensures
            match res {
                Some(c) => self@.metrics.contains_key(metric@) && c@ == self@.metrics[metric@],
                None => !self@.metrics.contains_key(metric@),
            },
    {
        self.metrics.get(metric)
    }

    /// The configuration of the dimension named `dimension`.
    pub fn get_dimension_configuration(&self, dimension: &str) -> (res: Option<&DimensionConfiguration>)
        ensures
            match res {
                Some(c) => self@.dimensions.contains_key(dimension@) && c@ == self@.dimensions[dimension@],
                None => !self@.dimensions.contains_key(dimension@),
            },
    {
        self.dimensions.get(dimension)
    }

    /// The configuration of the dimension that `dimension` names; its model is not
    /// consulted.
    pub fn dimension_config(&self, dimension: &Dimension) -> (res: Option<&DimensionConfiguration>)
        ensures
            match res {
                Some(c) => self@.dimensions.contains_key(dimension@.name) && c@
                    == self@.dimensions[dimension@.name],
                None => !self@.dimensions.contains_key(dimension@.name),
            },
    {
        self.get_dimension_configuration(dimension.name())
    }

    /// The configuration of the metric that `metric` names; its model is not consulted.
    pub fn metric_config(&self, metric: &Metric) -> (res: Option<&MetricConfiguration>)
        ensures
            match res {
                Some(c) => self@.metrics.contains_key(metric@.name) && c@ == self@.metrics[metric@.name],
                None => !self@.metrics.contains_key(metric@.name),
            },
    {
        self.get_metric_configuration(metric.name())
    }

    /// The source column of the dimension named `dimension`.
    pub fn dimension_column(&self, dimension: &str) -> (res: Option<&Field>)
        ensures
            match res {
                Some(f) => self@.dimensions.contains_key(dimension@) && f@
                    == self@.dimensions[dimension@].field,
                None => !self@.dimensions.contains_key(dimension@),
            },
    {
        match self.dimensions.get(dimension) {
            Some(d) => Some(d.field()),
            None => None,
        }
    }

    /// The source column of the semantic field `field`: the dimension's column when a
    /// dimension has that name, else the metric's column when a metric has it.
    pub fn column(&self, field: &str) -> (res: Option<&str>)
        ensures
            match res {
                Some(c) => model_column(self@, field@) == Some(c@),
                None => model_column(self@, field@) is None,
            },
    {
        match self.dimensions.get(field) {
            Some(d) => Some(d.field().as_ref()),
            None => match self.metrics.get(field) {
                Some(m) => Some(m.field().as_ref()),
                None => None,
            },
        }
    }
}

} // verus!
