//! Planning of a query against the semantic layer: which table it reads, which columns
//! it groups by, which aggregations it computes and which predicates filter its rows.
//! The plan is what a query engine runs: a filtered, grouped aggregation over a table.

use vstd::prelude::*;
use vstd::string::StringExecFns;
use crate::semantic_layer::filter::{Filter, FilterOperation, FilterValue, FilterValueView, FilterView, Float64};
use crate::semantic_layer::layer_info::aggregate::Aggregate;
use crate::semantic_layer::layer_info::{LayerView, SemanticLayerInfo, layer_column, layer_dimension, layer_metric};
use crate::semantic_layer::metric::ReferenceView;
use crate::semantic_layer::query::dimension::Dimension as GroupColumn;
use crate::semantic_layer::query::metric::Metric as AggregatedColumn;
use crate::semantic_layer::query::{
    ColumnView,
    Query,
    QueryView,
    dimension_views,
    filter_views,
    lemma_first_occurrences,
    metric_views,
    query_models,
};
use crate::text::{concat2, concat5};

verus! {

/// Why a query cannot be planned.
#[derive(Debug, Clone, PartialEq)]
pub enum PlanError {
    /// The query names no metric and no dimension.
    EmptyQuery,
    /// The model the query reads is not configured.
    InvalidModel(String),
    /// A filter names a field that its model does not configure.
    InvalidField { model: String, name: String },
}

impl PlanError {
    /// The error's message.
    pub fn message(&self) -> (res: String)
        ensures
            res@ == match self {
                PlanError::EmptyQuery => "empty query"@,
                PlanError::InvalidModel(model) => "invalid model: "@ + model@,
                PlanError::InvalidField { model, name } => "invalid field: model '"@ + model@
                    + "', field '"@ + name@ + "'"@,
            },
    {
        match self {
            PlanError::EmptyQuery => String::from_str("empty query"),
            PlanError::InvalidModel(model) => concat2("invalid model: ", model.as_str()),
            PlanError::InvalidField { model, name } => concat5(
                "invalid field: model '",
                model.as_str(),
                "', field '",
                name.as_str(),
                "'",
            ),
        }
    }
}

/// The model a query reads: the model of its first metric, else of its first dimension.
pub open spec fn query_model(q: QueryView) -> Option<Seq<char>> {
    if query_models(q).len() > 0 {
        Some(query_models(q)[0])
    } else {
        None
    }
}

/// The table a query reads, or why there is none.
pub open spec fn source_table_spec(layer: LayerView, q: QueryView) -> Result<Seq<char>, PlanErrorView> {
    match query_model(q) {
        None => Err(PlanErrorView::EmptyQuery),
        Some(model) => if layer.contains_key(model) {
            Ok(layer[model].table)
        } else {
            Err(PlanErrorView::InvalidModel(model))
        },
    }
}

/// What a planning error holds.
pub enum PlanErrorView {
    EmptyQuery,
    InvalidModel(Seq<char>),
    InvalidField { model: Seq<char>, name: Seq<char> },
}

impl View for PlanError {
    type V = PlanErrorView;

    open spec fn view(&self) -> PlanErrorView {
        match self {
            PlanError::EmptyQuery => PlanErrorView::EmptyQuery,
            PlanError::InvalidModel(m) => PlanErrorView::InvalidModel(m@),
            PlanError::InvalidField { model, name } => PlanErrorView::InvalidField {
                model: model@,
                name: name@,
            },
        }
    }
}

/// A query reads a model exactly when it names a metric or a dimension; that model is
/// the model of its first metric, or of its first dimension when it has no metric.
pub proof fn lemma_query_model(q: QueryView)
    ensures
        query_model(q) is Some <==> (q.metrics.len() > 0 || q.dimensions.len() > 0),
        q.metrics.len() > 0 ==> query_model(q) == Some(q.metrics[0].model),
        q.metrics.len() == 0 && q.dimensions.len() > 0 ==> query_model(q) == Some(
            q.dimensions[0].model,
        ),
        query_model(q) matches Some(m) ==> query_models(q).contains(m),
{
    let all = q.metrics.map_values(|r: ReferenceView| r.model) + q.dimensions.map_values(
        |r: ReferenceView| r.model,
    );
    lemma_first_occurrences(all);
    if q.metrics.len() == 0 && q.dimensions.len() > 0 {
        assert(all[0] == q.dimensions[0].model);
    }
    if q.metrics.len() == 0 && q.dimensions.len() == 0 {
        assert(all.len() == 0);
    }
}

/// The table the query reads: the table of the model of its first metric, else of its
/// first dimension.
pub fn source_table(info: &SemanticLayerInfo, query: &Query) -> (res: Result<String, PlanError>)
    ensures
        match res {
            Ok(t) => source_table_spec(info@, query@) == Ok::<Seq<char>, PlanErrorView>(t@),
            Err(e) => source_table_spec(info@, query@) == Err::<Seq<char>, PlanErrorView>(e@),
        },
{
    let models = query.models();
    if models.len() == 0 {
        return Err(PlanError::EmptyQuery);
    }
    let model = models[0];
    assert(model@ == models@.map_values(|s: &str| s@)[0]);
    match info.table(model) {
        Some(table) => Ok(String::from_str(table.as_ref())),
        None => Err(PlanError::InvalidModel(String::from_str(model))),
    }
}

/// What an aggregation of the plan holds: the function, the column it reads, and the
/// name of its result column.
pub struct AggregationView {
    pub aggregate: Aggregate,
    pub column: ColumnView,
    pub alias: Seq<char>,
}

/// An aggregation of the plan: `aggregate` over a source column, named `alias` in the
/// result.
#[derive(Debug, Clone, PartialEq)]
pub struct Aggregation {
    aggregate: Aggregate,
    column: AggregatedColumn,
    alias: String,
}

impl View for Aggregation {
    type V = AggregationView;

    closed spec fn view(&self) -> AggregationView {
        AggregationView { aggregate: self.aggregate, column: self.column@, alias: self.alias@ }
    }
}

impl Aggregation {
    /// The aggregation function.
    pub fn aggregate(&self) -> (res: &Aggregate)
        ensures
            *res == self@.aggregate,
    {
        &self.aggregate
    }

    /// The source column aggregated.
    pub fn column(&self) -> (res: &AggregatedColumn)
        ensures
            res@ == self@.column,
    {
        &self.column
    }

    /// The name of the result column.
    pub fn alias(&self) -> (res: &str)
        ensures
            res@ == self@.alias,
    {
        self.alias.as_str()
    }
}

/// The aggregation `aggregation` over column `field` of table `table`, named `alias`.
pub fn aggregate_expr(aggregation: &Aggregate, field: &str, table: &str, alias: &str) -> (res: Aggregation)
    ensures
        res@ == (AggregationView {
            aggregate: *aggregation,
            column: ColumnView { field: field@, table: table@ },
            alias: alias@,
        }),
{
    Aggregation {
        aggregate: *aggregation,
        column: AggregatedColumn::new(field, table),
        alias: String::from_str(alias),
    }
}

/// The value a predicate compares with.
#[derive(Debug, Clone, PartialEq)]
pub enum Literal {
    String(String),
    Int(i64),
    Float(Float64),
}

impl View for Literal {
    type V = FilterValueView;

    open spec fn view(&self) -> FilterValueView {
        match self {
            Literal::String(s) => FilterValueView::String(s@),
            Literal::Int(i) => FilterValueView::Int(*i),
            Literal::Float(f) => FilterValueView::Float(f@),
        }
    }
}

/// What a predicate holds: the source column, the comparison and the value.
pub struct PredicateView {
    pub column: Seq<char>,
    pub operation: FilterOperation,
    pub value: FilterValueView,
}

/// A predicate of the plan: source column `column` compared by `operation` with `value`.
#[derive(Debug, Clone, PartialEq)]
pub struct Predicate {
    column: String,
    operation: FilterOperation,
    value: Literal,
}

impl View for Predicate {
    type V = PredicateView;

    closed spec fn view(&self) -> PredicateView {
        PredicateView { column: self.column@, operation: self.operation, value: self.value@ }
    }
}

impl Predicate {
    /// The source column compared.
    pub fn column(&self) -> (res: &str)
        ensures
            res@ == self@.column,
    {
        self.column.as_str()
    }

    /// The comparison.
    pub fn operation(&self) -> (res: FilterOperation)
        ensures
            res == self@.operation,
    {
        self.operation
    }

    /// The value compared with.
    pub fn value(&self) -> (res: &Literal)
        ensures
            res@ == self@.value,
    {
        &self.value
    }
}

/// The group-by columns of a query: for each dimension configured in its own model, in
/// order, its source column and its model's table; unconfigured dimensions are left out.
pub open spec fn group_by_spec(layer: LayerView, dimensions: Seq<ReferenceView>) -> Seq<ColumnView>
    decreases dimensions.len(),
{
    if dimensions.len() == 0 {
        Seq::empty()
    } else {
        let rest = group_by_spec(layer, dimensions.drop_last());
        let d = dimensions.last();
        match layer_dimension(layer, d) {
            Some(c) => rest.push(ColumnView { field: c.field, table: layer[d.model].table }),
            None => rest,
        }
    }
}

/// The aggregations of a query: for each metric configured in its own model, in order,
/// its function over its source column, named after the metric; unconfigured metrics are
/// left out.
pub open spec fn aggregations_spec(layer: LayerView, metrics: Seq<ReferenceView>) -> Seq<AggregationView>
    decreases metrics.len(),
{
    if metrics.len() == 0 {
        Seq::empty()
    } else {
        let rest = aggregations_spec(layer, metrics.drop_last());
        let m = metrics.last();
        match layer_metric(layer, m) {
            Some(c) => rest.push(
                AggregationView {
                    aggregate: c.aggregate,
                    column: ColumnView { field: c.field, table: layer[m.model].table },
                    alias: m.name,
                },
            ),
            None => rest,
        }
    }
}

/// The predicate of one filter: its field's source column, or the filter's model and
/// field when the field is not configured.
pub open spec fn predicate_spec(layer: LayerView, f: FilterView) -> Result<PredicateView, PlanErrorView> {
    match layer_column(layer, f.model, f.field) {
        Some(column) => Ok(PredicateView { column, operation: f.operation, value: f.value }),
        None => Err(PlanErrorView::InvalidField { model: f.model, name: f.field }),
    }
}

/// The predicates of a query's filters, in order, or the error of the first filter whose
/// field is not configured.
pub open spec fn predicates_spec(layer: LayerView, filters: Seq<FilterView>) -> Result<Seq<PredicateView>, PlanErrorView>
    decreases filters.len(),
{
    if filters.len() == 0 {
        Ok(Seq::empty())
    } else {
        match predicates_spec(layer, filters.drop_last()) {
            Err(e) => Err(e),
            Ok(rest) => match predicate_spec(layer, filters.last()) {
                Ok(p) => Ok(rest.push(p)),
                Err(e) => Err(e),
            },
        }
    }
}

/// The predicate of `filter`: the source column of its field in its model, compared as
/// the filter says.
pub fn filter_expr(info: &SemanticLayerInfo, filter: &Filter) -> (res: Result<Predicate, PlanError>)
    ensures
        match res {
            Ok(p) => predicate_spec(info@, filter@) == Ok::<PredicateView, PlanErrorView>(p@),
            Err(e) => predicate_spec(info@, filter@) == Err::<PredicateView, PlanErrorView>(e@),
        },
{
    match info.column(filter.model(), filter.field()) {
        Some(column) => {
            let value = match filter.value() {
                FilterValue::String(s) => Literal::String(String::from_str(s)),
                FilterValue::Int(i) => Literal::Int(*i),
                FilterValue::Float(f) => Literal::Float(*f),
            };
            let p = Predicate {
                column: String::from_str(column),
                operation: *filter.operation(),
                value,
            };
            assert(p@.value == filter@.value);
            Ok(p)
        },
        None => Err(
            PlanError::InvalidField {
                model: String::from_str(filter.model()),
                name: String::from_str(filter.field()),
            },
        ),
    }
}

/// What a plan holds: group-by columns, aggregations and predicates, in order.
pub struct QueryPlanView {
    pub group_by: Seq<ColumnView>,
    pub aggregations: Seq<AggregationView>,
    pub predicates: Seq<PredicateView>,
}

/// The plan of a query: filter the rows by every predicate, group them by the group-by
/// columns, and compute the aggregations of every group.
#[derive(Debug, Clone)]
pub struct QueryPlan {
    group_by: Vec<GroupColumn>,
    aggregations: Vec<Aggregation>,
    predicates: Vec<Predicate>,
}

/// The views of the group-by columns.
pub open spec fn group_views(s: Seq<GroupColumn>) -> Seq<ColumnView> {
    s.map_values(|c: GroupColumn| c@)
}

/// The views of the aggregations.
pub open spec fn aggregation_views(s: Seq<Aggregation>) -> Seq<AggregationView> {
    s.map_values(|a: Aggregation| a@)
}

/// The views of the predicates.
pub open spec fn predicate_views(s: Seq<Predicate>) -> Seq<PredicateView> {
    s.map_values(|p: Predicate| p@)
}

impl View for QueryPlan {
    type V = QueryPlanView;

    closed spec fn view(&self) -> QueryPlanView {
        QueryPlanView {
            group_by: group_views(self.group_by@),
            aggregations: aggregation_views(self.aggregations@),
            predicates: predicate_views(self.predicates@),
        }
    }
}

impl QueryPlan {
    /// The group-by columns, in order.
    pub fn group_by(&self) -> (res: &[GroupColumn])
        ensures
            group_views(res@) == self@.group_by,
    {
        self.group_by.as_slice()
    }

    /// The aggregations, in order.
    pub fn aggregations(&self) -> (res: &[Aggregation])
        ensures
            aggregation_views(res@) == self@.aggregations,
    {
        self.aggregations.as_slice()
    }

    /// The predicates, in order; rows pass when all hold.
    pub fn predicates(&self) -> (res: &[Predicate])
        ensures
            predicate_views(res@) == self@.predicates,
    {
        self.predicates.as_slice()
    }

    /// The names of the result's columns, in order: one per aggregation, named by its
    /// alias, then one per group-by column, named by its source field.
    pub fn output_columns(&self) -> (res: Vec<String>)
        ensures
            res@.len() == output_columns_spec(self@).len(),
            forall|i: int| 0 <= i < res@.len() ==> #[trigger] res@[i]@ == output_columns_spec(self@)[i],
    {
        let ghost v = self@;
        let ghost na = v.aggregations.len();
        let mut res: Vec<String> = Vec::new();
        let n = self.aggregations.len();
        let mut k: usize = 0;
        while k < n
            invariant
                v == self@,
                na == v.aggregations.len(),
                n == self.aggregations@.len(),
                n == na,
                k <= n,
                res@.len() == k,
                forall|i: int| 0 <= i < k ==> #[trigger] res@[i]@ == output_columns_spec(v)[i],
            decreases n - k,
        {
            assert(v.aggregations[k as int] == self.aggregations@[k as int]@);
            res.push(String::from_str(self.aggregations[k].alias()));
            k = k + 1;
        }
        let m = self.group_by.len();
        let mut j: usize = 0;
        while j < m
            invariant
                v == self@,
                na == v.aggregations.len(),
                n == na,
                m == self.group_by@.len(),
                m == v.group_by.len(),
                j <= m,
                res@.len() == n + j,
                forall|i: int| 0 <= i < n + j ==> #[trigger] res@[i]@ == output_columns_spec(v)[i],
            decreases m - j,
        {
            assert(v.group_by[j as int] == self.group_by@[j as int]@);
            res.push(String::from_str(self.group_by[j].field_name()));
            j = j + 1;
        }
        res
    }
}

/// The names of a plan's result columns, in order: the aggregations' aliases, then the
/// group-by columns' source fields.
pub open spec fn output_columns_spec(p: QueryPlanView) -> Seq<Seq<char>> {
    p.aggregations.map_values(|a: AggregationView| a.alias) + p.group_by.map_values(
        |c: ColumnView| c.field,
    )
}

/// The plan of a query, or the error of its first filter whose field is not configured.
pub open spec fn plan_spec(layer: LayerView, q: QueryView) -> Result<QueryPlanView, PlanErrorView> {
    match predicates_spec(layer, q.filters) {
        Ok(predicates) => Ok(
            QueryPlanView {
                group_by: group_by_spec(layer, q.dimensions),
                aggregations: aggregations_spec(layer, q.metrics),
                predicates,
            },
        ),
        Err(e) => Err(e),
    }
}

/// The group-by columns of the query's dimensions.
pub fn group_by_columns(info: &SemanticLayerInfo, query: &Query) -> (res: Vec<GroupColumn>)
    ensures
        group_views(res@) == group_by_spec(info@, query@.dimensions),
{
    let dimensions = query.dimensions();
    let ghost dv = dimension_views(dimensions@);
    let mut res: Vec<GroupColumn> = Vec::new();
    let mut i: usize = 0;
    while i < dimensions.len()
        invariant
            dv == dimension_views(dimensions@),
            i <= dimensions@.len(),
            group_views(res@) == group_by_spec(info@, dv.take(i as int)),
        decreases dimensions@.len() - i,
    {
        let d = &dimensions[i];
        assert(dv.take(i + 1).drop_last() =~= dv.take(i as int));
        assert(dv.take(i + 1).last() == d@);
        match info.dimension_config(d) {
            Some(config) => {
                let table = info.table(d.model());
                match table {
                    Some(t) => {
                        let ghost before = res@;
                        res.push(GroupColumn::new(config.field().as_ref(), t.as_ref()));
                        assert(group_views(res@) =~= group_views(before).push(res@.last()@));
                    },
                    None => {
                        assert(false);
                    },
                }
            },
            None => {},
        }
        i = i + 1;
    }
    assert(dv.take(dimensions@.len() as int) =~= dv);
    res
}

/// The aggregations of the query's metrics.
pub fn metric_aggregations(info: &SemanticLayerInfo, query: &Query) -> (res: Vec<Aggregation>)
    ensures
        aggregation_views(res@) == aggregations_spec(info@, query@.metrics),
{
    let metrics = query.metrics();
    let ghost mv = metric_views(metrics@);
    let mut res: Vec<Aggregation> = Vec::new();
    let mut i: usize = 0;
    while i < metrics.len()
        invariant
            mv == metric_views(metrics@),
            i <= metrics@.len(),
            aggregation_views(res@) == aggregations_spec(info@, mv.take(i as int)),
        decreases metrics@.len() - i,
    {
        let m = &metrics[i];
        assert(mv.take(i + 1).drop_last() =~= mv.take(i as int));
        assert(mv.take(i + 1).last() == m@);
        match info.metric_config(m) {
            Some(config) => {
                match info.table(m.model()) {
                    Some(t) => {
                        let ghost before = res@;
                        res.push(aggregate_expr(config.aggregate(), config.field().as_ref(), t.as_ref(), m.name()));
                        assert(aggregation_views(res@) =~= aggregation_views(before).push(res@.last()@));
                    },
                    None => {
                        assert(false);
                    },
                }
            },
            None => {},
        }
        i = i + 1;
    }
    assert(mv.take(metrics@.len() as int) =~= mv);
    res
}

/// The predicates of the query's filters, or the error of the first filter whose field
/// is not configured.
pub fn filter_predicates(info: &SemanticLayerInfo, query: &Query) -> (res: Result<Vec<Predicate>, PlanError>)
    ensures
        match res {
            Ok(ps) => predicates_spec(info@, query@.filters) == Ok::<Seq<PredicateView>, PlanErrorView>(predicate_views(ps@)),
            Err(e) => predicates_spec(info@, query@.filters) == Err::<Seq<PredicateView>, PlanErrorView>(e@),
        },
{
    let filters = query.filters();
    let ghost fv = filter_views(filters@);
    let mut res: Vec<Predicate> = Vec::new();
    assert(fv.take(0) =~= Seq::<FilterView>::empty());
    assert(predicate_views(res@) =~= Seq::<PredicateView>::empty());
    let mut i: usize = 0;
    while i < filters.len()
        invariant
            fv == filter_views(filters@),
            fv == query@.filters,
            i <= filters@.len(),
            predicates_spec(info@, fv.take(i as int)) == Ok::<Seq<PredicateView>, PlanErrorView>(predicate_views(res@)),
        decreases filters@.len() - i,
    {
        let f = &filters[i];
        assert(fv.take(i + 1).drop_last() =~= fv.take(i as int));
        assert(fv.take(i + 1).last() == f@);
        match filter_expr(info, f) {
            Ok(p) => {
                let ghost before = res@;
                res.push(p);
                assert(predicate_views(res@) =~= predicate_views(before).push(p@));
            },
            Err(e) => {
                proof {
                    assert(predicates_spec(info@, fv.take(i + 1)) == Err::<Seq<PredicateView>, PlanErrorView>(e@));
                    lemma_predicates_error_persists(info@, fv, i as int + 1);
                }
                return Err(e);
            },
        }
        i = i + 1;
    }
    assert(fv.take(filters@.len() as int) =~= fv);
    Ok(res)
}

/// Once a prefix of the filters fails to plan, every longer prefix fails the same way.
pub proof fn lemma_predicates_error_persists(layer: LayerView, filters: Seq<FilterView>, k: int)
    requires
        0 <= k <= filters.len(),
        predicates_spec(layer, filters.take(k)) is Err,
    ensures
        predicates_spec(layer, filters) == predicates_spec(layer, filters.take(k)),
    decreases filters.len() - k,
{
    if k < filters.len() {
        assert(filters.take(k + 1).drop_last() =~= filters.take(k));
        lemma_predicates_error_persists(layer, filters, k + 1);
    } else {
        assert(filters.take(k) =~= filters);
    }
}

/// When every metric of a query is configured in its model, the plan computes one
/// aggregation per metric, in order, each named after its metric and applying the
/// metric's configured function to its configured column of its model's table.
pub proof fn lemma_every_configured_metric_aggregated(layer: LayerView, metrics: Seq<ReferenceView>)
    requires
        forall|i: int| 0 <= i < metrics.len() ==> #[trigger] layer_metric(layer, metrics[i]) is Some,
    ensures
        aggregations_spec(layer, metrics).len() == metrics.len(),
        forall|i: int|
            0 <= i < metrics.len() ==> {
                &&& #[trigger] aggregations_spec(layer, metrics)[i].alias == metrics[i].name
                &&& aggregations_spec(layer, metrics)[i].aggregate == layer_metric(
                    layer,
                    metrics[i],
                )->0.aggregate
                &&& aggregations_spec(layer, metrics)[i].column.field == layer_metric(
                    layer,
                    metrics[i],
                )->0.field
                &&& aggregations_spec(layer, metrics)[i].column.table == layer[metrics[i].model].table
            },
    decreases metrics.len(),
{
    if metrics.len() > 0 {
        let prefix = metrics.drop_last();
        assert forall|i: int| 0 <= i < prefix.len() implies #[trigger] layer_metric(layer, prefix[i]) is Some by {
            assert(prefix[i] == metrics[i]);
        }
        lemma_every_configured_metric_aggregated(layer, prefix);
        assert(layer_metric(layer, metrics[metrics.len() - 1]) is Some);
        assert forall|i: int| 0 <= i < metrics.len() - 1 implies metrics[i] == prefix[i] by {}
    }
}

/// When every dimension of a query is configured in its model, the plan groups by one
/// column per dimension, in order: the dimension's configured column of its model's table.
pub proof fn lemma_every_configured_dimension_grouped(layer: LayerView, dimensions: Seq<ReferenceView>)
    requires
        forall|i: int| 0 <= i < dimensions.len() ==> #[trigger] layer_dimension(layer, dimensions[i]) is Some,
    ensures
        group_by_spec(layer, dimensions).len() == dimensions.len(),
        forall|i: int|
            0 <= i < dimensions.len() ==> #[trigger] group_by_spec(layer, dimensions)[i].field
                == layer_dimension(layer, dimensions[i])->0.field && group_by_spec(layer, dimensions)[i].table
                == layer[dimensions[i].model].table,
    decreases dimensions.len(),
{
    if dimensions.len() > 0 {
        let prefix = dimensions.drop_last();
        assert forall|i: int| 0 <= i < prefix.len() implies #[trigger] layer_dimension(layer, prefix[i]) is Some by {
            assert(prefix[i] == dimensions[i]);
        }
        lemma_every_configured_dimension_grouped(layer, prefix);
        assert(layer_dimension(layer, dimensions[dimensions.len() - 1]) is Some);
        assert forall|i: int| 0 <= i < dimensions.len() - 1 implies dimensions[i] == prefix[i] by {}
    }
}

/// The plan never groups by more columns than the query has dimensions, nor computes more
/// aggregations than it has metrics: unconfigured references are left out, never added.
pub proof fn lemma_plan_no_larger_than_query(layer: LayerView, q: QueryView)
    ensures
        group_by_spec(layer, q.dimensions).len() <= q.dimensions.len(),
        aggregations_spec(layer, q.metrics).len() <= q.metrics.len(),
{
    lemma_group_by_len(layer, q.dimensions);
    lemma_aggregations_len(layer, q.metrics);
}

/// The group-by columns are at most as many as the dimensions.
proof fn lemma_group_by_len(layer: LayerView, dimensions: Seq<ReferenceView>)
    ensures
        group_by_spec(layer, dimensions).len() <= dimensions.len(),
    decreases dimensions.len(),
{
    if dimensions.len() > 0 {
        lemma_group_by_len(layer, dimensions.drop_last());
    }
}

/// The aggregations are at most as many as the metrics.
proof fn lemma_aggregations_len(layer: LayerView, metrics: Seq<ReferenceView>)
    ensures
        aggregations_spec(layer, metrics).len() <= metrics.len(),
    decreases metrics.len(),
{
    if metrics.len() > 0 {
        lemma_aggregations_len(layer, metrics.drop_last());
    }
}

/// The plan of the query: the group-by columns of its dimensions, the aggregations of its
/// metrics and the predicates of its filters; refused with the first filter whose field is
/// not configured.
pub fn build_plan(info: &SemanticLayerInfo, query: &Query) -> (res: Result<QueryPlan, PlanError>)
    ensures
        match res {
            Ok(p) => plan_spec(info@, query@) == Ok::<QueryPlanView, PlanErrorView>(p@),
            Err(e) => plan_spec(info@, query@) == Err::<QueryPlanView, PlanErrorView>(e@),
        },
{
    let group_by = group_by_columns(info, query);
    let aggregations = metric_aggregations(info, query);
    let predicates = filter_predicates(info, query)?;
    Ok(QueryPlan { group_by, aggregations, predicates })
}


/// Each predicate of the predicates of `filters` comes from the filter at its position:
/// it compares that filter's field's configured source column, by that filter's
/// comparison, with that filter's value.
pub proof fn lemma_predicates_follow_filters(layer: LayerView, filters: Seq<FilterView>)
    ensures
        predicates_spec(layer, filters) matches Ok(ps) ==> {
            &&& ps.len() == filters.len()
            &&& forall|i: int|
                0 <= i < filters.len() ==> {
                    &&& #[trigger] ps[i].operation == filters[i].operation
                    &&& ps[i].value == filters[i].value
                    &&& layer_column(layer, filters[i].model, filters[i].field) == Some(ps[i].column)
                }
        },
    decreases filters.len(),
{
    if filters.len() > 0 {
        lemma_predicates_follow_filters(layer, filters.drop_last());
        if predicates_spec(layer, filters) is Ok {
            let ps = predicates_spec(layer, filters)->Ok_0;
            let rest = predicates_spec(layer, filters.drop_last())->Ok_0;
            assert forall|i: int| 0 <= i < filters.len() implies {
                &&& #[trigger] ps[i].operation == filters[i].operation
                &&& ps[i].value == filters[i].value
                &&& layer_column(layer, filters[i].model, filters[i].field) == Some(ps[i].column)
            } by {
                if i < filters.len() - 1 {
                    assert(ps[i] == rest[i]);
                    assert(filters[i] == filters.drop_last()[i]);
                }
            }
        }
    }
}

/// A plan filters by exactly the query's filters, in order: predicate `i` compares the
/// configured source column of filter `i`'s field, by filter `i`'s comparison, with
/// filter `i`'s value.
pub proof fn lemma_plan_predicates_follow_filters(layer: LayerView, q: QueryView)
    ensures
        plan_spec(layer, q) matches Ok(p) ==> {
            &&& p.predicates.len() == q.filters.len()
            &&& forall|i: int|
                0 <= i < q.filters.len() ==> {
                    &&& #[trigger] p.predicates[i].operation == q.filters[i].operation
                    &&& p.predicates[i].value == q.filters[i].value
                    &&& layer_column(layer, q.filters[i].model, q.filters[i].field) == Some(
                        p.predicates[i].column,
                    )
                }
        },
{
    lemma_predicates_follow_filters(layer, q.filters);
}

/// The table a query reads is the table its model is configured with: the model of its
/// first metric, else of its first dimension; and any table read is the configured
/// table of some model of the layer.
pub proof fn lemma_source_table_is_model_table(layer: LayerView, q: QueryView)
    ensures
        q.metrics.len() > 0 && layer.contains_key(q.metrics[0].model) ==> source_table_spec(
            layer,
            q,
        ) == Ok::<Seq<char>, PlanErrorView>(layer[q.metrics[0].model].table),
        q.metrics.len() == 0 && q.dimensions.len() > 0 && layer.contains_key(q.dimensions[0].model)
            ==> source_table_spec(layer, q) == Ok::<Seq<char>, PlanErrorView>(
            layer[q.dimensions[0].model].table,
        ),
        source_table_spec(layer, q) matches Ok(t) ==> exists|m: Seq<char>|
            #[trigger] layer.contains_key(m) && layer[m].table == t,
{
    lemma_query_model(q);
}

} // verus!
