//! The query request the gateway accepts, and its mapping onto a query.

use vstd::prelude::*;
use crate::semantic_layer::dimension::Dimension;
use crate::semantic_layer::filter::{
    Filter as QueryFilter,
    FilterOperation,
    FilterValue,
    FilterValueView,
    FilterView,
    Float64,
};
use crate::semantic_layer::metric::{Metric, ReferenceView};
use crate::semantic_layer::query::{
    Query,
    QueryValidationError,
    QueryValidationErrorView,
    QueryView,
    dimension_views,
    filter_views,
    metric_views,
    validation_message,
    validation_spec,
};
use crate::semantic_layer::context::{PlanErrorView, lemma_query_model, source_table_spec};
use crate::semantic_layer::layer_info::LayerView;
use crate::semantic_layer::query::{has_equal_filters, has_repeat};
use crate::text::{concat2, split_once_char, split_once_spec, str_eq};

verus! {

/// A value a request filter compares with.
#[derive(Debug, Clone, PartialEq)]
pub enum Primitive {
    Int(i64),
    Float(Float64),
    String(String),
}

impl View for Primitive {
    type V = FilterValueView;

    open spec fn view(&self) -> FilterValueView {
        match self {
            Primitive::Int(i) => FilterValueView::Int(*i),
            Primitive::Float(f) => FilterValueView::Float(f@),
            Primitive::String(s) => FilterValueView::String(s@),
        }
    }
}

/// What a request filter holds: the `model.field` reference, the operation's name, and
/// the value.
pub struct FilterRequestView {
    pub filed: Seq<char>,
    pub op: Seq<char>,
    pub value: FilterValueView,
}

/// A filter as a request states it: a `model.field` reference, an operation name among
/// `eq`, `lt`, `gt`, `lte`, `gte`, `ne`, and a value.
#[derive(Debug, Clone, PartialEq)]
pub struct Filter {
    filed: String,
    op: String,
    value: Primitive,
}

impl View for Filter {
    type V = FilterRequestView;

    closed spec fn view(&self) -> FilterRequestView {
        FilterRequestView { filed: self.filed@, op: self.op@, value: self.value@ }
    }
}

impl Filter {
    /// The request filter comparing `filed` by operation `op` with `value`.
    pub fn new(filed: String, op: String, value: Primitive) -> (res: Self)
        ensures
            res@ == (FilterRequestView { filed: filed@, op: op@, value: value@ }),
    {
        Filter { filed, op, value }
    }
}

/// What a query request holds.
pub struct QueryRequestView {
    pub metrics: Seq<Seq<char>>,
    pub dimensions: Seq<Seq<char>>,
    pub filters: Option<Seq<FilterRequestView>>,
}

/// A query as a request states it: `model.name` references to metrics and dimensions,
/// and optional filters.
#[derive(Debug, Clone, PartialEq)]
pub struct QueryRequest {
    metrics: Vec<String>,
    dimensions: Vec<String>,
    filters: Option<Vec<Filter>>,
}

/// The views of a sequence of strings.
pub open spec fn string_views(s: Seq<String>) -> Seq<Seq<char>> {
    s.map_values(|x: String| x@)
}

/// The views of a sequence of request filters.
pub open spec fn filter_request_views(s: Seq<Filter>) -> Seq<FilterRequestView> {
    s.map_values(|f: Filter| f@)
}

impl View for QueryRequest {
    type V = QueryRequestView;

    closed spec fn view(&self) -> QueryRequestView {
        QueryRequestView {
            metrics: string_views(self.metrics@),
            dimensions: string_views(self.dimensions@),
            filters: match self.filters {
                Some(fs) => Some(filter_request_views(fs@)),
                None => None,
            },
        }
    }
}

impl QueryRequest {
    /// The request for these metrics, dimensions and filters.
    pub fn new(metrics: Vec<String>, dimensions: Vec<String>, filters: Option<Vec<Filter>>) -> (res: Self)
        ensures
            res@ == (QueryRequestView {
                metrics: string_views(metrics@),
                dimensions: string_views(dimensions@),
                filters: match filters {
                    Some(fs) => Some(filter_request_views(fs@)),
                    None => None,
                },
            }),
    {
        QueryRequest { metrics, dimensions, filters }
    }
}

/// What a mapping error holds.
pub enum QueryErrorView {
    Metric(Seq<char>),
    Dimension(Seq<char>),
    FilterFieldName(Seq<char>),
    FilterOperation(Seq<char>),
    Invalid(QueryValidationErrorView),
}

/// Why a request does not map onto a query.
#[derive(Debug, Clone)]
pub enum QueryError {
    /// A metric reference is not of the form `model.name`.
    Metric(String),
    /// A dimension reference is not of the form `model.name`.
    Dimension(String),
    /// A filter's field reference is not of the form `model.field`.
    FilterFieldName(String),
    /// A filter's operation is none of the known ones.
    FilterOperation(String),
    /// The references are well-formed but the query is refused.
    Invalid(QueryValidationError),
}

impl View for QueryError {
    type V = QueryErrorView;

    open spec fn view(&self) -> QueryErrorView {
        match self {
            QueryError::Metric(s) => QueryErrorView::Metric(s@),
            QueryError::Dimension(s) => QueryErrorView::Dimension(s@),
            QueryError::FilterFieldName(s) => QueryErrorView::FilterFieldName(s@),
            QueryError::FilterOperation(s) => QueryErrorView::FilterOperation(s@),
            QueryError::Invalid(e) => QueryErrorView::Invalid(e@),
        }
    }
}

/// The message of a mapping error.
pub open spec fn query_error_message(e: QueryErrorView) -> Seq<char> {
    match e {
        QueryErrorView::Metric(s) => "invalid metric: "@ + s,
        QueryErrorView::Dimension(s) => "invalid dimension: "@ + s,
        QueryErrorView::FilterFieldName(s) => "invalid filter field name: "@ + s,
        QueryErrorView::FilterOperation(s) => "invalid filter operation: "@ + s,
        QueryErrorView::Invalid(v) => validation_message(v),
    }
}

impl QueryError {
    /// The message of this error.
    pub open spec fn message_spec(&self) -> Seq<char> {
        query_error_message(self@)
    }

    /// The error's message.
    pub fn message(&self) -> (res: String)
        ensures
            res@ == self.message_spec(),
    {
        match self {
            QueryError::Metric(s) => concat2("invalid metric: ", s.as_str()),
            QueryError::Dimension(s) => concat2("invalid dimension: ", s.as_str()),
            QueryError::FilterFieldName(s) => concat2("invalid filter field name: ", s.as_str()),
            QueryError::FilterOperation(s) => concat2("invalid filter operation: ", s.as_str()),
            QueryError::Invalid(e) => e.message(),
        }
    }
}

/// The metric or dimension a `model.name` reference names: both parts must be
/// non-empty; the model is what precedes the first `.`.
pub open spec fn parse_reference(s: Seq<char>) -> Option<ReferenceView> {
    match split_once_spec(s, '.') {
        Some((model, name)) => if model.len() == 0 || name.len() == 0 {
            None
        } else {
            Some(ReferenceView { name, model })
        },
        None => None,
    }
}

/// The references of `refs` in order, or the first one that is malformed.
pub open spec fn parse_references(refs: Seq<Seq<char>>) -> Result<Seq<ReferenceView>, Seq<char>>
    decreases refs.len(),
{
    if refs.len() == 0 {
        Ok(Seq::empty())
    } else {
        match parse_references(refs.drop_last()) {
            Err(e) => Err(e),
            Ok(rs) => match parse_reference(refs.last()) {
                Some(r) => Ok(rs.push(r)),
                None => Err(refs.last()),
            },
        }
    }
}

/// The operation a request names.
pub open spec fn parse_operation(op: Seq<char>) -> Option<FilterOperation> {
    if op == "eq"@ {
        Some(FilterOperation::Eq)
    } else if op == "lt"@ {
        Some(FilterOperation::Lt)
    } else if op == "gt"@ {
        Some(FilterOperation::Gt)
    } else if op == "lte"@ {
        Some(FilterOperation::Lte)
    } else if op == "gte"@ {
        Some(FilterOperation::Gte)
    } else if op == "ne"@ {
        Some(FilterOperation::Ne)
    } else {
        None
    }
}

/// The filter a request filter states: its reference is checked first, then its
/// operation.
pub open spec fn parse_filter(f: FilterRequestView) -> Result<FilterView, QueryErrorView> {
    match parse_reference(f.filed) {
        None => Err(QueryErrorView::FilterFieldName(f.filed)),
        Some(r) => match parse_operation(f.op) {
            None => Err(QueryErrorView::FilterOperation(f.op)),
            Some(operation) => Ok(FilterView { field: r.name, model: r.model, operation, value: f.value }),
        },
    }
}

/// The filters the request filters state, in order, or the error of the first one that
/// does not map.
pub open spec fn parse_filters(fs: Seq<FilterRequestView>) -> Result<Seq<FilterView>, QueryErrorView>
    decreases fs.len(),
{
    if fs.len() == 0 {
        Ok(Seq::empty())
    } else {
        match parse_filters(fs.drop_last()) {
            Err(e) => Err(e),
            Ok(rest) => match parse_filter(fs.last()) {
                Ok(f) => Ok(rest.push(f)),
                Err(e) => Err(e),
            },
        }
    }
}

/// The query a request states: metrics are mapped first, then dimensions, then
/// filters; the query is then validated.
pub open spec fn request_query_spec(r: QueryRequestView) -> Result<QueryView, QueryErrorView> {
    match parse_references(r.metrics) {
        Err(s) => Err(QueryErrorView::Metric(s)),
        Ok(metrics) => match parse_references(r.dimensions) {
            Err(s) => Err(QueryErrorView::Dimension(s)),
            Ok(dimensions) => match (match r.filters {
                Some(fs) => parse_filters(fs),
                None => Ok(Seq::empty()),
            }) {
                Err(e) => Err(e),
                Ok(filters) => {
                    let q = QueryView { metrics, dimensions, filters };
                    match validation_spec(q) {
                        Some(v) => Err(QueryErrorView::Invalid(v)),
                        None => Ok(q),
                    }
                },
            },
        },
    }
}

/// A mapped filter compares by the operation its request names (`eq`, `ne`, `gt`, `lt`,
/// `gte`, `lte`), with the request's value, on the model and field its reference names.
pub proof fn lemma_filter_keeps_request(f: FilterRequestView)
    ensures
        parse_filter(f) matches Ok(v) ==> {
            &&& v.value == f.value
            &&& parse_reference(f.filed) == Some(ReferenceView { name: v.field, model: v.model })
            &&& (f.op == "eq"@ <==> v.operation == FilterOperation::Eq)
            &&& (f.op == "ne"@ <==> v.operation == FilterOperation::Ne)
            &&& (f.op == "gt"@ <==> v.operation == FilterOperation::Gt)
            &&& (f.op == "lt"@ <==> v.operation == FilterOperation::Lt)
            &&& (f.op == "gte"@ <==> v.operation == FilterOperation::Gte)
            &&& (f.op == "lte"@ <==> v.operation == FilterOperation::Lte)
        },
        parse_filter(f) is Ok <==> (parse_reference(f.filed) is Some && (f.op == "eq"@ || f.op
            == "ne"@ || f.op == "gt"@ || f.op == "lt"@ || f.op == "gte"@ || f.op == "lte"@)),
{
    reveal_strlit("eq");
    reveal_strlit("ne");
    reveal_strlit("gt");
    reveal_strlit("lt");
    reveal_strlit("gte");
    reveal_strlit("lte");
    assert("eq"@[0] == 'e' && "ne"@[0] == 'n' && "gt"@[0] == 'g' && "lt"@[0] == 'l');
    assert("gte"@[0] == 'g' && "lte"@[0] == 'l');
    assert("eq"@.len() == 2 && "ne"@.len() == 2 && "gt"@.len() == 2 && "lt"@.len() == 2);
    assert("gte"@.len() == 3 && "lte"@.len() == 3);
}

/// The filters of a request map one for one, in order: filter `i` of the result is the
/// mapping of request filter `i`.
pub proof fn lemma_filters_map_in_order(fs: Seq<FilterRequestView>)
    ensures
        parse_filters(fs) matches Ok(vs) ==> {
            &&& vs.len() == fs.len()
            &&& forall|i: int| 0 <= i < fs.len() ==> parse_filter(fs[i]) == Ok::<FilterView, QueryErrorView>(#[trigger] vs[i])
        },
    decreases fs.len(),
{
    if fs.len() > 0 {
        lemma_filters_map_in_order(fs.drop_last());
        if parse_filters(fs) is Ok {
            let vs = parse_filters(fs)->Ok_0;
            let rest = parse_filters(fs.drop_last())->Ok_0;
            assert forall|i: int| 0 <= i < fs.len() implies parse_filter(fs[i]) == Ok::<FilterView, QueryErrorView>(#[trigger] vs[i]) by {
                if i < fs.len() - 1 {
                    assert(vs[i] == rest[i]);
                    assert(fs[i] == fs.drop_last()[i]);
                }
            }
        }
    }
}

/// References map one for one, in order: reference `i` of the result is what text `i`
/// names.
pub proof fn lemma_references_map_in_order(refs: Seq<Seq<char>>)
    ensures
        parse_references(refs) matches Ok(rs) ==> {
            &&& rs.len() == refs.len()
            &&& forall|i: int| 0 <= i < refs.len() ==> parse_reference(refs[i]) == Some(#[trigger] rs[i])
        },
    decreases refs.len(),
{
    if refs.len() > 0 {
        lemma_references_map_in_order(refs.drop_last());
        if parse_references(refs) is Ok {
            let rs = parse_references(refs)->Ok_0;
            let rest = parse_references(refs.drop_last())->Ok_0;
            assert forall|i: int| 0 <= i < refs.len() implies parse_reference(refs[i]) == Some(#[trigger] rs[i]) by {
                if i < refs.len() - 1 {
                    assert(rs[i] == rest[i]);
                    assert(refs[i] == refs.drop_last()[i]);
                }
            }
        }
    }
}

/// The metrics and dimensions of a query mapped from a request are the references the
/// request names, one for one and in order.
pub proof fn lemma_request_references(r: QueryRequestView)
    ensures
        request_query_spec(r) matches Ok(q) ==> {
            &&& q.metrics.len() == r.metrics.len()
            &&& forall|i: int| 0 <= i < r.metrics.len() ==> parse_reference(r.metrics[i]) == Some(#[trigger] q.metrics[i])
            &&& q.dimensions.len() == r.dimensions.len()
            &&& forall|i: int| 0 <= i < r.dimensions.len() ==> parse_reference(r.dimensions[i]) == Some(#[trigger] q.dimensions[i])
        },
{
    lemma_references_map_in_order(r.metrics);
    lemma_references_map_in_order(r.dimensions);
}

/// The filters of a query mapped from a request are the request's filters, mapped one
/// for one and in order.
pub proof fn lemma_request_filters(r: QueryRequestView)
    ensures
        request_query_spec(r) matches Ok(q) ==> match r.filters {
            None => q.filters.len() == 0,
            Some(fs) => {
                &&& q.filters.len() == fs.len()
                &&& forall|i: int| 0 <= i < fs.len() ==> parse_filter(fs[i]) == Ok::<FilterView, QueryErrorView>(#[trigger] q.filters[i])
            },
        },
{
    if let Some(fs) = r.filters {
        lemma_filters_map_in_order(fs);
    }
}

/// A well-formed reference is its model, a `.`, and its name; its model holds no `.`
/// and neither part is empty.
pub proof fn lemma_reference_roundtrip(s: Seq<char>)
    ensures
        parse_reference(s) matches Some(r) ==> {
            &&& s =~= r.model + seq!['.'] + r.name
            &&& !r.model.contains('.')
            &&& r.model.len() > 0
            &&& r.name.len() > 0
        },
{
    crate::text::lemma_split_once_rejoins(s, '.');
}

/// Joining a non-empty model without `.` and a non-empty name with a `.` gives a
/// reference to exactly that model and name.
pub proof fn lemma_reference_from_parts(model: Seq<char>, name: Seq<char>)
    requires
        model.len() > 0,
        name.len() > 0,
        !model.contains('.'),
    ensures
        parse_reference(model + seq!['.'] + name) == Some(ReferenceView { name, model }),
{
    let s = model + seq!['.'] + name;
    let i = model.len() as int;
    assert(s[i] == '.');
    assert forall|j: int| 0 <= j < i implies s[j] != '.' by {
        assert(s[j] == model[j]);
    }
    assert(crate::text::is_first_index_of(s, '.', i));
    let k = choose|k: int| crate::text::is_first_index_of(s, '.', k);
    crate::text::lemma_first_index_unique(s, '.', i, k);
    assert(s.subrange(0, i) =~= model);
    assert(s.subrange(i + 1, s.len() as int) =~= name);
}

/// A request naming no metric, no dimension and no filter maps onto the empty query,
/// which reads no model: planning it is refused as an empty query.
pub proof fn lemma_empty_request_reads_no_model(layer: LayerView, r: QueryRequestView)
    requires
        r.metrics.len() == 0,
        r.dimensions.len() == 0,
        r.filters is None || r.filters == Some(Seq::<FilterRequestView>::empty()),
    ensures
        request_query_spec(r) matches Ok(q) && source_table_spec(layer, q) == Err::<
            Seq<char>,
            PlanErrorView,
        >(PlanErrorView::EmptyQuery),
{
    let q = QueryView {
        metrics: Seq::empty(),
        dimensions: Seq::empty(),
        filters: Seq::empty(),
    };
    assert(!has_repeat(q.metrics));
    assert(!has_repeat(q.dimensions));
    assert(!has_equal_filters(q.filters));
    assert(parse_references(r.metrics) == Ok::<Seq<ReferenceView>, Seq<char>>(Seq::empty()));
    assert(parse_references(r.dimensions) == Ok::<Seq<ReferenceView>, Seq<char>>(Seq::empty()));
    assert(request_query_spec(r) == Ok::<QueryView, QueryErrorView>(q));
    lemma_query_model(q);
}

/// Splits a `model.name` reference at its first `.`.
pub fn split_reference<'a>(value: &'a str) -> (res: Option<(&'a str, &'a str)>)
    ensures
        match res {
            Some((model, name)) => split_once_spec(value@, '.') == Some((model@, name@)),
            None => split_once_spec(value@, '.') is None,
        },
{
    split_once_char(value, '.')
}

/// The model and name a reference names, when it is well-formed.
fn reference_parts<'a>(value: &'a str) -> (res: Option<(&'a str, &'a str)>)
    ensures
        match res {
            Some((model, name)) => parse_reference(value@) == Some(ReferenceView { name: name@, model: model@ }),
            None => parse_reference(value@) is None,
        },
{
    match split_reference(value) {
        Some((model, name)) => {
            if model.unicode_len() == 0 || name.unicode_len() == 0 {
                None
            } else {
                Some((model, name))
            }
        },
        None => None,
    }
}

/// The operation named `op`.
pub fn operation_from_name(op: &str) -> (res: Option<FilterOperation>)
    ensures
        res == parse_operation(op@),
{
    if str_eq(op, "eq") {
        Some(FilterOperation::Eq)
    } else if str_eq(op, "lt") {
        Some(FilterOperation::Lt)
    } else if str_eq(op, "gt") {
        Some(FilterOperation::Gt)
    } else if str_eq(op, "lte") {
        Some(FilterOperation::Lte)
    } else if str_eq(op, "gte") {
        Some(FilterOperation::Gte)
    } else if str_eq(op, "ne") {
        Some(FilterOperation::Ne)
    } else {
        None
    }
}

/// The filter a request filter states, borrowing its text.
pub fn map_to_filter<'a>(value: &'a Filter) -> (res: Result<QueryFilter<'a>, QueryError>)
    ensures
        match res {
            Ok(f) => parse_filter(value@) == Ok::<FilterView, QueryErrorView>(f@),
            Err(e) => parse_filter(value@) == Err::<FilterView, QueryErrorView>(e@),
        },
{
    let (model, filed) = match reference_parts(value.filed.as_str()) {
        Some(parts) => parts,
        None => {
            return Err(QueryError::FilterFieldName(value.filed.clone()));
        },
    };
    let operation = match operation_from_name(value.op.as_str()) {
        Some(op) => op,
        None => {
            return Err(QueryError::FilterOperation(value.op.clone()));
        },
    };
    let filter_value = match &value.value {
        Primitive::Float(number) => FilterValue::Float(*number),
        Primitive::String(string) => FilterValue::String(string.as_str()),
        Primitive::Int(number) => FilterValue::Int(*number),
    };
    Ok(QueryFilter::new(filed, model, operation, filter_value))
}

/// The metric references of `refs`, or the first malformed one.
fn map_metrics<'a>(refs: &'a Vec<String>) -> (res: Result<Vec<Metric<'a>>, &'a String>)
    ensures
        match res {
            Ok(ms) => parse_references(string_views(refs@)) == Ok::<Seq<ReferenceView>, Seq<char>>(metric_views(ms@)),
            Err(s) => parse_references(string_views(refs@)) == Err::<Seq<ReferenceView>, Seq<char>>(s@),
        },
{
    let ghost rv = string_views(refs@);
    let mut res: Vec<Metric<'a>> = Vec::new();
    assert(rv.take(0) =~= Seq::<Seq<char>>::empty());
    assert(metric_views(res@) =~= Seq::<ReferenceView>::empty());
    let mut i: usize = 0;
    while i < refs.len()
        invariant
            rv == string_views(refs@),
            i <= refs@.len(),
            parse_references(rv.take(i as int)) == Ok::<Seq<ReferenceView>, Seq<char>>(metric_views(res@)),
        decreases refs@.len() - i,
    {
        assert(rv.take(i + 1).drop_last() =~= rv.take(i as int));
        assert(rv.take(i + 1).last() == refs@[i as int]@);
        match reference_parts(refs[i].as_str()) {
            Some((model, name)) => {
                let ghost before = res@;
                res.push(Metric::new(name, model));
                assert(metric_views(res@) =~= metric_views(before).push(res@.last()@));
            },
            None => {
                proof {
                    lemma_references_error_persists(rv, i as int + 1);
                }
                return Err(&refs[i]);
            },
        }
        i = i + 1;
    }
    assert(rv.take(refs@.len() as int) =~= rv);
    Ok(res)
}

/// The dimension references of `refs`, or the first malformed one.
fn map_dimensions<'a>(refs: &'a Vec<String>) -> (res: Result<Vec<Dimension<'a>>, &'a String>)
    ensures
        match res {
            Ok(ds) => parse_references(string_views(refs@)) == Ok::<Seq<ReferenceView>, Seq<char>>(dimension_views(ds@)),
            Err(s) => parse_references(string_views(refs@)) == Err::<Seq<ReferenceView>, Seq<char>>(s@),
        },
{
    let ghost rv = string_views(refs@);
    let mut res: Vec<Dimension<'a>> = Vec::new();
    assert(rv.take(0) =~= Seq::<Seq<char>>::empty());
    assert(dimension_views(res@) =~= Seq::<ReferenceView>::empty());
    let mut i: usize = 0;
    while i < refs.len()
        invariant
            rv == string_views(refs@),
            i <= refs@.len(),
            parse_references(rv.take(i as int)) == Ok::<Seq<ReferenceView>, Seq<char>>(dimension_views(res@)),
        decreases refs@.len() - i,
    {
        assert(rv.take(i + 1).drop_last() =~= rv.take(i as int));
        assert(rv.take(i + 1).last() == refs@[i as int]@);
        match reference_parts(refs[i].as_str()) {
            Some((model, name)) => {
                let ghost before = res@;
                res.push(Dimension::new(name, model));
                assert(dimension_views(res@) =~= dimension_views(before).push(res@.last()@));
            },
            None => {
                proof {
                    lemma_references_error_persists(rv, i as int + 1);
                }
                return Err(&refs[i]);
            },
        }
        i = i + 1;
    }
    assert(rv.take(refs@.len() as int) =~= rv);
    Ok(res)
}

/// Once a prefix of the references is malformed, every longer prefix fails the same way.
pub proof fn lemma_references_error_persists(refs: Seq<Seq<char>>, k: int)
    requires
        0 <= k <= refs.len(),
        parse_references(refs.take(k)) is Err,
    ensures
        parse_references(refs) == parse_references(refs.take(k)),
    decreases refs.len() - k,
{
    if k < refs.len() {
        assert(refs.take(k + 1).drop_last() =~= refs.take(k));
        lemma_references_error_persists(refs, k + 1);
    } else {
        assert(refs.take(k) =~= refs);
    }
}

/// Once a prefix of the request filters fails to map, every longer prefix fails the same
/// way.
pub proof fn lemma_filters_error_persists(fs: Seq<FilterRequestView>, k: int)
    requires
        0 <= k <= fs.len(),
        parse_filters(fs.take(k)) is Err,
    ensures
        parse_filters(fs) == parse_filters(fs.take(k)),
    decreases fs.len() - k,
{
    if k < fs.len() {
        assert(fs.take(k + 1).drop_last() =~= fs.take(k));
        lemma_filters_error_persists(fs, k + 1);
    } else {
        assert(fs.take(k) =~= fs);
    }
}

/// The filters the request filters state, or the first mapping error.
fn map_filters<'a>(fs: &'a Vec<Filter>) -> (res: Result<Vec<QueryFilter<'a>>, QueryError>)
    ensures
        match res {
            Ok(qs) => parse_filters(filter_request_views(fs@)) == Ok::<Seq<FilterView>, QueryErrorView>(filter_views(qs@)),
            Err(e) => parse_filters(filter_request_views(fs@)) == Err::<Seq<FilterView>, QueryErrorView>(e@),
        },
{
    let ghost fv = filter_request_views(fs@);
    let mut res: Vec<QueryFilter<'a>> = Vec::new();
    assert(fv.take(0) =~= Seq::<FilterRequestView>::empty());
    assert(filter_views(res@) =~= Seq::<FilterView>::empty());
    let mut i: usize = 0;
    while i < fs.len()
        invariant
            fv == filter_request_views(fs@),
            i <= fs@.len(),
            parse_filters(fv.take(i as int)) == Ok::<Seq<FilterView>, QueryErrorView>(filter_views(res@)),
        decreases fs@.len() - i,
    {
        assert(fv.take(i + 1).drop_last() =~= fv.take(i as int));
        assert(fv.take(i + 1).last() == fs@[i as int]@);
        match map_to_filter(&fs[i]) {
            Ok(f) => {
                let ghost before = res@;
                res.push(f);
                assert(filter_views(res@) =~= filter_views(before).push(f@));
            },
            Err(e) => {
                proof {
                    assert(parse_filters(fv.take(i + 1)) == Err::<Seq<FilterView>, QueryErrorView>(e@));
                    lemma_filters_error_persists(fv, i as int + 1);
                }
                return Err(e);
            },
        }
        i = i + 1;
    }
    assert(fv.take(fs@.len() as int) =~= fv);
    Ok(res)
}

/// The query the request states: every metric and dimension reference must be
/// `model.name` with both parts non-empty, every filter must name a `model.field` and a
/// known operation, and the query must then be valid. Metrics are checked first, then
/// dimensions, then filters; the first failure is the answer.
pub fn map_to_query<'a>(request: &'a QueryRequest) -> (res: Result<Query<'a>, QueryError>)
    ensures
        match res {
            Ok(q) => request_query_spec(request@) == Ok::<QueryView, QueryErrorView>(q@),
            Err(e) => request_query_spec(request@) == Err::<QueryView, QueryErrorView>(e@),
        },
{
    let metrics = match map_metrics(&request.metrics) {
        Ok(ms) => ms,
        Err(s) => {
            return Err(QueryError::Metric(s.clone()));
        },
    };
    let dimensions = match map_dimensions(&request.dimensions) {
        Ok(ds) => ds,
        Err(s) => {
            return Err(QueryError::Dimension(s.clone()));
        },
    };
    let filters = match &request.filters {
        Some(fs) => map_filters(fs)?,
        None => Vec::new(),
    };
    proof {
        if request.filters is None {
            assert(filter_views(filters@) =~= Seq::<FilterView>::empty());
        }
    }
    match Query::try_new(metrics, dimensions, filters) {
        Ok(q) => Ok(q),
        Err(e) => Err(QueryError::Invalid(e)),
    }
}

} // verus!
