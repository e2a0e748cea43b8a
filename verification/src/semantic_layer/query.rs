//! Queries: the metrics to compute, the dimensions to group by, the filters to apply.

pub mod dimension;
pub mod metric;

use vstd::prelude::*;
use vstd::string::StringExecFns;
use crate::semantic_layer::dimension::Dimension;
use crate::semantic_layer::filter::{Filter, FilterView, filter_eq, lemma_equal_filters_agree};
use crate::semantic_layer::metric::{Metric, ReferenceView};
use crate::text::{concat5, str_eq};

verus! {

/// The element at `j` equals an element before it.
pub open spec fn is_repeat<A>(s: Seq<A>, j: int) -> bool {
    0 <= j < s.len() && exists|i: int| 0 <= i < j && s[i] == s[j]
}

/// `j` is the first position whose element equals an element before it.
pub open spec fn is_first_repeat<A>(s: Seq<A>, j: int) -> bool {
    &&& is_repeat(s, j)
    &&& forall|k: int| 0 <= k < j ==> !is_repeat(s, k)
}

/// Some element of `s` occurs twice.
pub open spec fn has_repeat<A>(s: Seq<A>) -> bool {
    exists|j: int| is_repeat(s, j)
}

/// Two filters of `s` at different positions are equal.
pub open spec fn has_equal_filters(s: Seq<FilterView>) -> bool {
    exists|i: int, j: int| 0 <= i < j < s.len() && filter_eq(s[i], s[j])
}

/// The views of a sequence of metric references.
pub open spec fn metric_views<'a>(s: Seq<Metric<'a>>) -> Seq<ReferenceView> {
    s.map_values(|m: Metric<'a>| m@)
}

/// The views of a sequence of dimension references.
pub open spec fn dimension_views<'a>(s: Seq<Dimension<'a>>) -> Seq<ReferenceView> {
    s.map_values(|d: Dimension<'a>| d@)
}

/// The views of a sequence of filters.
pub open spec fn filter_views<'a>(s: Seq<Filter<'a>>) -> Seq<FilterView> {
    s.map_values(|f: Filter<'a>| f@)
}

/// `s` with every element but the first occurrence of each value left out.
pub open spec fn first_occurrences<A>(s: Seq<A>) -> Seq<A>
    decreases s.len(),
{
    if s.len() == 0 {
        Seq::empty()
    } else {
        let rest = first_occurrences(s.drop_last());
        if rest.contains(s.last()) {
            rest
        } else {
            rest.push(s.last())
        }
    }
}

/// Keeping first occurrences keeps every value once, keeps the values, and keeps the
/// first element first.
pub proof fn lemma_first_occurrences<A>(s: Seq<A>)
    ensures
        first_occurrences(s).no_duplicates(),
        forall|x: A| first_occurrences(s).contains(x) <==> s.contains(x),
        first_occurrences(s).to_set() == s.to_set(),
        s.len() > 0 ==> first_occurrences(s).len() > 0 && first_occurrences(s)[0] == s[0],
    decreases s.len(),
{
    if s.len() > 0 {
        let prefix = s.drop_last();
        lemma_first_occurrences(prefix);
        let rest = first_occurrences(prefix);
        assert forall|x: A| s.contains(x) <==> (prefix.contains(x) || x == s.last()) by {
            if s.contains(x) {
                let k = choose|k: int| 0 <= k < s.len() && s[k] == x;
                if k < s.len() - 1 {
                    assert(prefix[k] == x);
                }
            }
            if prefix.contains(x) {
                let k = choose|k: int| 0 <= k < prefix.len() && prefix[k] == x;
                assert(s[k] == x);
            }
            assert(s[s.len() - 1] == s.last());
        }
        if !rest.contains(s.last()) {
            let pushed = rest.push(s.last());
            assert forall|x: A| pushed.contains(x) <==> (rest.contains(x) || x == s.last()) by {
                if pushed.contains(x) {
                    let k = choose|k: int| 0 <= k < pushed.len() && pushed[k] == x;
                    if k < pushed.len() - 1 {
                        assert(rest[k] == x);
                    }
                }
                if rest.contains(x) {
                    let k = choose|k: int| 0 <= k < rest.len() && rest[k] == x;
                    assert(pushed[k] == x);
                }
                assert(pushed[pushed.len() - 1] == s.last());
            }
            if prefix.len() == 0 {
                assert(rest =~= Seq::<A>::empty());
            }
        }
    }
    assert(first_occurrences(s).to_set() =~= s.to_set());
}

/// A source column and the table that holds it.
pub struct ColumnView {
    pub field: Seq<char>,
    pub table: Seq<char>,
}

/// What a query holds: its metrics, dimensions and filters, in order.
pub struct QueryView {
    pub metrics: Seq<ReferenceView>,
    pub dimensions: Seq<ReferenceView>,
    pub filters: Seq<FilterView>,
}

/// The names of the models a query refers to through its metrics and dimensions, each
/// once, in order of first appearance, metrics before dimensions.
pub open spec fn query_models(q: QueryView) -> Seq<Seq<char>> {
    first_occurrences(
        q.metrics.map_values(|r: ReferenceView| r.model) + q.dimensions.map_values(
            |r: ReferenceView| r.model,
        ),
    )
}

/// A sequence with a repeat has a first one.
pub proof fn lemma_first_repeat_exists<A>(s: Seq<A>, j: int)
    requires
        is_repeat(s, j),
    ensures
        exists|k: int| is_first_repeat(s, k),
    decreases j,
{
    if exists|k: int| 0 <= k < j && is_repeat(s, k) {
        let k = choose|k: int| 0 <= k < j && is_repeat(s, k);
        lemma_first_repeat_exists(s, k);
    } else {
        assert(is_first_repeat(s, j));
    }
}

/// The first repeat is unique.
pub proof fn lemma_first_repeat_unique<A>(s: Seq<A>, j: int, k: int)
    requires
        is_first_repeat(s, j),
        is_first_repeat(s, k),
    ensures
        j == k,
{
}

/// Filters that differ pairwise and compare with texts or integers are never refused as
/// equal filters.
pub proof fn lemma_distinct_filters_not_equal(s: Seq<FilterView>)
    ensures
        (forall|i: int, j: int| 0 <= i < j < s.len() ==> s[i] != s[j]) && (forall|i: int|
            0 <= i < s.len() ==> !(#[trigger] s[i].value is Float)) ==> !has_equal_filters(s),
{
    if (forall|i: int, j: int| 0 <= i < j < s.len() ==> s[i] != s[j]) && (forall|i: int|
        0 <= i < s.len() ==> !(#[trigger] s[i].value is Float)) {
        assert forall|i: int, j: int| 0 <= i < j < s.len() implies !filter_eq(s[i], s[j]) by {
            lemma_equal_filters_agree(s[i], s[j]);
            assert(!(s[i].value is Float));
        }
    }
}

/// What a validation error holds.
pub enum QueryValidationErrorView {
    DuplicateMetric { model: Seq<char>, name: Seq<char> },
    DuplicateDimension { model: Seq<char>, name: Seq<char> },
    DuplicateFilter,
}

/// Why the query made of these metrics, dimensions and filters is refused: the first
/// metric that repeats an earlier one; else the first such dimension; else two equal
/// filters; `None` when it is accepted.
pub open spec fn validation_spec(q: QueryView) -> Option<QueryValidationErrorView> {
    if has_repeat(q.metrics) {
        let j = choose|j: int| is_first_repeat(q.metrics, j);
        Some(
            QueryValidationErrorView::DuplicateMetric {
                model: q.metrics[j].model,
                name: q.metrics[j].name,
            },
        )
    } else if has_repeat(q.dimensions) {
        let j = choose|j: int| is_first_repeat(q.dimensions, j);
        Some(
            QueryValidationErrorView::DuplicateDimension {
                model: q.dimensions[j].model,
                name: q.dimensions[j].name,
            },
        )
    } else if has_equal_filters(q.filters) {
        Some(QueryValidationErrorView::DuplicateFilter)
    } else {
        None
    }
}

/// A refused query is refused for a repeat that is really there: the metric or dimension
/// named occurs twice, or two filters are equal; and a query with such a repeat is
/// refused.
pub proof fn lemma_refusal_names_a_repeat(q: QueryView)
    ensures
        validation_spec(q) matches Some(QueryValidationErrorView::DuplicateMetric { model, name })
            ==> exists|i: int, j: int|
            0 <= i < j < q.metrics.len() && q.metrics[i] == q.metrics[j] && q.metrics[j]
                == (ReferenceView { name, model }),
        validation_spec(q) matches Some(QueryValidationErrorView::DuplicateDimension { model, name })
            ==> exists|i: int, j: int|
            0 <= i < j < q.dimensions.len() && q.dimensions[i] == q.dimensions[j]
                && q.dimensions[j] == (ReferenceView { name, model }),
        validation_spec(q) is None <==> (!has_repeat(q.metrics) && !has_repeat(q.dimensions)
            && !has_equal_filters(q.filters)),
{
    if has_repeat(q.metrics) {
        let j0 = choose|j: int| is_repeat(q.metrics, j);
        lemma_first_repeat_exists(q.metrics, j0);
        let j = choose|j: int| is_first_repeat(q.metrics, j);
        let i = choose|i: int| 0 <= i < j && q.metrics[i] == q.metrics[j];
        assert(0 <= i < j < q.metrics.len() && q.metrics[i] == q.metrics[j]);
    } else if has_repeat(q.dimensions) {
        let j0 = choose|j: int| is_repeat(q.dimensions, j);
        lemma_first_repeat_exists(q.dimensions, j0);
        let j = choose|j: int| is_first_repeat(q.dimensions, j);
        let i = choose|i: int| 0 <= i < j && q.dimensions[i] == q.dimensions[j];
        assert(0 <= i < j < q.dimensions.len() && q.dimensions[i] == q.dimensions[j]);
    }
}

/// Why a query is refused.
#[derive(Debug, Clone)]
pub enum QueryValidationError {
    DuplicateMetric { model: String, name: String },
    DuplicateDimension { model: String, name: String },
    DuplicateFilter,
}

impl View for QueryValidationError {
    type V = QueryValidationErrorView;

    open spec fn view(&self) -> QueryValidationErrorView {
        match self {
            QueryValidationError::DuplicateMetric { model, name } =>
                QueryValidationErrorView::DuplicateMetric { model: model@, name: name@ },
            QueryValidationError::DuplicateDimension { model, name } =>
                QueryValidationErrorView::DuplicateDimension { model: model@, name: name@ },
            QueryValidationError::DuplicateFilter => QueryValidationErrorView::DuplicateFilter,
        }
    }
}

/// The message of a validation error.
pub open spec fn validation_message(e: QueryValidationErrorView) -> Seq<char> {
    match e {
        QueryValidationErrorView::DuplicateMetric { model, name } => "duplicate metric: model '"@
            + model + "', name '"@ + name + "'"@,
        QueryValidationErrorView::DuplicateDimension { model, name } =>
            "duplicate dimension: model '"@ + model + "', name '"@ + name + "'"@,
        QueryValidationErrorView::DuplicateFilter => "duplicate filter"@,
    }
}

impl QueryValidationError {
    /// The error's message.
    pub fn message(&self) -> (res: String)
        ensures
            res@ == validation_message(self@),
    {
        match self {
            QueryValidationError::DuplicateMetric { model, name } => concat5(
                "duplicate metric: model '",
                model.as_str(),
                "', name '",
                name.as_str(),
                "'",
            ),
            QueryValidationError::DuplicateDimension { model, name } => concat5(
                "duplicate dimension: model '",
                model.as_str(),
                "', name '",
                name.as_str(),
                "'",
            ),
            QueryValidationError::DuplicateFilter => String::from_str("duplicate filter"),
        }
    }
}

/// A validated query: no metric, dimension or filter occurs twice.
pub struct Query<'a> {
    metrics: Vec<Metric<'a>>,
    dimensions: Vec<Dimension<'a>>,
    filters: Vec<Filter<'a>>,
}

impl<'a> View for Query<'a> {
    type V = QueryView;

    closed spec fn view(&self) -> QueryView {
        QueryView {
            metrics: metric_views(self.metrics@),
            dimensions: dimension_views(self.dimensions@),
            filters: filter_views(self.filters@),
        }
    }
}

impl<'a> Query<'a> {
    /// The query over `metrics`, `dimensions` and `filters`. Refused with the first
    /// metric that repeats an earlier one; else with the first dimension that does;
    /// else when two filters are equal.
    pub fn try_new(
        metrics: Vec<Metric<'a>>,
        dimensions: Vec<Dimension<'a>>,
        filters: Vec<Filter<'a>>,
    ) -> (res: Result<Self, QueryValidationError>)
        ensures
            match res {
                Ok(q) => {
                    &&& q@ == (QueryView {
                        metrics: metric_views(metrics@),
                        dimensions: dimension_views(dimensions@),
                        filters: filter_views(filters@),
                    })
                    &&& validation_spec(q@) is None
                },
                Err(e) => validation_spec(
                    QueryView {
                        metrics: metric_views(metrics@),
                        dimensions: dimension_views(dimensions@),
                        filters: filter_views(filters@),
                    },
                ) == Some(e@),
            },
    {
        let ghost mv = metric_views(metrics@);
        let mut j: usize = 0;
        while j < metrics.len()
            invariant
                mv == metric_views(metrics@),
                j <= metrics@.len(),
                forall|k: int| 0 <= k < j ==> !is_repeat(mv, k),
            decreases metrics@.len() - j,
        {
            let mut i: usize = 0;
            while i < j
                invariant
                    mv == metric_views(metrics@),
                    j < metrics@.len(),
                    forall|k: int| 0 <= k < j ==> !is_repeat(mv, k),
                    i <= j,
                    forall|k: int| 0 <= k < i ==> mv[k] != mv[j as int],
                decreases j - i,
            {
                if metrics[i] == metrics[j] {
                    assert(mv[i as int] == mv[j as int]);
                    assert(is_first_repeat(mv, j as int));
                    proof {
                        let k = choose|k: int| is_first_repeat(mv, k);
                        lemma_first_repeat_unique(mv, j as int, k);
                    }
                    return Err(
                        QueryValidationError::DuplicateMetric {
                            model: String::from_str(metrics[j].model()),
                            name: String::from_str(metrics[j].name()),
                        },
                    );
                }
                i = i + 1;
            }
            j = j + 1;
        }
        assert(!has_repeat(mv));
        let ghost dv = dimension_views(dimensions@);
        let mut j: usize = 0;
        while j < dimensions.len()
            invariant
                dv == dimension_views(dimensions@),
                mv == metric_views(metrics@),
                !has_repeat(mv),
                j <= dimensions@.len(),
                forall|k: int| 0 <= k < j ==> !is_repeat(dv, k),
            decreases dimensions@.len() - j,
        {
            let mut i: usize = 0;
            while i < j
                invariant
                    dv == dimension_views(dimensions@),
                    mv == metric_views(metrics@),
                    !has_repeat(mv),
                    j < dimensions@.len(),
                    forall|k: int| 0 <= k < j ==> !is_repeat(dv, k),
                    i <= j,
                    forall|k: int| 0 <= k < i ==> dv[k] != dv[j as int],
                decreases j - i,
            {
                if dimensions[i] == dimensions[j] {
                    assert(dv[i as int] == dv[j as int]);
                    assert(is_first_repeat(dv, j as int));
                    proof {
                        let k = choose|k: int| is_first_repeat(dv, k);
                        lemma_first_repeat_unique(dv, j as int, k);
                    }
                    return Err(
                        QueryValidationError::DuplicateDimension {
                            model: String::from_str(dimensions[j].model()),
                            name: String::from_str(dimensions[j].name()),
                        },
                    );
                }
                i = i + 1;
            }
            j = j + 1;
        }
        assert(!has_repeat(dv));
        let ghost fv = filter_views(filters@);
        let mut i: usize = 0;
        while i < filters.len()
            invariant
                fv == filter_views(filters@),
                dv == dimension_views(dimensions@),
                mv == metric_views(metrics@),
                !has_repeat(mv),
                !has_repeat(dv),
                i <= filters@.len(),
                forall|a: int, b: int| 0 <= a < i && a < b < fv.len() ==> !filter_eq(fv[a], fv[b]),
            decreases filters@.len() - i,
        {
            let mut k: usize = i + 1;
            while k < filters.len()
                invariant
                    fv == filter_views(filters@),
                    dv == dimension_views(dimensions@),
                    mv == metric_views(metrics@),
                    !has_repeat(mv),
                    !has_repeat(dv),
                    i < filters@.len(),
                    i + 1 <= k <= filters@.len(),
                    forall|b: int| i < b < k ==> !filter_eq(fv[i as int], fv[b]),
                decreases filters@.len() - k,
            {
                if filters[i] == filters[k] {
                    assert(filter_eq(fv[i as int], fv[k as int]));
                    return Err(QueryValidationError::DuplicateFilter);
                }
                k = k + 1;
            }
            i = i + 1;
        }
        assert(!has_equal_filters(fv));
        Ok(Query { metrics, dimensions, filters })
    }

    /// The metrics, in order.
    pub fn metrics(&self) -> (res: &[Metric<'a>])
        ensures
            metric_views(res@) == self@.metrics,
    {
        self.metrics.as_slice()
    }

    /// The dimensions, in order.
    pub fn dimensions(&self) -> (res: &[Dimension<'a>])
        ensures
            dimension_views(res@) == self@.dimensions,
    {
        self.dimensions.as_slice()
    }

    /// The filters, in order.
    pub fn filters(&self) -> (res: &[Filter<'a>])
        ensures
            filter_views(res@) == self@.filters,
    {
        self.filters.as_slice()
    }

    /// The names of the models the metrics and dimensions refer to, each once, in order
    /// of first appearance, metrics before dimensions.
    pub fn models(&self) -> (res: Vec<&'a str>)
        ensures
            res@.map_values(|s: &str| s@) == query_models(self@),
    {
        let ghost from_metrics = self@.metrics.map_values(|r: ReferenceView| r.model);
        let ghost all = from_metrics + self@.dimensions.map_values(|r: ReferenceView| r.model);
        let mut res: Vec<&'a str> = Vec::new();
        let mut k: usize = 0;
        while k < self.metrics.len()
            invariant
                from_metrics == self@.metrics.map_values(|r: ReferenceView| r.model),
                all == from_metrics + self@.dimensions.map_values(|r: ReferenceView| r.model),
                k <= self@.metrics.len(),
                res@.map_values(|s: &str| s@) == first_occurrences(all.take(k as int)),
            decreases self@.metrics.len() - k,
        {
            let model = self.metrics[k].model();
            assert(model@ == all[k as int]);
            assert(all.take(k + 1).drop_last() =~= all.take(k as int));
            assert(all.take(k + 1).last() == all[k as int]);
            Self::push_if_new(&mut res, model);
            k = k + 1;
        }
        let nm = self.metrics.len();
        let mut k: usize = 0;
        while k < self.dimensions.len()
            invariant
                nm == self@.metrics.len(),
                from_metrics == self@.metrics.map_values(|r: ReferenceView| r.model),
                all == from_metrics + self@.dimensions.map_values(|r: ReferenceView| r.model),
                k <= self@.dimensions.len(),
                res@.map_values(|s: &str| s@) == first_occurrences(all.take(nm + k)),
            decreases self@.dimensions.len() - k,
        {
            let model = self.dimensions[k].model();
            assert(model@ == all[nm + k]);
            assert(all.take(nm + k + 1).drop_last() =~= all.take(nm + k));
            assert(all.take(nm + k + 1).last() == all[nm + k]);
            Self::push_if_new(&mut res, model);
            k = k + 1;
        }
        assert(all.take(nm + self@.dimensions.len()) =~= all);
        res
    }

    /// Appends `model` to `names` unless an equal name is there already.
    fn push_if_new(names: &mut Vec<&'a str>, model: &'a str)
        ensures
            final(names)@.map_values(|s: &str| s@) == (if old(names)@.map_values(|s: &str| s@).contains(
                model@,
            ) {
                old(names)@.map_values(|s: &str| s@)
            } else {
                old(names)@.map_values(|s: &str| s@).push(model@)
            }),
    {
        let ghost before = names@.map_values(|s: &str| s@);
        let mut i: usize = 0;
        while i < names.len()
            invariant
                i <= names@.len(),
                before == names@.map_values(|s: &str| s@),
                forall|x: int| 0 <= x < i ==> before[x] != model@,
            decreases names@.len() - i,
        {
            if str_eq(names[i], model) {
                assert(before[i as int] == model@);
                return;
            }
            i = i + 1;
        }
        names.push(model);
        assert(names@.map_values(|s: &str| s@) =~= before.push(model@));
    }
}

} // verus!
