//! Filters of a query: a comparison of a model's field with a value.

use vstd::prelude::*;
use crate::text::str_eq;

verus! {

/// Mask of the exponent bits of an IEEE 754 binary64 value.
pub const F64_EXPONENT_MASK: u64 = 0x7ff0_0000_0000_0000u64;

/// Mask of the fraction bits of an IEEE 754 binary64 value.
pub const F64_FRACTION_MASK: u64 = 0x000f_ffff_ffff_ffffu64;

/// Mask of every bit but the sign of an IEEE 754 binary64 value.
pub const F64_MAGNITUDE_MASK: u64 = 0x7fff_ffff_ffff_ffffu64;

/// The binary64 value with these bits is a NaN.
pub open spec fn f64_bits_is_nan(bits: u64) -> bool {
    bits & F64_EXPONENT_MASK == F64_EXPONENT_MASK && bits & F64_FRACTION_MASK != 0
}

/// The binary64 value with these bits is positive or negative zero.
pub open spec fn f64_bits_is_zero(bits: u64) -> bool {
    bits & F64_MAGNITUDE_MASK == 0
}

/// IEEE 754 equality of two binary64 values given by their bits: a NaN equals
/// nothing, the two zeros are equal, and otherwise equal values have equal bits.
pub open spec fn f64_bits_eq(a: u64, b: u64) -> bool {
    &&& !f64_bits_is_nan(a)
    &&& !f64_bits_is_nan(b)
    &&& (a == b || (f64_bits_is_zero(a) && f64_bits_is_zero(b)))
}

/// A double-precision floating-point number, held as its IEEE 754 binary64 bits.
#[derive(Debug, Clone, Copy)]
pub struct Float64 {
    bits: u64,
}

impl View for Float64 {
    type V = u64;

    closed spec fn view(&self) -> u64 {
        self.bits
    }
}

impl Float64 {
    /// The number whose binary64 encoding is `bits`.
    pub fn from_bits(bits: u64) -> (res: Self)
        ensures
            res@ == bits,
    {
        Float64 { bits }
    }

    /// The binary64 encoding of the number.
    pub fn to_bits(&self) -> (res: u64)
        ensures
            res == self@,
    {
        self.bits
    }

    /// Whether the number is a NaN.
    pub fn is_nan(&self) -> (res: bool)
        ensures
            res == f64_bits_is_nan(self@),
    {
        self.bits & F64_EXPONENT_MASK == F64_EXPONENT_MASK && self.bits & F64_FRACTION_MASK != 0
    }
}

impl PartialEq for Float64 {
    fn eq(&self, other: &Self) -> (res: bool) {
        let a = self.bits;
        let b = other.bits;
        let a_nan = a & F64_EXPONENT_MASK == F64_EXPONENT_MASK && a & F64_FRACTION_MASK != 0;
        let b_nan = b & F64_EXPONENT_MASK == F64_EXPONENT_MASK && b & F64_FRACTION_MASK != 0;
        !a_nan && !b_nan && (a == b || (a & F64_MAGNITUDE_MASK == 0 && b & F64_MAGNITUDE_MASK
            == 0))
    }
}

impl vstd::std_specs::cmp::PartialEqSpecImpl for Float64 {
    open spec fn obeys_eq_spec() -> bool {
        true
    }

    open spec fn eq_spec(&self, other: &Self) -> bool {
        f64_bits_eq(self@, other@)
    }
}

/// The comparison a filter applies.
#[derive(Debug, Clone, Copy, PartialEq, Eq, Structural)]
pub enum FilterOperation {
    Eq,
    Lt,
    Gt,
    Lte,
    Gte,
    Ne,
}

/// What a filter value holds: text, an integer, or the bits of a binary64 number.
pub enum FilterValueView {
    String(Seq<char>),
    Int(i64),
    Float(u64),
}

/// The value a filter compares a field with.
#[derive(Debug, Clone, Copy)]
pub enum FilterValue<'a> {
    String(&'a str),
    Int(i64),
    Float(Float64),
}

impl<'a> View for FilterValue<'a> {
    type V = FilterValueView;

    open spec fn view(&self) -> FilterValueView {
        match self {
            FilterValue::String(s) => FilterValueView::String(s@),
            FilterValue::Int(i) => FilterValueView::Int(*i),
            FilterValue::Float(f) => FilterValueView::Float(f@),
        }
    }
}

/// Equality of filter values: the same kind and equal contents, where numbers
/// compare as IEEE 754 values.
pub open spec fn filter_value_eq(a: FilterValueView, b: FilterValueView) -> bool {
    match (a, b) {
        (FilterValueView::String(x), FilterValueView::String(y)) => x == y,
        (FilterValueView::Int(x), FilterValueView::Int(y)) => x == y,
        (FilterValueView::Float(x), FilterValueView::Float(y)) => f64_bits_eq(x, y),
        _ => false,
    }
}

impl<'a> PartialEq for FilterValue<'a> {
    fn eq(&self, other: &Self) -> (res: bool) {
        match (self, other) {
            (FilterValue::String(x), FilterValue::String(y)) => str_eq(x, y),
            (FilterValue::Int(x), FilterValue::Int(y)) => *x == *y,
            (FilterValue::Float(x), FilterValue::Float(y)) => x.eq(y),
            _ => false,
        }
    }
}

impl<'a> vstd::std_specs::cmp::PartialEqSpecImpl for FilterValue<'a> {
    open spec fn obeys_eq_spec() -> bool {
        true
    }

    open spec fn eq_spec(&self, other: &Self) -> bool {
        filter_value_eq(self@, other@)
    }
}

/// What a filter holds: the field and model it compares, the comparison, the value.
pub struct FilterView {
    pub field: Seq<char>,
    pub model: Seq<char>,
    pub operation: FilterOperation,
    pub value: FilterValueView,
}

/// Equality of filters: same field, model and comparison, and equal values.
pub open spec fn filter_eq(a: FilterView, b: FilterView) -> bool {
    &&& a.field == b.field
    &&& a.model == b.model
    &&& a.operation == b.operation
    &&& filter_value_eq(a.value, b.value)
}

/// Equality of filters is symmetric; a filter whose value is a NaN equals no filter, not
/// even itself; and the two zeros compare equal.
pub proof fn lemma_filter_equality(a: FilterView, b: FilterView)
    ensures
        filter_eq(a, b) == filter_eq(b, a),
        a.value matches FilterValueView::Float(x) && f64_bits_is_nan(x) ==> !filter_eq(a, b),
        a.value matches FilterValueView::Float(x) && !f64_bits_is_nan(x) ==> filter_eq(a, a),
        f64_bits_eq(0u64, 0x8000_0000_0000_0000u64),
{
    assert(0u64 & F64_MAGNITUDE_MASK == 0) by (bit_vector);
    assert(0x8000_0000_0000_0000u64 & F64_MAGNITUDE_MASK == 0) by (bit_vector);
    assert(0u64 & F64_EXPONENT_MASK != F64_EXPONENT_MASK) by (bit_vector);
    assert(0x8000_0000_0000_0000u64 & F64_EXPONENT_MASK != F64_EXPONENT_MASK) by (bit_vector);
}

/// Equal filters compare the same field of the same model by the same comparison with
/// the same value: texts equal exactly, integers equal exactly, and numbers are equal
/// non-NaN values (the two zeros count as one). Filters whose values are texts or
/// integers are equal exactly when all their parts are.
pub proof fn lemma_equal_filters_agree(a: FilterView, b: FilterView)
    ensures
        filter_eq(a, b) ==> a.field == b.field && a.model == b.model && a.operation
            == b.operation,
        filter_eq(a, b) && a.value is String ==> b.value == a.value,
        filter_eq(a, b) && a.value is Int ==> b.value == a.value,
        filter_eq(a, b) ==> (a.value matches FilterValueView::Float(x) ==> (b.value matches FilterValueView::Float(y)
            && !f64_bits_is_nan(x) && !f64_bits_is_nan(y) && (x == y || (f64_bits_is_zero(x)
            && f64_bits_is_zero(y))))),
        !(a.value is Float) ==> (filter_eq(a, b) <==> a == b),
{
}

/// A predicate of a query: field `field` of model `model`, compared by `operation`
/// with `value`.
#[derive(Debug, Clone, Copy)]
pub struct Filter<'a> {
    field: &'a str,
    model: &'a str,
    operation: FilterOperation,
    value: FilterValue<'a>,
}

impl<'a> View for Filter<'a> {
    type V = FilterView;

    closed spec fn view(&self) -> FilterView {
        FilterView {
            field: self.field@,
            model: self.model@,
            operation: self.operation,
            value: self.value@,
        }
    }
}

impl<'a> Filter<'a> {
    /// The filter comparing field `field` of model `model` with `value` by `operation`.
    pub fn new(field: &'a str, model: &'a str, operation: FilterOperation, value: FilterValue<'a>) -> (res: Self)
        ensures
            res@ == (FilterView {
                field: field@,
                model: model@,
                operation: operation,
                value: value@,
            }),
    {
        Filter { field, model, operation, value }
    }

    /// The name of the compared field.
    pub fn field(&self) -> (res: &'a str)
        ensures
            res@ == self@.field,
    {
        self.field
    }

    /// The name of the model the field belongs to.
    pub fn model(&self) -> (res: &'a str)
        ensures
            res@ == self@.model,
    {
        self.model
    }

    /// The comparison.
    pub fn operation(&self) -> (res: &FilterOperation)
        ensures
            *res == self@.operation,
    {
        &self.operation
    }

    /// The value the field is compared with.
    pub fn value(&self) -> (res: &FilterValue<'a>)
        ensures
            res@ == self@.value,
    {
        &self.value
    }
}

impl<'a> PartialEq for Filter<'a> {
    fn eq(&self, other: &Self) -> (res: bool) {
        str_eq(self.field, other.field) && str_eq(self.model, other.model) && self.operation
            == other.operation && self.value.eq(&other.value)
    }
}

impl<'a> vstd::std_specs::cmp::PartialEqSpecImpl for Filter<'a> {
    open spec fn obeys_eq_spec() -> bool {
        true
    }

    open spec fn eq_spec(&self, other: &Self) -> bool {
        filter_eq(self@, other@)
    }
}

} // verus!
