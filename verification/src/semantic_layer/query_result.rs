//! The description of a query result: each column's name and value type, and the
//! errors of building a result.

use vstd::prelude::*;
use vstd::string::StringExecFns;
use crate::text::concat2;

verus! {

/// Semantic value type assigned to a result column, derived from the column's Arrow
/// data type. Unsupported types (e.g. Boolean, Date) fall back to `Unknown`.
#[derive(Debug, Clone, Copy, PartialEq, Eq, Structural)]
pub enum ValueType {
    String,
    Int,
    UInt,
    Float,
    /// Assigned for Arrow types with no semantic mapping; serialized as `null` for every row.
    Unknown,
}

/// The Arrow data type of a result column, as far as the value types tell them apart.
#[derive(Debug, Clone, Copy, PartialEq, Eq, Structural)]
pub enum ColumnType {
    Utf8,
    Utf8View,
    Int8,
    Int16,
    Int32,
    Int64,
    UInt8,
    UInt16,
    UInt32,
    UInt64,
    Float32,
    Float64,
    /// Any other Arrow data type.
    Other,
}

/// The value type of a column of Arrow type `t`.
pub open spec fn value_type_spec(t: ColumnType) -> ValueType {
    match t {
        ColumnType::Utf8 | ColumnType::Utf8View => ValueType::String,
        ColumnType::Int8 | ColumnType::Int16 | ColumnType::Int32 | ColumnType::Int64 => ValueType::Int,
        ColumnType::UInt8 | ColumnType::UInt16 | ColumnType::UInt32 | ColumnType::UInt64 => ValueType::UInt,
        ColumnType::Float32 | ColumnType::Float64 => ValueType::Float,
        ColumnType::Other => ValueType::Unknown,
    }
}

/// The value type of a column of Arrow type `column_type`: text types are strings,
/// signed and unsigned integer types are integers, floating types are floats.
pub fn arrow_type_to_value_type(column_type: ColumnType) -> (res: ValueType)
    ensures
        res == value_type_spec(column_type),
{
    match column_type {
        ColumnType::Utf8 | ColumnType::Utf8View => ValueType::String,
        ColumnType::Int8 | ColumnType::Int16 | ColumnType::Int32 | ColumnType::Int64 => ValueType::Int,
        ColumnType::UInt8 | ColumnType::UInt16 | ColumnType::UInt32 | ColumnType::UInt64 => ValueType::UInt,
        ColumnType::Float32 | ColumnType::Float64 => ValueType::Float,
        ColumnType::Other => ValueType::Unknown,
    }
}

/// What a column's metadata holds: its name and value type.
pub struct ColumnMetaView {
    pub name: Seq<char>,
    pub value_type: ValueType,
}

/// Metadata for a single column of a query result: the column name and its semantic
/// value type, as they appear in the `schema` array of the JSON response.
#[derive(Debug, Clone, PartialEq)]
pub struct ColumnMeta {
    name: String,
    value_type: ValueType,
}

impl View for ColumnMeta {
    type V = ColumnMetaView;

    closed spec fn view(&self) -> ColumnMetaView {
        ColumnMetaView { name: self.name@, value_type: self.value_type }
    }
}

impl ColumnMeta {
    /// Creates a new `ColumnMeta` with the given column name and value type.
    pub fn new(name: String, value_type: ValueType) -> (res: Self)
        ensures
            res@ == (ColumnMetaView { name: name@, value_type }),
    {
        ColumnMeta { name, value_type }
    }

    /// The column's name.
    pub fn name(&self) -> (res: &str)
        ensures
            res@ == self@.name,
    {
        self.name.as_str()
    }

    /// The column's value type.
    pub fn value_type(&self) -> (res: ValueType)
        ensures
            res == self@.value_type,
    {
        self.value_type
    }
}

/// The views of a result schema.
pub open spec fn column_meta_views(s: Seq<ColumnMeta>) -> Seq<ColumnMetaView> {
    s.map_values(|c: ColumnMeta| c@)
}

/// The schema of a result whose columns have the given names and Arrow types, in order.
pub fn schema_of(fields: Vec<(String, ColumnType)>) -> (res: Vec<ColumnMeta>)
    ensures
        res@.len() == fields@.len(),
        forall|i: int|
            0 <= i < fields@.len() ==> #[trigger] res@[i]@ == (ColumnMetaView {
                name: fields@[i].0@,
                value_type: value_type_spec(fields@[i].1),
            }),
{
    let ghost all = fields@;
    let mut rest = fields;
    let mut res: Vec<ColumnMeta> = Vec::new();
    let n = rest.len();
    let mut k: usize = 0;
    while k < n
        invariant
            n == all.len(),
            k <= n,
            rest@ == all.subrange(k as int, n as int),
            res@.len() == k,
            forall|i: int|
                0 <= i < k ==> #[trigger] res@[i]@ == (ColumnMetaView {
                    name: all[i].0@,
                    value_type: value_type_spec(all[i].1),
                }),
        decreases n - k,
    {
        let (name, column_type) = rest.remove(0);
        assert(all[k as int] == (name, column_type));
        res.push(ColumnMeta::new(name, arrow_type_to_value_type(column_type)));
        k = k + 1;
    }
    res
}

/// Errors that can occur while building a query result from Arrow record batches.
#[derive(Debug, Clone, PartialEq)]
pub enum QueryResultError {
    Unexpected(String),
    /// Arrow batch concatenation failed due to incompatible schemas across batches.
    InvalidSchema,
}

impl QueryResultError {
    /// The error's message.
    pub fn message(&self) -> (res: String)
        ensures
            res@ == match self {
                QueryResultError::Unexpected(m) => "unexpected error: "@ + m@,
                QueryResultError::InvalidSchema => "invalid schema"@,
            },
    {
        match self {
            QueryResultError::Unexpected(m) => concat2("unexpected error: ", m.as_str()),
            QueryResultError::InvalidSchema => String::from_str("invalid schema"),
        }
    }
}

} // verus!
