//! Column values: what a row holds in one column, and what a statement takes
//! as a parameter.

use crate::text::{lowercase, str_eq, to_lower};
use vstd::prelude::*;
use vstd::std_specs::convert::FromSpecImpl;
use vstd::string::*;

verus! {

/// A column value. Exactly one variant is active. A float is held by its
/// bit pattern, a timestamp by its microseconds since the Unix epoch; both
/// are made and read outside of this library.
#[derive(Debug, PartialEq)]
pub enum Value {
    Null,
    Integer(i64),
    /// The bit pattern of a 64-bit float.
    Real(u64),
    Text(String),
    Blob(Vec<u8>),
    Boolean(bool),
    /// Microseconds since the Unix epoch.
    Timestamp(i64),
    /// A native array of 32-bit integers, for an uncompressed column.
    IntegerArray(Vec<i32>),
    /// A native array of 64-bit integers, for an uncompressed column.
    BigIntArray(Vec<i64>),
    /// A native array of 64-bit floats, each by its bit pattern, for an
    /// uncompressed column.
    NumericArray(Vec<u64>),
}

/// A column value as a mathematical value.
pub enum ValueSpec {
    Null,
    Integer(i64),
    Real(u64),
    Text(Seq<char>),
    Blob(Seq<u8>),
    Boolean(bool),
    Timestamp(i64),
    IntegerArray(Seq<i32>),
    BigIntArray(Seq<i64>),
    NumericArray(Seq<u64>),
}

impl View for Value {
    type V = ValueSpec;

    open spec fn view(&self) -> ValueSpec {
        match self {
            Value::Null => ValueSpec::Null,
            Value::Integer(i) => ValueSpec::Integer(*i),
            Value::Real(bits) => ValueSpec::Real(*bits),
            Value::Text(s) => ValueSpec::Text(s@),
            Value::Blob(b) => ValueSpec::Blob(b@),
            Value::Boolean(b) => ValueSpec::Boolean(*b),
            Value::Timestamp(t) => ValueSpec::Timestamp(*t),
            Value::IntegerArray(a) => ValueSpec::IntegerArray(a@),
            Value::BigIntArray(a) => ValueSpec::BigIntArray(a@),
            Value::NumericArray(a) => ValueSpec::NumericArray(a@),
        }
    }
}

/// The views of a list of values.
pub open spec fn value_views(list: Seq<Value>) -> Seq<ValueSpec> {
    Seq::new(list.len(), |i: int| list[i]@)
}

/// The views of a list with one more value are the views with one more
/// view.
pub proof fn lemma_value_views_push(list: Seq<Value>, v: Value)
    ensures
        value_views(list.push(v)) == value_views(list).push(v@),
{
    assert(value_views(list.push(v)) =~= value_views(list).push(v@));
}

impl Clone for Value {
    fn clone(&self) -> (c: Self)
        ensures
            c@ == self@,
    {
        match self {
            Value::Null => Value::Null,
            Value::Integer(i) => Value::Integer(*i),
            Value::Real(bits) => Value::Real(*bits),
            Value::Text(s) => Value::Text(s.clone()),
            Value::Blob(b) => Value::Blob(b.clone()),
            Value::Boolean(b) => Value::Boolean(*b),
            Value::Timestamp(t) => Value::Timestamp(*t),
            Value::IntegerArray(a) => Value::IntegerArray(a.clone()),
            Value::BigIntArray(a) => Value::BigIntArray(a.clone()),
            Value::NumericArray(a) => Value::NumericArray(a.clone()),
        }
    }
}

/// The truth value that a word in lower case spells: `true`, `1`, `yes` and
/// `on` are true, `false`, `0`, `no` and `off` are false, and no other word
/// is either.
pub open spec fn truth_of(lower: Seq<char>) -> Option<bool> {
    if lower == "true"@ || lower == "1"@ || lower == "yes"@ || lower == "on"@ {
        Some(true)
    } else if lower == "false"@ || lower == "0"@ || lower == "no"@ || lower == "off"@ {
        Some(false)
    } else {
        None
    }
}

/// The truth value that a word spells, whatever its letter case.
pub fn bool_from_text(word: &str) -> (b: Option<bool>)
    ensures
        b == truth_of(lowercase(word@)),
{
    bool_from_lower(to_lower(word).as_str())
}

/// The truth value that a word in lower case spells.
pub fn bool_from_lower(w: &str) -> (b: Option<bool>)
    ensures
        b == truth_of(w@),
{
    if str_eq(w, "true") || str_eq(w, "1") || str_eq(w, "yes") || str_eq(w, "on") {
        Some(true)
    } else if str_eq(w, "false") || str_eq(w, "0") || str_eq(w, "no") || str_eq(w, "off") {
        Some(false)
    } else {
        None
    }
}

/// The truth value that a number stands for: zero is false, all else true.
pub fn bool_from_integer(n: i64) -> (b: bool)
    ensures
        b == (n != 0),
{
    n != 0
}

/// Whether an integer fits a 32-bit integer column.
pub fn fits_int4(i: i64) -> (fits: bool)
    ensures
        fits == (i32::MIN <= i <= i32::MAX),
{
    i >= -2147483648 && i <= 2147483647
}

/// What kind of value a column of the client/server engine holds, by the
/// name of its type.
#[derive(Debug, Clone, Copy, PartialEq, Eq, Structural)]
pub enum PostgresKind {
    BigInt,
    Integer,
    Double,
    Text,
    Bytes,
    Boolean,
    Timestamp,
    BigIntArray,
    IntegerArray,
    DoubleArray,
    Vector,
    /// Any other type; read as text.
    Other,
}

/// The kind of a column type of the client/server engine.
pub open spec fn kind_of_type(name: Seq<char>) -> PostgresKind {
    if name == "int8"@ || name == "bigint"@ {
        PostgresKind::BigInt
    } else if name == "int4"@ || name == "integer"@ {
        PostgresKind::Integer
    } else if name == "float8"@ || name == "double precision"@ {
        PostgresKind::Double
    } else if name == "text"@ || name == "varchar"@ {
        PostgresKind::Text
    } else if name == "bytea"@ {
        PostgresKind::Bytes
    } else if name == "bool"@ || name == "boolean"@ {
        PostgresKind::Boolean
    } else if name == "timestamp"@ || name == "timestamptz"@ {
        PostgresKind::Timestamp
    } else if name == "_int8"@ || name == "int8[]"@ {
        PostgresKind::BigIntArray
    } else if name == "_int4"@ || name == "int4[]"@ {
        PostgresKind::IntegerArray
    } else if name == "_float8"@ || name == "float8[]"@ {
        PostgresKind::DoubleArray
    } else if name == "vector"@ {
        PostgresKind::Vector
    } else {
        PostgresKind::Other
    }
}

/// The kind of a column type of the client/server engine, by which a driver
/// knows how to read the column.
pub fn postgres_kind(name: &str) -> (kind: PostgresKind)
    ensures
        kind == kind_of_type(name@),
{
    if str_eq(name, "int8") || str_eq(name, "bigint") {
        PostgresKind::BigInt
    } else if str_eq(name, "int4") || str_eq(name, "integer") {
        PostgresKind::Integer
    } else if str_eq(name, "float8") || str_eq(name, "double precision") {
        PostgresKind::Double
    } else if str_eq(name, "text") || str_eq(name, "varchar") {
        PostgresKind::Text
    } else if str_eq(name, "bytea") {
        PostgresKind::Bytes
    } else if str_eq(name, "bool") || str_eq(name, "boolean") {
        PostgresKind::Boolean
    } else if str_eq(name, "timestamp") || str_eq(name, "timestamptz") {
        PostgresKind::Timestamp
    } else if str_eq(name, "_int8") || str_eq(name, "int8[]") {
        PostgresKind::BigIntArray
    } else if str_eq(name, "_int4") || str_eq(name, "int4[]") {
        PostgresKind::IntegerArray
    } else if str_eq(name, "_float8") || str_eq(name, "float8[]") {
        PostgresKind::DoubleArray
    } else if str_eq(name, "vector") {
        PostgresKind::Vector
    } else {
        PostgresKind::Other
    }
}

impl Value {
    /// Whether the value is null.
    pub fn is_null(&self) -> (b: bool)
        ensures
            b == (self@ is Null),
    {
        match self {
            Value::Null => true,
            _ => false,
        }
    }

    /// A text value with the characters of `s`.
    pub fn text(s: &str) -> (v: Self)
        ensures
            v@ == ValueSpec::Text(s@),
    {
        Value::Text(s.to_owned())
    }
}

impl From<i64> for Value {
    fn from(v: i64) -> (r: Self) {
        Value::Integer(v)
    }
}

impl FromSpecImpl<i64> for Value {
    open spec fn obeys_from_spec() -> bool {
        true
    }

    open spec fn from_spec(v: i64) -> Self {
        Value::Integer(v)
    }
}

impl From<bool> for Value {
    fn from(v: bool) -> (r: Self) {
        Value::Boolean(v)
    }
}

impl FromSpecImpl<bool> for Value {
    open spec fn obeys_from_spec() -> bool {
        true
    }

    open spec fn from_spec(v: bool) -> Self {
        Value::Boolean(v)
    }
}

impl From<String> for Value {
    fn from(v: String) -> (r: Self) {
        Value::Text(v)
    }
}

impl FromSpecImpl<String> for Value {
    open spec fn obeys_from_spec() -> bool {
        true
    }

    open spec fn from_spec(v: String) -> Self {
        Value::Text(v)
    }
}

impl From<Vec<u8>> for Value {
    fn from(v: Vec<u8>) -> (r: Self) {
        Value::Blob(v)
    }
}

impl FromSpecImpl<Vec<u8>> for Value {
    open spec fn obeys_from_spec() -> bool {
        true
    }

    open spec fn from_spec(v: Vec<u8>) -> Self {
        Value::Blob(v)
    }
}

impl From<Option<i64>> for Value {
    fn from(v: Option<i64>) -> (r: Self) {
        match v {
            Some(i) => Value::Integer(i),
            None => Value::Null,
        }
    }
}

impl FromSpecImpl<Option<i64>> for Value {
    open spec fn obeys_from_spec() -> bool {
        true
    }

    open spec fn from_spec(v: Option<i64>) -> Self {
        match v {
            Some(i) => Value::Integer(i),
            None => Value::Null,
        }
    }
}

impl From<Option<bool>> for Value {
    fn from(v: Option<bool>) -> (r: Self) {
        match v {
            Some(b) => Value::Boolean(b),
            None => Value::Null,
        }
    }
}

impl FromSpecImpl<Option<bool>> for Value {
    open spec fn obeys_from_spec() -> bool {
        true
    }

    open spec fn from_spec(v: Option<bool>) -> Self {
        match v {
            Some(b) => Value::Boolean(b),
            None => Value::Null,
        }
    }
}

impl From<Option<String>> for Value {
    fn from(v: Option<String>) -> (r: Self) {
        match v {
            Some(s) => Value::Text(s),
            None => Value::Null,
        }
    }
}

impl FromSpecImpl<Option<String>> for Value {
    open spec fn obeys_from_spec() -> bool {
        true
    }

    open spec fn from_spec(v: Option<String>) -> Self {
        match v {
            Some(s) => Value::Text(s),
            None => Value::Null,
        }
    }
}

impl From<Option<Vec<u8>>> for Value {
    fn from(v: Option<Vec<u8>>) -> (r: Self) {
        match v {
            Some(b) => Value::Blob(b),
            None => Value::Null,
        }
    }
}

impl FromSpecImpl<Option<Vec<u8>>> for Value {
    open spec fn obeys_from_spec() -> bool {
        true
    }

    open spec fn from_spec(v: Option<Vec<u8>>) -> Self {
        match v {
            Some(b) => Value::Blob(b),
            None => Value::Null,
        }
    }
}

} // verus!
