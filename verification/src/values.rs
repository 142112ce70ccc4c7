//! Dynamically-typed values: the shape of values arriving on the wire, the
//! scalar values the store holds, and the coercion between them.

use vstd::prelude::*;

use crate::text::str_eq;

verus! {

/// The shape of a JSON value as it arrives in a request. Only scalars may be
/// used as column values or keys; fractional numbers carry their decimal
/// rendering so that no floating point flows through the library.
#[derive(Debug, Clone, PartialEq, Eq)]
pub enum JsonValue {
    Null,
    Bool(bool),
    Int(i64),
    Real(String),
    Str(String),
    Array,
    Object,
}

/// A scalar value as the store holds it. `Real` carries the decimal rendering
/// of the stored floating-point value.
#[derive(Debug, Clone, PartialEq, Eq)]
pub enum SqlValue {
    Null,
    Integer(i64),
    Real(String),
    Text(String),
    Blob(Vec<u8>),
}

/// A row read from the store: an ordered mapping from column name to value.
pub type Row = Vec<(String, SqlValue)>;

/// The declared type of a column, as schema metadata reports it.
#[derive(Debug, Clone, Copy, PartialEq, Eq, Structural)]
pub enum SqlValueType {
    Null,
    Integer,
    Real,
    Text,
    Blob,
}

/// The store type named by a declared-type string; anything unrecognised is
/// treated as `Text`.
pub open spec fn sql_type_of(s: Seq<char>) -> SqlValueType {
    if s == "NULL"@ {
        SqlValueType::Null
    } else if s == "INTEGER"@ {
        SqlValueType::Integer
    } else if s == "REAL"@ {
        SqlValueType::Real
    } else if s == "TEXT"@ {
        SqlValueType::Text
    } else if s == "BLOB"@ {
        SqlValueType::Blob
    } else {
        SqlValueType::Text
    }
}

/// Maps a declared-type string from schema metadata to the store type it
/// names.
pub fn str_to_sql_value_type(s: &str) -> (r: SqlValueType)
    ensures
        r == sql_type_of(s@),
{
    if str_eq(s, "NULL") {
        SqlValueType::Null
    } else if str_eq(s, "INTEGER") {
        SqlValueType::Integer
    } else if str_eq(s, "REAL") {
        SqlValueType::Real
    } else if str_eq(s, "TEXT") {
        SqlValueType::Text
    } else if str_eq(s, "BLOB") {
        SqlValueType::Blob
    } else {
        SqlValueType::Text
    }
}

/// The store value a wire value coerces to: whole numbers to `Integer`,
/// fractional numbers to `Real`, strings to `Text`; booleans, arrays and
/// objects have no store counterpart.
pub open spec fn coerce_to_sql(v: JsonValue) -> Option<SqlValue> {
    match v {
        JsonValue::Null => Some(SqlValue::Null),
        JsonValue::Int(i) => Some(SqlValue::Integer(i)),
        JsonValue::Real(s) => Some(SqlValue::Real(s)),
        JsonValue::Str(s) => Some(SqlValue::Text(s)),
        JsonValue::Bool(_) => None,
        JsonValue::Array => None,
        JsonValue::Object => None,
    }
}

/// An equality-preserving copy of a wire value; the derived clone carries no
/// specification.
pub fn clone_json(v: &JsonValue) -> (r: JsonValue)
    ensures
        r == *v,
{
    match v {
        JsonValue::Null => JsonValue::Null,
        JsonValue::Bool(b) => JsonValue::Bool(*b),
        JsonValue::Int(i) => JsonValue::Int(*i),
        JsonValue::Real(s) => JsonValue::Real(s.clone()),
        JsonValue::Str(s) => JsonValue::Str(s.clone()),
        JsonValue::Array => JsonValue::Array,
        JsonValue::Object => JsonValue::Object,
    }
}

/// Coerces a wire value to a store value, or `None` for shapes that no column
/// can hold.
pub fn json_to_sql_value(v: &JsonValue) -> (r: Option<SqlValue>)
    ensures
        r == coerce_to_sql(*v),
{
    match v {
        JsonValue::Null => Some(SqlValue::Null),
        JsonValue::Int(i) => Some(SqlValue::Integer(*i)),
        JsonValue::Real(s) => Some(SqlValue::Real(s.clone())),
        JsonValue::Str(s) => Some(SqlValue::Text(s.clone())),
        JsonValue::Bool(_) => None,
        JsonValue::Array => None,
        JsonValue::Object => None,
    }
}

} // verus!
