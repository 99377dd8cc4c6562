use vstd::prelude::*;

verus! {

/// The backend-agnostic structured value that a single column's content is
/// coerced into.  This is the common denominator of the two backends' native
/// type systems, shaped so that every variant has a direct JSON rendering at
/// the host boundary.
///
/// A 64-bit float is carried as its IEEE-754 bit pattern so that the whole
/// value stays in the verified world; the host boundary reinterprets the bits.
/// A byte sequence renders at the boundary as an array of byte-valued
/// integers (see `byte_values` in `common`).
#[derive(Debug, PartialEq, Eq)]
pub enum Value {
    Null,
    Bool(bool),
    Int(i64),
    Uint(u64),
    /// IEEE-754 bit pattern of a 64-bit float.
    Float(u64),
    Text(String),
    Bytes(Vec<u8>),
    Array(Vec<Value>),
}

impl Default for Value {
    /// The empty structured value: the fallback that the JSON category
    /// degrades to when its content cannot be decoded.
    fn default() -> (r: Self)
        ensures
            r == Value::Null,
    {
        Value::Null
    }
}

/// What the driver handed back for one column after the category-appropriate
/// decode was attempted: either the decoded primitive, or `Undecodable` when
/// the raw bytes did not parse as the category's type.
#[derive(Debug, PartialEq, Eq)]
pub enum Payload {
    /// The decode attempt failed: the raw bytes are malformed for the
    /// column's reported category.
    Undecodable,
    /// Textual content: character data, or the textual (ISO-like) rendering
    /// of a date, time, datetime or timestamp column.
    Text(String),
    /// IEEE-754 bit pattern of a decoded 64-bit float.
    Real(u64),
    Int(i64),
    Uint(u64),
    Bool(bool),
    Bytes(Vec<u8>),
    /// A JSON column's content, already decoded into a structured value.
    Json(Value),
}

/// The error kinds of the layer.  Each crosses the host boundary as a single
/// descriptive string.
#[derive(Debug, Clone, PartialEq, Eq)]
pub enum Error {
    /// A pool or driver failure, carried verbatim as the driver's message.
    Driver(String),
    /// A command referenced a connection identifier with no live entry.
    DatabaseNotLoaded(String),
    /// Coercion met a column type name outside the known category set.
    UnsupportedDatatype(String),
}

/// Renders a byte sequence as the array of byte-valued integers it crosses
/// the host boundary as.
pub fn byte_values(b: &Vec<u8>) -> (r: Vec<Value>)
    ensures
        r@.len() == b@.len(),
        forall|i: int| 0 <= i < b@.len() ==> r@[i] == Value::Int(b@[i] as i64),
{
    let mut r: Vec<Value> = Vec::new();
    let mut k: usize = 0;
    while k < b.len()
        invariant
            k <= b@.len(),
            r@.len() == k,
            forall|i: int| 0 <= i < k ==> r@[i] == Value::Int(b@[i] as i64),
        decreases b@.len() - k,
    {
        r.push(Value::Int(b[k] as i64));
        k += 1;
    }
    r
}

} // verus!
