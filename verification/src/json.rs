//! A plain model of JSON values.
//!
//! The API hands back resource records as JSON. The decoder works on
//! this self-contained representation of such a value, so that what it
//! does can be stated and checked field by field.

use vstd::prelude::*;

verus! {

/// A JSON value. A number is kept only when it is a 64-bit integer —
/// the only numbers the course schema reads; any other number is
/// carried as the opaque `Num`.
#[derive(Debug, PartialEq, Eq)]
pub enum JsonValue {
    Null,
    Bool(bool),
    Int(i64),
    Num,
    Text(String),
    Array(Vec<JsonValue>),
    Object(Vec<(String, JsonValue)>),
}

/// The value under key `k` in an object's field list; when a key is
/// repeated, the last occurrence wins.
pub open spec fn lookup(fs: Seq<(String, JsonValue)>, k: Seq<char>) -> Option<JsonValue>
    decreases fs.len(),
{
    if fs.len() == 0 {
        None
    } else if fs.last().0@ == k {
        Some(fs.last().1)
    } else {
        lookup(fs.drop_last(), k)
    }
}

} // verus!
