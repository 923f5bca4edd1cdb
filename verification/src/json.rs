//! JSON values.
use vstd::prelude::*;

verus! {

/// A JSON value. A number is held by its text, an object by its members in order.
#[derive(Debug)]
pub enum JsonValue {
    Null,
    Bool(bool),
    Number(String),
    Text(String),
    Array(Vec<JsonValue>),
    Object(Vec<(String, JsonValue)>),
}

} // verus!
