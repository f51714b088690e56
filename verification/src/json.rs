//! The JSON value shape that the wire carries, as far as this library
//! reads it: strings, arrays, and objects kept as ordered member lists.
//! The transport layer parses raw text into this form and renders it back.

use vstd::prelude::*;

verus! {

/// One JSON value. Scalars other than strings do not occur in the wire
/// objects this library models: the service sends numbers as digit strings.
#[derive(Debug, PartialEq, Eq)]
pub enum JsonValue {
    /// A string scalar.
    Str(String),
    /// An array of values, in order.
    Arr(Vec<JsonValue>),
    /// An object: member name/value pairs in the order received.
    Obj(Vec<(String, JsonValue)>),
}

impl JsonValue {
    /// Whether this value is an object.
    pub open spec fn is_obj(self) -> bool {
        matches!(self, JsonValue::Obj(_))
    }
}

} // verus!
