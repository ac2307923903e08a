//! The simple-map payload: one country label whose sorted-set member is
//! incremented by one. The literal label `AUTO` asks the pipeline to use the
//! caller's resolved country instead.

use vstd::prelude::*;
use crate::json::JsonValue;
use crate::json::JsonView;

verus! {

/// A decoded simple-map payload.
#[derive(Debug)]
pub struct SimpleMap {
    pub value: String,
}

/// The label a simple-map payload decodes to: the string under `value`;
/// nothing when the payload is not an object or `value` is not a string.
pub open spec fn spec_decode_simple_map(v: JsonView) -> Option<Seq<char>> {
    match v.get("value"@) {
        Some(JsonView::Str(s)) => Some(s),
        _ => None,
    }
}

/// Decodes a simple-map payload.
pub fn decode_simple_map(v: &JsonValue) -> (r: Option<SimpleMap>)
    ensures
        match r {
            Some(p) => spec_decode_simple_map(v@) == Some(p.value@),
            None => spec_decode_simple_map(v@) is None,
        },
{
    match v.get("value") {
        Some(field) => match field {
            JsonValue::Str(s) => Some(SimpleMap { value: s.clone() }),
            _ => None,
        },
        None => None,
    }
}

} // verus!
