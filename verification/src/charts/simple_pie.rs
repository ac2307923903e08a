//! The simple-pie payload: one label whose sorted-set member is incremented
//! by one.

use vstd::prelude::*;
use crate::json::JsonValue;
use crate::json::JsonView;

verus! {

/// A decoded simple-pie payload.
#[derive(Debug)]
pub struct SimplePie {
    pub value: String,
}

/// The label a simple-pie payload decodes to: the string under `value`;
/// nothing when the payload is not an object or `value` is not a string.
pub open spec fn spec_decode_simple_pie(v: JsonView) -> Option<Seq<char>> {
    match v.get("value"@) {
        Some(JsonView::Str(s)) => Some(s),
        _ => None,
    }
}

/// Decodes a simple-pie payload.
pub fn decode_simple_pie(v: &JsonValue) -> (r: Option<SimplePie>)
    ensures
        match r {
            Some(p) => spec_decode_simple_pie(v@) == Some(p.value@),
            None => spec_decode_simple_pie(v@) is None,
        },
{
    match v.get("value") {
        Some(field) => match field {
            JsonValue::Str(s) => Some(SimplePie { value: s.clone() }),
            _ => None,
        },
        None => None,
    }
}

} // verus!
