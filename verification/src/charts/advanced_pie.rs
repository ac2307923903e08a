//! The advanced-pie payload: a label-to-count mapping; every label's
//! sorted-set member is incremented by its own count.

use vstd::prelude::*;
use crate::json::JsonValue;
use crate::json::JsonView;
use crate::json::json_entry_views;
use crate::json::lemma_json_entry_views;

verus! {

/// A decoded advanced-pie payload: labels with their counts, in the order
/// the payload's object lists them.
#[derive(Debug)]
pub struct AdvancedPie {
    pub values: Vec<(String, u16)>,
}

/// The key/count views of a decoded label-count list.
pub open spec fn counts_view(s: Seq<(String, u16)>) -> Seq<(Seq<char>, u16)> {
    Seq::new(s.len(), |i: int| (s[i].0@, s[i].1))
}

/// The count of an integer value, meaningful only for whole numbers in
/// counter range.
pub open spec fn count_of(v: JsonView) -> u16 {
    match v {
        JsonView::Int(n) => n as u16,
        _ => 0,
    }
}

/// Whether a value is a whole number in counter range.
pub open spec fn is_count(v: JsonView) -> bool {
    match v {
        JsonView::Int(n) => 0 <= n <= u16::MAX,
        _ => false,
    }
}

/// What an object's entries decode to as a label-count list: every value
/// must be a whole number in counter range.
pub open spec fn spec_decode_counts(ents: Seq<(Seq<char>, JsonView)>) -> Option<
    Seq<(Seq<char>, u16)>,
> {
    if forall|i: int| 0 <= i < ents.len() ==> is_count((#[trigger] ents[i]).1) {
        Some(Seq::new(ents.len(), |i: int| (ents[i].0, count_of(ents[i].1))))
    } else {
        None
    }
}

/// What an advanced-pie payload decodes to: the label-count list under
/// `values`; nothing when `values` is missing, not an object, or holds a
/// count that is not a whole number in counter range.
pub open spec fn spec_decode_advanced_pie(v: JsonView) -> Option<Seq<(Seq<char>, u16)>> {
    match v.get("values"@) {
        Some(JsonView::Object(ents)) => spec_decode_counts(ents),
        _ => None,
    }
}

/// Decodes an object's entry list into labels and counts.
pub fn decode_counts(entries: &Vec<(String, JsonValue)>) -> (r: Option<Vec<(String, u16)>>)
    ensures
        match r {
            Some(counts) => spec_decode_counts(json_entry_views(entries@)) == Some(
                counts_view(counts@),
            ),
            None => spec_decode_counts(json_entry_views(entries@)) is None,
        },
{
    let ghost ents = json_entry_views(entries@);
    proof {
        lemma_json_entry_views(entries@);
    }
    let n = entries.len();
    let mut out: Vec<(String, u16)> = Vec::new();
    let mut i: usize = 0;
    while i < n
        invariant
            0 <= i <= n,
            n == entries@.len(),
            ents == json_entry_views(entries@),
            ents.len() == n,
            forall|k: int|
                0 <= k < n ==> ents[k] == ((#[trigger] entries@[k]).0@, crate::json::json_view(
                    entries@[k].1,
                )),
            out@.len() == i,
            forall|k: int| 0 <= k < i ==> is_count((#[trigger] ents[k]).1),
            forall|k: int|
                0 <= k < i ==> (#[trigger] out@[k]).0@ == ents[k].0 && out@[k].1 == count_of(
                    ents[k].1,
                ),
        decreases n - i,
    {
        let count: u16 = match &entries[i].1 {
            JsonValue::Int(value) => {
                let value = *value;
                if 0 <= value && value <= u16::MAX as i64 {
                    value as u16
                } else {
                    proof {
                        assert(!is_count(ents[i as int].1));
                    }
                    return None;
                }
            },
            _ => {
                proof {
                    assert(!is_count(ents[i as int].1));
                }
                return None;
            },
        };
        let key = entries[i].0.clone();
        out.push((key, count));
        i = i + 1;
    }
    proof {
        assert(counts_view(out@) =~= Seq::new(
            ents.len(),
            |k: int| (ents[k].0, count_of(ents[k].1)),
        ));
    }
    Some(out)
}

/// Decodes an advanced-pie payload.
pub fn decode_advanced_pie(v: &JsonValue) -> (r: Option<AdvancedPie>)
    ensures
        match r {
            Some(p) => spec_decode_advanced_pie(v@) == Some(counts_view(p.values@)),
            None => spec_decode_advanced_pie(v@) is None,
        },
{
    match v.get("values") {
        Some(field) => match field {
            JsonValue::Object(entries) => match decode_counts(entries) {
                Some(values) => Some(AdvancedPie { values }),
                None => None,
            },
            _ => None,
        },
        None => None,
    }
}

} // verus!
