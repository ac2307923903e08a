//! The drilldown-pie payload: an outer-label to inner-label-count mapping.
//! Every inner label's own sorted set is incremented, and the outer label's
//! entry in the parent set by the sum of its inner counts.

use vstd::prelude::*;
use crate::json::JsonValue;
use crate::json::JsonView;
use crate::json::json_entry_views;
use crate::json::lemma_json_entry_views;
use crate::charts::advanced_pie::counts_view;
use crate::charts::advanced_pie::spec_decode_counts;
use crate::charts::advanced_pie::decode_counts;

verus! {

/// A decoded drilldown-pie payload: outer labels, each with its inner
/// labels and counts, in the order the payload's objects list them.
#[derive(Debug)]
pub struct DrilldownPie {
    pub values: Vec<(String, Vec<(String, u16)>)>,
}

/// The nested key/count views of a decoded drilldown list.
pub open spec fn drilldown_view(s: Seq<(String, Vec<(String, u16)>)>) -> Seq<
    (Seq<char>, Seq<(Seq<char>, u16)>),
> {
    Seq::new(s.len(), |i: int| (s[i].0@, counts_view(s[i].1@)))
}

/// The label-count list an inner value decodes to, meaningful only for
/// decodable inner objects.
pub open spec fn inner_counts_of(v: JsonView) -> Seq<(Seq<char>, u16)> {
    match v {
        JsonView::Object(ents) => match spec_decode_counts(ents) {
            Some(counts) => counts,
            None => Seq::empty(),
        },
        _ => Seq::empty(),
    }
}

/// Whether an inner value decodes: it must be an object of counts with at
/// most `u32::MAX` entries (so that the counts can always be summed).
pub open spec fn is_inner_counts(v: JsonView) -> bool {
    match v {
        JsonView::Object(ents) => spec_decode_counts(ents) is Some && ents.len() <= u32::MAX,
        _ => false,
    }
}

/// What a drilldown-pie payload decodes to: the nested mapping under
/// `values`; nothing when `values` is missing, not an object, or any inner
/// value fails to decode.
pub open spec fn spec_decode_drilldown_pie(v: JsonView) -> Option<
    Seq<(Seq<char>, Seq<(Seq<char>, u16)>)>,
> {
    match v.get("values"@) {
        Some(JsonView::Object(outer)) => if forall|i: int|
            0 <= i < outer.len() ==> is_inner_counts((#[trigger] outer[i]).1) {
            Some(Seq::new(outer.len(), |i: int| (outer[i].0, inner_counts_of(outer[i].1))))
        } else {
            None
        },
        _ => None,
    }
}

/// Decodes a drilldown-pie payload.
pub fn decode_drilldown_pie(v: &JsonValue) -> (r: Option<DrilldownPie>)
    ensures
        match r {
            Some(p) => spec_decode_drilldown_pie(v@) == Some(drilldown_view(p.values@))
                && forall|i: int|
                0 <= i < p.values@.len() ==> (#[trigger] p.values@[i]).1@.len() <= u32::MAX,
            None => spec_decode_drilldown_pie(v@) is None,
        },
{
    let outer_entries = match v.get("values") {
        Some(field) => match field {
            JsonValue::Object(outer) => outer,
            _ => {
                return None;
            },
        },
        None => {
            return None;
        },
    };
    let ghost outer = json_entry_views(outer_entries@);
    proof {
        lemma_json_entry_views(outer_entries@);
    }
    let n = outer_entries.len();
    let mut out: Vec<(String, Vec<(String, u16)>)> = Vec::new();
    let mut i: usize = 0;
    while i < n
        invariant
            0 <= i <= n,
            n == outer_entries@.len(),
            outer == json_entry_views(outer_entries@),
            outer.len() == n,
            v@.get("values"@) == Some(JsonView::Object(outer)),
            forall|k: int|
                0 <= k < n ==> outer[k] == ((#[trigger] outer_entries@[k]).0@,
                crate::json::json_view(outer_entries@[k].1)),
            out@.len() == i,
            forall|k: int| 0 <= k < i ==> is_inner_counts((#[trigger] outer[k]).1),
            forall|k: int|
                0 <= k < i ==> (#[trigger] out@[k]).0@ == outer[k].0 && counts_view(out@[k].1@)
                    == inner_counts_of(outer[k].1) && out@[k].1@.len() <= u32::MAX,
        decreases n - i,
    {
        let inner: Vec<(String, u16)> = match &outer_entries[i].1 {
            JsonValue::Object(inner_entries) => {
                if inner_entries.len() > u32::MAX as usize {
                    proof {
                        lemma_json_entry_views(inner_entries@);
                        assert(!is_inner_counts(outer[i as int].1));
                    }
                    return None;
                }
                match decode_counts(inner_entries) {
                    Some(counts) => {
                        proof {
                            lemma_json_entry_views(inner_entries@);
                            assert(is_inner_counts(outer[i as int].1));
                        }
                        counts
                    },
                    None => {
                        proof {
                            assert(!is_inner_counts(outer[i as int].1));
                        }
                        return None;
                    },
                }
            },
            _ => {
                proof {
                    assert(!is_inner_counts(outer[i as int].1));
                }
                return None;
            },
        };
        proof {
            assert(counts_view(inner@) == inner_counts_of(outer[i as int].1));
            assert(counts_view(inner@).len() == inner@.len());
        }
        let key = outer_entries[i].0.clone();
        out.push((key, inner));
        i = i + 1;
    }
    proof {
        assert(drilldown_view(out@) =~= Seq::new(
            outer.len(),
            |k: int| (outer[k].0, inner_counts_of(outer[k].1)),
        ));
    }
    Some(DrilldownPie { values: out })
}

} // verus!
