//! The JSON-shaped values that submissions, chart payloads and template
//! documents carry. Objects keep their entries as an ordered list of
//! key/value pairs; lookups take the first entry with a matching key.

use vstd::prelude::*;
use crate::strutil::str_eq;

verus! {

/// A JSON-shaped document. Numbers are whole: the aggregation pipeline only
/// ever reads integer counts and deltas.
#[derive(Debug, PartialEq, Eq)]
pub enum JsonValue {
    Null,
    Bool(bool),
    Int(i64),
    Str(String),
    Array(Vec<JsonValue>),
    Object(Vec<(String, JsonValue)>),
}

/// The mathematical shape of a [`JsonValue`]: the same tree over sequences.
#[verifier::ext_equal]
pub enum JsonView {
    Null,
    Bool(bool),
    Int(int),
    Str(Seq<char>),
    Array(Seq<JsonView>),
    Object(Seq<(Seq<char>, JsonView)>),
}

/// The shape of a JSON value.
pub open spec fn json_view(v: JsonValue) -> JsonView
    decreases v,
{
    match v {
        JsonValue::Null => JsonView::Null,
        JsonValue::Bool(b) => JsonView::Bool(b),
        JsonValue::Int(n) => JsonView::Int(n as int),
        JsonValue::Str(s) => JsonView::Str(s@),
        JsonValue::Array(items) => JsonView::Array(json_views(items@)),
        JsonValue::Object(entries) => JsonView::Object(json_entry_views(entries@)),
    }
}

/// The shapes of a sequence of JSON values, in order.
pub open spec fn json_views(s: Seq<JsonValue>) -> Seq<JsonView>
    decreases s,
{
    if s.len() == 0 {
        Seq::empty()
    } else {
        seq![json_view(s[0])] + json_views(s.drop_first())
    }
}

/// The shapes of an object's entries: each key's characters paired with the
/// shape of its value, in order.
pub open spec fn json_entry_views(s: Seq<(String, JsonValue)>) -> Seq<(Seq<char>, JsonView)>
    decreases s,
{
    if s.len() == 0 {
        Seq::empty()
    } else {
        seq![(s[0].0@, json_view(s[0].1))] + json_entry_views(s.drop_first())
    }
}

/// A value sequence's shapes line up with the values, one for one.
pub broadcast proof fn lemma_json_views(s: Seq<JsonValue>)
    ensures
        (#[trigger] json_views(s)).len() == s.len(),
        forall|i: int| 0 <= i < s.len() ==> json_views(s)[i] == json_view(#[trigger] s[i]),
    decreases s,
{
    if s.len() > 0 {
        lemma_json_views(s.drop_first());
        assert forall|i: int| 0 <= i < s.len() implies json_views(s)[i] == json_view(
            #[trigger] s[i],
        ) by {
            if i > 0 {
                assert(json_views(s)[i] == json_views(s.drop_first())[i - 1]);
                assert(s.drop_first()[i - 1] == s[i]);
            }
        }
    }
}

/// An entry sequence's shapes line up with the entries, one for one.
pub broadcast proof fn lemma_json_entry_views(s: Seq<(String, JsonValue)>)
    ensures
        (#[trigger] json_entry_views(s)).len() == s.len(),
        forall|i: int|
            0 <= i < s.len() ==> json_entry_views(s)[i] == ((#[trigger] s[i]).0@, json_view(
                s[i].1,
            )),
    decreases s,
{
    if s.len() > 0 {
        lemma_json_entry_views(s.drop_first());
        assert forall|i: int| 0 <= i < s.len() implies json_entry_views(s)[i] == (
            (#[trigger] s[i]).0@,
            json_view(s[i].1),
        ) by {
            if i > 0 {
                assert(json_entry_views(s)[i] == json_entry_views(s.drop_first())[i - 1]);
                assert(s.drop_first()[i - 1] == s[i]);
            }
        }
    }
}

impl View for JsonValue {
    type V = JsonView;

    open spec fn view(&self) -> JsonView {
        json_view(*self)
    }
}

/// The value under the first entry with the given key, or nothing when no
/// entry has that key.
pub open spec fn assoc_view_get(entries: Seq<(Seq<char>, JsonView)>, key: Seq<char>) -> Option<
    JsonView,
>
    decreases entries.len(),
{
    if entries.len() == 0 {
        None
    } else if entries[0].0 == key {
        Some(entries[0].1)
    } else {
        assoc_view_get(entries.drop_first(), key)
    }
}

impl JsonView {
    /// The string content of a string value, or nothing for any other shape.
    pub open spec fn as_str(self) -> Option<Seq<char>> {
        match self {
            JsonView::Str(s) => Some(s),
            _ => None,
        }
    }

    /// The value under a key of an object value, or nothing for any other
    /// shape or a missing key.
    pub open spec fn get(self, key: Seq<char>) -> Option<JsonView> {
        match self {
            JsonView::Object(entries) => assoc_view_get(entries, key),
            _ => None,
        }
    }
}

/// Looks up the first entry with the given key in an entry list, as object
/// lookup does.
pub fn entries_get<'a>(entries: &'a Vec<(String, JsonValue)>, key: &str) -> (r: Option<
    &'a JsonValue,
>)
    ensures
        match r {
            Some(v) => assoc_view_get(json_entry_views(entries@), key@) == Some(v@),
            None => assoc_view_get(json_entry_views(entries@), key@) is None,
        },
{
    let ghost vents = json_entry_views(entries@);
    let n = entries.len();
    proof {
        lemma_json_entry_views(entries@);
        assert(vents.subrange(0, n as int) =~= vents);
    }
    let mut i: usize = 0;
    while i < n
        invariant
            0 <= i <= n,
            n == entries@.len(),
            vents == json_entry_views(entries@),
            vents.len() == n,
            forall|k: int|
                0 <= k < n ==> vents[k] == ((#[trigger] entries@[k]).0@, json_view(
                    entries@[k].1,
                )),
            assoc_view_get(vents, key@) == assoc_view_get(
                vents.subrange(i as int, n as int),
                key@,
            ),
        decreases n - i,
    {
        proof {
            assert(vents.subrange(i as int, n as int).drop_first() =~= vents.subrange(
                i + 1,
                n as int,
            ));
            assert(vents.subrange(i as int, n as int)[0] == vents[i as int]);
        }
        if str_eq(entries[i].0.as_str(), key) {
            return Some(&entries[i].1);
        }
        i = i + 1;
    }
    proof {
        assert(vents.subrange(n as int, n as int).len() == 0);
    }
    None
}

impl JsonValue {
    /// Looks up the value under a key; yields nothing when the value is not
    /// an object or no entry has the key.
    pub fn get<'a>(&'a self, key: &str) -> (r: Option<&'a JsonValue>)
        ensures
            match r {
                Some(v) => self@.get(key@) == Some(v@),
                None => self@.get(key@) is None,
            },
    {
        match self {
            JsonValue::Object(entries) => entries_get(entries, key),
            _ => None,
        }
    }

    /// Whether this value is the given string.
    pub fn is_str(&self, expected: &str) -> (r: bool)
        ensures
            r == (self@.as_str() == Some(expected@)),
    {
        match self {
            JsonValue::Str(s) => str_eq(s.as_str(), expected),
            _ => false,
        }
    }
}

impl Clone for JsonValue {
    /// A deep copy with the same shape as the original.
    #[verifier::loop_isolation(false)]
    fn clone(&self) -> (r: Self)
        ensures
            r@ == self@,
        decreases *self,
    {
        match self {
            JsonValue::Null => JsonValue::Null,
            JsonValue::Bool(b) => JsonValue::Bool(*b),
            JsonValue::Int(n) => JsonValue::Int(*n),
            JsonValue::Str(s) => JsonValue::Str(s.clone()),
            JsonValue::Array(items) => {
                let mut out: Vec<JsonValue> = Vec::new();
                let n = items.len();
                let mut i: usize = 0;
                while i < n
                    invariant
                        0 <= i <= n,
                        out@.len() == i,
                        forall|k: int| 0 <= k < i ==> (#[trigger] out@[k])@ == items@[k]@,
                    decreases n - i,
                {
                    proof {
                        assert(decreases_to!(*self => *items));
                        assert(decreases_to!(*items => items@));
                        assert(decreases_to!(items@ => items@[i as int]));
                    }
                    out.push(items[i].clone());
                    i = i + 1;
                }
                proof {
                    lemma_json_views(out@);
                    lemma_json_views(items@);
                    assert forall|k: int| 0 <= k < out@.len() implies json_views(out@)[k]
                        == json_views(items@)[k] by {
                        assert(out@[k]@ == items@[k]@);
                    }
                    assert(json_views(out@) =~= json_views(items@));
                }
                JsonValue::Array(out)
            },
            JsonValue::Object(entries) => {
                let mut out: Vec<(String, JsonValue)> = Vec::new();
                let n = entries.len();
                let mut i: usize = 0;
                while i < n
                    invariant
                        0 <= i <= n,
                        out@.len() == i,
                        forall|k: int|
                            0 <= k < i ==> (#[trigger] out@[k]).0@ == entries@[k].0@ && out@[k].1@
                                == entries@[k].1@,
                    decreases n - i,
                {
                    proof {
                        assert(decreases_to!(*self => *entries));
                        assert(decreases_to!(*entries => entries@));
                        assert(decreases_to!(entries@ => entries@[i as int]));
                        assert(decreases_to!(entries@[i as int] => entries@[i as int].1));
                    }
                    let key = entries[i].0.clone();
                    let value = entries[i].1.clone();
                    out.push((key, value));
                    i = i + 1;
                }
                proof {
                    lemma_json_entry_views(out@);
                    lemma_json_entry_views(entries@);
                    assert forall|k: int| 0 <= k < out@.len() implies json_entry_views(out@)[k]
                        == json_entry_views(entries@)[k] by {
                        assert(out@[k].0@ == entries@[k].0@ && out@[k].1@ == entries@[k].1@);
                    }
                    assert(json_entry_views(out@) =~= json_entry_views(entries@));
                }
                JsonValue::Object(out)
            },
        }
    }
}

/// A deep copy of an object's entry list with the same keys and shapes.
pub fn clone_object_entries(entries: &Vec<(String, JsonValue)>) -> (r: Vec<(String, JsonValue)>)
    ensures
        json_entry_views(r@) == json_entry_views(entries@),
        r@.len() == entries@.len(),
{
    let mut out: Vec<(String, JsonValue)> = Vec::new();
    let n = entries.len();
    let mut i: usize = 0;
    while i < n
        invariant
            0 <= i <= n,
            n == entries@.len(),
            out@.len() == i,
            forall|k: int|
                0 <= k < i ==> (#[trigger] out@[k]).0@ == entries@[k].0@ && out@[k].1@
                    == entries@[k].1@,
        decreases n - i,
    {
        let key = entries[i].0.clone();
        let value = entries[i].1.clone();
        out.push((key, value));
        i = i + 1;
    }
    proof {
        lemma_json_entry_views(out@);
        lemma_json_entry_views(entries@);
        assert forall|k: int| 0 <= k < out@.len() implies json_entry_views(out@)[k]
            == json_entry_views(entries@)[k] by {
            assert(out@[k].0@ == entries@[k].0@ && out@[k].1@ == entries@[k].1@);
        }
        assert(json_entry_views(out@) =~= json_entry_views(entries@));
    }
    out
}

} // verus!
