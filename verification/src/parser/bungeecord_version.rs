//! The proxy version parser: the raw version string is colon-delimited;
//! with more than two segments the third is the version, otherwise the
//! whole string is.

use vstd::prelude::*;
use vstd::string::StrSliceExecFns;
use vstd::string::StringExecFns;
use crate::json::JsonValue;
use crate::json::JsonView;
use crate::parser::simple_pie_wrap;
use crate::parser::spec_simple_pie_wrap;
use crate::strutil::find_char;
use crate::strutil::spec_find_char;
use crate::submit_data_schema::SubmissionView;
use crate::submit_data_schema::SubmitDataSchema;

verus! {

/// A parser for the `bungeecordVersion` extra field.
#[derive(Debug)]
pub struct BungeecordVersionParser;

/// The version a colon-delimited raw string yields: the text between the
/// second colon and the third colon or the end; with fewer than two colons,
/// the whole string.
pub open spec fn spec_parse_bungeecord_version(s: Seq<char>) -> Seq<char> {
    match spec_find_char(s, ':', 0) {
        None => s,
        Some(p1) => match spec_find_char(s, ':', p1 + 1) {
            None => s,
            Some(p2) => match spec_find_char(s, ':', p2 + 1) {
                None => s.subrange(p2 + 1, s.len() as int),
                Some(p3) => s.subrange(p2 + 1, p3),
            },
        },
    }
}

/// Extracts the version from a colon-delimited raw version string.
pub fn parse_bungeecord_version(bungeecord_version: &str) -> (r: String)
    ensures
        r@ == spec_parse_bungeecord_version(bungeecord_version@),
{
    let s = bungeecord_version;
    let len = s.unicode_len();
    let p1 = match find_char(s, ':', 0) {
        Some(p) => p,
        None => {
            return s.to_owned();
        },
    };
    let p2 = match find_char(s, ':', p1 + 1) {
        Some(p) => p,
        None => {
            return s.to_owned();
        },
    };
    match find_char(s, ':', p2 + 1) {
        Some(p3) => s.substring_char(p2 + 1, p3).to_owned(),
        None => s.substring_char(p2 + 1, len).to_owned(),
    }
}

impl BungeecordVersionParser {
    /// Reads the `bungeecordVersion` extra field and yields the extracted
    /// version wrapped as a simple-pie value.
    pub fn parse(&self, schema: &SubmitDataSchema) -> (r: Option<JsonValue>)
        ensures
            match r {
                Some(v) => spec_parse_bungeecord(schema@) == Some(v@),
                None => spec_parse_bungeecord(schema@) is None,
            },
    {
        let raw = match crate::json::entries_get(&schema.extra, "bungeecordVersion") {
            Some(field) => match field {
                JsonValue::Str(s) => s,
                _ => {
                    return None;
                },
            },
            None => {
                return None;
            },
        };
        let version = parse_bungeecord_version(raw.as_str());
        Some(simple_pie_wrap(version))
    }
}

/// What the proxy version strategy yields for a submission: the extracted
/// version of the `bungeecordVersion` extra, wrapped as a simple-pie value,
/// or nothing when that extra is missing or not a string.
pub open spec fn spec_parse_bungeecord(schema: SubmissionView) -> Option<JsonView> {
    match crate::json::assoc_view_get(schema.extra, "bungeecordVersion"@) {
        Some(JsonView::Str(s)) => Some(spec_simple_pie_wrap(spec_parse_bungeecord_version(s))),
        _ => None,
    }
}

} // verus!
