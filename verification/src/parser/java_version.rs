//! The Java version parser: derives the major version from both the legacy
//! scheme (`1.MAJOR.MINOR_SECURITY`, the second dot component) and the
//! modern scheme (`MAJOR.MINOR.SECURITY.PATCH[-suffix]`, the first dot
//! component with any dash suffix stripped).

use vstd::prelude::*;
use vstd::string::StrSliceExecFns;
use vstd::string::StringExecFns;
use crate::json::JsonValue;
use crate::json::JsonView;
use crate::parser::drilldown_wrap;
use crate::parser::spec_drilldown_wrap;
use crate::strutil::find_char;
use crate::strutil::spec_find_char;
use crate::strutil::str_starts_with;
use crate::strutil::spec_starts_with;
use crate::submit_data_schema::SubmissionView;
use crate::submit_data_schema::SubmitDataSchema;

verus! {

/// A parser for the `javaVersion` extra field.
#[derive(Debug)]
pub struct JavaVersionParser;

/// The major version a raw Java version string yields. A string beginning
/// with `1.` uses the legacy scheme: the text between the first dot and the
/// second dot or the end. Any other string uses the modern scheme: the text
/// before the first dot or the end, cut at a dash if one comes first.
pub open spec fn spec_java_major_version(s: Seq<char>) -> Seq<char> {
    if spec_starts_with(s, "1."@) {
        match spec_find_char(s, '.', 2) {
            Some(p) => s.subrange(2, p),
            None => s.subrange(2, s.len() as int),
        }
    } else {
        let dot_end = match spec_find_char(s, '.', 0) {
            Some(p) => p,
            None => s.len() as int,
        };
        match spec_find_char(s, '-', 0) {
            Some(p) => if p < dot_end {
                s.subrange(0, p)
            } else {
                s.subrange(0, dot_end)
            },
            None => s.subrange(0, dot_end),
        }
    }
}

/// Derives the major version from a raw Java version string.
pub fn get_java_major_version(java_version: &str) -> (r: String)
    ensures
        r@ == spec_java_major_version(java_version@),
{
    let s = java_version;
    let len = s.unicode_len();
    if str_starts_with(s, "1.") {
        proof {
            reveal_strlit("1.");
        }
        match find_char(s, '.', 2) {
            Some(p) => s.substring_char(2, p).to_owned(),
            None => s.substring_char(2, len).to_owned(),
        }
    } else {
        let dot_end = match find_char(s, '.', 0) {
            Some(p) => p,
            None => len,
        };
        match find_char(s, '-', 0) {
            Some(p) => if p < dot_end {
                s.substring_char(0, p).to_owned()
            } else {
                s.substring_char(0, dot_end).to_owned()
            },
            None => s.substring_char(0, dot_end).to_owned(),
        }
    }
}

impl JavaVersionParser {
    /// Reads the `javaVersion` extra field and yields a two-level grouping:
    /// outer label `Java {major}`, inner label the full raw version, count
    /// one.
    pub fn parse(&self, schema: &SubmitDataSchema) -> (r: Option<JsonValue>)
        ensures
            match r {
                Some(v) => spec_parse_java_version(schema@) == Some(v@),
                None => spec_parse_java_version(schema@) is None,
            },
    {
        let raw = match crate::json::entries_get(&schema.extra, "javaVersion") {
            Some(field) => match field {
                JsonValue::Str(s) => s,
                _ => {
                    return None;
                },
            },
            None => {
                return None;
            },
        };
        let major = get_java_major_version(raw.as_str());
        let mut outer = String::from_str("Java ");
        outer.append(major.as_str());
        let inner = raw.clone();
        proof {
            assert(outer@ =~= "Java "@ + spec_java_major_version(raw@));
        }
        Some(drilldown_wrap(outer, inner))
    }
}

/// What the Java version strategy yields for a submission: a drilldown
/// grouping with outer label `Java {major}` and the full raw version as the
/// single inner label with count one, or nothing when the `javaVersion`
/// extra is missing or not a string.
pub open spec fn spec_parse_java_version(schema: SubmissionView) -> Option<JsonView> {
    match crate::json::assoc_view_get(schema.extra, "javaVersion"@) {
        Some(JsonView::Str(s)) => Some(
            spec_drilldown_wrap("Java "@ + spec_java_major_version(s), s),
        ),
        _ => None,
    }
}

} // verus!
