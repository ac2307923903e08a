//! The game version parser: raw version strings typically embed the game
//! version as `MC: X.Y.Z` in parentheses; the first such run is extracted.
//! A raw string without the marker comes from a legacy sender that already
//! extracted the version itself, and is taken whole.

use vstd::prelude::*;
use vstd::string::StrSliceExecFns;
use vstd::string::StringExecFns;
use crate::json::JsonValue;
use crate::json::JsonView;
use crate::parser::simple_pie_wrap;
use crate::parser::spec_simple_pie_wrap;
use crate::strutil::is_dec_digit;
use crate::strutil::spec_contains;
use crate::strutil::str_contains;
use crate::submit_data_schema::SubmissionView;
use crate::submit_data_schema::SubmitDataSchema;

verus! {

/// A parser for the `bukkitVersion` extra field.
#[derive(Debug)]
pub struct BukkitMinecraftVersionParser;

/// Whether a character can appear in an extracted version run: a digit, a
/// dot, or a backslash.
pub open spec fn is_version_char(c: char) -> bool {
    is_dec_digit(c) || c == '.' || c == '\\'
}

/// Whether the marker `MC: ` followed by at least one version character
/// stands at position `i`.
pub open spec fn spec_mc_marker_at(s: Seq<char>, i: int) -> bool {
    0 <= i && i + 5 <= s.len() && s.subrange(i, i + 4) == "MC: "@ && is_version_char(s[i + 4])
}

/// The position of the first marker match at or after `from`.
pub open spec fn spec_first_marker(s: Seq<char>, from: int) -> Option<int>
    decreases s.len() - from,
{
    if from < 0 || from + 5 > s.len() {
        None
    } else if spec_mc_marker_at(s, from) {
        Some(from)
    } else {
        spec_first_marker(s, from + 1)
    }
}

/// The end of the version run that starts at or before `j`: the first
/// position at or after `j` that is past the end or not a version
/// character.
pub open spec fn spec_version_run_end(s: Seq<char>, j: int) -> int
    decreases s.len() - j,
{
    if j < 0 || j >= s.len() || !is_version_char(s[j]) {
        j
    } else {
        spec_version_run_end(s, j + 1)
    }
}

/// The version a raw string yields. Without the bare marker `MC:` the whole
/// string is already the version. With it, the version is the run of
/// version characters after the first `MC: ` marker; if no marker is
/// followed by a version character, the whole string is taken after all.
pub open spec fn spec_parse_bukkit_minecraft_version(s: Seq<char>) -> Seq<char> {
    if !spec_contains(s, "MC:"@) {
        s
    } else {
        match spec_first_marker(s, 0) {
            Some(i) => s.subrange(i + 4, spec_version_run_end(s, i + 5)),
            None => s,
        }
    }
}

/// Whether a character can appear in an extracted version run.
fn version_char(c: char) -> (r: bool)
    ensures
        r == is_version_char(c),
{
    let code = c as u32;
    (48 <= code && code <= 57) || c == '.' || c == '\\'
}

/// Extracts the game version from a raw version string.
pub fn parse_bukkit_minecraft_version(bukkit_version: Option<&str>) -> (r: Option<String>)
    ensures
        match r {
            Some(version) => match bukkit_version {
                Some(s) => version@ == spec_parse_bukkit_minecraft_version(s@),
                None => false,
            },
            None => bukkit_version is None,
        },
{
    let s = match bukkit_version {
        Some(s) => s,
        None => {
            return None;
        },
    };
    if !str_contains(s, "MC:") {
        return Some(s.to_owned());
    }
    let len = s.unicode_len();
    if len < 5 {
        return Some(s.to_owned());
    }
    let mut i: usize = 0;
    let mut found: Option<usize> = None;
    while i <= len - 5 && found.is_none()
        invariant
            0 <= i,
            i <= len - 4,
            5 <= len == s@.len(),
            match found {
                Some(p) => spec_first_marker(s@, 0) == Some(p as int) && p + 5 <= len,
                None => spec_first_marker(s@, 0) == spec_first_marker(s@, i as int),
            },
        decreases len - i,
    {
        let marker = s.get_char(i) == 'M' && s.get_char(i + 1) == 'C' && s.get_char(i + 2) == ':'
            && s.get_char(i + 3) == ' ' && version_char(s.get_char(i + 4));
        proof {
            reveal_strlit("MC: ");
            if marker {
                assert(s@.subrange(i as int, i + 4) =~= "MC: "@);
                assert(spec_mc_marker_at(s@, i as int));
            } else {
                if spec_mc_marker_at(s@, i as int) {
                    assert(s@.subrange(i as int, i + 4)[0] == s@[i as int]);
                    assert(s@.subrange(i as int, i + 4)[1] == s@[i + 1]);
                    assert(s@.subrange(i as int, i + 4)[2] == s@[i + 2]);
                    assert(s@.subrange(i as int, i + 4)[3] == s@[i + 3]);
                }
            }
        }
        if marker {
            found = Some(i);
        }
        i = i + 1;
    }
    let start = match found {
        Some(p) => p,
        None => {
            return Some(s.to_owned());
        },
    };
    let mut j: usize = start + 5;
    while j < len && version_char(s.get_char(j))
        invariant
            start + 5 <= j <= len,
            len == s@.len(),
            spec_version_run_end(s@, start + 5) == spec_version_run_end(s@, j as int),
        decreases len - j,
    {
        j = j + 1;
    }
    Some(s.substring_char(start + 4, j).to_owned())
}

impl BukkitMinecraftVersionParser {
    /// Reads the `bukkitVersion` extra field and yields the extracted game
    /// version wrapped as a simple-pie value.
    pub fn parse(&self, schema: &SubmitDataSchema) -> (r: Option<JsonValue>)
        ensures
            match r {
                Some(v) => spec_parse_bukkit_mc_submission(schema@) == Some(v@),
                None => spec_parse_bukkit_mc_submission(schema@) is None,
            },
    {
        let raw = match crate::json::entries_get(&schema.extra, "bukkitVersion") {
            Some(field) => match field {
                JsonValue::Str(s) => s,
                _ => {
                    return None;
                },
            },
            None => {
                return None;
            },
        };
        match parse_bukkit_minecraft_version(Some(raw.as_str())) {
            Some(version) => Some(simple_pie_wrap(version)),
            None => None,
        }
    }
}

/// What the game version strategy yields for a submission: the extracted
/// version of the `bukkitVersion` extra wrapped as a simple-pie value, or
/// nothing when that extra is missing or not a string.
pub open spec fn spec_parse_bukkit_mc_submission(schema: SubmissionView) -> Option<JsonView> {
    match crate::json::assoc_view_get(schema.extra, "bukkitVersion"@) {
        Some(JsonView::Str(s)) => Some(
            spec_simple_pie_wrap(spec_parse_bukkit_minecraft_version(s)),
        ),
        _ => None,
    }
}

} // verus!
