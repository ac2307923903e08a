//! The operating-system parser: classifies by os-name prefix, in a fixed
//! order, and yields a two-level grouping of family and version.

use vstd::prelude::*;
use vstd::string::StringExecFns;
use crate::json::JsonValue;
use crate::json::JsonView;
use crate::parser::drilldown_wrap;
use crate::parser::spec_drilldown_wrap;
use crate::strutil::spec_contains;
use crate::strutil::spec_starts_with;
use crate::strutil::str_contains;
use crate::strutil::str_starts_with;
use crate::submit_data_schema::SubmissionView;
use crate::submit_data_schema::SubmitDataSchema;

verus! {

/// A parser for the `osName` and `osVersion` extra fields.
#[derive(Debug)]
pub struct OsParser;

/// The outer and inner labels an os name and version classify to, tested
/// strictly in this order: a `Linux` prefix groups under `Linux` with the
/// kernel version as the inner label; `Windows Server`, `Windows NT` and
/// generic `Windows` prefixes group under those families with the full os
/// name; a `Mac OS X` prefix groups under `Mac OS X` with `Mac OS X
/// {version}`; a name containing `BSD` groups under `BSD` with `{name}
/// {version}`; everything else groups under `Other` with `{name}
/// ({version})`.
pub open spec fn spec_parse_os(name: Seq<char>, version: Seq<char>) -> (Seq<char>, Seq<char>) {
    if spec_starts_with(name, "Linux"@) {
        ("Linux"@, version)
    } else if spec_starts_with(name, "Windows Server"@) {
        ("Windows Server"@, name)
    } else if spec_starts_with(name, "Windows NT"@) {
        ("Windows NT"@, name)
    } else if spec_starts_with(name, "Windows"@) {
        ("Windows"@, name)
    } else if spec_starts_with(name, "Mac OS X"@) {
        ("Mac OS X"@, "Mac OS X "@ + version)
    } else if spec_contains(name, "BSD"@) {
        ("BSD"@, name + " "@ + version)
    } else {
        ("Other"@, name + " ("@ + version + ")"@)
    }
}

/// Classifies an os name and version into outer and inner labels.
pub fn parse_os(os_name: &str, os_version: &str) -> (r: (String, String))
    ensures
        (r.0@, r.1@) == spec_parse_os(os_name@, os_version@),
{
    if str_starts_with(os_name, "Linux") {
        (String::from_str("Linux"), os_version.to_owned())
    } else if str_starts_with(os_name, "Windows Server") {
        (String::from_str("Windows Server"), os_name.to_owned())
    } else if str_starts_with(os_name, "Windows NT") {
        (String::from_str("Windows NT"), os_name.to_owned())
    } else if str_starts_with(os_name, "Windows") {
        (String::from_str("Windows"), os_name.to_owned())
    } else if str_starts_with(os_name, "Mac OS X") {
        let mut inner = String::from_str("Mac OS X ");
        inner.append(os_version);
        (String::from_str("Mac OS X"), inner)
    } else if str_contains(os_name, "BSD") {
        let mut inner = os_name.to_owned();
        inner.append(" ");
        inner.append(os_version);
        proof {
            assert(inner@ =~= os_name@ + " "@ + os_version@);
        }
        (String::from_str("BSD"), inner)
    } else {
        let mut inner = os_name.to_owned();
        inner.append(" (");
        inner.append(os_version);
        inner.append(")");
        proof {
            assert(inner@ =~= os_name@ + " ("@ + os_version@ + ")"@);
        }
        (String::from_str("Other"), inner)
    }
}

impl OsParser {
    /// Reads the `osName` and `osVersion` extra fields and yields the
    /// family grouping with count one.
    pub fn parse(&self, schema: &SubmitDataSchema) -> (r: Option<JsonValue>)
        ensures
            match r {
                Some(v) => spec_parse_os_submission(schema@) == Some(v@),
                None => spec_parse_os_submission(schema@) is None,
            },
    {
        let os_name = match crate::json::entries_get(&schema.extra, "osName") {
            Some(field) => match field {
                JsonValue::Str(s) => s,
                _ => {
                    return None;
                },
            },
            None => {
                return None;
            },
        };
        let os_version = match crate::json::entries_get(&schema.extra, "osVersion") {
            Some(field) => match field {
                JsonValue::Str(s) => s,
                _ => {
                    return None;
                },
            },
            None => {
                return None;
            },
        };
        let labels = parse_os(os_name.as_str(), os_version.as_str());
        Some(drilldown_wrap(labels.0, labels.1))
    }
}

/// What the operating-system strategy yields for a submission: the family
/// grouping of the `osName` and `osVersion` extras with count one, or
/// nothing when either extra is missing or not a string.
pub open spec fn spec_parse_os_submission(schema: SubmissionView) -> Option<JsonView> {
    match (crate::json::assoc_view_get(schema.extra, "osName"@), crate::json::assoc_view_get(
        schema.extra,
        "osVersion"@,
    )) {
        (Some(JsonView::Str(name)), Some(JsonView::Str(version))) => Some(
            spec_drilldown_wrap(spec_parse_os(name, version).0, spec_parse_os(name, version).1),
        ),
        _ => None,
    }
}

} // verus!
