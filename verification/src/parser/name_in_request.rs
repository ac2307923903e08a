//! The named-field strategy: the template names a field of the submission
//! and whether it lives among the tenant-scoped or the service-scoped
//! extras.

use vstd::prelude::*;
use crate::json::JsonValue;
use crate::json::JsonView;
use crate::json::assoc_view_get;
use crate::json::entries_get;
use crate::strutil::str_eq;
use crate::submit_data_schema::SubmissionView;
use crate::submit_data_schema::SubmitDataSchema;

verus! {

/// A parser that reads a named field from the submission.
#[derive(Debug)]
pub struct NameInRequestParser {
    pub name_in_request: String,
    pub position: String,
}

/// What the named-field strategy yields: the named tenant-scoped extra for
/// position `global`, the named service-scoped extra for position `plugin`,
/// and nothing for any other position or a missing field.
pub open spec fn spec_parse_name_in_request(
    name: Seq<char>,
    position: Seq<char>,
    schema: SubmissionView,
) -> Option<JsonView> {
    if position == "global"@ {
        assoc_view_get(schema.extra, name)
    } else if position == "plugin"@ {
        assoc_view_get(schema.service.extra, name)
    } else {
        None
    }
}

impl NameInRequestParser {
    /// Reads the named field from the submission.
    pub fn parse(&self, schema: &SubmitDataSchema) -> (r: Option<JsonValue>)
        ensures
            match r {
                Some(v) => spec_parse_name_in_request(
                    self.name_in_request@,
                    self.position@,
                    schema@,
                ) == Some(v@),
                None => spec_parse_name_in_request(
                    self.name_in_request@,
                    self.position@,
                    schema@,
                ) is None,
            },
    {
        if str_eq(self.position.as_str(), "global") {
            match entries_get(&schema.extra, self.name_in_request.as_str()) {
                Some(v) => Some(v.clone()),
                None => None,
            }
        } else if str_eq(self.position.as_str(), "plugin") {
            match entries_get(&schema.service.extra, self.name_in_request.as_str()) {
                Some(v) => Some(v.clone()),
                None => None,
            }
        } else {
            None
        }
    }
}

} // verus!
