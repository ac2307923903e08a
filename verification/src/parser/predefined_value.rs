//! The predefined-value strategy: the template names the value outright.
//! The single literal string `%country.name%` stands for the caller's
//! resolved country name; without one, no value is produced.

use vstd::prelude::*;
use vstd::string::StringExecFns;
use crate::json::JsonValue;
use crate::json::JsonView;

verus! {

/// A parser that yields a value the template declares.
#[derive(Debug)]
pub struct PredefinedValueParser {
    pub value: JsonValue,
    pub country_name: Option<String>,
}

/// What the predefined-value strategy yields: the declared value, except
/// that the literal string `%country.name%` becomes the resolved country
/// name, or nothing when no country name is available.
pub open spec fn spec_parse_predefined(value: JsonView, country_name: Option<Seq<char>>) -> Option<
    JsonView,
> {
    if value.as_str() == Some("%country.name%"@) {
        match country_name {
            Some(name) => Some(JsonView::Str(name)),
            None => None,
        }
    } else {
        Some(value)
    }
}

impl PredefinedValueParser {
    /// The country name's view.
    pub open spec fn spec_country(&self) -> Option<Seq<char>> {
        match &self.country_name {
            Some(name) => Some(name@),
            None => None,
        }
    }

    /// Yields the declared value, substituting the resolved country name.
    pub fn parse(&self) -> (r: Option<JsonValue>)
        ensures
            match r {
                Some(v) => spec_parse_predefined(self.value@, self.spec_country()) == Some(v@),
                None => spec_parse_predefined(self.value@, self.spec_country()) is None,
            },
    {
        if self.value.is_str("%country.name%") {
            match &self.country_name {
                Some(name) => Some(JsonValue::Str(name.clone())),
                None => None,
            }
        } else {
            Some(self.value.clone())
        }
    }
}

} // verus!
