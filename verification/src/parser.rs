//! The field parser dispatcher: selects one strategy per default chart
//! template, first-match over the recognized keys of the template's
//! parser-specification document, and runs it against a submission.

pub mod bukkit_minecraft_version;
pub mod bukkit_server_software;
pub mod bungeecord_version;
pub mod java_version;
pub mod name_in_request;
pub mod os;
pub mod predefined_value;

use vstd::prelude::*;
use vstd::string::StringExecFns;
use crate::charts::DefaultChartTemplate;
use crate::json::JsonValue;
use crate::json::JsonView;
use crate::json::json_entry_views;
use crate::json::lemma_json_entry_views;
use crate::parser::bukkit_minecraft_version::BukkitMinecraftVersionParser;
use crate::parser::bukkit_minecraft_version::spec_parse_bukkit_mc_submission;
use crate::parser::bukkit_server_software::BukkitServerSoftwareParser;
use crate::parser::bukkit_server_software::spec_parse_server_software_submission;
use crate::parser::bungeecord_version::BungeecordVersionParser;
use crate::parser::bungeecord_version::spec_parse_bungeecord;
use crate::parser::java_version::JavaVersionParser;
use crate::parser::java_version::spec_parse_java_version;
use crate::parser::name_in_request::NameInRequestParser;
use crate::parser::name_in_request::spec_parse_name_in_request;
use crate::parser::os::OsParser;
use crate::parser::os::spec_parse_os_submission;
use crate::parser::predefined_value::PredefinedValueParser;
use crate::parser::predefined_value::spec_parse_predefined;
use crate::submit_data_schema::SubmissionView;
use crate::submit_data_schema::SubmitDataSchema;

verus! {

/// A simple-pie payload document around one label.
pub open spec fn spec_simple_pie_wrap(label: Seq<char>) -> JsonView {
    JsonView::Object(seq![("value"@, JsonView::Str(label))])
}

/// Wraps a label as a simple-pie payload document.
pub fn simple_pie_wrap(label: String) -> (r: JsonValue)
    ensures
        r@ == spec_simple_pie_wrap(label@),
{
    let mut entries: Vec<(String, JsonValue)> = Vec::new();
    entries.push((String::from_str("value"), JsonValue::Str(label)));
    proof {
        lemma_json_entry_views(entries@);
    }
    let r = JsonValue::Object(entries);
    proof {
        assert(r@ =~= spec_simple_pie_wrap(label@));
    }
    r
}

/// A drilldown payload document around one outer label with one inner
/// label of count one.
pub open spec fn spec_drilldown_wrap(outer: Seq<char>, inner: Seq<char>) -> JsonView {
    JsonView::Object(
        seq![
            (
                "values"@,
                JsonView::Object(
                    seq![(outer, JsonView::Object(seq![(inner, JsonView::Int(1))]))],
                ),
            ),
        ],
    )
}

/// Wraps one outer and inner label as a drilldown payload document with
/// count one.
pub fn drilldown_wrap(outer: String, inner: String) -> (r: JsonValue)
    ensures
        r@ == spec_drilldown_wrap(outer@, inner@),
{
    let mut innermost: Vec<(String, JsonValue)> = Vec::new();
    innermost.push((inner, JsonValue::Int(1)));
    proof {
        lemma_json_entry_views(innermost@);
    }
    let ghost iv = json_entry_views(innermost@);
    let mut middle: Vec<(String, JsonValue)> = Vec::new();
    middle.push((outer, JsonValue::Object(innermost)));
    proof {
        lemma_json_entry_views(middle@);
        assert(iv =~= seq![(inner@, JsonView::Int(1))]);
    }
    let ghost mv = json_entry_views(middle@);
    let mut entries: Vec<(String, JsonValue)> = Vec::new();
    entries.push((String::from_str("values"), JsonValue::Object(middle)));
    proof {
        lemma_json_entry_views(entries@);
        assert(mv =~= seq![(outer@, JsonView::Object(iv))]);
    }
    let r = JsonValue::Object(entries);
    proof {
        assert(r@ =~= spec_drilldown_wrap(outer@, inner@));
    }
    r
}

/// One selected field-parsing strategy, with what it needs to run.
#[derive(Debug)]
pub enum ValueSource {
    Predefined(PredefinedValueParser),
    Os(OsParser),
    JavaVersion(JavaVersionParser),
    BukkitMinecraftVersion(BukkitMinecraftVersionParser),
    BukkitServerSoftware(BukkitServerSoftwareParser),
    BungeecordVersion(BungeecordVersionParser),
    NameInRequest(NameInRequestParser),
}

/// Which strategy a parser-specification document selects, first-match
/// over its recognized keys:
///
/// - a `predefinedValue` key selects the predefined-value strategy with
///   that value;
/// - a `useHardcodedParser` key naming a known built-in selects it, while
///   an unknown name falls through;
/// - a string `nameInRequest` key together with a string `position` key
///   selects the named-field strategy;
/// - anything else selects nothing.
#[verifier::ext_equal]
pub enum ParserChoice {
    Predefined(JsonView),
    Os,
    JavaVersion,
    BukkitMinecraftVersion,
    BukkitServerSoftware,
    BungeecordVersion,
    NameInRequest(Seq<char>, Seq<char>),
    NoStrategy,
}

/// The strategy a parser-specification document selects.
pub open spec fn spec_parser_choice(rp: JsonView) -> ParserChoice {
    match rp.get("predefinedValue"@) {
        Some(value) => ParserChoice::Predefined(value),
        None => {
            let hardcoded = rp.get("useHardcodedParser"@);
            if hardcoded == Some(JsonView::Str("os"@)) {
                ParserChoice::Os
            } else if hardcoded == Some(JsonView::Str("javaVersion"@)) {
                ParserChoice::JavaVersion
            } else if hardcoded == Some(JsonView::Str("bukkitMinecraftVersion"@)) {
                ParserChoice::BukkitMinecraftVersion
            } else if hardcoded == Some(JsonView::Str("bukkitServerSoftware"@)) {
                ParserChoice::BukkitServerSoftware
            } else if hardcoded == Some(JsonView::Str("bungeecordVersion"@)) {
                ParserChoice::BungeecordVersion
            } else {
                match (rp.get("nameInRequest"@), rp.get("position"@)) {
                    (Some(JsonView::Str(name)), Some(JsonView::Str(position))) => {
                        ParserChoice::NameInRequest(name, position)
                    },
                    _ => ParserChoice::NoStrategy,
                }
            }
        },
    }
}

/// Selects the field-parsing strategy of a template, handing the
/// predefined-value strategy the resolved country name.
pub fn get_parser(template: &DefaultChartTemplate, country_name: Option<&String>) -> (r: Option<
    ValueSource,
>)
    ensures
        ({
            let choice = spec_parser_choice(template@.request_parser);
            let country = match country_name {
                Some(name) => Some(name@),
                None => None::<Seq<char>>,
            };
            match choice {
                ParserChoice::Predefined(value) => r matches Some(ValueSource::Predefined(p))
                    && p.value@ == value && p.spec_country() == country,
                ParserChoice::Os => r matches Some(ValueSource::Os(_)),
                ParserChoice::JavaVersion => r matches Some(ValueSource::JavaVersion(_)),
                ParserChoice::BukkitMinecraftVersion => r matches Some(
                    ValueSource::BukkitMinecraftVersion(_),
                ),
                ParserChoice::BukkitServerSoftware => r matches Some(
                    ValueSource::BukkitServerSoftware(_),
                ),
                ParserChoice::BungeecordVersion => r matches Some(
                    ValueSource::BungeecordVersion(_),
                ),
                ParserChoice::NameInRequest(name, position) => r matches Some(
                    ValueSource::NameInRequest(p),
                ) && p.name_in_request@ == name && p.position@ == position,
                ParserChoice::NoStrategy => r is None,
            }
        }),
{
    if let Some(predefined_value) = template.request_parser.get("predefinedValue") {
        return Some(
            ValueSource::Predefined(
                PredefinedValueParser {
                    value: predefined_value.clone(),
                    country_name: match country_name {
                        Some(name) => Some(name.clone()),
                        None => None,
                    },
                },
            ),
        );
    }
    let hardcoded: Option<&JsonValue> = template.request_parser.get("useHardcodedParser");
    if let Some(h) = hardcoded {
        if h.is_str("os") {
            return Some(ValueSource::Os(OsParser));
        }
        if h.is_str("javaVersion") {
            return Some(ValueSource::JavaVersion(JavaVersionParser));
        }
        if h.is_str("bukkitMinecraftVersion") {
            return Some(ValueSource::BukkitMinecraftVersion(BukkitMinecraftVersionParser));
        }
        if h.is_str("bukkitServerSoftware") {
            return Some(ValueSource::BukkitServerSoftware(BukkitServerSoftwareParser));
        }
        if h.is_str("bungeecordVersion") {
            return Some(ValueSource::BungeecordVersion(BungeecordVersionParser));
        }
    }
    let name = match template.request_parser.get("nameInRequest") {
        Some(field) => match field {
            JsonValue::Str(s) => s,
            _ => {
                return None;
            },
        },
        None => {
            return None;
        },
    };
    let position = match template.request_parser.get("position") {
        Some(field) => match field {
            JsonValue::Str(s) => s,
            _ => {
                return None;
            },
        },
        None => {
            return None;
        },
    };
    Some(
        ValueSource::NameInRequest(
            NameInRequestParser { name_in_request: name.clone(), position: position.clone() },
        ),
    )
}

/// What a selected strategy yields for a submission.
pub open spec fn spec_run_choice(
    choice: ParserChoice,
    country_name: Option<Seq<char>>,
    schema: SubmissionView,
) -> Option<JsonView> {
    match choice {
        ParserChoice::Predefined(value) => spec_parse_predefined(value, country_name),
        ParserChoice::Os => spec_parse_os_submission(schema),
        ParserChoice::JavaVersion => spec_parse_java_version(schema),
        ParserChoice::BukkitMinecraftVersion => spec_parse_bukkit_mc_submission(schema),
        ParserChoice::BukkitServerSoftware => spec_parse_server_software_submission(schema),
        ParserChoice::BungeecordVersion => spec_parse_bungeecord(schema),
        ParserChoice::NameInRequest(name, position) => spec_parse_name_in_request(
            name,
            position,
            schema,
        ),
        ParserChoice::NoStrategy => None,
    }
}

impl ValueSource {
    /// The strategy this source runs, with the state it carries.
    pub open spec fn spec_choice(&self) -> ParserChoice {
        match self {
            ValueSource::Predefined(p) => ParserChoice::Predefined(p.value@),
            ValueSource::Os(_) => ParserChoice::Os,
            ValueSource::JavaVersion(_) => ParserChoice::JavaVersion,
            ValueSource::BukkitMinecraftVersion(_) => ParserChoice::BukkitMinecraftVersion,
            ValueSource::BukkitServerSoftware(_) => ParserChoice::BukkitServerSoftware,
            ValueSource::BungeecordVersion(_) => ParserChoice::BungeecordVersion,
            ValueSource::NameInRequest(p) => ParserChoice::NameInRequest(
                p.name_in_request@,
                p.position@,
            ),
        }
    }

    /// The country name a predefined-value source carries; other sources
    /// carry none and never read one.
    pub open spec fn spec_country(&self) -> Option<Seq<char>> {
        match self {
            ValueSource::Predefined(p) => p.spec_country(),
            _ => None,
        }
    }

    /// Runs the selected strategy against a submission.
    pub fn parse(&self, schema: &SubmitDataSchema) -> (r: Option<JsonValue>)
        ensures
            match r {
                Some(v) => spec_run_choice(self.spec_choice(), self.spec_country(), schema@)
                    == Some(v@),
                None => spec_run_choice(self.spec_choice(), self.spec_country(), schema@) is None,
            },
    {
        match self {
            ValueSource::Predefined(p) => p.parse(),
            ValueSource::Os(p) => p.parse(schema),
            ValueSource::JavaVersion(p) => p.parse(schema),
            ValueSource::BukkitMinecraftVersion(p) => p.parse(schema),
            ValueSource::BukkitServerSoftware(p) => p.parse(schema),
            ValueSource::BungeecordVersion(p) => p.parse(schema),
            ValueSource::NameInRequest(p) => p.parse(schema),
        }
    }
}

} // verus!
