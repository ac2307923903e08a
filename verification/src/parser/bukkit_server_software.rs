//! The server-software parser: classifies the server fork by scanning a
//! priority-ordered table of brand substrings against the raw version
//! string, case-insensitively; order matters because some brand tokens are
//! substrings of others. With no substring match, the raw name field is
//! tried as an exact case-insensitive brand; with no match at all, the fork
//! is `Unknown`.

use vstd::prelude::*;
use vstd::string::StringExecFns;
use crate::json::JsonValue;
use crate::json::JsonView;
use crate::parser::simple_pie_wrap;
use crate::parser::spec_simple_pie_wrap;
use crate::strutil::lower_seq;
use crate::strutil::spec_contains;
use crate::strutil::str_contains;
use crate::strutil::str_contains_ignore_ascii_case;
use crate::strutil::str_eq_ignore_ascii_case;
use crate::submit_data_schema::SubmissionView;
use crate::submit_data_schema::SubmitDataSchema;

verus! {

/// The fork whose brand token occurs first, by table order, in the
/// lowercased raw version string.
pub open spec fn spec_version_brand(vl: Seq<char>) -> Option<Seq<char>> {
    if spec_contains(vl, "bukkit"@) {
        Some("Bukkit"@)
    } else if spec_contains(vl, "taco"@) {
        Some("TacoSpigot"@)
    } else if spec_contains(vl, "paper"@) {
        Some("Paper"@)
    } else if spec_contains(vl, "folia"@) {
        Some("Folia"@)
    } else if spec_contains(vl, "spigot"@) {
        Some("Spigot"@)
    } else if spec_contains(vl, "catserver"@) {
        Some("CatServer"@)
    } else if spec_contains(vl, "lava"@) {
        Some("Lava"@)
    } else if spec_contains(vl, "mohist"@) {
        Some("Mohist"@)
    } else if spec_contains(vl, "tuinity"@) {
        Some("Tuinity"@)
    } else if spec_contains(vl, "purpur"@) {
        Some("Purpur"@)
    } else if spec_contains(vl, "airplane"@) {
        Some("Airplane"@)
    } else if spec_contains(vl, "yatopia"@) {
        Some("Yatopia"@)
    } else if spec_contains(vl, "arclight"@) {
        Some("Arclight"@)
    } else if spec_contains(vl, "magma"@) {
        Some("Magma"@)
    } else if spec_contains(vl, "titanium"@) {
        Some("Titanium"@)
    } else if spec_contains(vl, "scissors"@) {
        Some("Scissors"@)
    } else if spec_contains(vl, "gale"@) {
        Some("Gale"@)
    } else if spec_contains(vl, "glowstone"@) {
        Some("Glowstone"@)
    } else if spec_contains(vl, "pufferfish"@) {
        Some("Pufferfish"@)
    } else if spec_contains(vl, "leaves"@) {
        Some("Leaves"@)
    } else if spec_contains(vl, "leaf"@) {
        Some("Leaf"@)
    } else {
        None
    }
}

/// The fork whose brand token the lowercased raw name equals exactly.
pub open spec fn spec_name_brand(nl: Seq<char>) -> Option<Seq<char>> {
    if nl == "bukkit"@ {
        Some("Bukkit"@)
    } else if nl == "taco"@ {
        Some("TacoSpigot"@)
    } else if nl == "paper"@ {
        Some("Paper"@)
    } else if nl == "folia"@ {
        Some("Folia"@)
    } else if nl == "spigot"@ {
        Some("Spigot"@)
    } else if nl == "catserver"@ {
        Some("CatServer"@)
    } else if nl == "lava"@ {
        Some("Lava"@)
    } else if nl == "mohist"@ {
        Some("Mohist"@)
    } else if nl == "tuinity"@ {
        Some("Tuinity"@)
    } else if nl == "purpur"@ {
        Some("Purpur"@)
    } else if nl == "airplane"@ {
        Some("Airplane"@)
    } else if nl == "yatopia"@ {
        Some("Yatopia"@)
    } else if nl == "arclight"@ {
        Some("Arclight"@)
    } else if nl == "magma"@ {
        Some("Magma"@)
    } else if nl == "titanium"@ {
        Some("Titanium"@)
    } else if nl == "scissors"@ {
        Some("Scissors"@)
    } else if nl == "gale"@ {
        Some("Gale"@)
    } else if nl == "glowstone"@ {
        Some("Glowstone"@)
    } else if nl == "pufferfish"@ {
        Some("Pufferfish"@)
    } else if nl == "leaves"@ {
        Some("Leaves"@)
    } else if nl == "leaf"@ {
        Some("Leaf"@)
    } else {
        None
    }
}

/// The fork name a raw version string and raw name classify to. Without a
/// raw version string, or one lacking the marker `MC:` (a legacy sender),
/// nothing is produced. Otherwise the version string's brands decide first,
/// then the raw name as an exact brand, then the literal `Unknown`.
pub open spec fn spec_parse_server_software(
    bukkit_version: Option<Seq<char>>,
    bukkit_name: Option<Seq<char>>,
) -> Option<Seq<char>> {
    match bukkit_version {
        None => None,
        Some(v) => if !spec_contains(v, "MC:"@) {
            None
        } else {
            match spec_version_brand(lower_seq(v)) {
                Some(brand) => Some(brand),
                None => match bukkit_name {
                    Some(name) => match spec_name_brand(lower_seq(name)) {
                        Some(brand) => Some(brand),
                        None => Some("Unknown"@),
                    },
                    None => Some("Unknown"@),
                },
            }
        },
    }
}

/// A proof that each brand token is already lowercase, so that folding the
/// token itself changes nothing.
proof fn lemma_brand_tokens_lowercase()
    ensures
        lower_seq("bukkit"@) == "bukkit"@,
        lower_seq("taco"@) == "taco"@,
        lower_seq("paper"@) == "paper"@,
        lower_seq("folia"@) == "folia"@,
        lower_seq("spigot"@) == "spigot"@,
        lower_seq("catserver"@) == "catserver"@,
        lower_seq("lava"@) == "lava"@,
        lower_seq("mohist"@) == "mohist"@,
        lower_seq("tuinity"@) == "tuinity"@,
        lower_seq("purpur"@) == "purpur"@,
        lower_seq("airplane"@) == "airplane"@,
        lower_seq("yatopia"@) == "yatopia"@,
        lower_seq("arclight"@) == "arclight"@,
        lower_seq("magma"@) == "magma"@,
        lower_seq("titanium"@) == "titanium"@,
        lower_seq("scissors"@) == "scissors"@,
        lower_seq("gale"@) == "gale"@,
        lower_seq("glowstone"@) == "glowstone"@,
        lower_seq("pufferfish"@) == "pufferfish"@,
        lower_seq("leaves"@) == "leaves"@,
        lower_seq("leaf"@) == "leaf"@,
{
    reveal_strlit("bukkit");
    reveal_strlit("taco");
    reveal_strlit("paper");
    reveal_strlit("folia");
    reveal_strlit("spigot");
    reveal_strlit("catserver");
    reveal_strlit("lava");
    reveal_strlit("mohist");
    reveal_strlit("tuinity");
    reveal_strlit("purpur");
    reveal_strlit("airplane");
    reveal_strlit("yatopia");
    reveal_strlit("arclight");
    reveal_strlit("magma");
    reveal_strlit("titanium");
    reveal_strlit("scissors");
    reveal_strlit("gale");
    reveal_strlit("glowstone");
    reveal_strlit("pufferfish");
    reveal_strlit("leaves");
    reveal_strlit("leaf");
    assert(lower_seq("bukkit"@) =~= "bukkit"@);
    assert(lower_seq("taco"@) =~= "taco"@);
    assert(lower_seq("paper"@) =~= "paper"@);
    assert(lower_seq("folia"@) =~= "folia"@);
    assert(lower_seq("spigot"@) =~= "spigot"@);
    assert(lower_seq("catserver"@) =~= "catserver"@);
    assert(lower_seq("lava"@) =~= "lava"@);
    assert(lower_seq("mohist"@) =~= "mohist"@);
    assert(lower_seq("tuinity"@) =~= "tuinity"@);
    assert(lower_seq("purpur"@) =~= "purpur"@);
    assert(lower_seq("airplane"@) =~= "airplane"@);
    assert(lower_seq("yatopia"@) =~= "yatopia"@);
    assert(lower_seq("arclight"@) =~= "arclight"@);
    assert(lower_seq("magma"@) =~= "magma"@);
    assert(lower_seq("titanium"@) =~= "titanium"@);
    assert(lower_seq("scissors"@) =~= "scissors"@);
    assert(lower_seq("gale"@) =~= "gale"@);
    assert(lower_seq("glowstone"@) =~= "glowstone"@);
    assert(lower_seq("pufferfish"@) =~= "pufferfish"@);
    assert(lower_seq("leaves"@) =~= "leaves"@);
    assert(lower_seq("leaf"@) =~= "leaf"@);
}

/// Classifies the server fork from the raw version string and raw name.
pub fn parse_bukkit_server_software(bukkit_version: Option<&str>, bukkit_name: Option<&str>) -> (r:
    Option<String>)
    ensures
        ({
            let expected = spec_parse_server_software(
                match bukkit_version {
                    Some(v) => Some(v@),
                    None => None,
                },
                match bukkit_name {
                    Some(n) => Some(n@),
                    None => None,
                },
            );
            match r {
                Some(name) => expected == Some(name@),
                None => expected is None,
            }
        }),
{
    let version = match bukkit_version {
        Some(v) => v,
        None => {
            return None;
        },
    };
    if !str_contains(version, "MC:") {
        return None;
    }
    proof {
        lemma_brand_tokens_lowercase();
    }
    let from_version: Option<&'static str> = if str_contains_ignore_ascii_case(version, "bukkit") {
        Some("Bukkit")
    } else if str_contains_ignore_ascii_case(version, "taco") {
        Some("TacoSpigot")
    } else if str_contains_ignore_ascii_case(version, "paper") {
        Some("Paper")
    } else if str_contains_ignore_ascii_case(version, "folia") {
        Some("Folia")
    } else if str_contains_ignore_ascii_case(version, "spigot") {
        Some("Spigot")
    } else if str_contains_ignore_ascii_case(version, "catserver") {
        Some("CatServer")
    } else if str_contains_ignore_ascii_case(version, "lava") {
        Some("Lava")
    } else if str_contains_ignore_ascii_case(version, "mohist") {
        Some("Mohist")
    } else if str_contains_ignore_ascii_case(version, "tuinity") {
        Some("Tuinity")
    } else if str_contains_ignore_ascii_case(version, "purpur") {
        Some("Purpur")
    } else if str_contains_ignore_ascii_case(version, "airplane") {
        Some("Airplane")
    } else if str_contains_ignore_ascii_case(version, "yatopia") {
        Some("Yatopia")
    } else if str_contains_ignore_ascii_case(version, "arclight") {
        Some("Arclight")
    } else if str_contains_ignore_ascii_case(version, "magma") {
        Some("Magma")
    } else if str_contains_ignore_ascii_case(version, "titanium") {
        Some("Titanium")
    } else if str_contains_ignore_ascii_case(version, "scissors") {
        Some("Scissors")
    } else if str_contains_ignore_ascii_case(version, "gale") {
        Some("Gale")
    } else if str_contains_ignore_ascii_case(version, "glowstone") {
        Some("Glowstone")
    } else if str_contains_ignore_ascii_case(version, "pufferfish") {
        Some("Pufferfish")
    } else if str_contains_ignore_ascii_case(version, "leaves") {
        Some("Leaves")
    } else if str_contains_ignore_ascii_case(version, "leaf") {
        Some("Leaf")
    } else {
        None
    };
    if let Some(brand) = from_version {
        return Some(brand.to_owned());
    }
    let name = match bukkit_name {
        Some(n) => n,
        None => {
            return Some(String::from_str("Unknown"));
        },
    };
    let from_name: Option<&'static str> = if str_eq_ignore_ascii_case(name, "bukkit") {
        Some("Bukkit")
    } else if str_eq_ignore_ascii_case(name, "taco") {
        Some("TacoSpigot")
    } else if str_eq_ignore_ascii_case(name, "paper") {
        Some("Paper")
    } else if str_eq_ignore_ascii_case(name, "folia") {
        Some("Folia")
    } else if str_eq_ignore_ascii_case(name, "spigot") {
        Some("Spigot")
    } else if str_eq_ignore_ascii_case(name, "catserver") {
        Some("CatServer")
    } else if str_eq_ignore_ascii_case(name, "lava") {
        Some("Lava")
    } else if str_eq_ignore_ascii_case(name, "mohist") {
        Some("Mohist")
    } else if str_eq_ignore_ascii_case(name, "tuinity") {
        Some("Tuinity")
    } else if str_eq_ignore_ascii_case(name, "purpur") {
        Some("Purpur")
    } else if str_eq_ignore_ascii_case(name, "airplane") {
        Some("Airplane")
    } else if str_eq_ignore_ascii_case(name, "yatopia") {
        Some("Yatopia")
    } else if str_eq_ignore_ascii_case(name, "arclight") {
        Some("Arclight")
    } else if str_eq_ignore_ascii_case(name, "magma") {
        Some("Magma")
    } else if str_eq_ignore_ascii_case(name, "titanium") {
        Some("Titanium")
    } else if str_eq_ignore_ascii_case(name, "scissors") {
        Some("Scissors")
    } else if str_eq_ignore_ascii_case(name, "gale") {
        Some("Gale")
    } else if str_eq_ignore_ascii_case(name, "glowstone") {
        Some("Glowstone")
    } else if str_eq_ignore_ascii_case(name, "pufferfish") {
        Some("Pufferfish")
    } else if str_eq_ignore_ascii_case(name, "leaves") {
        Some("Leaves")
    } else if str_eq_ignore_ascii_case(name, "leaf") {
        Some("Leaf")
    } else {
        None
    };
    match from_name {
        Some(brand) => Some(brand.to_owned()),
        None => Some(String::from_str("Unknown")),
    }
}

/// A parser for the `bukkitVersion` and `bukkitName` extra fields.
#[derive(Debug)]
pub struct BukkitServerSoftwareParser;

impl BukkitServerSoftwareParser {
    /// Reads the `bukkitVersion` and `bukkitName` extra fields and yields
    /// the classified fork wrapped as a simple-pie value.
    pub fn parse(&self, schema: &SubmitDataSchema) -> (r: Option<JsonValue>)
        ensures
            match r {
                Some(v) => spec_parse_server_software_submission(schema@) == Some(v@),
                None => spec_parse_server_software_submission(schema@) is None,
            },
    {
        let version: Option<&str> = match crate::json::entries_get(&schema.extra, "bukkitVersion") {
            Some(field) => match field {
                JsonValue::Str(s) => Some(s.as_str()),
                _ => None,
            },
            None => None,
        };
        let name: Option<&str> = match crate::json::entries_get(&schema.extra, "bukkitName") {
            Some(field) => match field {
                JsonValue::Str(s) => Some(s.as_str()),
                _ => None,
            },
            None => None,
        };
        match parse_bukkit_server_software(version, name) {
            Some(brand) => Some(simple_pie_wrap(brand)),
            None => None,
        }
    }
}

/// The view of the `bukkitVersion` extra as an optional string: a missing
/// or non-string field reads as absent.
pub open spec fn spec_str_extra(schema: SubmissionView, key: Seq<char>) -> Option<Seq<char>> {
    match crate::json::assoc_view_get(schema.extra, key) {
        Some(JsonView::Str(s)) => Some(s),
        _ => None,
    }
}

/// What the server-software strategy yields for a submission: the fork
/// classified from the `bukkitVersion` and `bukkitName` extras, wrapped as
/// a simple-pie value, or nothing when classification yields nothing.
pub open spec fn spec_parse_server_software_submission(schema: SubmissionView) -> Option<
    JsonView,
> {
    match spec_parse_server_software(
        spec_str_extra(schema, "bukkitVersion"@),
        spec_str_extra(schema, "bukkitName"@),
    ) {
        Some(brand) => Some(spec_simple_pie_wrap(brand)),
        None => None,
    }
}

} // verus!
