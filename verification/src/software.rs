//! Software (tenant) records: the store keys that locate them and the
//! decoding of their scalar hash fields. The template list under
//! `defaultCharts` is an opaque JSON document decoded by the caller and
//! handed in alongside the fields.

use vstd::prelude::*;
use vstd::string::StringExecFns;
use crate::charts::DefaultChartTemplate;
use crate::charts::TemplateView;
use crate::charts::templates_view;
use crate::strutil::append_u64;
use crate::strutil::pairs_get;
use crate::strutil::pairs_view;
use crate::strutil::parse_u16;
use crate::strutil::parse_u32;
use crate::strutil::spec_dec_nat;
use crate::strutil::spec_parse_u64;
use crate::strutil::spec_pairs_get;
use crate::strutil::str_eq;

verus! {

/// One tenant of the pipeline.
#[derive(Debug, Clone)]
pub struct Software {
    pub id: u16,
    pub name: String,
    pub url: String,
    /// The id of the companion global service, when the tenant has one.
    pub global_plugin: Option<u32>,
    pub metrics_class: Option<String>,
    pub example_plugin: Option<String>,
    /// The tenant-configured cap on submissions per client address and
    /// bucket.
    pub max_requests_per_ip: u16,
    /// The templates its default charts are synthesized from.
    pub default_charts: Vec<DefaultChartTemplate>,
    pub hide_in_plugin_list: bool,
}

/// The shape of a software record.
#[verifier::ext_equal]
pub struct SoftwareView {
    pub id: u16,
    pub name: Seq<char>,
    pub url: Seq<char>,
    pub global_plugin: Option<u32>,
    pub metrics_class: Option<Seq<char>>,
    pub example_plugin: Option<Seq<char>>,
    pub max_requests_per_ip: u16,
    pub default_charts: Seq<TemplateView>,
    pub hide_in_plugin_list: bool,
}

impl View for Software {
    type V = SoftwareView;

    open spec fn view(&self) -> SoftwareView {
        SoftwareView {
            id: self.id,
            name: self.name@,
            url: self.url@,
            global_plugin: self.global_plugin,
            metrics_class: match &self.metrics_class {
                Some(v) => Some(v@),
                None => None,
            },
            example_plugin: match &self.example_plugin {
                Some(v) => Some(v@),
                None => None,
            },
            max_requests_per_ip: self.max_requests_per_ip,
            default_charts: templates_view(self.default_charts@),
            hide_in_plugin_list: self.hide_in_plugin_list,
        }
    }
}

/// The configuration hash key of a software record.
pub open spec fn spec_software_key(id: u16) -> Seq<char> {
    "software:"@ + spec_dec_nat(id as nat)
}

/// Builds the configuration hash key of a software record.
pub fn software_key(id: u16) -> (r: String)
    ensures
        r@ == spec_software_key(id),
{
    let mut s = String::from_str("software:");
    append_u64(&mut s, id as u64);
    proof {
        assert(s@ =~= spec_software_key(id));
    }
    s
}

/// The secondary index key that maps a tenant url to the tenant's id.
pub open spec fn spec_software_url_index_key(url: Seq<char>) -> Seq<char> {
    "software.index.id.url:"@ + url
}

/// Builds the url secondary index key of a software record.
pub fn software_url_index_key(url: &str) -> (r: String)
    ensures
        r@ == spec_software_url_index_key(url@),
{
    let mut s = String::from_str("software.index.id.url:");
    s.append(url);
    proof {
        assert(s@ =~= spec_software_url_index_key(url@));
    }
    s
}

/// What a software record's scalar hash fields decode to, given the
/// already-decoded template list: `name`, `url` and a numeric
/// `maxRequestsPerIp` are required; `globalPlugin`, when present, must be
/// numeric; `metricsClass` and `examplePlugin` are optional text; a missing
/// `hideInPluginList` or the value `0` leaves the flag clear. A record
/// missing a required field, or holding one that does not decode, resolves
/// to nothing.
pub open spec fn spec_software_from_hash(
    id: u16,
    h: Seq<(Seq<char>, Seq<char>)>,
    default_charts: Seq<TemplateView>,
) -> Option<SoftwareView> {
    match (spec_pairs_get(h, "name"@), spec_pairs_get(h, "url"@), spec_pairs_get(
        h,
        "maxRequestsPerIp"@,
    )) {
        (Some(name), Some(url), Some(max_text)) => match spec_parse_u64(max_text) {
            Some(max_requests) => if max_requests <= u16::MAX {
                match spec_pairs_get(h, "globalPlugin"@) {
                    Some(global_text) => match spec_parse_u64(global_text) {
                        Some(global_id) => if global_id <= u32::MAX {
                            Some(
                                spec_software_view(
                                    id,
                                    h,
                                    name,
                                    url,
                                    Some(global_id as u32),
                                    max_requests as u16,
                                    default_charts,
                                ),
                            )
                        } else {
                            None
                        },
                        None => None,
                    },
                    None => Some(
                        spec_software_view(
                            id,
                            h,
                            name,
                            url,
                            None,
                            max_requests as u16,
                            default_charts,
                        ),
                    ),
                }
            } else {
                None
            },
            None => None,
        },
        _ => None,
    }
}

/// The decoded software record, once the required fields are in hand.
pub open spec fn spec_software_view(
    id: u16,
    h: Seq<(Seq<char>, Seq<char>)>,
    name: Seq<char>,
    url: Seq<char>,
    global_plugin: Option<u32>,
    max_requests_per_ip: u16,
    default_charts: Seq<TemplateView>,
) -> SoftwareView {
    SoftwareView {
        id,
        name,
        url,
        global_plugin,
        metrics_class: spec_pairs_get(h, "metricsClass"@),
        example_plugin: spec_pairs_get(h, "examplePlugin"@),
        max_requests_per_ip,
        default_charts,
        hide_in_plugin_list: match spec_pairs_get(h, "hideInPluginList"@) {
            Some(flag) => flag != "0"@,
            None => false,
        },
    }
}

/// Decodes a software record's scalar hash fields, attaching the
/// already-decoded template list.
pub fn software_from_hash(
    id: u16,
    fields: &Vec<(String, String)>,
    default_charts: Vec<DefaultChartTemplate>,
) -> (r: Option<Software>)
    ensures
        match r {
            Some(software) => spec_software_from_hash(
                id,
                pairs_view(fields@),
                templates_view(default_charts@),
            ) == Some(software@),
            None => spec_software_from_hash(
                id,
                pairs_view(fields@),
                templates_view(default_charts@),
            ) is None,
        },
{
    let name = match pairs_get(fields, "name") {
        Some(v) => v.clone(),
        None => {
            return None;
        },
    };
    let url = match pairs_get(fields, "url") {
        Some(v) => v.clone(),
        None => {
            return None;
        },
    };
    let max_requests_per_ip = match pairs_get(fields, "maxRequestsPerIp") {
        Some(v) => match parse_u16(v.as_str()) {
            Some(n) => n,
            None => {
                return None;
            },
        },
        None => {
            return None;
        },
    };
    let global_plugin = match pairs_get(fields, "globalPlugin") {
        Some(v) => match parse_u32(v.as_str()) {
            Some(n) => Some(n),
            None => {
                return None;
            },
        },
        None => None,
    };
    let metrics_class = match pairs_get(fields, "metricsClass") {
        Some(v) => Some(v.clone()),
        None => None,
    };
    let example_plugin = match pairs_get(fields, "examplePlugin") {
        Some(v) => Some(v.clone()),
        None => None,
    };
    let hide_in_plugin_list = match pairs_get(fields, "hideInPluginList") {
        Some(v) => !str_eq(v.as_str(), "0"),
        None => false,
    };
    Some(
        Software {
            id,
            name,
            url,
            global_plugin,
            metrics_class,
            example_plugin,
            max_requests_per_ip,
            default_charts,
            hide_in_plugin_list,
        },
    )
}

} // verus!
