//! Chart configuration records: the chart type tag, the stored chart record
//! with its opaque per-type configuration document, and the template a
//! tenant declares for its default charts.

pub mod advanced_pie;
pub mod drilldown_pie;
pub mod simple_map;
pub mod simple_pie;
pub mod single_line_chart;

use vstd::prelude::*;
use crate::json::JsonValue;
use crate::json::JsonView;
use crate::strutil::str_eq;
use vstd::string::StringExecFns;

verus! {

/// The kind of aggregation a chart performs.
#[derive(Debug, Clone, Copy, PartialEq, Eq, Structural)]
pub enum ChartType {
    SingleLineChart,
    SimplePie,
    AdvancedPie,
    DrilldownPie,
    SimpleMap,
    AdvancedMap,
    SimpleBar,
    AdvancedBar,
}

/// The chart type a stored type tag decodes to, or nothing for an unknown
/// tag.
pub open spec fn spec_chart_type_of(s: Seq<char>) -> Option<ChartType> {
    if s == "single_linechart"@ {
        Some(ChartType::SingleLineChart)
    } else if s == "simple_pie"@ {
        Some(ChartType::SimplePie)
    } else if s == "advanced_pie"@ {
        Some(ChartType::AdvancedPie)
    } else if s == "drilldown_pie"@ {
        Some(ChartType::DrilldownPie)
    } else if s == "simple_map"@ {
        Some(ChartType::SimpleMap)
    } else if s == "advanced_map"@ {
        Some(ChartType::AdvancedMap)
    } else if s == "simple_bar"@ {
        Some(ChartType::SimpleBar)
    } else if s == "advanced_bar"@ {
        Some(ChartType::AdvancedBar)
    } else {
        None
    }
}

/// Decodes a stored chart type tag.
pub fn chart_type_from_str(s: &str) -> (r: Option<ChartType>)
    ensures
        r == spec_chart_type_of(s@),
{
    if str_eq(s, "single_linechart") {
        Some(ChartType::SingleLineChart)
    } else if str_eq(s, "simple_pie") {
        Some(ChartType::SimplePie)
    } else if str_eq(s, "advanced_pie") {
        Some(ChartType::AdvancedPie)
    } else if str_eq(s, "drilldown_pie") {
        Some(ChartType::DrilldownPie)
    } else if str_eq(s, "simple_map") {
        Some(ChartType::SimpleMap)
    } else if str_eq(s, "advanced_map") {
        Some(ChartType::AdvancedMap)
    } else if str_eq(s, "simple_bar") {
        Some(ChartType::SimpleBar)
    } else if str_eq(s, "advanced_bar") {
        Some(ChartType::AdvancedBar)
    } else {
        None
    }
}

/// One configured chart of a service.
#[derive(Debug, Clone)]
pub struct Chart {
    /// The chart's globally unique numeric id.
    pub id: u64,
    /// The human-readable id, unique only within the owning service.
    pub id_custom: String,
    pub chart_type: ChartType,
    pub position: u16,
    pub title: String,
    /// Whether the chart is a default chart, auto-populated from a template.
    pub default: bool,
    /// The opaque per-type configuration document.
    pub data: JsonValue,
    /// The id of the owning service.
    pub service_id: u32,
}

/// The shape of a chart record.
#[verifier::ext_equal]
pub struct ChartView {
    pub id: u64,
    pub id_custom: Seq<char>,
    pub chart_type: ChartType,
    pub position: u16,
    pub title: Seq<char>,
    pub default: bool,
    pub data: JsonView,
    pub service_id: u32,
}

impl View for Chart {
    type V = ChartView;

    open spec fn view(&self) -> ChartView {
        ChartView {
            id: self.id,
            id_custom: self.id_custom@,
            chart_type: self.chart_type,
            position: self.position,
            title: self.title@,
            default: self.default,
            data: self.data@,
            service_id: self.service_id,
        }
    }
}

/// A tenant-level template that default charts are synthesized from.
#[derive(Debug, Clone)]
pub struct DefaultChartTemplate {
    /// Becomes the synthesized chart's custom id.
    pub id: String,
    pub chart_type: ChartType,
    pub title: String,
    /// The opaque per-type data document.
    pub data: JsonValue,
    /// The opaque parser-specification document that selects and configures
    /// the field parser.
    pub request_parser: JsonValue,
}

/// The shape of a default chart template.
#[verifier::ext_equal]
pub struct TemplateView {
    pub id: Seq<char>,
    pub chart_type: ChartType,
    pub title: Seq<char>,
    pub data: JsonView,
    pub request_parser: JsonView,
}

impl View for DefaultChartTemplate {
    type V = TemplateView;

    open spec fn view(&self) -> TemplateView {
        TemplateView {
            id: self.id@,
            chart_type: self.chart_type,
            title: self.title@,
            data: self.data@,
            request_parser: self.request_parser@,
        }
    }
}

/// The shapes of a list of templates, in order.
pub open spec fn templates_view(s: Seq<DefaultChartTemplate>) -> Seq<TemplateView> {
    Seq::new(s.len(), |i: int| s[i]@)
}

/// One chart's slot of the batched multi-field fetch: each configuration
/// field as the store returned it, and the opaque `data` document already
/// decoded from its JSON text (an undecodable document reads as null, a
/// missing one as absent).
#[derive(Debug, Clone)]
pub struct ChartHash {
    pub id_custom: Option<String>,
    pub chart_type: Option<String>,
    pub position: Option<String>,
    pub title: Option<String>,
    pub default: Option<String>,
    pub data: Option<JsonValue>,
    pub service_id: Option<String>,
}

/// The shape of one fetched chart slot.
#[verifier::ext_equal]
pub struct ChartHashView {
    pub id_custom: Option<Seq<char>>,
    pub chart_type: Option<Seq<char>>,
    pub position: Option<Seq<char>>,
    pub title: Option<Seq<char>>,
    pub default: Option<Seq<char>>,
    pub data: Option<JsonView>,
    pub service_id: Option<Seq<char>>,
}

impl View for ChartHash {
    type V = ChartHashView;

    open spec fn view(&self) -> ChartHashView {
        ChartHashView {
            id_custom: match &self.id_custom {
                Some(v) => Some(v@),
                None => None,
            },
            chart_type: match &self.chart_type {
                Some(v) => Some(v@),
                None => None,
            },
            position: match &self.position {
                Some(v) => Some(v@),
                None => None,
            },
            title: match &self.title {
                Some(v) => Some(v@),
                None => None,
            },
            default: match &self.default {
                Some(v) => Some(v@),
                None => None,
            },
            data: match &self.data {
                Some(v) => Some(v@),
                None => None,
            },
            service_id: match &self.service_id {
                Some(v) => Some(v@),
                None => None,
            },
        }
    }
}

/// The configuration hash key of a chart.
pub open spec fn spec_chart_key(id: u64) -> Seq<char> {
    "charts:"@ + crate::strutil::spec_dec_nat(id as nat)
}

/// Builds the configuration hash key of a chart.
pub fn chart_key(id: u64) -> (r: String)
    ensures
        r@ == spec_chart_key(id),
{
    let mut s = String::from_str("charts:");
    crate::strutil::append_u64(&mut s, id);
    proof {
        assert(s@ =~= spec_chart_key(id));
    }
    s
}

/// What a fetched chart slot decodes to: the custom id, a known type tag,
/// a numeric position, the title, the `data` document and a numeric owner
/// service id are required; a missing `default` field or the value `0`
/// leaves the default flag clear, `1` sets it. A slot missing a required
/// field, or holding one that does not decode, resolves to nothing, and
/// only that chart is dropped.
pub open spec fn spec_chart_from_hash(id: u64, h: ChartHashView) -> Option<ChartView> {
    match (h.id_custom, h.chart_type, h.position, h.title, h.data, h.service_id) {
        (
            Some(id_custom),
            Some(type_tag),
            Some(position_text),
            Some(title),
            Some(data),
            Some(service_text),
        ) => match (
            spec_chart_type_of(type_tag),
            crate::strutil::spec_parse_u64(position_text),
            crate::strutil::spec_parse_u64(service_text),
        ) {
            (Some(chart_type), Some(position), Some(service_id)) => if position <= u16::MAX
                && service_id <= u32::MAX {
                Some(
                    ChartView {
                        id,
                        id_custom,
                        chart_type,
                        position: position as u16,
                        title,
                        default: match h.default {
                            Some(flag) => flag == "1"@,
                            None => false,
                        },
                        data,
                        service_id: service_id as u32,
                    },
                )
            } else {
                None
            },
            _ => None,
        },
        _ => None,
    }
}

/// Decodes a fetched chart slot.
pub fn chart_from_hash(id: u64, h: &ChartHash) -> (r: Option<Chart>)
    ensures
        match r {
            Some(chart) => spec_chart_from_hash(id, h@) == Some(chart@),
            None => spec_chart_from_hash(id, h@) is None,
        },
{
    let id_custom = match &h.id_custom {
        Some(v) => v.clone(),
        None => {
            return None;
        },
    };
    let chart_type = match &h.chart_type {
        Some(v) => match chart_type_from_str(v.as_str()) {
            Some(t) => t,
            None => {
                return None;
            },
        },
        None => {
            return None;
        },
    };
    let position = match &h.position {
        Some(v) => match crate::strutil::parse_u16(v.as_str()) {
            Some(n) => n,
            None => {
                return None;
            },
        },
        None => {
            return None;
        },
    };
    let title = match &h.title {
        Some(v) => v.clone(),
        None => {
            return None;
        },
    };
    let data = match &h.data {
        Some(v) => v.clone(),
        None => {
            return None;
        },
    };
    let service_id = match &h.service_id {
        Some(v) => match crate::strutil::parse_u32(v.as_str()) {
            Some(n) => n,
            None => {
                return None;
            },
        },
        None => {
            return None;
        },
    };
    let default = match &h.default {
        Some(v) => str_eq(v.as_str(), "1"),
        None => false,
    };
    Some(Chart { id, id_custom, chart_type, position, title, default, data, service_id })
}

} // verus!
