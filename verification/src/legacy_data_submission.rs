//! The legacy bundle adapter: old client libraries sent the data of every
//! service on a server in one payload. Each bundled part is reshaped into
//! one canonical submission; a part without a service id is resolved
//! through the url-and-name index, and a part that resolves to no service
//! is skipped.

use vstd::prelude::*;
use crate::json::JsonValue;
use crate::json::JsonView;
use crate::json::clone_object_entries;
use crate::json::json_entry_views;
use crate::service::service_name_index_key;
use crate::service::spec_service_name_index_key;
use crate::submit_data_schema::ChartSubmissionView;
use crate::submit_data_schema::SubmitDataChartSchema;
use crate::submit_data_schema::SubmitDataSchema;
use crate::submit_data_schema::SubmitDataServiceSchema;
use crate::submit_data_schema::chart_submissions_view;

verus! {

/// One service's part of a legacy bundle. Older clients sent the service's
/// name instead of its id.
#[derive(Debug, Clone)]
pub struct LegacySubmitDataServiceSchema {
    pub id: Option<u32>,
    pub plugin_name: Option<String>,
    pub custom_charts: Option<Vec<SubmitDataChartSchema>>,
    pub extra: Vec<(String, JsonValue)>,
}

/// The shape of one legacy service part.
#[verifier::ext_equal]
pub struct LegacyServiceView {
    pub id: Option<u32>,
    pub plugin_name: Option<Seq<char>>,
    pub custom_charts: Option<Seq<ChartSubmissionView>>,
    pub extra: Seq<(Seq<char>, JsonView)>,
}

impl View for LegacySubmitDataServiceSchema {
    type V = LegacyServiceView;

    open spec fn view(&self) -> LegacyServiceView {
        LegacyServiceView {
            id: self.id,
            plugin_name: match &self.plugin_name {
                Some(v) => Some(v@),
                None => None,
            },
            custom_charts: match &self.custom_charts {
                Some(charts) => Some(chart_submissions_view(charts@)),
                None => None,
            },
            extra: json_entry_views(self.extra@),
        }
    }
}

/// One legacy bundle: the reporting server's identifier, all bundled
/// service parts, and the tenant-scoped extra fields.
#[derive(Debug, Clone)]
pub struct LegacySubmitDataSchema {
    pub server_uuid: String,
    pub plugins: Vec<LegacySubmitDataServiceSchema>,
    pub extra: Vec<(String, JsonValue)>,
}

/// The url-and-name index key to resolve a legacy part's service id, or
/// nothing when the part already names an id or has no name to look up.
pub fn legacy_plugin_lookup_key(
    plugin: &LegacySubmitDataServiceSchema,
    software_url: &str,
) -> (r: Option<String>)
    ensures
        match r {
            Some(key) => plugin@.id is None && (plugin@.plugin_name matches Some(name) && key@
                == spec_service_name_index_key(software_url@, name)),
            None => plugin@.id is Some || plugin@.plugin_name is None,
        },
{
    if plugin.id.is_some() {
        return None;
    }
    match &plugin.plugin_name {
        Some(name) => Some(service_name_index_key(software_url, name.as_str())),
        None => None,
    }
}

/// Reshapes one legacy part into a canonical submission: the bundle's
/// server identifier and tenant-scoped extras, no client version, and the
/// part's own charts and extras addressed to its service. The service id
/// is the part's own, or the one the index resolved; a part with neither
/// yields nothing and is skipped.
pub fn legacy_plugin_submission(
    server_uuid: &String,
    extra: &Vec<(String, JsonValue)>,
    plugin: LegacySubmitDataServiceSchema,
    resolved_id: Option<u32>,
) -> (r: Option<SubmitDataSchema>)
    ensures
        ({
            let id = match plugin@.id {
                Some(id) => Some(id),
                None => resolved_id,
            };
            match r {
                Some(s) => {
                    &&& id == Some(s@.service.id)
                    &&& s@.server_uuid == server_uuid@
                    &&& s@.metrics_version is None
                    &&& s@.extra == json_entry_views(extra@)
                    &&& s@.service.custom_charts == plugin@.custom_charts
                    &&& s@.service.extra == plugin@.extra
                },
                None => id is None,
            }
        }),
{
    let id = match plugin.id {
        Some(id) => id,
        None => match resolved_id {
            Some(id) => id,
            None => {
                return None;
            },
        },
    };
    Some(
        SubmitDataSchema {
            server_uuid: server_uuid.clone(),
            metrics_version: None,
            service: SubmitDataServiceSchema {
                id,
                custom_charts: plugin.custom_charts,
                extra: plugin.extra,
            },
            extra: clone_object_entries(extra),
        },
    )
}

} // verus!
