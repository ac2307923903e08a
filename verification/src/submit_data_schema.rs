//! The canonical submission: one reporting server's payload for one service
//! of one tenant, plus the nested per-service part and the per-chart parts.

use vstd::prelude::*;
use crate::json::JsonValue;
use crate::json::JsonView;
use crate::json::json_entry_views;
use crate::json::clone_object_entries;

verus! {

/// One chart's part of a submission: the chart's custom id, the opaque
/// payload, and whether this part was synthesized server-side from a default
/// chart template. A client can never set `trusted`.
#[derive(Debug, Clone)]
pub struct SubmitDataChartSchema {
    pub chart_id: String,
    pub data: JsonValue,
    pub trusted: bool,
}

/// The shape of one chart's part of a submission.
#[verifier::ext_equal]
pub struct ChartSubmissionView {
    pub chart_id: Seq<char>,
    pub data: JsonView,
    pub trusted: bool,
}

impl View for SubmitDataChartSchema {
    type V = ChartSubmissionView;

    open spec fn view(&self) -> ChartSubmissionView {
        ChartSubmissionView {
            chart_id: self.chart_id@,
            data: self.data@,
            trusted: self.trusted,
        }
    }
}

/// The shapes of a list of chart submissions, in order.
pub open spec fn chart_submissions_view(s: Seq<SubmitDataChartSchema>) -> Seq<
    ChartSubmissionView,
> {
    Seq::new(s.len(), |i: int| s[i]@)
}

/// The service-scoped part of a submission: the target service and the
/// client-declared custom chart parts, plus arbitrary extra fields that
/// service-scoped field parsers may read.
#[derive(Debug, Clone)]
pub struct SubmitDataServiceSchema {
    pub id: u32,
    pub custom_charts: Option<Vec<SubmitDataChartSchema>>,
    pub extra: Vec<(String, JsonValue)>,
}

/// The shape of the service-scoped part of a submission.
#[verifier::ext_equal]
pub struct ServiceSubmissionView {
    pub id: u32,
    pub custom_charts: Option<Seq<ChartSubmissionView>>,
    pub extra: Seq<(Seq<char>, JsonView)>,
}

impl View for SubmitDataServiceSchema {
    type V = ServiceSubmissionView;

    open spec fn view(&self) -> ServiceSubmissionView {
        ServiceSubmissionView {
            id: self.id,
            custom_charts: match &self.custom_charts {
                Some(charts) => Some(chart_submissions_view(charts@)),
                None => None,
            },
            extra: json_entry_views(self.extra@),
        }
    }
}

/// One full submission: the reporting server's identifier, the client
/// library version, the service part, and arbitrary tenant-scoped extra
/// fields that tenant-scoped field parsers may read.
#[derive(Debug, Clone)]
pub struct SubmitDataSchema {
    pub server_uuid: String,
    pub metrics_version: Option<String>,
    pub service: SubmitDataServiceSchema,
    pub extra: Vec<(String, JsonValue)>,
}

/// The shape of one full submission.
#[verifier::ext_equal]
pub struct SubmissionView {
    pub server_uuid: Seq<char>,
    pub metrics_version: Option<Seq<char>>,
    pub service: ServiceSubmissionView,
    pub extra: Seq<(Seq<char>, JsonView)>,
}

impl View for SubmitDataSchema {
    type V = SubmissionView;

    open spec fn view(&self) -> SubmissionView {
        SubmissionView {
            server_uuid: self.server_uuid@,
            metrics_version: match &self.metrics_version {
                Some(v) => Some(v@),
                None => None,
            },
            service: self.service@,
            extra: json_entry_views(self.extra@),
        }
    }
}

impl SubmitDataSchema {
    /// The submission a global-forward derives: the same server identifier,
    /// client version and tenant-scoped extras, addressed to the companion
    /// service, with no custom charts and no service-scoped extras.
    pub fn derive_for_service(&self, service_id: u32) -> (r: SubmitDataSchema)
        ensures
            r@.server_uuid == self@.server_uuid,
            r@.metrics_version == self@.metrics_version,
            r@.extra == self@.extra,
            r@.service.id == service_id,
            r@.service.custom_charts is None,
            r@.service.extra.len() == 0,
    {
        let r = SubmitDataSchema {
            server_uuid: self.server_uuid.clone(),
            metrics_version: match &self.metrics_version {
                Some(v) => Some(v.clone()),
                None => None,
            },
            service: SubmitDataServiceSchema {
                id: service_id,
                custom_charts: None,
                extra: Vec::new(),
            },
            extra: clone_object_entries(&self.extra),
        };
        proof {
            assert(json_entry_views(r.service.extra@) =~= Seq::<(Seq<char>, JsonView)>::empty());
        }
        r
    }
}

} // verus!
