//! The ingestion orchestrator: a per-request state machine that walks one
//! submission through blocklist filtering, tenant and service resolution,
//! rate limiting, the one-level global forward, default-chart synthesis,
//! batched chart resolution, aggregation, and the single atomic commit.
//!
//! The machine performs no store or network work itself: each step either
//! finishes with an outcome or asks its driver to perform one action and
//! hand back the resulting event.

use vstd::prelude::*;
use crate::chart_updater::BatchCommand;
use crate::chart_updater::BatchCommandView;
use crate::chart_updater::Pipeline;
use crate::chart_updater::spec_update_chart;
use crate::chart_updater::update_chart;
use crate::charts::Chart;
use crate::charts::ChartHash;
use crate::charts::ChartHashView;
use crate::charts::ChartView;
use crate::charts::DefaultChartTemplate;
use crate::charts::TemplateView;
use crate::charts::chart_key;
use crate::charts::chart_from_hash;
use crate::charts::spec_chart_from_hash;
use crate::charts::spec_chart_key;
use crate::charts::templates_view;
use crate::date_util::SECONDS_PER_TMS2000;
use crate::date_util::TMS2000_EPOCH_SECONDS;
use crate::parser::get_parser;
use crate::parser::spec_parser_choice;
use crate::parser::spec_run_choice;
use crate::ratelimits::RATELIMIT_TTL_SECONDS;
use crate::ratelimits::is_ratelimited;
use crate::ratelimits::ratelimit_key;
use crate::ratelimits::spec_ratelimit_identifier;
use crate::ratelimits::spec_ratelimit_key;
use crate::service::Service;
use crate::service::ServiceView;
use crate::service::service_from_hash;
use crate::service::service_key;
use crate::service::spec_service_from_hash;
use crate::service::spec_service_key;
use crate::software::Software;
use crate::software::SoftwareView;
use crate::software::software_from_hash;
use crate::software::software_key;
use crate::software::software_url_index_key;
use crate::software::spec_software_from_hash;
use crate::software::spec_software_key;
use crate::software::spec_software_url_index_key;
use crate::strutil::pairs_get;
use crate::strutil::pairs_view;
use crate::strutil::parse_u16;
use crate::strutil::spec_contains;
use crate::strutil::spec_pairs_get;
use crate::strutil::spec_parse_u64;
use crate::strutil::str_contains;
use crate::submit_data_schema::ChartSubmissionView;
use crate::submit_data_schema::SubmitDataChartSchema;
use crate::submit_data_schema::SubmitDataSchema;
use crate::submit_data_schema::SubmissionView;
use crate::submit_data_schema::chart_submissions_view;

verus! {

/// Whether the serialized submission holds any blocklisted substring.
pub open spec fn spec_has_blocked(s: Seq<char>, words: Seq<String>) -> bool {
    exists|i: int| 0 <= i < words.len() && spec_contains(s, (#[trigger] words[i])@)
}

/// Tests the serialized submission against the process-wide blocklist. A
/// hit means the request is accepted and silently dropped, so the sender
/// cannot detect the filtering.
pub fn has_blocked_words(serialized: &str, blocklist: &Vec<String>) -> (r: bool)
    ensures
        r == spec_has_blocked(serialized@, blocklist@),
{
    let n = blocklist.len();
    let mut i: usize = 0;
    while i < n
        invariant
            0 <= i <= n,
            n == blocklist@.len(),
            forall|j: int| 0 <= j < i ==> !spec_contains(serialized@, (#[trigger] blocklist@[j])@),
        decreases n - i,
    {
        if str_contains(serialized, blocklist[i].as_str()) {
            return true;
        }
        i = i + 1;
    }
    false
}

/// How a submission ends.
#[derive(Debug, Clone, Copy, PartialEq, Eq, Structural)]
pub enum SubmissionOutcome {
    /// The submission was accepted — including the case of a blocklisted
    /// one, whose acceptance is indistinguishable from real work.
    Accepted,
    /// The tenant url or the target service id is unknown.
    NotFound,
    /// A client addressed a global service directly.
    BadRequest,
    /// A rate-limit dimension rejected the submission.
    TooManyRequests,
    /// The store failed during resolution or the final flush.
    InternalError,
}

/// One piece of outside work the driver performs for the machine.
#[derive(Debug)]
pub enum Action {
    /// Read a plain value; answered with [`Event::Value`].
    Get { key: String },
    /// Read all fields of a configuration hash; answered with
    /// [`Event::Hash`] (an empty list for a missing record).
    HashGetAll { key: String },
    /// Decode a template-list document from its JSON text; answered with
    /// [`Event::Templates`].
    DecodeTemplates { json: String },
    /// Atomically increment a counter by one and reset its expiration;
    /// answered with [`Event::Count`] carrying the post-increment value.
    IncrAndExpire { key: String, expire_seconds: u64 },
    /// Fetch every listed chart hash in one pipelined round trip; answered
    /// with [`Event::Charts`], one slot per key in order.
    FetchCharts { keys: Vec<String> },
    /// Resolve the caller's country; answered with [`Event::Country`].
    ResolveCountry { ip: String },
    /// Run the derived submission as a nested session with the global flag
    /// set, ignore its outcome, and answer with [`Event::Forwarded`].
    Forward { submission: SubmitDataSchema },
    /// Perform the line-chart writes (each on its own, failures swallowed),
    /// then flush the batch as one atomic unit; answered with
    /// [`Event::Committed`] or [`Event::Failed`].
    Commit { line_writes: Vec<BatchCommand>, batch: Vec<BatchCommand> },
}

/// The driver's answer to the pending action.
#[derive(Debug)]
pub enum Event {
    Value(Option<String>),
    Hash(Vec<(String, String)>),
    Templates(Option<Vec<DefaultChartTemplate>>),
    Count(u64),
    Charts(Vec<Option<ChartHash>>),
    Country(Option<(String, Option<String>)>),
    Forwarded,
    Committed,
    /// The store or transport failed while performing the action.
    Failed,
}

/// What one step of the machine yields: either the next action to perform,
/// or the submission's outcome.
#[derive(Debug)]
pub enum Step {
    Ask(Action),
    Done(SubmissionOutcome),
}

/// What one template synthesizes for a submission: a trusted chart part
/// holding the selected strategy's value, or nothing when no strategy
/// matches or the strategy yields nothing.
pub open spec fn spec_template_submission(
    t: TemplateView,
    country_name: Option<Seq<char>>,
    schema: SubmissionView,
) -> Option<ChartSubmissionView> {
    match spec_run_choice(spec_parser_choice(t.request_parser), country_name, schema) {
        Some(v) => Some(ChartSubmissionView { chart_id: t.id, data: v, trusted: true }),
        None => None,
    }
}

/// The trusted chart parts all templates synthesize, in template order,
/// dropping templates that produce nothing this round.
pub open spec fn spec_default_submissions(
    templates: Seq<TemplateView>,
    country_name: Option<Seq<char>>,
    schema: SubmissionView,
) -> Seq<ChartSubmissionView>
    decreases templates.len(),
{
    if templates.len() == 0 {
        Seq::empty()
    } else {
        spec_default_submissions(templates.drop_last(), country_name, schema) + (
        match spec_template_submission(templates.last(), country_name, schema) {
            Some(c) => seq![c],
            None => Seq::empty(),
        })
    }
}

/// The charts one submission updates: the synthesized default parts first,
/// then the client-declared custom parts.
pub open spec fn spec_merged_submissions(
    templates: Seq<TemplateView>,
    country_name: Option<Seq<char>>,
    schema: SubmissionView,
) -> Seq<ChartSubmissionView> {
    spec_default_submissions(templates, country_name, schema) + (
    match schema.service.custom_charts {
        Some(customs) => customs,
        None => Seq::empty(),
    })
}

/// The decoded chart of each listed id, in list order: a missing slot, or
/// one that does not decode, resolves that id alone to nothing.
pub open spec fn spec_resolved_charts(ids: Seq<u64>, slots: Seq<Option<ChartHashView>>) -> Seq<
    Option<ChartView>,
> {
    Seq::new(
        ids.len(),
        |i: int|
            if 0 <= i < slots.len() {
                match slots[i] {
                    Some(h) => spec_chart_from_hash(ids[i], h),
                    None => None,
                }
            } else {
                None
            },
    )
}

/// The first resolved chart whose custom id matches.
pub open spec fn spec_find_chart(resolved: Seq<Option<ChartView>>, custom_id: Seq<char>) -> Option<
    ChartView,
>
    decreases resolved.len(),
{
    if resolved.len() == 0 {
        None
    } else {
        match resolved[0] {
            Some(c) => if c.id_custom == custom_id {
                Some(c)
            } else {
                spec_find_chart(resolved.drop_first(), custom_id)
            },
            None => spec_find_chart(resolved.drop_first(), custom_id),
        }
    }
}

/// The batch commands and line-chart writes one submission produces.
#[verifier::ext_equal]
pub struct ProcessedCommands {
    pub batch: Seq<BatchCommandView>,
    pub line_writes: Seq<BatchCommandView>,
}

/// What processing the chart parts against the resolved charts produces, in
/// order. A part whose custom id matches no resolved chart is skipped; an
/// untrusted part that matches a default chart is skipped, so a client can
/// never impersonate a default chart; everything else contributes its
/// chart-type effect.
pub open spec fn spec_process_submissions(
    resolved: Seq<Option<ChartView>>,
    subs: Seq<ChartSubmissionView>,
    tms2000: i64,
    country_iso: Option<Seq<char>>,
) -> ProcessedCommands
    decreases subs.len(),
{
    if subs.len() == 0 {
        ProcessedCommands { batch: Seq::empty(), line_writes: Seq::empty() }
    } else {
        let prev = spec_process_submissions(resolved, subs.drop_last(), tms2000, country_iso);
        let sub = subs.last();
        match spec_find_chart(resolved, sub.chart_id) {
            None => prev,
            Some(chart) => if !sub.trusted && chart.default {
                prev
            } else {
                let effect = spec_update_chart(chart, sub.data, tms2000, country_iso);
                ProcessedCommands {
                    batch: prev.batch + effect.batch,
                    line_writes: prev.line_writes + (match effect.line_write {
                        Some(c) => seq![c],
                        None => Seq::empty(),
                    }),
                }
            },
        }
    }
}

/// Law: a client can never impersonate a default chart. Appending an
/// untrusted chart part whose custom id matches a chart flagged as a
/// default chart changes neither the batch nor the line writes of a
/// submission's processing.
pub proof fn lemma_untrusted_default_part_changes_nothing(
    resolved: Seq<Option<ChartView>>,
    subs: Seq<ChartSubmissionView>,
    sub: ChartSubmissionView,
    tms2000: i64,
    country_iso: Option<Seq<char>>,
)
    requires
        !sub.trusted,
        spec_find_chart(resolved, sub.chart_id) matches Some(chart) && chart.default,
    ensures
        spec_process_submissions(resolved, subs.push(sub), tms2000, country_iso)
            == spec_process_submissions(resolved, subs, tms2000, country_iso),
{
    assert(subs.push(sub).drop_last() =~= subs);
}

/// Law: aggregate records are append-only. Every command a submission's
/// processing queues onto the shared batch is a nonnegative sorted-set
/// increment or an expiration refresh — never an overwrite, a removal or a
/// decrement.
pub proof fn lemma_processing_batch_increment_only(
    resolved: Seq<Option<ChartView>>,
    subs: Seq<ChartSubmissionView>,
    tms2000: i64,
    country_iso: Option<Seq<char>>,
)
    ensures
        crate::chart_updater::is_increment_only(
            spec_process_submissions(resolved, subs, tms2000, country_iso).batch,
        ),
    decreases subs.len(),
{
    if subs.len() > 0 {
        lemma_processing_batch_increment_only(resolved, subs.drop_last(), tms2000, country_iso);
        let sub = subs.last();
        match spec_find_chart(resolved, sub.chart_id) {
            None => {},
            Some(chart) => {
                crate::chart_updater::lemma_update_chart_batch_increment_only(
                    chart,
                    sub.data,
                    tms2000,
                    country_iso,
                );
            },
        }
    }
}

/// The views of a list of slots.
pub open spec fn slots_view(slots: Seq<Option<ChartHash>>) -> Seq<Option<ChartHashView>> {
    Seq::new(
        slots.len(),
        |i: int| match slots[i] {
            Some(h) => Some(h@),
            None => None,
        },
    )
}

/// The views of a list of resolved charts.
pub open spec fn resolved_view(s: Seq<Option<Chart>>) -> Seq<Option<ChartView>> {
    Seq::new(
        s.len(),
        |i: int| match s[i] {
            Some(c) => Some(c@),
            None => None,
        },
    )
}

/// The views of a list of commands.
pub open spec fn cmds_view(s: Seq<BatchCommand>) -> Seq<BatchCommandView> {
    Seq::new(s.len(), |i: int| s[i]@)
}

/// The view of an optional country label.
pub open spec fn opt_str_view(s: Option<String>) -> Option<Seq<char>> {
    match s {
        Some(v) => Some(v@),
        None => None,
    }
}

/// Synthesizes the default chart parts from the tenant's templates and
/// merges the client-declared custom parts after them.
fn build_submissions(
    templates: &Vec<DefaultChartTemplate>,
    data: &SubmitDataSchema,
    country_name: Option<&String>,
) -> (r: Vec<SubmitDataChartSchema>)
    ensures
        chart_submissions_view(r@) == spec_merged_submissions(
            templates_view(templates@),
            match country_name {
                Some(n) => Some(n@),
                None => None,
            },
            data@,
        ),
{
    let ghost country: Option<Seq<char>> = match country_name {
        Some(n) => Some(n@),
        None => None,
    };
    let ghost tviews = templates_view(templates@);
    let mut out: Vec<SubmitDataChartSchema> = Vec::new();
    let n = templates.len();
    let mut i: usize = 0;
    while i < n
        invariant
            0 <= i <= n,
            n == templates@.len(),
            tviews == templates_view(templates@),
            country == (match country_name {
                Some(n) => Some(n@),
                None => None::<Seq<char>>,
            }),
            chart_submissions_view(out@) == spec_default_submissions(
                tviews.subrange(0, i as int),
                country,
                data@,
            ),
        decreases n - i,
    {
        proof {
            assert(tviews.subrange(0, i + 1).drop_last() =~= tviews.subrange(0, i as int));
            assert(tviews.subrange(0, i + 1).last() == tviews[i as int]);
            assert(tviews[i as int] == templates@[i as int]@);
        }
        let produced: Option<crate::json::JsonValue> = match get_parser(
            &templates[i],
            country_name,
        ) {
            Some(source) => source.parse(data),
            None => None,
        };
        match produced {
            Some(value) => {
                let sub = SubmitDataChartSchema {
                    chart_id: templates[i].id.clone(),
                    data: value,
                    trusted: true,
                };
                out.push(sub);
            },
            None => {},
        }
        proof {
            assert(chart_submissions_view(out@) =~= spec_default_submissions(
                tviews.subrange(0, i + 1),
                country,
                data@,
            ));
        }
        i = i + 1;
    }
    proof {
        assert(tviews.subrange(0, n as int) =~= tviews);
    }
    match &data.service.custom_charts {
        None => {
            proof {
                assert(chart_submissions_view(out@) =~= spec_merged_submissions(
                    tviews,
                    country,
                    data@,
                ));
            }
        },
        Some(customs) => {
            let m = customs.len();
            let mut j: usize = 0;
            while j < m
                invariant
                    0 <= j <= m,
                    m == customs@.len(),
                    tviews == templates_view(templates@),
                    country == (match country_name {
                        Some(n) => Some(n@),
                        None => None::<Seq<char>>,
                    }),
                    chart_submissions_view(out@) == spec_default_submissions(
                        tviews,
                        country,
                        data@,
                    ) + chart_submissions_view(customs@).subrange(0, j as int),
                decreases m - j,
            {
                let sub = SubmitDataChartSchema {
                    chart_id: customs[j].chart_id.clone(),
                    data: customs[j].data.clone(),
                    trusted: customs[j].trusted,
                };
                proof {
                    assert(sub@ =~= customs@[j as int]@);
                }
                let ghost pre = out@;
                out.push(sub);
                proof {
                    let lhs = chart_submissions_view(out@);
                    let rhs = spec_default_submissions(tviews, country, data@)
                        + chart_submissions_view(customs@).subrange(0, j + 1);
                    assert(out@ == pre.push(sub));
                    assert(lhs.len() == out@.len());
                    assert(chart_submissions_view(pre).len() == pre.len());
                    assert(chart_submissions_view(customs@).len() == customs@.len());
                    assert(chart_submissions_view(customs@).subrange(0, j + 1).len() == j + 1);
                    assert(rhs.len() == lhs.len());
                    assert forall|k: int| 0 <= k < lhs.len() implies lhs[k] == rhs[k] by {
                        assert(lhs[k] == out@[k]@);
                        if k < pre.len() {
                            assert(out@[k] == pre[k]);
                            assert(chart_submissions_view(pre)[k] == pre[k]@);
                        } else {
                            assert(out@[k] == sub);
                            assert(chart_submissions_view(customs@)[j as int]
                                == customs@[j as int]@);
                        }
                    }
                    assert(lhs =~= rhs);
                }
                j = j + 1;
            }
            proof {
                assert(chart_submissions_view(customs@).subrange(0, m as int)
                    =~= chart_submissions_view(customs@));
                assert(chart_submissions_view(out@) =~= spec_merged_submissions(
                    tviews,
                    country,
                    data@,
                ));
            }
        },
    }
    out
}

/// Builds the configuration hash key of every listed chart, in order.
fn chart_keys(ids: &Vec<u64>) -> (r: Vec<String>)
    ensures
        r@.len() == ids@.len(),
        forall|i: int| 0 <= i < r@.len() ==> (#[trigger] r@[i])@ == spec_chart_key(ids@[i]),
{
    let n = ids.len();
    let mut out: Vec<String> = Vec::new();
    let mut i: usize = 0;
    while i < n
        invariant
            0 <= i <= n,
            n == ids@.len(),
            out@.len() == i,
            forall|k: int| 0 <= k < i ==> (#[trigger] out@[k])@ == spec_chart_key(ids@[k]),
        decreases n - i,
    {
        out.push(chart_key(ids[i]));
        i = i + 1;
    }
    out
}

/// Decodes every fetched chart slot against its listed id, in order.
fn resolve_charts(ids: &Vec<u64>, slots: &Vec<Option<ChartHash>>) -> (r: Vec<Option<Chart>>)
    ensures
        resolved_view(r@) == spec_resolved_charts(ids@, slots_view(slots@)),
{
    let n = ids.len();
    let mut out: Vec<Option<Chart>> = Vec::new();
    let mut i: usize = 0;
    while i < n
        invariant
            0 <= i <= n,
            n == ids@.len(),
            out@.len() == i,
            forall|k: int|
                0 <= k < i ==> resolved_view(out@)[k] == spec_resolved_charts(
                    ids@,
                    slots_view(slots@),
                )[k],
        decreases n - i,
    {
        proof {
            assert(slots_view(slots@).len() == slots@.len());
            if i < slots@.len() {
                assert(slots_view(slots@)[i as int] == (match slots@[i as int] {
                    Some(h) => Some(h@),
                    None => None,
                }));
            }
        }
        let chart: Option<Chart> = if i < slots.len() {
            match &slots[i] {
                Some(h) => chart_from_hash(ids[i], h),
                None => None,
            }
        } else {
            None
        };
        let ghost pre = out@;
        out.push(chart);
        proof {
            assert(out@ == pre.push(chart));
            assert(resolved_view(out@).len() == out@.len());
            assert(resolved_view(pre).len() == pre.len());
            assert forall|k: int| 0 <= k < i + 1 implies resolved_view(out@)[k]
                == spec_resolved_charts(ids@, slots_view(slots@))[k] by {
                if k < i {
                    assert(out@[k] == pre[k]);
                    assert(resolved_view(pre)[k] == (match pre[k] {
                        Some(c) => Some(c@),
                        None => None,
                    }));
                    assert(resolved_view(out@)[k] == (match out@[k] {
                        Some(c) => Some(c@),
                        None => None,
                    }));
                } else {
                    assert(out@[k] == chart);
                    assert(resolved_view(out@)[k] == (match out@[k] {
                        Some(c) => Some(c@),
                        None => None,
                    }));
                }
            }
        }
        i = i + 1;
    }
    proof {
        assert(resolved_view(out@) =~= spec_resolved_charts(ids@, slots_view(slots@)));
    }
    out
}

/// Finds the first resolved chart whose custom id matches.
fn find_chart<'a>(resolved: &'a Vec<Option<Chart>>, custom_id: &str) -> (r: Option<&'a Chart>)
    ensures
        match r {
            Some(c) => spec_find_chart(resolved_view(resolved@), custom_id@) == Some(c@),
            None => spec_find_chart(resolved_view(resolved@), custom_id@) is None,
        },
{
    let ghost rv = resolved_view(resolved@);
    let n = resolved.len();
    proof {
        assert(rv.subrange(0, n as int) =~= rv);
    }
    let mut i: usize = 0;
    while i < n
        invariant
            0 <= i <= n,
            n == resolved@.len(),
            rv == resolved_view(resolved@),
            rv.len() == n,
            spec_find_chart(rv, custom_id@) == spec_find_chart(
                rv.subrange(i as int, n as int),
                custom_id@,
            ),
        decreases n - i,
    {
        proof {
            assert(rv.subrange(i as int, n as int).drop_first() =~= rv.subrange(i + 1, n as int));
            assert(rv.subrange(i as int, n as int)[0] == rv[i as int]);
        }
        match &resolved[i] {
            Some(c) => {
                if crate::strutil::str_eq(c.id_custom.as_str(), custom_id) {
                    return Some(c);
                }
            },
            None => {},
        }
        i = i + 1;
    }
    proof {
        assert(rv.subrange(n as int, n as int).len() == 0);
    }
    None
}

/// Processes every chart part against the resolved charts: matching by
/// custom id, dropping untrusted parts that hit default charts, and
/// queueing each remaining part's chart-type effect.
fn process_submissions(
    resolved: &Vec<Option<Chart>>,
    subs: &Vec<SubmitDataChartSchema>,
    tms2000: i64,
    country_iso: Option<&str>,
) -> (r: (Pipeline, Vec<BatchCommand>))
    requires
        0 <= tms2000 <= (i64::MAX - TMS2000_EPOCH_SECONDS) / (SECONDS_PER_TMS2000 as int),
    ensures
        ({
            let processed = spec_process_submissions(
                resolved_view(resolved@),
                chart_submissions_view(subs@),
                tms2000,
                crate::chart_updater::country_view(country_iso),
            );
            r.0@ == processed.batch && cmds_view(r.1@) == processed.line_writes
        }),
{
    let ghost rv = resolved_view(resolved@);
    let ghost sv = chart_submissions_view(subs@);
    let ghost country = crate::chart_updater::country_view(country_iso);
    let mut pipeline = Pipeline::new();
    let mut line_writes: Vec<BatchCommand> = Vec::new();
    let n = subs.len();
    let mut i: usize = 0;
    while i < n
        invariant
            0 <= i <= n,
            n == subs@.len(),
            rv == resolved_view(resolved@),
            sv == chart_submissions_view(subs@),
            sv.len() == n,
            country == crate::chart_updater::country_view(country_iso),
            0 <= tms2000 <= (i64::MAX - TMS2000_EPOCH_SECONDS) / (SECONDS_PER_TMS2000 as int),
            pipeline@ == spec_process_submissions(
                rv,
                sv.subrange(0, i as int),
                tms2000,
                country,
            ).batch,
            cmds_view(line_writes@) == spec_process_submissions(
                rv,
                sv.subrange(0, i as int),
                tms2000,
                country,
            ).line_writes,
        decreases n - i,
    {
        proof {
            assert(sv.subrange(0, i + 1).drop_last() =~= sv.subrange(0, i as int));
            assert(sv.subrange(0, i + 1).last() == sv[i as int]);
            assert(sv[i as int] == subs@[i as int]@);
        }
        match find_chart(resolved, subs[i].chart_id.as_str()) {
            None => {
                proof {
                    assert(pipeline@ =~= spec_process_submissions(
                        rv,
                        sv.subrange(0, i + 1),
                        tms2000,
                        country,
                    ).batch);
                    assert(cmds_view(line_writes@) =~= spec_process_submissions(
                        rv,
                        sv.subrange(0, i + 1),
                        tms2000,
                        country,
                    ).line_writes);
                }
            },
            Some(chart) => {
                if !subs[i].trusted && chart.default {
                    proof {
                        assert(pipeline@ =~= spec_process_submissions(
                            rv,
                            sv.subrange(0, i + 1),
                            tms2000,
                            country,
                        ).batch);
                        assert(cmds_view(line_writes@) =~= spec_process_submissions(
                            rv,
                            sv.subrange(0, i + 1),
                            tms2000,
                            country,
                        ).line_writes);
                    }
                } else {
                    match update_chart(chart, &subs[i], tms2000, country_iso, &mut pipeline) {
                        Ok(Some(cmd)) => {
                            line_writes.push(cmd);
                        },
                        Ok(None) => {},
                        Err(_) => {},
                    }
                    proof {
                        assert(pipeline@ =~= spec_process_submissions(
                            rv,
                            sv.subrange(0, i + 1),
                            tms2000,
                            country,
                        ).batch);
                        assert(cmds_view(line_writes@) =~= spec_process_submissions(
                            rv,
                            sv.subrange(0, i + 1),
                            tms2000,
                            country,
                        ).line_writes);
                    }
                }
            },
        }
        i = i + 1;
    }
    proof {
        assert(sv.subrange(0, n as int) =~= sv);
    }
    (pipeline, line_writes)
}

/// Where one submission stands between round trips to the store and the
/// outside collaborators.
#[derive(Debug)]
pub enum SessionState {
    /// Awaiting the tenant id under the url index.
    ResolvingSoftwareId,
    /// Awaiting the tenant's configuration hash.
    ResolvingSoftware { software_id: u16 },
    /// Awaiting the decoded template list of the tenant's hash.
    DecodingTemplates { software_id: u16, fields: Vec<(String, String)> },
    /// Awaiting the per-server counter (limit: one per bucket).
    CheckingServerLimit { software: Software },
    /// Awaiting the per-address counter (limit: the tenant's cap).
    CheckingIpLimit { software: Software },
    /// Awaiting the target service's configuration hash.
    ResolvingService { software: Software },
    /// Awaiting the companion global service's configuration hash.
    ResolvingGlobalService { software: Software, service: Service },
    /// Awaiting the nested global-forward session, whose outcome is
    /// ignored.
    Forwarding { software: Software, service: Service },
    /// Awaiting the caller's resolved country.
    ResolvingCountry { software: Software, service: Service },
    /// Awaiting the batched chart fetch.
    ResolvingCharts {
        service: Service,
        submissions: Vec<SubmitDataChartSchema>,
        country_iso: Option<String>,
    },
    /// Awaiting the atomic flush of the shared batch.
    Committing,
    /// The submission has ended.
    Done { outcome: SubmissionOutcome },
}

/// One submission's state machine. The driver calls [`Session::start`],
/// performs each asked action, and hands the resulting event to
/// [`Session::step`] until a step yields the outcome.
#[derive(Debug)]
pub struct Session {
    pub software_url: String,
    pub data: SubmitDataSchema,
    /// Whether this session is itself an internal global-forward; such a
    /// session never forwards again, which caps the recursion depth at one.
    pub is_global_service: bool,
    pub ip: String,
    pub tms2000: i64,
    pub state: SessionState,
}

/// Whether both the submission's outcome and the step agree on `o`.
pub open spec fn done_with(r: (Session, Step), o: SubmissionOutcome) -> bool {
    &&& (r.0.state matches SessionState::Done { outcome } && outcome == o)
    &&& (r.1 matches Step::Done(got) && got == o)
}

/// Whether the step asks for the configuration hash under `key`.
pub open spec fn asks_hash(step: Step, key: Seq<char>) -> bool {
    step matches Step::Ask(Action::HashGetAll { key: k }) && k@ == key
}

/// Whether the step asks for an atomic rate-limit bump of the counter
/// under `key`, with the rate-limit window as its expiration.
pub open spec fn asks_incr(step: Step, key: Seq<char>) -> bool {
    step matches Step::Ask(Action::IncrAndExpire { key: k, expire_seconds }) && k@ == key
        && expire_seconds == RATELIMIT_TTL_SECONDS
}

/// The per-server rate-limit counter key of a session.
pub open spec fn spec_server_limit_key(pre: Session) -> Seq<char> {
    spec_ratelimit_key(
        spec_ratelimit_identifier(pre.data.service.id, pre.data.server_uuid@),
        pre.software_url@,
        pre.tms2000,
    )
}

/// The per-address rate-limit counter key of a session.
pub open spec fn spec_ip_limit_key(pre: Session) -> Seq<char> {
    spec_ratelimit_key(
        spec_ratelimit_identifier(pre.data.service.id, pre.ip@),
        pre.software_url@,
        pre.tms2000,
    )
}

/// Whether the machine moved on to resolving the caller's country for the
/// given tenant and target service.
pub open spec fn goes_to_country(
    pre: Session,
    r: (Session, Step),
    sw: SoftwareView,
    svc: ServiceView,
) -> bool {
    &&& (r.0.state matches SessionState::ResolvingCountry { software, service } && software@ == sw
        && service@ == svc)
    &&& (r.1 matches Step::Ask(Action::ResolveCountry { ip }) && ip@ == pre.ip@)
}

/// The one-step transition relation of the session machine. Every
/// transition matches one step of the ingestion flow; an event that does
/// not answer the pending action ends the submission with an internal
/// error.
pub open spec fn spec_step_rel(pre: Session, event: Event, r: (Session, Step)) -> bool {
    match pre.state {
        SessionState::ResolvingSoftwareId => match event {
            Event::Value(opt) => match opt {
                None => done_with(r, SubmissionOutcome::NotFound),
                Some(text) => match spec_parse_u64(text@) {
                    Some(v) => if v <= u16::MAX {
                        &&& (r.0.state matches SessionState::ResolvingSoftware { software_id }
                            && software_id == v as u16)
                        &&& asks_hash(r.1, spec_software_key(v as u16))
                    } else {
                        done_with(r, SubmissionOutcome::InternalError)
                    },
                    None => done_with(r, SubmissionOutcome::InternalError),
                },
            },
            _ => done_with(r, SubmissionOutcome::InternalError),
        },
        SessionState::ResolvingSoftware { software_id } => match event {
            Event::Hash(fields) => if fields@.len() == 0 {
                done_with(r, SubmissionOutcome::NotFound)
            } else {
                match spec_pairs_get(pairs_view(fields@), "defaultCharts"@) {
                    None => done_with(r, SubmissionOutcome::NotFound),
                    Some(json) => {
                        &&& (r.0.state matches SessionState::DecodingTemplates {
                            software_id: sid,
                            fields: kept,
                        } && sid == software_id && pairs_view(kept@) == pairs_view(fields@))
                        &&& (r.1 matches Step::Ask(Action::DecodeTemplates { json: j }) && j@
                            == json)
                    },
                }
            },
            _ => done_with(r, SubmissionOutcome::InternalError),
        },
        SessionState::DecodingTemplates { software_id, fields } => match event {
            Event::Templates(opt) => match opt {
                None => done_with(r, SubmissionOutcome::InternalError),
                Some(templates) => match spec_software_from_hash(
                    software_id,
                    pairs_view(fields@),
                    templates_view(templates@),
                ) {
                    None => done_with(r, SubmissionOutcome::NotFound),
                    Some(sw) => {
                        &&& (r.0.state matches SessionState::CheckingServerLimit { software }
                            && software@ == sw)
                        &&& asks_incr(r.1, spec_server_limit_key(pre))
                    },
                },
            },
            _ => done_with(r, SubmissionOutcome::InternalError),
        },
        SessionState::CheckingServerLimit { software } => match event {
            Event::Count(count) => if count > 1 {
                done_with(r, SubmissionOutcome::TooManyRequests)
            } else {
                &&& (r.0.state matches SessionState::CheckingIpLimit { software: kept } && kept@
                    == software@)
                &&& asks_incr(r.1, spec_ip_limit_key(pre))
            },
            Event::Failed => done_with(r, SubmissionOutcome::TooManyRequests),
            _ => done_with(r, SubmissionOutcome::InternalError),
        },
        SessionState::CheckingIpLimit { software } => match event {
            Event::Count(count) => if count > software@.max_requests_per_ip {
                done_with(r, SubmissionOutcome::TooManyRequests)
            } else {
                &&& (r.0.state matches SessionState::ResolvingService { software: kept } && kept@
                    == software@)
                &&& asks_hash(r.1, spec_service_key(pre.data.service.id))
            },
            Event::Failed => done_with(r, SubmissionOutcome::TooManyRequests),
            _ => done_with(r, SubmissionOutcome::InternalError),
        },
        SessionState::ResolvingService { software } => match event {
            Event::Hash(fields) => match spec_service_from_hash(
                pre.data.service.id,
                pairs_view(fields@),
            ) {
                None => done_with(r, SubmissionOutcome::NotFound),
                Some(svc) => if svc.global && !pre.is_global_service {
                    done_with(r, SubmissionOutcome::BadRequest)
                } else if !pre.is_global_service && software@.global_plugin is Some {
                    &&& (r.0.state matches SessionState::ResolvingGlobalService {
                        software: sw2,
                        service: svc2,
                    } && sw2@ == software@ && svc2@ == svc)
                    &&& asks_hash(r.1, spec_service_key(software@.global_plugin->0))
                } else {
                    goes_to_country(pre, r, software@, svc)
                },
            },
            _ => done_with(r, SubmissionOutcome::InternalError),
        },
        SessionState::ResolvingGlobalService { software, service } => match event {
            Event::Hash(fields) => match software@.global_plugin {
                None => done_with(r, SubmissionOutcome::InternalError),
                Some(gid) => match spec_service_from_hash(gid, pairs_view(fields@)) {
                    None => goes_to_country(pre, r, software@, service@),
                    Some(gs) => {
                        &&& (r.0.state matches SessionState::Forwarding {
                            software: sw2,
                            service: svc2,
                        } && sw2@ == software@ && svc2@ == service@)
                        &&& (r.1 matches Step::Ask(Action::Forward { submission }) && {
                            &&& submission@.server_uuid == pre.data@.server_uuid
                            &&& submission@.metrics_version == pre.data@.metrics_version
                            &&& submission@.extra == pre.data@.extra
                            &&& submission@.service.id == gs.id
                            &&& submission@.service.custom_charts is None
                            &&& submission@.service.extra.len() == 0
                        })
                    },
                },
            },
            _ => done_with(r, SubmissionOutcome::InternalError),
        },
        SessionState::Forwarding { software, service } => match event {
            Event::Forwarded => goes_to_country(pre, r, software@, service@),
            _ => done_with(r, SubmissionOutcome::InternalError),
        },
        SessionState::ResolvingCountry { software, service } => match event {
            Event::Country(country) => {
                let country_iso = match country {
                    Some((iso, _)) => Some(iso@),
                    None => None,
                };
                let country_name = match country {
                    Some((_, Some(name))) => Some(name@),
                    _ => None,
                };
                &&& (r.0.state matches SessionState::ResolvingCharts {
                    service: kept,
                    submissions,
                    country_iso: ci,
                } && {
                    &&& kept@ == service@
                    &&& opt_str_view(ci) == country_iso
                    &&& chart_submissions_view(submissions@) == spec_merged_submissions(
                        software@.default_charts,
                        country_name,
                        pre.data@,
                    )
                })
                &&& (r.1 matches Step::Ask(Action::FetchCharts { keys }) && {
                    &&& keys@.len() == service@.charts.len()
                    &&& forall|i: int|
                        0 <= i < keys@.len() ==> (#[trigger] keys@[i])@ == spec_chart_key(
                            service@.charts[i],
                        )
                })
            },
            _ => done_with(r, SubmissionOutcome::InternalError),
        },
        SessionState::ResolvingCharts { service, submissions, country_iso } => match event {
            Event::Charts(slots) => {
                let processed = spec_process_submissions(
                    spec_resolved_charts(service@.charts, slots_view(slots@)),
                    chart_submissions_view(submissions@),
                    pre.tms2000,
                    opt_str_view(country_iso),
                );
                &&& r.0.state is Committing
                &&& (r.1 matches Step::Ask(Action::Commit { line_writes, batch }) && cmds_view(
                    batch@,
                ) == processed.batch && cmds_view(line_writes@) == processed.line_writes)
            },
            _ => done_with(r, SubmissionOutcome::InternalError),
        },
        SessionState::Committing => match event {
            Event::Committed => done_with(r, SubmissionOutcome::Accepted),
            _ => done_with(r, SubmissionOutcome::InternalError),
        },
        SessionState::Done { outcome } => done_with(r, outcome),
    }
}

impl Session {
    /// The machine's standing requirement: the bucket converts to a
    /// timestamp without overflow.
    pub open spec fn wf(&self) -> bool {
        0 <= self.tms2000 <= (i64::MAX - TMS2000_EPOCH_SECONDS) / (SECONDS_PER_TMS2000 as int)
    }

    /// Opens a session for one submission. A submission whose serialized
    /// form holds a blocklisted substring is accepted and silently dropped;
    /// any other submission starts with the tenant lookup.
    pub fn start(
        software_url: String,
        data: SubmitDataSchema,
        is_global_service: bool,
        ip: String,
        tms2000: i64,
        serialized: &str,
        blocklist: &Vec<String>,
    ) -> (r: (Session, Step))
        requires
            0 <= tms2000 <= (i64::MAX - TMS2000_EPOCH_SECONDS) / (SECONDS_PER_TMS2000 as int),
        ensures
            r.0.wf(),
            r.0.software_url@ == software_url@,
            r.0.data@ == data@,
            r.0.is_global_service == is_global_service,
            r.0.ip@ == ip@,
            r.0.tms2000 == tms2000,
            spec_has_blocked(serialized@, blocklist@) ==> done_with(
                r,
                SubmissionOutcome::Accepted,
            ),
            !spec_has_blocked(serialized@, blocklist@) ==> {
                &&& r.0.state is ResolvingSoftwareId
                &&& (r.1 matches Step::Ask(Action::Get { key }) && key@
                    == spec_software_url_index_key(software_url@))
            },
    {
        if has_blocked_words(serialized, blocklist) {
            let session = Session {
                software_url,
                data,
                is_global_service,
                ip,
                tms2000,
                state: SessionState::Done { outcome: SubmissionOutcome::Accepted },
            };
            (session, Step::Done(SubmissionOutcome::Accepted))
        } else {
            let key = software_url_index_key(software_url.as_str());
            let session = Session {
                software_url,
                data,
                is_global_service,
                ip,
                tms2000,
                state: SessionState::ResolvingSoftwareId,
            };
            (session, Step::Ask(Action::Get { key }))
        }
    }

    /// Advances the machine by one event, yielding the next action to
    /// perform or the submission's outcome.
    #[verifier::rlimit(100)]
    pub fn step(self, event: Event) -> (r: (Session, Step))
        requires
            self.wf(),
        ensures
            r.0.wf(),
            r.0.software_url@ == self.software_url@,
            r.0.data@ == self.data@,
            r.0.is_global_service == self.is_global_service,
            r.0.ip@ == self.ip@,
            r.0.tms2000 == self.tms2000,
            spec_step_rel(self, event, r),
    {
        let Session { software_url, data, is_global_service, ip, tms2000, state } = self;
        match state {
            SessionState::ResolvingSoftwareId => match event {
                Event::Value(Some(text)) => match parse_u16(text.as_str()) {
                    Some(software_id) => {
                        let key = software_key(software_id);
                        let session = Session {
                            software_url,
                            data,
                            is_global_service,
                            ip,
                            tms2000,
                            state: SessionState::ResolvingSoftware { software_id },
                        };
                        (session, Step::Ask(Action::HashGetAll { key }))
                    },
                    None => finish(
                        software_url,
                        data,
                        is_global_service,
                        ip,
                        tms2000,
                        SubmissionOutcome::InternalError,
                    ),
                },
                Event::Value(None) => finish(
                    software_url,
                    data,
                    is_global_service,
                    ip,
                    tms2000,
                    SubmissionOutcome::NotFound,
                ),
                _ => finish(
                    software_url,
                    data,
                    is_global_service,
                    ip,
                    tms2000,
                    SubmissionOutcome::InternalError,
                ),
            },
            SessionState::ResolvingSoftware { software_id } => match event {
                Event::Hash(fields) => {
                    if fields.len() == 0 {
                        return finish(
                            software_url,
                            data,
                            is_global_service,
                            ip,
                            tms2000,
                            SubmissionOutcome::NotFound,
                        );
                    }
                    let json = match pairs_get(&fields, "defaultCharts") {
                        Some(v) => v.clone(),
                        None => {
                            return finish(
                                software_url,
                                data,
                                is_global_service,
                                ip,
                                tms2000,
                                SubmissionOutcome::NotFound,
                            );
                        },
                    };
                    let session = Session {
                        software_url,
                        data,
                        is_global_service,
                        ip,
                        tms2000,
                        state: SessionState::DecodingTemplates { software_id, fields },
                    };
                    (session, Step::Ask(Action::DecodeTemplates { json }))
                },
                _ => finish(
                    software_url,
                    data,
                    is_global_service,
                    ip,
                    tms2000,
                    SubmissionOutcome::InternalError,
                ),
            },
            SessionState::DecodingTemplates { software_id, fields } => match event {
                Event::Templates(Some(templates)) => {
                    match software_from_hash(software_id, &fields, templates) {
                        None => finish(
                            software_url,
                            data,
                            is_global_service,
                            ip,
                            tms2000,
                            SubmissionOutcome::NotFound,
                        ),
                        Some(software) => {
                            let key = ratelimit_key(
                                data.service.id,
                                data.server_uuid.as_str(),
                                software_url.as_str(),
                                tms2000,
                            );
                            let session = Session {
                                software_url,
                                data,
                                is_global_service,
                                ip,
                                tms2000,
                                state: SessionState::CheckingServerLimit { software },
                            };
                            (
                                session,
                                Step::Ask(
                                    Action::IncrAndExpire {
                                        key,
                                        expire_seconds: RATELIMIT_TTL_SECONDS,
                                    },
                                ),
                            )
                        },
                    }
                },
                _ => finish(
                    software_url,
                    data,
                    is_global_service,
                    ip,
                    tms2000,
                    SubmissionOutcome::InternalError,
                ),
            },
            SessionState::CheckingServerLimit { software } => match event {
                Event::Count(count) => {
                    if is_ratelimited(count, 1) {
                        finish(
                            software_url,
                            data,
                            is_global_service,
                            ip,
                            tms2000,
                            SubmissionOutcome::TooManyRequests,
                        )
                    } else {
                        let key = ratelimit_key(
                            data.service.id,
                            ip.as_str(),
                            software_url.as_str(),
                            tms2000,
                        );
                        let session = Session {
                            software_url,
                            data,
                            is_global_service,
                            ip,
                            tms2000,
                            state: SessionState::CheckingIpLimit { software },
                        };
                        (
                            session,
                            Step::Ask(
                                Action::IncrAndExpire {
                                    key,
                                    expire_seconds: RATELIMIT_TTL_SECONDS,
                                },
                            ),
                        )
                    }
                },
                Event::Failed => finish(
                    software_url,
                    data,
                    is_global_service,
                    ip,
                    tms2000,
                    SubmissionOutcome::TooManyRequests,
                ),
                _ => finish(
                    software_url,
                    data,
                    is_global_service,
                    ip,
                    tms2000,
                    SubmissionOutcome::InternalError,
                ),
            },
            SessionState::CheckingIpLimit { software } => match event {
                Event::Count(count) => {
                    if is_ratelimited(count, software.max_requests_per_ip) {
                        finish(
                            software_url,
                            data,
                            is_global_service,
                            ip,
                            tms2000,
                            SubmissionOutcome::TooManyRequests,
                        )
                    } else {
                        let key = service_key(data.service.id);
                        let session = Session {
                            software_url,
                            data,
                            is_global_service,
                            ip,
                            tms2000,
                            state: SessionState::ResolvingService { software },
                        };
                        (session, Step::Ask(Action::HashGetAll { key }))
                    }
                },
                Event::Failed => finish(
                    software_url,
                    data,
                    is_global_service,
                    ip,
                    tms2000,
                    SubmissionOutcome::TooManyRequests,
                ),
                _ => finish(
                    software_url,
                    data,
                    is_global_service,
                    ip,
                    tms2000,
                    SubmissionOutcome::InternalError,
                ),
            },
            SessionState::ResolvingService { software } => match event {
                Event::Hash(fields) => match service_from_hash(data.service.id, &fields) {
                    None => finish(
                        software_url,
                        data,
                        is_global_service,
                        ip,
                        tms2000,
                        SubmissionOutcome::NotFound,
                    ),
                    Some(service) => {
                        if service.global && !is_global_service {
                            return finish(
                                software_url,
                                data,
                                is_global_service,
                                ip,
                                tms2000,
                                SubmissionOutcome::BadRequest,
                            );
                        }
                        let global_plugin: Option<u32> = software.global_plugin;
                        if !is_global_service && global_plugin.is_some() {
                            let gid = match global_plugin {
                                Some(gid) => gid,
                                None => 0,
                            };
                            let key = service_key(gid);
                            let session = Session {
                                software_url,
                                data,
                                is_global_service,
                                ip,
                                tms2000,
                                state: SessionState::ResolvingGlobalService { software, service },
                            };
                            (session, Step::Ask(Action::HashGetAll { key }))
                        } else {
                            go_country(
                                software_url,
                                data,
                                is_global_service,
                                ip,
                                tms2000,
                                software,
                                service,
                            )
                        }
                    },
                },
                _ => finish(
                    software_url,
                    data,
                    is_global_service,
                    ip,
                    tms2000,
                    SubmissionOutcome::InternalError,
                ),
            },
            SessionState::ResolvingGlobalService { software, service } => match event {
                Event::Hash(fields) => {
                    let gid = match software.global_plugin {
                        Some(gid) => gid,
                        None => {
                            return finish(
                                software_url,
                                data,
                                is_global_service,
                                ip,
                                tms2000,
                                SubmissionOutcome::InternalError,
                            );
                        },
                    };
                    match service_from_hash(gid, &fields) {
                        None => go_country(
                            software_url,
                            data,
                            is_global_service,
                            ip,
                            tms2000,
                            software,
                            service,
                        ),
                        Some(global_service) => {
                            let submission = data.derive_for_service(global_service.id);
                            let session = Session {
                                software_url,
                                data,
                                is_global_service,
                                ip,
                                tms2000,
                                state: SessionState::Forwarding { software, service },
                            };
                            (session, Step::Ask(Action::Forward { submission }))
                        },
                    }
                },
                _ => finish(
                    software_url,
                    data,
                    is_global_service,
                    ip,
                    tms2000,
                    SubmissionOutcome::InternalError,
                ),
            },
            SessionState::Forwarding { software, service } => match event {
                Event::Forwarded => go_country(
                    software_url,
                    data,
                    is_global_service,
                    ip,
                    tms2000,
                    software,
                    service,
                ),
                _ => finish(
                    software_url,
                    data,
                    is_global_service,
                    ip,
                    tms2000,
                    SubmissionOutcome::InternalError,
                ),
            },
            SessionState::ResolvingCountry { software, service } => match event {
                Event::Country(country) => {
                    let (country_iso, country_name): (Option<String>, Option<String>) =
                        match country {
                        Some((iso, name)) => (Some(iso), name),
                        None => (None, None),
                    };
                    let submissions = build_submissions(
                        &software.default_charts,
                        &data,
                        country_name.as_ref(),
                    );
                    let keys = chart_keys(&service.charts);
                    let session = Session {
                        software_url,
                        data,
                        is_global_service,
                        ip,
                        tms2000,
                        state: SessionState::ResolvingCharts {
                            service,
                            submissions,
                            country_iso,
                        },
                    };
                    (session, Step::Ask(Action::FetchCharts { keys }))
                },
                _ => finish(
                    software_url,
                    data,
                    is_global_service,
                    ip,
                    tms2000,
                    SubmissionOutcome::InternalError,
                ),
            },
            SessionState::ResolvingCharts { service, submissions, country_iso } => match event {
                Event::Charts(slots) => {
                    let resolved = resolve_charts(&service.charts, &slots);
                    let country_ref: Option<&str> = match &country_iso {
                        Some(s) => Some(s.as_str()),
                        None => None,
                    };
                    let (pipeline, line_writes) = process_submissions(
                        &resolved,
                        &submissions,
                        tms2000,
                        country_ref,
                    );
                    proof {
                        assert(cmds_view(pipeline.commands@) =~= pipeline@);
                    }
                    let session = Session {
                        software_url,
                        data,
                        is_global_service,
                        ip,
                        tms2000,
                        state: SessionState::Committing,
                    };
                    (
                        session,
                        Step::Ask(Action::Commit { line_writes, batch: pipeline.commands }),
                    )
                },
                _ => finish(
                    software_url,
                    data,
                    is_global_service,
                    ip,
                    tms2000,
                    SubmissionOutcome::InternalError,
                ),
            },
            SessionState::Committing => match event {
                Event::Committed => finish(
                    software_url,
                    data,
                    is_global_service,
                    ip,
                    tms2000,
                    SubmissionOutcome::Accepted,
                ),
                _ => finish(
                    software_url,
                    data,
                    is_global_service,
                    ip,
                    tms2000,
                    SubmissionOutcome::InternalError,
                ),
            },
            SessionState::Done { outcome } => finish(
                software_url,
                data,
                is_global_service,
                ip,
                tms2000,
                outcome,
            ),
        }
    }
}

/// Ends a session with the given outcome.
fn finish(
    software_url: String,
    data: SubmitDataSchema,
    is_global_service: bool,
    ip: String,
    tms2000: i64,
    outcome: SubmissionOutcome,
) -> (r: (Session, Step))
    ensures
        r.0.software_url@ == software_url@,
        r.0.data@ == data@,
        r.0.is_global_service == is_global_service,
        r.0.ip@ == ip@,
        r.0.tms2000 == tms2000,
        done_with(r, outcome),
{
    let session = Session {
        software_url,
        data,
        is_global_service,
        ip,
        tms2000,
        state: SessionState::Done { outcome },
    };
    (session, Step::Done(outcome))
}

/// Moves a session on to resolving the caller's country.
fn go_country(
    software_url: String,
    data: SubmitDataSchema,
    is_global_service: bool,
    ip: String,
    tms2000: i64,
    software: Software,
    service: Service,
) -> (r: (Session, Step))
    ensures
        r.0.software_url@ == software_url@,
        r.0.data@ == data@,
        r.0.is_global_service == is_global_service,
        r.0.ip@ == ip@,
        r.0.tms2000 == tms2000,
        (r.0.state matches SessionState::ResolvingCountry { software: sw, service: svc } && sw@
            == software@ && svc@ == service@),
        (r.1 matches Step::Ask(Action::ResolveCountry { ip: aip }) && aip@ == ip@),
{
    let action_ip = ip.clone();
    let session = Session {
        software_url,
        data,
        is_global_service,
        ip,
        tms2000,
        state: SessionState::ResolvingCountry { software, service },
    };
    (session, Step::Ask(Action::ResolveCountry { ip: action_ip }))
}

} // verus!
