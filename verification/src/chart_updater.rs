//! The chart aggregation engine: applies one chart's type-specific update
//! semantics to a decoded payload, queuing sorted-set mutations onto the
//! submission's shared atomic batch. The one exception is the line-chart
//! write, which is handed back as its own independent command.

use vstd::prelude::*;
use vstd::string::StringExecFns;
use crate::charts::Chart;
use crate::charts::ChartType;
use crate::charts::ChartView;
use crate::charts::advanced_pie::counts_view;
use crate::charts::advanced_pie::decode_advanced_pie;
use crate::charts::advanced_pie::spec_decode_advanced_pie;
use crate::charts::drilldown_pie::decode_drilldown_pie;
use crate::charts::drilldown_pie::drilldown_view;
use crate::charts::drilldown_pie::spec_decode_drilldown_pie;
use crate::charts::simple_map::decode_simple_map;
use crate::charts::simple_map::spec_decode_simple_map;
use crate::charts::simple_pie::decode_simple_pie;
use crate::charts::simple_pie::spec_decode_simple_pie;
use crate::charts::single_line_chart::decode_filter;
use crate::charts::single_line_chart::decode_single_line_chart;
use crate::charts::single_line_chart::spec_decode_filter;
use crate::charts::single_line_chart::spec_decode_single_line_chart;
use crate::charts::single_line_chart::spec_should_block;
use crate::date_util::SECONDS_PER_TMS2000;
use crate::date_util::TMS2000_EPOCH_SECONDS;
use crate::date_util::tms2000_to_timestamp;
use crate::json::JsonView;
use crate::strutil::append_i64;
use crate::strutil::append_u64;
use crate::strutil::spec_dec_i64;
use crate::strutil::spec_dec_nat;
use crate::submit_data_schema::SubmitDataChartSchema;

verus! {

/// Seconds a pie, map or drilldown aggregate key lives after its last
/// touch: 61 minutes.
pub const AGGREGATE_TTL_SECONDS: u64 = 3660;

/// One store command of the submission's shared atomic batch, or the
/// line-chart write that runs on its own.
#[derive(Debug)]
pub enum BatchCommand {
    /// Increment a sorted-set member by a nonnegative amount.
    ZIncrBy { key: String, member: String, by: u64 },
    /// Refresh a key's time to live.
    Expire { key: String, seconds: u64 },
    /// Increment a hash field (keyed by a UNIX timestamp) by a signed delta.
    HIncrBy { key: String, field: i64, by: i64 },
}

/// The shape of one store command.
#[verifier::ext_equal]
pub enum BatchCommandView {
    ZIncrBy { key: Seq<char>, member: Seq<char>, by: u64 },
    Expire { key: Seq<char>, seconds: u64 },
    HIncrBy { key: Seq<char>, field: i64, by: i64 },
}

impl View for BatchCommand {
    type V = BatchCommandView;

    open spec fn view(&self) -> BatchCommandView {
        match self {
            BatchCommand::ZIncrBy { key, member, by } => BatchCommandView::ZIncrBy {
                key: key@,
                member: member@,
                by: *by,
            },
            BatchCommand::Expire { key, seconds } => BatchCommandView::Expire {
                key: key@,
                seconds: *seconds,
            },
            BatchCommand::HIncrBy { key, field, by } => BatchCommandView::HIncrBy {
                key: key@,
                field: *field,
                by: *by,
            },
        }
    }
}

/// The submission's shared batch: the commands queued so far, in order.
/// The whole batch is flushed once, as a single atomic unit.
#[derive(Debug)]
pub struct Pipeline {
    pub commands: Vec<BatchCommand>,
}

impl View for Pipeline {
    type V = Seq<BatchCommandView>;

    open spec fn view(&self) -> Seq<BatchCommandView> {
        Seq::new(self.commands@.len(), |i: int| self.commands@[i]@)
    }
}

impl Pipeline {
    /// An empty batch.
    pub fn new() -> (r: Pipeline)
        ensures
            r@ == Seq::<BatchCommandView>::empty(),
    {
        let r = Pipeline { commands: Vec::new() };
        proof {
            assert(r@ =~= Seq::<BatchCommandView>::empty());
        }
        r
    }

    /// Queues one command at the end of the batch.
    pub fn push(&mut self, cmd: BatchCommand)
        ensures
            final(self)@ == old(self)@ + seq![cmd@],
    {
        let ghost pre = self@;
        let ghost cv = cmd@;
        self.commands.push(cmd);
        proof {
            assert(self@ =~= pre + seq![cv]);
        }
    }
}

/// The aggregate key of a pie, map or drilldown parent set: the service id
/// in a cluster hash-tag, then the chart id and the bucket.
pub open spec fn spec_pie_key(service_id: u32, chart_id: u64, tms2000: i64) -> Seq<char> {
    "data:{"@ + spec_dec_nat(service_id as nat) + "}."@ + spec_dec_nat(chart_id as nat) + "."@
        + spec_dec_i64(tms2000)
}

/// The aggregate key of a drilldown inner set: the parent key with the
/// outer label appended.
pub open spec fn spec_drilldown_key(
    service_id: u32,
    chart_id: u64,
    tms2000: i64,
    outer: Seq<char>,
) -> Seq<char> {
    spec_pie_key(service_id, chart_id, tms2000) + "."@ + outer
}

/// The aggregate key of one line of a line chart: the chart id in a cluster
/// hash-tag, then the line name.
pub open spec fn spec_line_key(chart_id: u64, line: Seq<char>) -> Seq<char> {
    "data:{"@ + spec_dec_nat(chart_id as nat) + "}."@ + line
}

/// Builds the pie aggregate key.
fn pie_key(service_id: u32, chart_id: u64, tms2000: i64) -> (r: String)
    ensures
        r@ == spec_pie_key(service_id, chart_id, tms2000),
{
    let mut s = String::from_str("data:{");
    append_u64(&mut s, service_id as u64);
    s.append("}.");
    append_u64(&mut s, chart_id);
    s.append(".");
    append_i64(&mut s, tms2000);
    proof {
        assert(s@ =~= spec_pie_key(service_id, chart_id, tms2000));
    }
    s
}

/// Builds the drilldown inner aggregate key.
fn drilldown_key(service_id: u32, chart_id: u64, tms2000: i64, outer: &str) -> (r: String)
    ensures
        r@ == spec_drilldown_key(service_id, chart_id, tms2000, outer@),
{
    let mut s = pie_key(service_id, chart_id, tms2000);
    s.append(".");
    s.append(outer);
    proof {
        assert(s@ =~= spec_drilldown_key(service_id, chart_id, tms2000, outer@));
    }
    s
}

/// The two commands of one pie or map increment: increment the member, then
/// refresh the set's time to live.
pub open spec fn spec_pie_cmds(
    service_id: u32,
    chart_id: u64,
    tms2000: i64,
    member: Seq<char>,
    by: u64,
) -> Seq<BatchCommandView> {
    seq![
        BatchCommandView::ZIncrBy { key: spec_pie_key(service_id, chart_id, tms2000), member, by },
        BatchCommandView::Expire {
            key: spec_pie_key(service_id, chart_id, tms2000),
            seconds: AGGREGATE_TTL_SECONDS,
        },
    ]
}

/// Queues one pie increment: the member's sorted-set entry grows by
/// `value`, and the set's time to live is refreshed.
pub fn update_pie_data(
    service_id: u32,
    chart_id: u64,
    tms2000: i64,
    value_name: &str,
    value: u16,
    pipeline: &mut Pipeline,
)
    ensures
        final(pipeline)@ == old(pipeline)@ + spec_pie_cmds(
            service_id,
            chart_id,
            tms2000,
            value_name@,
            value as u64,
        ),
{
    let key = pie_key(service_id, chart_id, tms2000);
    let member = String::from_str(value_name);
    let expire_key = key.clone();
    pipeline.push(BatchCommand::ZIncrBy { key, member, by: value as u64 });
    pipeline.push(BatchCommand::Expire { key: expire_key, seconds: AGGREGATE_TTL_SECONDS });
    proof {
        assert(final(pipeline)@ =~= old(pipeline)@ + spec_pie_cmds(
            service_id,
            chart_id,
            tms2000,
            value_name@,
            value as u64,
        ));
    }
}

/// Queues one map increment. Maps are stored exactly as pies.
pub fn update_map_data(
    service_id: u32,
    chart_id: u64,
    tms2000: i64,
    value_name: &str,
    value: u16,
    pipeline: &mut Pipeline,
)
    ensures
        final(pipeline)@ == old(pipeline)@ + spec_pie_cmds(
            service_id,
            chart_id,
            tms2000,
            value_name@,
            value as u64,
        ),
{
    update_pie_data(service_id, chart_id, tms2000, value_name, value, pipeline);
}

/// The sum of the counts of a label-count list.
pub open spec fn counts_sum(values: Seq<(Seq<char>, u16)>) -> int
    decreases values.len(),
{
    if values.len() == 0 {
        0
    } else {
        counts_sum(values.drop_last()) + values.last().1
    }
}

/// The sum of a label-count list is nonnegative and at most the number of
/// entries times the largest count.
pub proof fn lemma_counts_sum_bound(values: Seq<(Seq<char>, u16)>)
    ensures
        0 <= counts_sum(values) <= values.len() * 0xFFFF,
    decreases values.len(),
{
    if values.len() == 0 {
    } else {
        lemma_counts_sum_bound(values.drop_last());
        assert((values.len() - 1) * 0xFFFF + 0xFFFF == values.len() * 0xFFFF) by (nonlinear_arith);
    }
}

/// The commands of the inner increments of one drilldown outer label: for
/// each inner label, an increment of its entry in the outer label's own set
/// and a refresh of that set's time to live.
pub open spec fn spec_drilldown_inner_cmds(
    service_id: u32,
    chart_id: u64,
    tms2000: i64,
    outer: Seq<char>,
    values: Seq<(Seq<char>, u16)>,
) -> Seq<BatchCommandView>
    decreases values.len(),
{
    if values.len() == 0 {
        Seq::empty()
    } else {
        spec_drilldown_inner_cmds(service_id, chart_id, tms2000, outer, values.drop_last())
            + seq![
            BatchCommandView::ZIncrBy {
                key: spec_drilldown_key(service_id, chart_id, tms2000, outer),
                member: values.last().0,
                by: values.last().1 as u64,
            },
            BatchCommandView::Expire {
                key: spec_drilldown_key(service_id, chart_id, tms2000, outer),
                seconds: AGGREGATE_TTL_SECONDS,
            },
        ]
    }
}

/// The commands of one drilldown outer label: all inner increments, then an
/// increment of the outer label's entry in the parent set by the sum of the
/// inner counts — the outer total is always derived, never submitted.
pub open spec fn spec_drilldown_cmds(
    service_id: u32,
    chart_id: u64,
    tms2000: i64,
    outer: Seq<char>,
    values: Seq<(Seq<char>, u16)>,
) -> Seq<BatchCommandView> {
    spec_drilldown_inner_cmds(service_id, chart_id, tms2000, outer, values)
        + spec_pie_cmds(service_id, chart_id, tms2000, outer, counts_sum(values) as u64)
}

/// Queues one drilldown outer label's increments: every inner label's own
/// sorted set grows by its count, and the parent set's entry for the outer
/// label by the sum of all inner counts.
pub fn update_drilldown_pie_data(
    service_id: u32,
    chart_id: u64,
    tms2000: i64,
    value_name: &str,
    values: &Vec<(String, u16)>,
    pipeline: &mut Pipeline,
)
    requires
        values@.len() <= u32::MAX,
    ensures
        final(pipeline)@ == old(pipeline)@ + spec_drilldown_cmds(
            service_id,
            chart_id,
            tms2000,
            value_name@,
            counts_view(values@),
        ),
{
    let ghost cview = counts_view(values@);
    let n = values.len();
    let mut total: u64 = 0;
    let mut i: usize = 0;
    while i < n
        invariant
            0 <= i <= n,
            n == values@.len(),
            n <= u32::MAX,
            cview == counts_view(values@),
            total == counts_sum(cview.subrange(0, i as int)),
            total <= i * 0xFFFF,
            pipeline@ == old(pipeline)@ + spec_drilldown_inner_cmds(
                service_id,
                chart_id,
                tms2000,
                value_name@,
                cview.subrange(0, i as int),
            ),
        decreases n - i,
    {
        let value = values[i].1;
        proof {
            assert(cview.subrange(0, i + 1).drop_last() =~= cview.subrange(0, i as int));
            assert(cview.subrange(0, i + 1).last() == cview[i as int]);
            assert(cview[i as int] == (values@[i as int].0@, values@[i as int].1));
            assert(total + value <= (i + 1) * 0xFFFF) by (nonlinear_arith)
                requires
                    total <= i * 0xFFFF && value <= 0xFFFF && i >= 0,
            ;
            assert((i + 1) * 0xFFFF <= 0x1_0000_0000 * 0xFFFF < u64::MAX) by (nonlinear_arith)
                requires
                    i + 1 <= 0x1_0000_0000,
            ;
        }
        total = total + value as u64;
        let key = drilldown_key(service_id, chart_id, tms2000, value_name);
        let member = values[i].0.clone();
        let expire_key = key.clone();
        pipeline.push(BatchCommand::ZIncrBy { key, member, by: value as u64 });
        pipeline.push(BatchCommand::Expire { key: expire_key, seconds: AGGREGATE_TTL_SECONDS });
        proof {
            assert(pipeline@ =~= old(pipeline)@ + spec_drilldown_inner_cmds(
                service_id,
                chart_id,
                tms2000,
                value_name@,
                cview.subrange(0, i + 1),
            ));
        }
        i = i + 1;
    }
    proof {
        assert(cview.subrange(0, n as int) =~= cview);
        lemma_counts_sum_bound(cview);
    }
    let key = pie_key(service_id, chart_id, tms2000);
    let member = String::from_str(value_name);
    let expire_key = key.clone();
    pipeline.push(BatchCommand::ZIncrBy { key, member, by: total });
    pipeline.push(BatchCommand::Expire { key: expire_key, seconds: AGGREGATE_TTL_SECONDS });
    proof {
        assert(final(pipeline)@ =~= old(pipeline)@ + spec_drilldown_cmds(
            service_id,
            chart_id,
            tms2000,
            value_name@,
            cview,
        ));
    }
}

/// The one command that updates a line chart: increment the hash field for
/// the bucket's UNIX timestamp by the signed delta. This write runs as its
/// own round trip, outside the shared batch.
pub fn update_line_chart_data(chart_id: u64, tms2000: i64, line: &str, value: i16) -> (cmd:
    BatchCommand)
    requires
        0 <= tms2000 <= (i64::MAX - TMS2000_EPOCH_SECONDS) / (SECONDS_PER_TMS2000 as int),
    ensures
        cmd@ == (BatchCommandView::HIncrBy {
            key: spec_line_key(chart_id, line@),
            field: (tms2000 * SECONDS_PER_TMS2000 + TMS2000_EPOCH_SECONDS) as i64,
            by: value as i64,
        }),
{
    let mut key = String::from_str("data:{");
    append_u64(&mut key, chart_id);
    key.append("}.");
    key.append(line);
    proof {
        assert(key@ =~= spec_line_key(chart_id, line@));
    }
    let field = tms2000_to_timestamp(tms2000);
    BatchCommand::HIncrBy { key, field, by: value as i64 }
}

/// Why a chart submission produced no update.
#[derive(Debug, PartialEq, Eq, Structural)]
pub struct ChartDecodeError;

/// What one chart update does: whether the payload decoded, the commands it
/// queues onto the shared batch, and the independent line-chart write, if
/// any.
#[verifier::ext_equal]
pub struct UpdateEffect {
    pub decoded: bool,
    pub batch: Seq<BatchCommandView>,
    pub line_write: Option<BatchCommandView>,
}

/// The effect of a decode failure: nothing is queued.
pub open spec fn effect_failed() -> UpdateEffect {
    UpdateEffect { decoded: false, batch: Seq::empty(), line_write: None }
}

/// The effect of an accepted update that queues nothing.
pub open spec fn effect_nothing() -> UpdateEffect {
    UpdateEffect { decoded: true, batch: Seq::empty(), line_write: None }
}

/// The effect of an accepted update that only queues batch commands.
pub open spec fn effect_batch(batch: Seq<BatchCommandView>) -> UpdateEffect {
    UpdateEffect { decoded: true, batch, line_write: None }
}

/// The commands of an advanced pie: one pie increment per label, each by
/// that label's own count.
pub open spec fn spec_advanced_pie_cmds(
    service_id: u32,
    chart_id: u64,
    tms2000: i64,
    values: Seq<(Seq<char>, u16)>,
) -> Seq<BatchCommandView>
    decreases values.len(),
{
    if values.len() == 0 {
        Seq::empty()
    } else {
        spec_advanced_pie_cmds(service_id, chart_id, tms2000, values.drop_last()) + spec_pie_cmds(
            service_id,
            chart_id,
            tms2000,
            values.last().0,
            values.last().1 as u64,
        )
    }
}

/// The commands of a drilldown pie: the command group of each outer label,
/// in order.
pub open spec fn spec_drilldown_pie_cmds(
    service_id: u32,
    chart_id: u64,
    tms2000: i64,
    values: Seq<(Seq<char>, Seq<(Seq<char>, u16)>)>,
) -> Seq<BatchCommandView>
    decreases values.len(),
{
    if values.len() == 0 {
        Seq::empty()
    } else {
        spec_drilldown_pie_cmds(service_id, chart_id, tms2000, values.drop_last())
            + spec_drilldown_cmds(
            service_id,
            chart_id,
            tms2000,
            values.last().0,
            values.last().1,
        )
    }
}

/// Whether a line chart's stored configuration blocks a delta: the document
/// under `filter`, when present and decodable, decides; a missing or
/// undecodable filter blocks nothing.
pub open spec fn spec_filter_blocks(chart_data: JsonView, value: int) -> bool {
    match chart_data.get("filter"@) {
        Some(f) => match spec_decode_filter(f) {
            Some(filter) => spec_should_block(filter, value),
            None => false,
        },
        None => false,
    }
}

/// What updating one chart with one payload does, by chart type.
///
/// - A payload that fails to decode produces a failed effect and nothing
///   else; one malformed chart never aborts the rest of a submission.
/// - A line chart's delta may be blocked by the chart's own stored filter;
///   otherwise it becomes the independent line write.
/// - A simple map label of exactly `AUTO` stands for the caller's resolved
///   country; with no resolved country the update is skipped entirely.
/// - Advanced maps and the bar types are accepted and aggregate nothing.
pub open spec fn spec_update_chart(
    chart: ChartView,
    payload: JsonView,
    tms2000: i64,
    country_iso: Option<Seq<char>>,
) -> UpdateEffect {
    match chart.chart_type {
        ChartType::SingleLineChart => match spec_decode_single_line_chart(payload) {
            None => effect_failed(),
            Some(value) => if spec_filter_blocks(chart.data, value as int) {
                effect_nothing()
            } else {
                UpdateEffect {
                    decoded: true,
                    batch: Seq::empty(),
                    line_write: Some(
                        BatchCommandView::HIncrBy {
                            key: spec_line_key(chart.id, "1"@),
                            field: (tms2000 * SECONDS_PER_TMS2000 + TMS2000_EPOCH_SECONDS) as i64,
                            by: value as i64,
                        },
                    ),
                }
            },
        },
        ChartType::SimplePie => match spec_decode_simple_pie(payload) {
            None => effect_failed(),
            Some(label) => effect_batch(
                spec_pie_cmds(chart.service_id, chart.id, tms2000, label, 1),
            ),
        },
        ChartType::AdvancedPie => match spec_decode_advanced_pie(payload) {
            None => effect_failed(),
            Some(values) => effect_batch(
                spec_advanced_pie_cmds(chart.service_id, chart.id, tms2000, values),
            ),
        },
        ChartType::DrilldownPie => match spec_decode_drilldown_pie(payload) {
            None => effect_failed(),
            Some(values) => effect_batch(
                spec_drilldown_pie_cmds(chart.service_id, chart.id, tms2000, values),
            ),
        },
        ChartType::SimpleMap => match spec_decode_simple_map(payload) {
            None => effect_failed(),
            Some(label) => if label == "AUTO"@ {
                match country_iso {
                    Some(code) => effect_batch(
                        spec_pie_cmds(chart.service_id, chart.id, tms2000, code, 1),
                    ),
                    None => effect_nothing(),
                }
            } else {
                effect_batch(spec_pie_cmds(chart.service_id, chart.id, tms2000, label, 1))
            },
        },
        ChartType::AdvancedMap => effect_nothing(),
        ChartType::SimpleBar => effect_nothing(),
        ChartType::AdvancedBar => effect_nothing(),
    }
}

/// Whether a command sequence only appends: every command is a nonnegative
/// sorted-set increment or an expiration refresh, so no aggregate is ever
/// overwritten, removed or decremented.
pub open spec fn is_increment_only(cmds: Seq<BatchCommandView>) -> bool {
    forall|i: int|
        0 <= i < cmds.len() ==> ((#[trigger] cmds[i]) matches BatchCommandView::ZIncrBy { .. }
            || cmds[i] matches BatchCommandView::Expire { .. })
}

/// The inner commands of a drilldown outer label only append.
proof fn lemma_drilldown_inner_cmds_increment_only(
    service_id: u32,
    chart_id: u64,
    tms2000: i64,
    outer: Seq<char>,
    values: Seq<(Seq<char>, u16)>,
)
    ensures
        is_increment_only(
            spec_drilldown_inner_cmds(service_id, chart_id, tms2000, outer, values),
        ),
    decreases values.len(),
{
    if values.len() > 0 {
        lemma_drilldown_inner_cmds_increment_only(
            service_id,
            chart_id,
            tms2000,
            outer,
            values.drop_last(),
        );
    }
}

/// The commands of a whole drilldown only append.
proof fn lemma_drilldown_pie_cmds_increment_only(
    service_id: u32,
    chart_id: u64,
    tms2000: i64,
    values: Seq<(Seq<char>, Seq<(Seq<char>, u16)>)>,
)
    ensures
        is_increment_only(spec_drilldown_pie_cmds(service_id, chart_id, tms2000, values)),
    decreases values.len(),
{
    if values.len() > 0 {
        lemma_drilldown_pie_cmds_increment_only(
            service_id,
            chart_id,
            tms2000,
            values.drop_last(),
        );
        lemma_drilldown_inner_cmds_increment_only(
            service_id,
            chart_id,
            tms2000,
            values.last().0,
            values.last().1,
        );
    }
}

/// The commands of an advanced pie only append.
proof fn lemma_advanced_pie_cmds_increment_only(
    service_id: u32,
    chart_id: u64,
    tms2000: i64,
    values: Seq<(Seq<char>, u16)>,
)
    ensures
        is_increment_only(spec_advanced_pie_cmds(service_id, chart_id, tms2000, values)),
    decreases values.len(),
{
    if values.len() > 0 {
        lemma_advanced_pie_cmds_increment_only(service_id, chart_id, tms2000, values.drop_last());
    }
}

/// Law: aggregate records are append-only. Whatever chart type, payload,
/// bucket and resolved country an update runs with, every command it queues
/// onto the shared batch is a nonnegative sorted-set increment or an
/// expiration refresh — never an overwrite, a removal or a decrement.
pub proof fn lemma_update_chart_batch_increment_only(
    chart: ChartView,
    payload: JsonView,
    tms2000: i64,
    country_iso: Option<Seq<char>>,
)
    ensures
        is_increment_only(spec_update_chart(chart, payload, tms2000, country_iso).batch),
{
    match chart.chart_type {
        ChartType::AdvancedPie => match spec_decode_advanced_pie(payload) {
            Some(values) => {
                lemma_advanced_pie_cmds_increment_only(
                    chart.service_id,
                    chart.id,
                    tms2000,
                    values,
                );
            },
            None => {},
        },
        ChartType::DrilldownPie => match spec_decode_drilldown_pie(payload) {
            Some(values) => {
                lemma_drilldown_pie_cmds_increment_only(
                    chart.service_id,
                    chart.id,
                    tms2000,
                    values,
                );
            },
            None => {},
        },
        _ => {},
    }
}

/// The view of an optional country code.
pub open spec fn country_view(country_iso: Option<&str>) -> Option<Seq<char>> {
    match country_iso {
        Some(code) => Some(code@),
        None => None,
    }
}

/// Applies one chart's type-specific update semantics to a chart
/// submission's payload: batch commands are queued onto the shared
/// pipeline, a line-chart write is handed back to run on its own, and an
/// undecodable payload reports an error after changing nothing.
pub fn update_chart(
    chart: &Chart,
    data: &SubmitDataChartSchema,
    tms2000: i64,
    country_iso: Option<&str>,
    pipeline: &mut Pipeline,
) -> (r: Result<Option<BatchCommand>, ChartDecodeError>)
    requires
        0 <= tms2000 <= (i64::MAX - TMS2000_EPOCH_SECONDS) / (SECONDS_PER_TMS2000 as int),
    ensures
        ({
            let effect = spec_update_chart(chart@, data@.data, tms2000, country_view(country_iso));
            match r {
                Ok(line) => effect.decoded && final(pipeline)@ == old(pipeline)@ + effect.batch
                    && (match line {
                    Some(cmd) => effect.line_write == Some(cmd@),
                    None => effect.line_write is None,
                }),
                Err(_) => !effect.decoded && final(pipeline)@ == old(pipeline)@,
            }
        }),
{
    let ghost effect = spec_update_chart(chart@, data@.data, tms2000, country_view(country_iso));
    match chart.chart_type {
        ChartType::SingleLineChart => {
            let decoded = match decode_single_line_chart(&data.data) {
                Some(d) => d,
                None => {
                    return Err(ChartDecodeError);
                },
            };
            let should_block = match chart.data.get("filter") {
                Some(filter) => match decode_filter(filter) {
                    Some(filter) => filter.should_block(&decoded),
                    None => false,
                },
                None => false,
            };
            if should_block {
                return Ok(None);
            }
            Ok(Some(update_line_chart_data(chart.id, tms2000, "1", decoded.value)))
        },
        ChartType::SimplePie => {
            let decoded = match decode_simple_pie(&data.data) {
                Some(d) => d,
                None => {
                    return Err(ChartDecodeError);
                },
            };
            update_pie_data(
                chart.service_id,
                chart.id,
                tms2000,
                decoded.value.as_str(),
                1,
                pipeline,
            );
            Ok(None)
        },
        ChartType::AdvancedPie => {
            let decoded = match decode_advanced_pie(&data.data) {
                Some(d) => d,
                None => {
                    return Err(ChartDecodeError);
                },
            };
            let ghost values = counts_view(decoded.values@);
            let n = decoded.values.len();
            let mut i: usize = 0;
            while i < n
                invariant
                    0 <= i <= n,
                    n == decoded.values@.len(),
                    values == counts_view(decoded.values@),
                    pipeline@ == old(pipeline)@ + spec_advanced_pie_cmds(
                        chart@.service_id,
                        chart@.id,
                        tms2000,
                        values.subrange(0, i as int),
                    ),
                decreases n - i,
            {
                proof {
                    assert(values.subrange(0, i + 1).drop_last() =~= values.subrange(0, i as int));
                    assert(values.subrange(0, i + 1).last() == values[i as int]);
                }
                update_pie_data(
                    chart.service_id,
                    chart.id,
                    tms2000,
                    decoded.values[i].0.as_str(),
                    decoded.values[i].1,
                    pipeline,
                );
                proof {
                    assert(pipeline@ =~= old(pipeline)@ + spec_advanced_pie_cmds(
                        chart@.service_id,
                        chart@.id,
                        tms2000,
                        values.subrange(0, i + 1),
                    ));
                }
                i = i + 1;
            }
            proof {
                assert(values.subrange(0, n as int) =~= values);
            }
            Ok(None)
        },
        ChartType::DrilldownPie => {
            let decoded = match decode_drilldown_pie(&data.data) {
                Some(d) => d,
                None => {
                    return Err(ChartDecodeError);
                },
            };
            let ghost values = drilldown_view(decoded.values@);
            let n = decoded.values.len();
            let mut i: usize = 0;
            while i < n
                invariant
                    0 <= i <= n,
                    n == decoded.values@.len(),
                    values == drilldown_view(decoded.values@),
                    forall|k: int|
                        0 <= k < n ==> (#[trigger] decoded.values@[k]).1@.len() <= u32::MAX,
                    pipeline@ == old(pipeline)@ + spec_drilldown_pie_cmds(
                        chart@.service_id,
                        chart@.id,
                        tms2000,
                        values.subrange(0, i as int),
                    ),
                decreases n - i,
            {
                proof {
                    assert(values.subrange(0, i + 1).drop_last() =~= values.subrange(0, i as int));
                    assert(values.subrange(0, i + 1).last() == values[i as int]);
                }
                update_drilldown_pie_data(
                    chart.service_id,
                    chart.id,
                    tms2000,
                    decoded.values[i].0.as_str(),
                    &decoded.values[i].1,
                    pipeline,
                );
                proof {
                    assert(pipeline@ =~= old(pipeline)@ + spec_drilldown_pie_cmds(
                        chart@.service_id,
                        chart@.id,
                        tms2000,
                        values.subrange(0, i + 1),
                    ));
                }
                i = i + 1;
            }
            proof {
                assert(values.subrange(0, n as int) =~= values);
            }
            Ok(None)
        },
        ChartType::SimpleMap => {
            let decoded = match decode_simple_map(&data.data) {
                Some(d) => d,
                None => {
                    return Err(ChartDecodeError);
                },
            };
            if crate::strutil::str_eq(decoded.value.as_str(), "AUTO") {
                match country_iso {
                    Some(code) => {
                        update_map_data(chart.service_id, chart.id, tms2000, code, 1, pipeline);
                        Ok(None)
                    },
                    None => Ok(None),
                }
            } else {
                update_map_data(
                    chart.service_id,
                    chart.id,
                    tms2000,
                    decoded.value.as_str(),
                    1,
                    pipeline,
                );
                Ok(None)
            }
        },
        ChartType::AdvancedMap => Ok(None),
        ChartType::SimpleBar => Ok(None),
        ChartType::AdvancedBar => Ok(None),
    }
}

} // verus!
