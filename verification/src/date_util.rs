//! Time bucketing: wall-clock time is folded into a stable integer interval
//! index (a "tms2000" value, one index per 30 minutes) that every aggregate
//! key uses as its bucket. Times enter and leave this module as plain UNIX
//! timestamps (seconds since 1970-01-01T00:00:00Z).

use vstd::prelude::*;

verus! {

/// UNIX timestamp of 2000-02-01T00:00:00Z, the epoch that buckets count from.
/// The first of February (not of January) is a preserved historical
/// compatibility artifact: stored bucket numbers depend on it.
pub const TMS2000_EPOCH_SECONDS: i64 = 949363200;

/// Seconds per fine bucket: 30 minutes.
pub const SECONDS_PER_TMS2000: i64 = 1800;

/// The fine bucket of a timestamp: whole minutes since the epoch, divided by
/// 30 and rounded down.
pub open spec fn spec_tms2000(unix_seconds: i64) -> int {
    (unix_seconds - TMS2000_EPOCH_SECONDS) / 60 / 30
}

/// The coarse bucket of a timestamp: whole seconds since the epoch, divided
/// by 1000 fine-bucket lengths and rounded down.
pub open spec fn spec_tms2000div1000(unix_seconds: i64) -> int {
    (unix_seconds - TMS2000_EPOCH_SECONDS) / (1000int * 60 * 30)
}

/// Converts a UNIX timestamp at or after the epoch to its tms2000 bucket.
pub fn date_to_tms2000(unix_seconds: i64) -> (tms2000: i64)
    requires
        unix_seconds >= TMS2000_EPOCH_SECONDS,
    ensures
        tms2000 == spec_tms2000(unix_seconds),
        tms2000 >= 0,
{
    let minutes = (unix_seconds - TMS2000_EPOCH_SECONDS) / 60;
    minutes / 30
}

/// Converts a tms2000 bucket back to the UNIX timestamp of the bucket's
/// start.
pub fn tms2000_to_date(tms2000: i64) -> (unix_seconds: i64)
    requires
        0 <= tms2000 <= (i64::MAX - TMS2000_EPOCH_SECONDS) / (SECONDS_PER_TMS2000 as int),
    ensures
        unix_seconds == tms2000 * SECONDS_PER_TMS2000 + TMS2000_EPOCH_SECONDS,
{
    proof {
        assert(tms2000 * SECONDS_PER_TMS2000 + TMS2000_EPOCH_SECONDS <= i64::MAX)
            by (nonlinear_arith)
            requires
                0 <= tms2000 <= (i64::MAX - TMS2000_EPOCH_SECONDS) / (SECONDS_PER_TMS2000 as int),
                SECONDS_PER_TMS2000 == 1800,
                TMS2000_EPOCH_SECONDS == 949363200,
        ;
        assert(tms2000 * SECONDS_PER_TMS2000 >= 0) by (nonlinear_arith)
            requires
                tms2000 >= 0,
                SECONDS_PER_TMS2000 == 1800,
        ;
    }
    tms2000 * SECONDS_PER_TMS2000 + TMS2000_EPOCH_SECONDS
}

/// Converts a tms2000 bucket to the UNIX timestamp of the bucket's start.
/// Line-chart hash fields are keyed by this value.
pub fn tms2000_to_timestamp(tms2000: i64) -> (unix_seconds: i64)
    requires
        0 <= tms2000 <= (i64::MAX - TMS2000_EPOCH_SECONDS) / (SECONDS_PER_TMS2000 as int),
    ensures
        unix_seconds == tms2000 * SECONDS_PER_TMS2000 + TMS2000_EPOCH_SECONDS,
{
    tms2000_to_date(tms2000)
}

/// Converts a UNIX timestamp at or after the epoch to its coarse bucket.
pub fn date_to_tms2000_div1000(unix_seconds: i64) -> (tms2000div1000: i64)
    requires
        unix_seconds >= TMS2000_EPOCH_SECONDS,
    ensures
        tms2000div1000 == spec_tms2000div1000(unix_seconds),
        tms2000div1000 >= 0,
{
    (unix_seconds - TMS2000_EPOCH_SECONDS) / (1000 * 60 * 30)
}

/// Converts a coarse bucket back to the UNIX timestamp of its start.
pub fn tms2000div1000_to_date(tms2000div1000: i64) -> (unix_seconds: i64)
    requires
        0 <= tms2000div1000 <= (i64::MAX - TMS2000_EPOCH_SECONDS) / (1000 * SECONDS_PER_TMS2000 as int),
    ensures
        unix_seconds == tms2000div1000 * (1000 * SECONDS_PER_TMS2000 as int) + TMS2000_EPOCH_SECONDS,
{
    proof {
        assert(tms2000div1000 * (1000 * SECONDS_PER_TMS2000 as int) + TMS2000_EPOCH_SECONDS <= i64::MAX
            && tms2000div1000 * (1000 * SECONDS_PER_TMS2000 as int) >= 0) by (nonlinear_arith)
            requires
                0 <= tms2000div1000 <= (i64::MAX - TMS2000_EPOCH_SECONDS) / (1000
                    * SECONDS_PER_TMS2000 as int),
                SECONDS_PER_TMS2000 == 1800,
                TMS2000_EPOCH_SECONDS == 949363200,
        ;
    }
    tms2000div1000 * (1000 * SECONDS_PER_TMS2000) + TMS2000_EPOCH_SECONDS
}

/// Returns how many fine buckets have elapsed since the start of the current
/// coarse bucket, for a time at or after the epoch.
pub fn thirty_minutes_since_last_tms2000div1000(unix_seconds: i64) -> (elapsed: i64)
    requires
        unix_seconds >= TMS2000_EPOCH_SECONDS,
    ensures
        elapsed == spec_tms2000(unix_seconds) - spec_tms2000div1000(unix_seconds) * 1000,
        0 <= elapsed < 1000,
{
    let tms2000 = date_to_tms2000(unix_seconds);
    let tms2000div1000 = date_to_tms2000_div1000(unix_seconds);
    proof {
        lemma_coarse_bucket_bounds(unix_seconds - TMS2000_EPOCH_SECONDS);
    }
    let date_last_tms2000div1000 = tms2000div1000_to_date(tms2000div1000);
    let tms2000_at_last_tms2000div1000 = date_to_tms2000(date_last_tms2000div1000);
    tms2000 - tms2000_at_last_tms2000div1000
}

/// For a nonnegative offset in seconds: the coarse bucket's start converts
/// back to a fine bucket index that is exactly 1000 times the coarse index,
/// and the fine bucket lies within 1000 buckets of it.
proof fn lemma_coarse_bucket_bounds(d: int)
    requires
        d >= 0,
    ensures
        (d / (1000int * 60 * 30)) * (1000int * 1800) / 60 / 30 == (d / (1000int * 60 * 30)) * 1000,
        (d / (1000int * 60 * 30)) * 1000 <= d / 60 / 30 < (d / (1000int * 60 * 30)) * 1000 + 1000,
        0 <= (d / (1000int * 60 * 30)) * (1000int * 1800) <= d,
        d <= i64::MAX - TMS2000_EPOCH_SECONDS ==> (d / (1000int * 60 * 30)) <= (i64::MAX
            - TMS2000_EPOCH_SECONDS) / (1000int * 1800),
{
    let c = d / (1000int * 60 * 30);
    vstd::arithmetic::div_mod::lemma_div_pos_is_pos(d, 1000int * 60 * 30);
    assert(c * (1000int * 1800) / 60 / 30 == c * 1000) by (nonlinear_arith);
    vstd::arithmetic::div_mod::lemma_fundamental_div_mod(d, 1000int * 60 * 30);
    vstd::arithmetic::div_mod::lemma_mod_bound(d, 1000int * 60 * 30);
    let r = d % (1000int * 60 * 30);
    assert(d == c * (1000int * 60 * 30) + r);
    assert(d / 60 / 30 == d / 1800) by {
        vstd::arithmetic::div_mod::lemma_div_denominator(d, 60, 30);
    }
    assert((c * (1000int * 60 * 30) + r) / 1800 == c * 1000 + r / 1800) by (nonlinear_arith)
        requires
            0 <= r < 1000 * 60 * 30,
    ;
    assert(0 <= r / 1800 < 1000) by (nonlinear_arith)
        requires
            0 <= r < 1000 * 60 * 30,
    ;
    assert(c * (1000int * 1800) <= d && c * (1000int * 1800) >= 0) by (nonlinear_arith)
        requires
            d == c * (1000int * 60 * 30) + r && r >= 0 && c >= 0,
    ;
    if d <= i64::MAX - TMS2000_EPOCH_SECONDS {
        vstd::arithmetic::div_mod::lemma_div_is_ordered(
            d,
            i64::MAX - TMS2000_EPOCH_SECONDS,
            1000int * 1800,
        );
    }
}

/// Round trip law: converting a timestamp at or after the epoch to its bucket
/// and back rounds it down to the nearest 30-minute boundary at or after the
/// epoch; the epoch itself maps to bucket 0.
pub proof fn lemma_bucket_round_trip(unix_seconds: i64)
    requires
        unix_seconds >= TMS2000_EPOCH_SECONDS,
    ensures
        ({
            let back = spec_tms2000(unix_seconds) * (SECONDS_PER_TMS2000 as int)
                + TMS2000_EPOCH_SECONDS;
            &&& TMS2000_EPOCH_SECONDS <= back <= unix_seconds
            &&& unix_seconds - back < SECONDS_PER_TMS2000
            &&& (back - TMS2000_EPOCH_SECONDS) % (SECONDS_PER_TMS2000 as int) == 0
        }),
        unix_seconds == TMS2000_EPOCH_SECONDS ==> spec_tms2000(unix_seconds) == 0,
{
    let d = unix_seconds - TMS2000_EPOCH_SECONDS;
    vstd::arithmetic::div_mod::lemma_div_denominator(d, 60, 30);
    assert(d / 60 / 30 == d / 1800);
    let b = d / 1800;
    vstd::arithmetic::div_mod::lemma_fundamental_div_mod(d, 1800);
    vstd::arithmetic::div_mod::lemma_mod_bound(d, 1800);
    vstd::arithmetic::div_mod::lemma_div_pos_is_pos(d, 1800);
    assert(b * 1800 == d - d % 1800);
    assert((b * 1800) % 1800 == 0) by (nonlinear_arith);
}

} // verus!
