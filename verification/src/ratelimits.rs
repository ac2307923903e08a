//! The rate limiter's pure parts: the counter keys of both dimensions and
//! the post-increment decision. The store performs one atomic
//! increment-and-expire per check; the request that crosses the threshold
//! is itself rejected.

use vstd::prelude::*;
use vstd::string::StringExecFns;
use crate::strutil::append_i64;
use crate::strutil::append_u64;
use crate::strutil::spec_dec_i64;
use crate::strutil::spec_dec_nat;

verus! {

/// Seconds a rate-limit counter lives after each touch: 31 minutes.
pub const RATELIMIT_TTL_SECONDS: u64 = 1860;

/// A rate-limit dimension identifier: the service id and the dimension's
/// own discriminator (a server identifier or a client address).
pub open spec fn spec_ratelimit_identifier(service_id: u32, suffix: Seq<char>) -> Seq<char> {
    spec_dec_nat(service_id as nat) + "#"@ + suffix
}

/// A rate-limit counter key: the dimension identifier, the tenant url and
/// the current bucket.
pub open spec fn spec_ratelimit_key(
    identifier: Seq<char>,
    software_url: Seq<char>,
    tms2000: i64,
) -> Seq<char> {
    "ratelimit:"@ + identifier + ":"@ + software_url + ":"@ + spec_dec_i64(tms2000)
}

/// Builds the counter key of one rate-limit dimension.
pub fn ratelimit_key(service_id: u32, suffix: &str, software_url: &str, tms2000: i64) -> (r:
    String)
    ensures
        r@ == spec_ratelimit_key(
            spec_ratelimit_identifier(service_id, suffix@),
            software_url@,
            tms2000,
        ),
{
    let mut s = String::from_str("ratelimit:");
    append_u64(&mut s, service_id as u64);
    s.append("#");
    s.append(suffix);
    s.append(":");
    s.append(software_url);
    s.append(":");
    append_i64(&mut s, tms2000);
    proof {
        assert(s@ =~= spec_ratelimit_key(
            spec_ratelimit_identifier(service_id, suffix@),
            software_url@,
            tms2000,
        ));
    }
    s
}

/// Judges one dimension: the request is limited exactly when the counter's
/// post-increment value exceeds the dimension's limit, so the request that
/// crosses the threshold is itself rejected.
pub fn is_ratelimited(request_count: u64, limit: u16) -> (r: bool)
    ensures
        r == (request_count > limit),
{
    request_count > limit as u64
}

} // verus!
