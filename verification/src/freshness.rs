//! Timestamp freshness: a client-supplied timestamp is accepted only if it
//! neither runs ahead of the verifier's clock by more than the skew
//! tolerance nor lags it by more than the staleness bound.

use vstd::prelude::*;

verus! {

/// Clock-skew tolerance in seconds: a timestamp may run ahead of the
/// verifier's clock by at most this much.
pub const MAX_FUTURE_SKEW: u64 = 60;

/// Staleness bound in seconds: a timestamp may lag the verifier's clock by
/// at most this much.
pub const MAX_AGE: u64 = 300;

/// Outcome of the freshness gate.
#[derive(Clone, Copy, Debug, PartialEq, Eq, Structural)]
pub enum Freshness {
    Fresh,
    TooFarFuture,
    TooStale,
}

/// A timestamp is fresh for clock reading `now` iff it is at most
/// `MAX_FUTURE_SKEW` ahead of `now` and at most `MAX_AGE` behind it.
pub open spec fn timestamp_fresh(ts: int, now: int) -> bool {
    ts <= now + MAX_FUTURE_SKEW && now - ts <= MAX_AGE
}

/// Classify a claimed timestamp against the verifier's clock.
pub fn check_freshness(ts: u64, now: u64) -> (r: Freshness)
    ensures
        r is Fresh <==> timestamp_fresh(ts as int, now as int),
        r is TooFarFuture <==> ts - now > MAX_FUTURE_SKEW,
        r is TooStale <==> (ts - now <= MAX_FUTURE_SKEW && now - ts > MAX_AGE),
{
    if ts > now && ts - now > MAX_FUTURE_SKEW {
        Freshness::TooFarFuture
    } else if now > ts && now - ts > MAX_AGE {
        Freshness::TooStale
    } else {
        Freshness::Fresh
    }
}

/// The freshness window is exact at both ends: for any clock reading, a
/// timestamp exactly `MAX_AGE` old or exactly `MAX_FUTURE_SKEW` ahead is
/// accepted, and one second beyond either bound is rejected.
pub proof fn lemma_freshness_boundary(now: int)
    ensures
        timestamp_fresh(now - MAX_AGE, now),
        !timestamp_fresh(now - MAX_AGE - 1, now),
        timestamp_fresh(now + MAX_FUTURE_SKEW, now),
        !timestamp_fresh(now + MAX_FUTURE_SKEW + 1, now),
{
}

} // verus!
