//! Spacing of requests to each hotspot source.
//!
//! Instants are readings of a monotonic clock in nanoseconds; the caller
//! reads the clock, sleeps for the wait this module computes, and records
//! the request.
use crate::publish::rate_limiter::elapsed;
use crate::types::{HotspotSource, HOTSPOT_SOURCE_COUNT};
use vstd::prelude::*;

verus! {

/// Minimum spacing of two requests to one source: one minute.
pub const SOURCE_MIN_INTERVAL_NANOS: u64 = 60_000_000_000;

/// Request spacing per hotspot source.
pub struct SourceRateLimiter {
    last_request: [Option<u64>; HOTSPOT_SOURCE_COUNT],
    min_interval: u64,
}

impl SourceRateLimiter {
    /// Instant of the last request to source slot `i`, if any.
    pub closed spec fn last(self, i: int) -> Option<u64> {
        self.last_request@[i]
    }

    /// Minimum spacing of two requests to one source.
    pub closed spec fn interval(self) -> u64 {
        self.min_interval
    }

    /// How long a request to slot `i` at `now` must wait, if at all.
    pub open spec fn wait_at(self, i: int, now: u64) -> Option<u64> {
        match self.last(i) {
            Some(l) => if elapsed(l, now) < self.interval() {
                Some((self.interval() - elapsed(l, now)) as u64)
            } else {
                None
            },
            None => None,
        }
    }

    /// A limiter with no request recorded and a spacing of one minute.
    pub fn new() -> (r: SourceRateLimiter)
        ensures
            forall|i: int| 0 <= i < HOTSPOT_SOURCE_COUNT ==> #[trigger] r.last(i) is None,
            r.interval() == SOURCE_MIN_INTERVAL_NANOS,
    {
        SourceRateLimiter {
            last_request: [None, None, None, None, None, None],
            min_interval: SOURCE_MIN_INTERVAL_NANOS,
        }
    }

    /// How long a request to `source` at `now` must wait: what is left of
    /// the spacing since the last request, or nothing.
    pub fn wait_before(&self, source: &HotspotSource, now: u64) -> (r: Option<u64>)
        ensures
            r == self.wait_at(source.slot(), now),
    {
        match self.last_request[source.index()] {
            Some(last) => {
                let el = if now >= last {
                    now - last
                } else {
                    0
                };
                if el < self.min_interval {
                    Some(self.min_interval - el)
                } else {
                    None
                }
            },
            None => None,
        }
    }

    /// Records a request to `source` at `now`.
    pub fn record_request(&mut self, source: &HotspotSource, now: u64)
        ensures
            final(self).last(source.slot()) == Some(now),
            forall|i: int| 0 <= i < HOTSPOT_SOURCE_COUNT && i != source.slot() ==> #[trigger] final(self).last(i) == old(self).last(i),
            final(self).interval() == old(self).interval(),
    {
        let mut l = self.last_request;
        l[source.index()] = Some(now);
        self.last_request = l;
    }
}

/// Right after a request to a source, another request to it must wait the
/// whole spacing; requests to the other sources are not delayed by it.
pub proof fn lemma_request_spacing(before: SourceRateLimiter, after: SourceRateLimiter, i: int, t: u64, u: u64)
    requires
        0 <= i < HOTSPOT_SOURCE_COUNT,
        after.last(i) == Some(t),
        after.interval() == before.interval(),
        forall|j: int| 0 <= j < HOTSPOT_SOURCE_COUNT && j != i ==> #[trigger] after.last(j) == before.last(j),
        t <= u,
    ensures
        before.interval() > 0 ==> after.wait_at(i, t) == Some(before.interval()),
        u - t < before.interval() ==> after.wait_at(i, u) == Some((before.interval() - (u - t)) as u64),
        u - t >= before.interval() ==> after.wait_at(i, u) is None,
        forall|j: int| 0 <= j < HOTSPOT_SOURCE_COUNT && j != i ==> #[trigger] after.wait_at(j, u) == before.wait_at(j, u),
{
}

} // verus!
