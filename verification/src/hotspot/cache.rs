//! The last list fetched from each hotspot source, served again while it
//! is fresh.
//!
//! Instants are readings of a monotonic clock in nanoseconds.
use crate::hotspot::sources::{cache_fresh, cache_is_fresh};
use crate::types::{Hotspot, HotspotSource, HOTSPOT_SOURCE_COUNT};
use vstd::prelude::*;

verus! {

/// The cached list of each source with the instant it was fetched.
pub struct HotspotCache {
    entries: [Option<(Vec<Hotspot>, u64)>; HOTSPOT_SOURCE_COUNT],
}

impl HotspotCache {
    /// The list cached for source slot `i` and when it was fetched.
    pub closed spec fn entry(self, i: int) -> Option<(Seq<Hotspot>, u64)> {
        match self.entries@[i] {
            Some((v, t)) => Some((v@, t)),
            None => None,
        }
    }

    /// An empty cache.
    pub fn new() -> (r: HotspotCache)
        ensures
            forall|i: int| 0 <= i < HOTSPOT_SOURCE_COUNT ==> #[trigger] r.entry(i) is None,
    {
        HotspotCache { entries: [None, None, None, None, None, None] }
    }

    /// The list cached for the source, where it is still fresh at `now`.
    pub fn cached(&self, source: &HotspotSource, now: u64) -> (r: Option<&Vec<Hotspot>>)
        ensures
            match self.entry(source.slot()) {
                Some((v, t)) => if cache_fresh(Some(t), now) {
                    r matches Some(x) && x@ == v
                } else {
                    r is None
                },
                None => r is None,
            },
    {
        match &self.entries[source.index()] {
            Some((v, t)) => {
                if cache_is_fresh(Some(*t), now) {
                    Some(v)
                } else {
                    None
                }
            },
            None => None,
        }
    }

    /// Keeps the list fetched from the source at `now`, in place of the
    /// one before.
    pub fn store(&mut self, source: &HotspotSource, list: Vec<Hotspot>, now: u64)
        ensures
            final(self).entry(source.slot()) == Some((list@, now)),
            forall|i: int|
                0 <= i < HOTSPOT_SOURCE_COUNT && i != source.slot() ==> #[trigger] final(self).entry(i)
                    == old(self).entry(i),
    {
        let i = source.index();
        self.entries.set(i, Some((list, now)));
    }
}

/// A list stored for a source at `t` is still fresh at any `u` before its
/// lifetime has passed, so `cached` serves it back as it was stored; and a
/// list is never fresh once the lifetime has passed.
pub proof fn lemma_cache_lifetime(t: u64, u: u64)
    ensures
        t <= u && u - t < crate::hotspot::sources::CACHE_TTL_NANOS ==> cache_fresh(Some(t), u),
        t <= u && u - t >= crate::hotspot::sources::CACHE_TTL_NANOS ==> !cache_fresh(Some(t), u),
        !cache_fresh(None, u),
{
}

} // verus!
