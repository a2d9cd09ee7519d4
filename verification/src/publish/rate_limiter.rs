//! Per-platform publishing limits: a cap on concurrent requests and a
//! minimum interval between publications.
//!
//! Instants are readings of a monotonic clock in nanoseconds and intervals
//! are lengths in nanoseconds; the caller reads the clock and passes the
//! reading in.
use crate::text::{push_decimal, push_str, string_of, decimal};
use crate::types::{Platform, PLATFORM_COUNT};
use vstd::prelude::*;

verus! {

/// Nanoseconds in a second.
pub const NANOS_PER_SEC: u64 = 1_000_000_000;

/// Time from `last` to `now`; zero if `now` is earlier (as `Instant`'s
/// saturating `duration_since`).
pub open spec fn elapsed(last: u64, now: u64) -> nat {
    if now >= last {
        (now - last) as nat
    } else {
        0
    }
}

/// `nanos` as whole seconds, rounded to the nearest second with ties to
/// the even second (the `{:.0}` rendering of the length in seconds).
pub open spec fn rounded_secs(nanos: nat) -> nat {
    let secs = nanos / (NANOS_PER_SEC as nat);
    let frac = nanos % (NANOS_PER_SEC as nat);
    if frac > 500_000_000 || (frac == 500_000_000 && secs % 2 == 1) {
        secs + 1
    } else {
        secs
    }
}

/// The refusal for too many concurrent requests.
pub open spec fn busy_message(p: Platform, count: nat, max: nat) -> Seq<char> {
    "平台 "@ + p.debug_text() + " 并发请求数已达上限 ("@ + decimal(count) + "/"@ + decimal(max)
        + ")"@
}

/// The refusal for publishing again too soon, `remaining` nanoseconds
/// before the interval is over.
pub open spec fn too_soon_message(remaining: nat) -> Seq<char> {
    "发布频率限制：距下次可发布还需 "@ + decimal(rounded_secs(remaining)) + " 秒"@
}

/// What a limiter holds, per platform slot: the requests under way and the
/// instant of the last publication; and the cap on concurrent requests.
pub struct LimiterState {
    pub active: Seq<nat>,
    pub last: Seq<Option<u64>>,
    pub max: nat,
}

impl LimiterState {
    /// One slot per platform.
    pub open spec fn wf(self) -> bool {
        self.active.len() == PLATFORM_COUNT && self.last.len() == PLATFORM_COUNT
    }

    /// Time left at `now` before platform slot `i` may be published to again.
    pub open spec fn remaining(self, i: int, min_interval: u64, now: u64) -> nat {
        match self.last[i] {
            Some(l) => if elapsed(l, now) < min_interval {
                (min_interval - elapsed(l, now)) as nat
            } else {
                0
            },
            None => 0,
        }
    }

    /// The state after a publication to slot `i` starts.
    pub open spec fn started(self, i: int) -> LimiterState {
        LimiterState { active: self.active.update(i, self.active[i] + 1), ..self }
    }

    /// The state after a publication to slot `i` ends.
    pub open spec fn ended(self, i: int) -> LimiterState {
        LimiterState {
            active: self.active.update(
                i,
                if self.active[i] > 0 {
                    (self.active[i] - 1) as nat
                } else {
                    0
                },
            ),
            ..self
        }
    }

    /// The state after a publication to slot `i` is recorded at `now`.
    pub open spec fn published(self, i: int, now: u64) -> LimiterState {
        LimiterState { last: self.last.update(i, Some(now)), ..self.ended(i) }
    }
}

/// Thread-unsafe core of the publishing limiter; the service wraps it in a
/// lock.
pub struct RateLimiter {
    last_publish: [Option<u64>; PLATFORM_COUNT],
    active_requests: [usize; PLATFORM_COUNT],
    max_concurrent: usize,
}

impl View for RateLimiter {
    type V = LimiterState;

    closed spec fn view(&self) -> LimiterState {
        LimiterState {
            active: self.active_requests@.map_values(|c: usize| c as nat),
            last: self.last_publish@,
            max: self.max_concurrent as nat,
        }
    }
}

impl RateLimiter {
    /// Every limiter caps concurrent requests at three.
    #[verifier::type_invariant]
    closed spec fn cap_is_three(self) -> bool {
        self.max_concurrent == 3
    }

    /// A limiter with no request under way, nothing published yet, and a cap
    /// of three concurrent requests per platform.
    pub fn new() -> (r: RateLimiter)
        ensures
            r@.wf(),
            r@.active == Seq::new(PLATFORM_COUNT as nat, |i: int| 0nat),
            r@.last == Seq::new(PLATFORM_COUNT as nat, |i: int| None::<u64>),
            r@.max == 3,
    {
        let r = RateLimiter {
            last_publish: [None, None, None, None, None, None],
            active_requests: [0, 0, 0, 0, 0, 0],
            max_concurrent: 3,
        };
        assert(r@.active =~= Seq::new(PLATFORM_COUNT as nat, |i: int| 0nat));
        assert(r@.last =~= Seq::new(PLATFORM_COUNT as nat, |i: int| None::<u64>));
        r
    }

    /// Whether a publication to `platform` may start at `now`: refused while
    /// the cap on concurrent requests is reached, then while less than
    /// `min_interval` has passed since the last publication.
    pub fn can_publish(&self, platform: &Platform, min_interval: u64, now: u64) -> (r: Result<(), String>)
        ensures
            self@.active[platform.slot()] >= self@.max ==> (r matches Err(m) && m@ == busy_message(
                *platform,
                self@.active[platform.slot()],
                self@.max,
            )),
            self@.active[platform.slot()] < self@.max && self@.remaining(platform.slot(), min_interval, now) > 0
                ==> (r matches Err(m) && m@ == too_soon_message(
                self@.remaining(platform.slot(), min_interval, now),
            )),
            r is Ok <==> self@.active[platform.slot()] < self@.max && self@.remaining(
                platform.slot(),
                min_interval,
                now,
            ) == 0,
            self@.max == 3,
            self@.wf(),
    {
        proof {
            use_type_invariant(self);
        }
        let i = platform.index();
        let count = self.active_requests[i];
        if count >= self.max_concurrent {
            let mut out: Vec<char> = Vec::new();
            push_str(&mut out, "平台 ");
            push_str(&mut out, platform.debug_name());
            push_str(&mut out, " 并发请求数已达上限 (");
            push_decimal(&mut out, count as u64);
            push_str(&mut out, "/");
            push_decimal(&mut out, self.max_concurrent as u64);
            push_str(&mut out, ")");
            return Err(string_of(&out));
        }
        let wait = self.wait_duration(platform, min_interval, now);
        if wait > 0 {
            let secs = wait / NANOS_PER_SEC;
            let frac = wait % NANOS_PER_SEC;
            let rounded = if frac > 500_000_000 || (frac == 500_000_000 && secs % 2 == 1) {
                secs + 1
            } else {
                secs
            };
            let mut out: Vec<char> = Vec::new();
            push_str(&mut out, "发布频率限制：距下次可发布还需 ");
            push_decimal(&mut out, rounded);
            push_str(&mut out, " 秒");
            return Err(string_of(&out));
        }
        Ok(())
    }

    /// Records that a publication to `platform` has started.
    pub fn record_publish_start(&mut self, platform: Platform)
        requires
            old(self)@.active[platform.slot()] < usize::MAX,
        ensures
            final(self)@ == old(self)@.started(platform.slot()),
            final(self)@.max == 3,
            final(self)@.wf(),
    {
        proof {
            use_type_invariant(&*self);
        }
        let i = platform.index();
        let c = self.active_requests[i];
        let mut a = self.active_requests;
        a[i] = c + 1;
        self.active_requests = a;
        assert(self@.active =~= old(self)@.started(platform.slot()).active);
    }

    /// Records that a publication to `platform` has ended; the count of
    /// requests under way never goes below zero.
    pub fn record_publish_end(&mut self, platform: Platform)
        ensures
            final(self)@ == old(self)@.ended(platform.slot()),
            final(self)@.max == 3,
            final(self)@.wf(),
    {
        proof {
            use_type_invariant(&*self);
        }
        let i = platform.index();
        let c = self.active_requests[i];
        if c > 0 {
            let mut a = self.active_requests;
            a[i] = c - 1;
            self.active_requests = a;
        }
        assert(self@.active =~= old(self)@.ended(platform.slot()).active);
    }

    /// Records a publication to `platform` at `now`: ends one request under
    /// way (if any) and makes `now` the time of the last publication.
    pub fn record_publish(&mut self, platform: Platform, now: u64)
        ensures
            final(self)@ == old(self)@.published(platform.slot(), now),
            final(self)@.max == 3,
            final(self)@.wf(),
    {
        proof {
            use_type_invariant(&*self);
        }
        let i = platform.index();
        let c = self.active_requests[i];
        if c > 0 {
            let mut a = self.active_requests;
            a[i] = c - 1;
            self.active_requests = a;
        }
        let mut l = self.last_publish;
        l[i] = Some(now);
        self.last_publish = l;
        assert(self@.active =~= old(self)@.published(platform.slot(), now).active);
        assert(self@.last =~= old(self)@.published(platform.slot(), now).last);
    }

    /// Time left at `now` before `platform` may be published to again.
    pub fn wait_duration(&self, platform: &Platform, min_interval: u64, now: u64) -> (r: u64)
        ensures
            r == self@.remaining(platform.slot(), min_interval, now),
            self@.max == 3,
            self@.wf(),
    {
        proof {
            use_type_invariant(&*self);
        }
        match self.last_publish[platform.index()] {
            Some(last) => {
                let el = if now >= last {
                    now - last
                } else {
                    0
                };
                if el < min_interval {
                    min_interval - el
                } else {
                    0
                }
            },
            None => 0,
        }
    }

    /// Requests to `platform` that are under way.
    pub fn get_active_count(&self, platform: &Platform) -> (r: usize)
        ensures
            r == self@.active[platform.slot()],
            self@.max == 3,
            self@.wf(),
    {
        proof {
            use_type_invariant(&*self);
        }
        self.active_requests[platform.index()]
    }
}

/// Ending a publication undoes starting it: the state is as before.
pub proof fn lemma_end_undoes_start(s: LimiterState, i: int)
    requires
        s.wf(),
        0 <= i < PLATFORM_COUNT,
    ensures
        s.started(i).ended(i) == s,
{
    assert(s.started(i).ended(i).active =~= s.active);
}

/// Starting or ending a publication to one platform leaves every other
/// platform as it was, and never changes when anything was last published.
pub proof fn lemma_other_platforms_untouched(s: LimiterState, i: int, j: int, now: u64)
    requires
        s.wf(),
        0 <= i < PLATFORM_COUNT,
        0 <= j < PLATFORM_COUNT,
        i != j,
    ensures
        s.started(i).active[j] == s.active[j],
        s.ended(i).active[j] == s.active[j],
        s.published(i, now).active[j] == s.active[j],
        s.published(i, now).last[j] == s.last[j],
        s.started(i).last == s.last,
        s.ended(i).last == s.last,
{
}

/// Right after a publication is recorded at `t`, the platform must wait the
/// whole interval; at a later instant `u` it waits what is left of it, and
/// nothing once the interval has passed.
pub proof fn lemma_wait_after_publish(s: LimiterState, i: int, t: u64, u: u64, min_interval: u64)
    requires
        s.wf(),
        0 <= i < PLATFORM_COUNT,
        t <= u,
    ensures
        s.published(i, t).remaining(i, min_interval, t) == min_interval,
        u - t < min_interval ==> s.published(i, t).remaining(i, min_interval, u) == min_interval
            - (u - t),
        u - t >= min_interval ==> s.published(i, t).remaining(i, min_interval, u) == 0,
{
}

proof fn lemma_repeat_started(s: LimiterState, i: int, n: nat)
    requires
        s.wf(),
        0 <= i < PLATFORM_COUNT,
    ensures
        repeat_started(s, i, n) == (LimiterState {
            active: s.active.update(i, s.active[i] + n),
            ..s
        }),
    decreases n,
{
    if n == 0 {
        assert(s.active.update(i, s.active[i] + 0) =~= s.active);
    } else {
        lemma_repeat_started(s, i, (n - 1) as nat);
        assert(repeat_started(s, i, n).active =~= s.active.update(i, s.active[i] + n));
    }
}

proof fn lemma_repeat_ended(s: LimiterState, i: int, n: nat)
    requires
        s.wf(),
        0 <= i < PLATFORM_COUNT,
        s.active[i] >= n,
    ensures
        repeat_ended(s, i, n) == (LimiterState {
            active: s.active.update(i, (s.active[i] - n) as nat),
            ..s
        }),
    decreases n,
{
    if n == 0 {
        assert(s.active.update(i, (s.active[i] - 0) as nat) =~= s.active);
    } else {
        lemma_repeat_ended(s, i, (n - 1) as nat);
        assert(repeat_ended(s, i, n).active =~= s.active.update(i, (s.active[i] - n) as nat));
    }
}

/// After `n` starts and then `n` ends of publications to one platform, the
/// limiter is as it was before.
pub proof fn lemma_balanced_starts_and_ends(s: LimiterState, i: int, n: nat)
    requires
        s.wf(),
        0 <= i < PLATFORM_COUNT,
    ensures
        repeat_ended(repeat_started(s, i, n), i, n) == s,
{
    lemma_repeat_started(s, i, n);
    let x = repeat_started(s, i, n);
    lemma_repeat_ended(x, i, n);
    assert(repeat_ended(x, i, n).active =~= s.active);
}

/// `s` after `n` starts of slot `i`.
pub open spec fn repeat_started(s: LimiterState, i: int, n: nat) -> LimiterState
    decreases n,
{
    if n == 0 {
        s
    } else {
        repeat_started(s, i, (n - 1) as nat).started(i)
    }
}

/// `s` after `n` ends of slot `i`.
pub open spec fn repeat_ended(s: LimiterState, i: int, n: nat) -> LimiterState
    decreases n,
{
    if n == 0 {
        s
    } else {
        repeat_ended(s, i, (n - 1) as nat).ended(i)
    }
}

} // verus!
