//! Cookie health checks: which platforms' cookies still log in, and when
//! each platform was last checked.
//!
//! The caller asks the platform's publisher (if one is registered) whether
//! the cookies log in and hands its answer to the checker; times are Unix
//! timestamps in seconds.
use crate::publish::error::PublishError;
use crate::text::{push_str, string_of};
use crate::types::{CookieStatus, Platform, PLATFORM_COUNT};
use vstd::prelude::*;

verus! {

broadcast use vstd::string::group_string_axioms;

/// The refusal for a platform without a registered publisher.
pub open spec fn unregistered_text(p: Platform) -> Seq<char> {
    "平台 "@ + p.debug_text() + " 未注册"@
}

/// Whether a check found the cookies valid: only an answer saying so.
pub open spec fn answer_valid(a: Option<Result<bool, PublishError>>) -> bool {
    match a {
        Some(Ok(v)) => v,
        _ => false,
    }
}

/// The `j`-th check is an answered check of platform slot `i`.
pub open spec fn answered_at(answers: Seq<(Platform, Option<Result<bool, PublishError>>)>, j: int, i: int) -> bool {
    answers[j].0.slot() == i && answers[j].1 matches Some(Ok(_))
}

/// One of the first `n` checks is an answered check of platform slot `i`.
pub open spec fn answered(answers: Seq<(Platform, Option<Result<bool, PublishError>>)>, n: int, i: int) -> bool {
    exists|j: int| 0 <= j < n && #[trigger] answered_at(answers, j, i)
}

/// The time of the last check of each platform.
pub struct CookieHealthChecker {
    last_check: [Option<i64>; PLATFORM_COUNT],
}

impl CookieHealthChecker {
    /// When platform slot `i` was last checked, if ever.
    pub closed spec fn last(self, i: int) -> Option<i64> {
        self.last_check@[i]
    }

    /// A checker that has checked nothing yet.
    pub fn new() -> (r: CookieHealthChecker)
        ensures
            forall|i: int| 0 <= i < PLATFORM_COUNT ==> #[trigger] r.last(i) is None,
    {
        CookieHealthChecker { last_check: [None, None, None, None, None, None] }
    }

    /// When the platform was last checked.
    pub fn last_checked(&self, platform: &Platform) -> (r: Option<i64>)
        ensures
            r == self.last(platform.slot()),
    {
        self.last_check[platform.index()]
    }

    /// The check of one platform at `now`, from the publisher's answer
    /// (`None` where no publisher is registered): a status of the
    /// platform where the publisher answered, recorded as its last check;
    /// else the reason, and nothing recorded.
    pub fn check(&mut self, platform: Platform, answer: Option<Result<bool, PublishError>>, now: i64) -> (r: Result<CookieStatus, String>)
        ensures
            match answer {
                None => r matches Err(m) && m@ == unregistered_text(platform),
                Some(Err(e)) => r matches Err(m) && m@ == e.display_text(),
                Some(Ok(valid)) => r matches Ok(s) && s.platform == platform && s.valid == valid
                    && s.last_checked == now,
            },
            answer matches Some(Ok(_)) ==> final(self).last(platform.slot()) == Some(now),
            !(answer matches Some(Ok(_))) ==> final(self).last(platform.slot()) == old(self).last(platform.slot()),
            forall|i: int|
                0 <= i < PLATFORM_COUNT && i != platform.slot() ==> #[trigger] final(self).last(i)
                    == old(self).last(i),
    {
        match answer {
            None => {
                let mut out: Vec<char> = Vec::new();
                push_str(&mut out, "平台 ");
                push_str(&mut out, platform.debug_name());
                push_str(&mut out, " 未注册");
                Err(string_of(&out))
            },
            Some(Err(e)) => Err(e.to_display_string()),
            Some(Ok(valid)) => {
                let mut l = self.last_check;
                l[platform.index()] = Some(now);
                self.last_check = l;
                Ok(CookieStatus { platform, valid, last_checked: now })
            },
        }
    }

    /// Checks each platform with its publisher's answer (`None`: no
    /// publisher registered), in order, at `now`: one status per platform,
    /// not valid where the check failed; each answered check is recorded.
    pub fn check_all(&mut self, answers: &Vec<(Platform, Option<Result<bool, PublishError>>)>, now: i64) -> (r: Vec<CookieStatus>)
        ensures
            r@.len() == answers@.len(),
            forall|k: int|
                0 <= k < answers@.len() ==> (#[trigger] r@[k]).platform == answers@[k].0
                    && r@[k].last_checked == now && r@[k].valid == answer_valid(answers@[k].1),
            forall|i: int|
                0 <= i < PLATFORM_COUNT ==> #[trigger] final(self).last(i) == (if answered(
                    answers@,
                    answers@.len() as int,
                    i,
                ) {
                    Some(now)
                } else {
                    old(self).last(i)
                }),
    {
        let mut out: Vec<CookieStatus> = Vec::new();
        let mut k: usize = 0;
        while k < answers.len()
            invariant
                k <= answers@.len(),
                out@.len() == k,
                forall|j: int|
                    0 <= j < k ==> (#[trigger] out@[j]).platform == answers@[j].0 && out@[j].last_checked
                        == now && out@[j].valid == answer_valid(answers@[j].1),
                forall|i: int|
                    0 <= i < PLATFORM_COUNT ==> #[trigger] self.last(i) == (if answered(answers@, k as int, i) {
                        Some(now)
                    } else {
                        old(self).last(i)
                    }),
            decreases answers@.len() - k,
        {
            let p = answers[k].0;
            let ghost prev = *self;
            let valid = match &answers[k].1 {
                Some(Ok(v)) => {
                    let mut l = self.last_check;
                    l[p.index()] = Some(now);
                    self.last_check = l;
                    *v
                },
                _ => false,
            };
            out.push(CookieStatus { platform: p, valid, last_checked: now });
            proof {
                assert forall|i: int| 0 <= i < PLATFORM_COUNT implies #[trigger] self.last(i) == (if answered(
                    answers@,
                    k + 1,
                    i,
                ) {
                    Some(now)
                } else {
                    old(self).last(i)
                }) by {
                    if answers@[k as int].1 matches Some(Ok(_)) && i == p.slot() {
                        assert(answered_at(answers@, k as int, i));
                        assert(answered(answers@, k + 1, i));
                    } else {
                        assert(self.last(i) == prev.last(i));
                        assert(!answered_at(answers@, k as int, i));
                        if answered(answers@, k + 1, i) {
                            let j = choose|j: int| 0 <= j < k + 1 && #[trigger] answered_at(answers@, j, i);
                            assert(answered(answers@, k as int, i));
                        }
                        if answered(answers@, k as int, i) {
                            let j = choose|j: int| 0 <= j < k && #[trigger] answered_at(answers@, j, i);
                            assert(answered(answers@, k + 1, i));
                        }
                    }
                }
            }
            k = k + 1;
        }
        out
    }
}

/// The status a batch check reports for a platform: the check's status,
/// or, where the check failed, the platform as not valid at `now`.
pub fn batch_status(platform: Platform, checked: Result<CookieStatus, String>, now: i64) -> (r: CookieStatus)
    ensures
        match checked {
            Ok(s) => r == s,
            Err(_) => r.platform == platform && !r.valid && r.last_checked == now,
        },
{
    match checked {
        Ok(s) => s,
        Err(_) => CookieStatus { platform, valid: false, last_checked: now },
    }
}

} // verus!
