//! When a request that the API rate-limited is sent again.
//!
//! The caller sends the same request, hands the status of each answer to a
//! [`RetryPolicy`], and does what it decides: deliver the body, wait and send again, or
//! give up.
use vstd::prelude::*;

verus! {

/// How many times a request is sent at most while the API rate-limits it.
pub const MAX_ATTEMPTS: u32 = 3;

/// Seconds to wait when the API names no wait.
pub const DEFAULT_WAIT_SECS: u64 = 1;

/// What to do with an answer.
#[derive(Clone, Copy, Debug, PartialEq, Eq, Structural)]
pub enum RetryDecision {
    /// The request succeeded: deliver the body.
    Deliver,
    /// Rate-limited: wait this long, then send the same request again.
    Wait { seconds: u64 },
    /// Rate-limited, and no attempt is left: the call fails.
    GiveUp,
    /// Any other failure: the call fails with this status, at once.
    Fail { status: u16 },
}

/// The statuses by which the API signals a rate limit.
pub open spec fn is_rate_limited(status: u16) -> bool {
    status == 429 || status == 420
}

/// The statuses of success.
pub open spec fn is_success(status: u16) -> bool {
    200 <= status <= 299
}

/// The attempts left for one request.
#[derive(Debug)]
pub struct RetryPolicy {
    attempts_left: u32,
}

/// `after` and `d` are what `before` makes of an answer with `status` and the wait
/// `retry_after` that the answer named, if any.
pub open spec fn decides(before: RetryPolicy, status: u16, retry_after: Option<u64>, after: RetryPolicy, d: RetryDecision) -> bool {
    if is_success(status) {
        d == RetryDecision::Deliver && after.spec_attempts_left() == before.spec_attempts_left()
    } else if is_rate_limited(status) {
        let left = if before.spec_attempts_left() > 0 { before.spec_attempts_left() - 1 } else { 0 };
        &&& after.spec_attempts_left() == left
        &&& d == if left > 0 {
            RetryDecision::Wait {
                seconds: match retry_after {
                    Some(s) => s,
                    None => DEFAULT_WAIT_SECS,
                },
            }
        } else {
            RetryDecision::GiveUp
        }
    } else {
        d == RetryDecision::Fail { status } && after.spec_attempts_left() == before.spec_attempts_left()
    }
}

impl RetryPolicy {
    /// The attempts that may still be made.
    pub closed spec fn spec_attempts_left(&self) -> int {
        self.attempts_left as int
    }

    /// The budget of a request not yet sent.
    pub fn new() -> (r: Self)
        ensures
            r.spec_attempts_left() == MAX_ATTEMPTS,
    {
        RetryPolicy { attempts_left: MAX_ATTEMPTS }
    }

    /// Whether the request may be sent (again).
    pub fn may_send(&self) -> (r: bool)
        ensures
            r == (self.spec_attempts_left() > 0),
    {
        self.attempts_left > 0
    }

    /// Decides what to do with an answer of `status`, which named the wait `retry_after`.
    pub fn on_status(&mut self, status: u16, retry_after: Option<u64>) -> (d: RetryDecision)
        ensures
            decides(*old(self), status, retry_after, *final(self), d),
    {
        if 200 <= status && status <= 299 {
            RetryDecision::Deliver
        } else if status == 429 || status == 420 {
            if self.attempts_left > 0 {
                self.attempts_left = self.attempts_left - 1;
            }
            if self.attempts_left > 0 {
                RetryDecision::Wait {
                    seconds: match retry_after {
                        Some(s) => s,
                        None => DEFAULT_WAIT_SECS,
                    },
                }
            } else {
                RetryDecision::GiveUp
            }
        } else {
            RetryDecision::Fail { status }
        }
    }
}

/// A fresh budget that meets three rate limits in a row: the first two answers are waited
/// out, the third gives up, and no attempt is left to send a fourth time.
pub proof fn lemma_retry_budget_exhausted(
    fresh: RetryPolicy,
    after_one: RetryPolicy,
    after_two: RetryPolicy,
    after_three: RetryPolicy,
    statuses: Seq<u16>,
    waits: Seq<Option<u64>>,
    d: Seq<RetryDecision>,
)
    requires
        fresh.spec_attempts_left() == MAX_ATTEMPTS,
        statuses.len() == 3,
        waits.len() == 3,
        d.len() == 3,
        forall|i: int| 0 <= i < 3 ==> #[trigger] is_rate_limited(statuses[i]),
        decides(fresh, statuses[0], waits[0], after_one, d[0]),
        decides(after_one, statuses[1], waits[1], after_two, d[1]),
        decides(after_two, statuses[2], waits[2], after_three, d[2]),
    ensures
        d[0] is Wait,
        d[1] is Wait,
        d[2] == RetryDecision::GiveUp,
        after_three.spec_attempts_left() == 0,
{
    assert(is_rate_limited(statuses[0]));
    assert(is_rate_limited(statuses[1]));
    assert(is_rate_limited(statuses[2]));
}

} // verus!
