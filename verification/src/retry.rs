//! How long to wait before the input device is opened again, and how often
//! to try at all.

use vstd::prelude::*;
use vstd::arithmetic::power2::pow2;
use vstd::arithmetic::power2::lemma_pow2_unfold;
use vstd::arithmetic::power2::lemma_pow2_pos;

verus! {

/// Bounded retry with exponential backoff.
#[derive(Clone, Copy, Debug, PartialEq, Eq, Structural)]
pub struct RetryPolicy {
    /// How many times in a row the device is opened again before it is given up.
    pub max_attempts: u32,
    /// The wait before the first attempt, in milliseconds.
    pub base_delay_ms: u64,
    /// The longest wait before any attempt, in milliseconds.
    pub max_delay_ms: u64,
}

/// The wait after `failures` failed attempts: the base wait doubled once per
/// failure, and never more than the longest wait.
pub open spec fn backoff_delay(policy: RetryPolicy, failures: nat) -> int {
    if policy.base_delay_ms * pow2(failures) <= policy.max_delay_ms {
        policy.base_delay_ms * pow2(failures)
    } else {
        policy.max_delay_ms as int
    }
}

proof fn lemma_backoff_step(policy: RetryPolicy, failures: nat)
    ensures
        backoff_delay(policy, failures + 1) == if 2 * backoff_delay(policy, failures)
            <= policy.max_delay_ms {
            2 * backoff_delay(policy, failures)
        } else {
            policy.max_delay_ms as int
        },
{
    lemma_pow2_unfold(failures + 1);
    let now = policy.base_delay_ms * pow2(failures);
    let next = policy.base_delay_ms * pow2(failures + 1);
    assert(next == 2 * now) by (nonlinear_arith)
        requires
            now == policy.base_delay_ms * pow2(failures),
            next == policy.base_delay_ms * pow2(failures + 1),
            pow2(failures + 1) == 2 * pow2(failures),
    ;
}

proof fn lemma_backoff_stays_at_limit(policy: RetryPolicy, reached: nat, later: nat)
    requires
        reached <= later,
        backoff_delay(policy, reached) == policy.max_delay_ms,
    ensures
        backoff_delay(policy, later) == policy.max_delay_ms,
    decreases later - reached,
{
    if reached < later {
        lemma_backoff_step(policy, reached);
        lemma_backoff_stays_at_limit(policy, reached + 1, later);
    }
}

impl RetryPolicy {
    /// The wait, in milliseconds, before the attempt that follows `failures`
    /// failed ones.
    pub fn delay_after(&self, failures: u32) -> (delay_ms: u64)
        ensures
            delay_ms == backoff_delay(*self, failures as nat),
            delay_ms <= self.max_delay_ms,
    {
        let limit: u64 = self.max_delay_ms;
        let mut delay: u64 = if self.base_delay_ms <= limit {
            self.base_delay_ms
        } else {
            limit
        };
        let mut done: u32 = 0;
        proof {
            vstd::arithmetic::power2::lemma2_to64();
            assert(self.base_delay_ms * pow2(0) == self.base_delay_ms);
        }
        while done < failures && delay < limit
            invariant
                done <= failures,
                limit == self.max_delay_ms,
                delay == backoff_delay(*self, done as nat),
                delay <= limit,
            decreases failures - done,
        {
            proof {
                lemma_backoff_step(*self, done as nat);
            }
            if delay > limit / 2 {
                delay = limit;
            } else {
                delay = delay * 2;
            }
            done = done + 1;
        }
        proof {
            if done < failures {
                lemma_backoff_stays_at_limit(*self, done as nat, failures as nat);
            }
        }
        delay
    }
}

/// Waiting never gets shorter from one failure to the next, and never goes
/// past the longest wait.
pub proof fn law_backoff_grows_to_limit(policy: RetryPolicy, failures: nat)
    ensures
        backoff_delay(policy, failures) <= backoff_delay(policy, failures + 1),
        backoff_delay(policy, failures) <= policy.max_delay_ms,
{
    lemma_backoff_step(policy, failures);
    lemma_pow2_pos(failures);
}

} // verus!
