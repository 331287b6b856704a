//! How often and how soon a failed request is sent again.

use vstd::prelude::*;

verus! {

/// The retry budget of one page and the waits between its attempts.
#[derive(Clone, Copy, Debug, PartialEq, Eq, Structural)]
pub struct RetryPolicy {
    /// How many times a page is requested at most; at least once.
    pub max_attempts: u32,
    /// The wait after the first failed attempt, in milliseconds.
    pub base_delay_ms: u64,
    /// The longest wait, in milliseconds.
    pub max_delay_ms: u64,
}

/// `base` doubled `times` times.
pub open spec fn doubled(base: nat, times: nat) -> nat
    decreases times,
{
    if times == 0 {
        base
    } else {
        2 * doubled(base, (times - 1) as nat)
    }
}

proof fn lemma_doubled_grows(base: nat, i: nat, j: nat)
    requires
        i <= j,
    ensures
        doubled(base, i) <= doubled(base, j),
    decreases j,
{
    if i < j {
        lemma_doubled_grows(base, i, (j - 1) as nat);
    }
}

impl RetryPolicy {
    /// A policy allows at least one attempt.
    pub open spec fn wf(self) -> bool {
        self.max_attempts >= 1
    }

    /// The wait before the next attempt when `failures` attempts have failed:
    /// none while none has failed; then the base delay, doubled with each
    /// failure after the first, and never longer than the longest wait.
    pub open spec fn backoff(self, failures: nat) -> nat {
        if failures == 0 {
            0
        } else {
            let grown = doubled(self.base_delay_ms as nat, (failures - 1) as nat);
            if grown <= self.max_delay_ms {
                grown
            } else {
                self.max_delay_ms as nat
            }
        }
    }

    /// Three attempts, waiting 200 ms after the first failure and never more
    /// than 5 s.
    pub fn standard() -> (policy: RetryPolicy)
        ensures
            policy == (RetryPolicy { max_attempts: 3, base_delay_ms: 200, max_delay_ms: 5000 }),
            policy.wf(),
    {
        RetryPolicy { max_attempts: 3, base_delay_ms: 200, max_delay_ms: 5000 }
    }

    /// The policy of the given numbers, unless it allows no attempt at all.
    pub fn new(max_attempts: u32, base_delay_ms: u64, max_delay_ms: u64) -> (policy: Option<
        RetryPolicy,
    >)
        ensures
            policy == if max_attempts >= 1 {
                Some(RetryPolicy { max_attempts, base_delay_ms, max_delay_ms })
            } else {
                None
            },
    {
        if max_attempts >= 1 {
            Some(RetryPolicy { max_attempts, base_delay_ms, max_delay_ms })
        } else {
            None
        }
    }

    /// Computes the wait before the next attempt, in milliseconds.
    pub fn delay_after(&self, failures: u32) -> (delay_ms: u64)
        ensures
            delay_ms == self.backoff(failures as nat),
    {
        if failures == 0 {
            return 0;
        }
        let cap = self.max_delay_ms;
        if self.base_delay_ms >= cap {
            proof {
                lemma_doubled_grows(self.base_delay_ms as nat, 0, (failures - 1) as nat);
            }
            return cap;
        }
        let mut delay: u64 = self.base_delay_ms;
        let mut done: u32 = 1;
        while done < failures && delay < cap
            invariant
                1 <= done <= failures,
                cap == self.max_delay_ms,
                delay <= cap,
                delay == self.backoff(done as nat),
                delay < cap ==> delay == doubled(self.base_delay_ms as nat, (done - 1) as nat),
            decreases failures - done,
        {
            assert(doubled(self.base_delay_ms as nat, done as nat) == 2 * doubled(
                self.base_delay_ms as nat,
                (done - 1) as nat,
            ));
            if delay > cap / 2 {
                delay = cap;
            } else {
                delay = delay * 2;
            }
            done = done + 1;
        }
        proof {
            if done < failures {
                lemma_doubled_grows(
                    self.base_delay_ms as nat,
                    (done - 1) as nat,
                    (failures - 1) as nat,
                );
            }
        }
        delay
    }
}

} // verus!
