//! Retrying with exponential backoff: after a failed attempt, either wait
//! and try again or give up.
use vstd::prelude::*;

verus! {

/// `base * 2^attempt`: the wait after the failed attempt `attempt`
/// (counted from 0).
pub open spec fn backoff_delay(base: nat, attempt: nat) -> nat
    decreases attempt,
{
    if attempt == 0 {
        base
    } else {
        2 * backoff_delay(base, (attempt - 1) as nat)
    }
}

proof fn lemma_backoff_grows(base: nat, k: nat, n: nat)
    requires
        k <= n,
    ensures
        backoff_delay(base, k) <= backoff_delay(base, n),
    decreases n,
{
    if k < n {
        lemma_backoff_grows(base, k, (n - 1) as nat);
    }
}

/// What follows a failed attempt.
#[derive(Debug, Clone, Copy, PartialEq, Eq, Structural)]
pub enum RetryStep {
    /// Wait this many milliseconds, then try again.
    WaitMillis(u64),
    /// No attempt is left: fail with the last error.
    GiveUp,
}

/// At most `max_retries` attempts, the waits doubling from `base_delay_ms`.
#[derive(Debug, Clone, Copy)]
pub struct RetryPolicy {
    pub max_retries: u8,
    pub base_delay_ms: u64,
}

impl RetryPolicy {
    /// A policy of at most `max_retries` attempts starting with a wait of
    /// `base_delay_ms`.
    pub fn new(max_retries: u8, base_delay_ms: u64) -> (r: Self)
        ensures
            r.max_retries == max_retries,
            r.base_delay_ms == base_delay_ms,
    {
        RetryPolicy { max_retries, base_delay_ms }
    }

    /// Whether the wait after the failed attempt `attempt`,
    /// `base * 2^attempt` milliseconds, fits in 64 bits.
    pub fn delay_fits(&self, attempt: u8) -> (r: bool)
        ensures
            r == (backoff_delay(self.base_delay_ms as nat, attempt as nat) <= u64::MAX),
    {
        let mut delay: u64 = self.base_delay_ms;
        let mut k: u8 = 0;
        while k < attempt
            invariant
                k <= attempt,
                delay == backoff_delay(self.base_delay_ms as nat, k as nat),
            decreases attempt - k,
        {
            match delay.checked_mul(2) {
                Some(d) => {
                    delay = d;
                },
                None => {
                    proof {
                        lemma_backoff_grows(self.base_delay_ms as nat, (k + 1) as nat, attempt as nat);
                    }
                    return false;
                },
            }
            k = k + 1;
        }
        true
    }

    /// After the failed attempt `attempt` (from 0): wait `base * 2^attempt`
    /// milliseconds when another attempt is left, otherwise give up.
    pub fn after_failure(&self, attempt: u8) -> (r: RetryStep)
        requires
            attempt < self.max_retries,
            attempt + 1 < self.max_retries ==> backoff_delay(self.base_delay_ms as nat, attempt as nat)
                <= u64::MAX,
        ensures
            r == if attempt + 1 < self.max_retries {
                RetryStep::WaitMillis(backoff_delay(self.base_delay_ms as nat, attempt as nat) as u64)
            } else {
                RetryStep::GiveUp
            },
    {
        if attempt + 1 >= self.max_retries {
            return RetryStep::GiveUp;
        }
        let mut delay: u64 = self.base_delay_ms;
        let mut k: u8 = 0;
        while k < attempt
            invariant
                k <= attempt,
                delay == backoff_delay(self.base_delay_ms as nat, k as nat),
                backoff_delay(self.base_delay_ms as nat, attempt as nat) <= u64::MAX,
            decreases attempt - k,
        {
            proof {
                lemma_backoff_grows(self.base_delay_ms as nat, (k + 1) as nat, attempt as nat);
            }
            delay = delay * 2;
            k = k + 1;
        }
        RetryStep::WaitMillis(delay)
    }
}

/// Each wait is twice the one before, so waits never shrink.
pub proof fn law_backoff_doubles(policy: RetryPolicy, attempt: nat)
    ensures
        backoff_delay(policy.base_delay_ms as nat, attempt + 1) == 2 * backoff_delay(
            policy.base_delay_ms as nat,
            attempt,
        ),
        forall|k: nat| k <= attempt ==> #[trigger] backoff_delay(policy.base_delay_ms as nat, k)
            <= backoff_delay(policy.base_delay_ms as nat, attempt),
{
    assert forall|k: nat| k <= attempt implies #[trigger] backoff_delay(
        policy.base_delay_ms as nat,
        k,
    ) <= backoff_delay(policy.base_delay_ms as nat, attempt) by {
        lemma_backoff_grows(policy.base_delay_ms as nat, k, attempt);
    }
}

} // verus!
