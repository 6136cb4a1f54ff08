use vstd::prelude::*;

use crate::worker::RetryConfig;

verus! {

/// The retry configuration in force: the worker's own, or else the default.
pub open spec fn effective_config_spec(overridden: Option<RetryConfig>, default: RetryConfig) -> RetryConfig {
    match overridden {
        Some(c) => c,
        None => default,
    }
}

/// The delay before retry number `attempt` (counted from 0): the minimal delay,
/// doubled for each earlier retry, never above the maximal delay.
pub open spec fn backoff_spec(c: RetryConfig, attempt: nat) -> nat
    decreases attempt,
{
    if attempt == 0 {
        if c.min_delay_ms <= c.max_delay_ms {
            c.min_delay_ms as nat
        } else {
            c.max_delay_ms as nat
        }
    } else {
        let d = 2 * backoff_spec(c, (attempt - 1) as nat);
        if d <= c.max_delay_ms {
            d
        } else {
            c.max_delay_ms as nat
        }
    }
}

proof fn lemma_backoff_bounded(c: RetryConfig, attempt: nat)
    ensures
        backoff_spec(c, attempt) <= c.max_delay_ms,
    decreases attempt,
{
    if attempt > 0 {
        lemma_backoff_bounded(c, (attempt - 1) as nat);
    }
}

/// The retry configuration in force for a worker.
pub fn effective_config(overridden: Option<RetryConfig>, default: RetryConfig) -> (r: RetryConfig)
    ensures
        r == effective_config_spec(overridden, default),
{
    match overridden {
        Some(c) => c,
        None => default,
    }
}

/// The delay before retry number `attempt`, counted from 0.
pub fn backoff(c: RetryConfig, attempt: u32) -> (r: u64)
    ensures
        r == backoff_spec(c, attempt as nat),
        r <= c.max_delay_ms,
{
    let mut d: u64 = if c.min_delay_ms <= c.max_delay_ms {
        c.min_delay_ms
    } else {
        c.max_delay_ms
    };
    let mut i: u32 = 0;
    while i < attempt
        invariant
            i <= attempt,
            d == backoff_spec(c, i as nat),
            d <= c.max_delay_ms,
        decreases attempt - i,
    {
        d = if d <= c.max_delay_ms / 2 {
            2 * d
        } else {
            c.max_delay_ms
        };
        proof {
            let prev = backoff_spec(c, i as nat);
            assert(backoff_spec(c, (i + 1) as nat) == if 2 * prev <= c.max_delay_ms {
                2 * prev
            } else {
                c.max_delay_ms as nat
            });
        }
        i = i + 1;
    }
    proof {
        lemma_backoff_bounded(c, attempt as nat);
    }
    d
}

/// What to do after a failed attempt: wait this long and try again, or give up
/// once `attempts_made` has reached the configured maximum.
pub fn retry_decision(c: RetryConfig, attempts_made: u32) -> (r: Option<u64>)
    ensures
        attempts_made < c.max_attempts ==> r == Some(backoff_spec(c, attempts_made as nat) as u64),
        attempts_made >= c.max_attempts ==> r is None,
{
    if attempts_made < c.max_attempts {
        Some(backoff(c, attempts_made))
    } else {
        None
    }
}

} // verus!
