//! Retry policy: whether another attempt is permitted, and how long to wait
//! before it.
use vstd::prelude::*;

verus! {

/// Another attempt is permitted unless shutdown was requested or a bounded
/// maximum (`max_attempts > 0`) has been reached.
pub open spec fn attempt_permitted(attempt_count: nat, max_attempts: nat, shutdown: bool) -> bool {
    !shutdown && (max_attempts == 0 || attempt_count < max_attempts)
}

/// Decides whether another attempt may start, given the failed attempts of
/// the current run, the configured maximum (0 = unbounded) and the shutdown
/// state.
pub fn may_attempt(attempt_count: u32, max_attempts: u32, shutdown: bool) -> (r: bool)
    ensures
        r == attempt_permitted(attempt_count as nat, max_attempts as nat, shutdown),
{
    !shutdown && (max_attempts == 0 || attempt_count < max_attempts)
}

/// The wait before the next attempt, in seconds. The policy is a fixed delay;
/// the attempt count is the input that a growing backoff would use.
pub fn next_delay(base_delay_secs: u64, attempt_count: u32) -> (r: u64)
    ensures
        r == base_delay_secs,
{
    base_delay_secs
}

} // verus!
