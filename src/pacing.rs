//! Adaptive pacing between scrape cycles.
use vstd::prelude::*;

verus! {

/// Milliseconds added to the pacing interval after every failed cycle.
pub const BACKOFF_STEP_MS: u64 = 10000;

/// The interval that follows `current` after a cycle with the given result:
/// the base interval after a success, one backoff step more after a failure.
/// No ceiling is applied; the value stops growing only at `u64::MAX`.
pub open spec fn spec_next_interval(base: u64, current: u64, success: bool) -> u64 {
    if success {
        base
    } else if current as int + BACKOFF_STEP_MS as int <= u64::MAX as int {
        (current + BACKOFF_STEP_MS) as u64
    } else {
        u64::MAX
    }
}

/// Computes the interval to sleep before the next cycle.
pub fn next_interval(base: u64, current: u64, success: bool) -> (r: u64)
    ensures
        r == spec_next_interval(base, current, success),
{
    if success {
        base
    } else {
        current.saturating_add(BACKOFF_STEP_MS)
    }
}

/// The interval reached from `current` after `k` consecutive failed cycles.
pub open spec fn spec_after_failures(base: u64, current: u64, k: nat) -> u64
    decreases k,
{
    if k == 0 {
        current
    } else {
        spec_next_interval(base, spec_after_failures(base, current, (k - 1) as nat), false)
    }
}

/// A failed cycle lengthens the interval by exactly one backoff step, so the
/// interval strictly grows (as long as it stays representable).
pub proof fn lemma_failure_backs_off(base: u64, current: u64)
    requires
        current as int + BACKOFF_STEP_MS as int <= u64::MAX as int,
    ensures
        spec_next_interval(base, current, false) == current + BACKOFF_STEP_MS,
        spec_next_interval(base, current, false) > current,
{
}

/// Backoff has no ceiling: after `k` consecutive failures the interval has
/// grown by `k` whole steps.
pub proof fn lemma_failures_accumulate(base: u64, current: u64, k: nat)
    requires
        current as int + k * BACKOFF_STEP_MS as int <= u64::MAX as int,
    ensures
        spec_after_failures(base, current, k) == current + k * BACKOFF_STEP_MS,
    decreases k,
{
    if k > 0 {
        let j = (k - 1) as nat;
        assert(current as int + j * BACKOFF_STEP_MS as int <= u64::MAX as int) by (nonlinear_arith)
            requires
                current as int + k * BACKOFF_STEP_MS as int <= u64::MAX as int,
                j + 1 == k,
        ;
        lemma_failures_accumulate(base, current, j);
        assert(j * BACKOFF_STEP_MS as int + BACKOFF_STEP_MS as int == k * BACKOFF_STEP_MS as int) by (nonlinear_arith)
            requires
                j + 1 == k,
        ;
    }
}

} // verus!
