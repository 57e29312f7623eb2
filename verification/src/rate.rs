//! Rate derivation from cumulative byte counters.
//!
//! A rate is bytes per second computed from two cumulative totals and the
//! elapsed wall-clock interval between them, in milliseconds.  The delta is
//! saturating (floored at zero), so a counter regression never yields a
//! negative rate, and a zero interval yields a zero rate rather than a
//! division error.

use vstd::prelude::*;

verus! {

/// An interval shorter than this, in milliseconds, is considered too noisy
/// for a fresh rate measurement; the previously computed rate is kept.
pub const MIN_RATE_INTERVAL_MS: u64 = 100;

/// Bytes per second derived from two cumulative totals and an elapsed
/// interval: the saturating delta, scaled to seconds, clamped to `u64`.
pub open spec fn spec_rate(previous_total: u64, current_total: u64, elapsed_ms: u64) -> u64 {
    if elapsed_ms == 0 {
        0u64
    } else {
        let scaled = current_total.saturating_sub(previous_total) * 1000 / elapsed_ms as int;
        if scaled > u64::MAX {
            u64::MAX
        } else {
            scaled as u64
        }
    }
}

/// Computes a rate in bytes per second from a pair of cumulative counter
/// totals and the milliseconds elapsed between the two readings.
///
/// A regression of the counter (current below previous) yields `0`, never a
/// negative value, and a zero interval yields `0` rather than an error.
pub fn compute_rate(previous_total: u64, current_total: u64, elapsed_ms: u64) -> (rate: u64)
    ensures
        rate == spec_rate(previous_total, current_total, elapsed_ms),
        current_total <= previous_total ==> rate == 0,
{
    if elapsed_ms == 0 {
        return 0;
    }
    let delta = current_total.saturating_sub(previous_total);
    let scaled: u128 = (delta as u128) * 1000 / (elapsed_ms as u128);
    if scaled > u64::MAX as u128 {
        u64::MAX
    } else {
        scaled as u64
    }
}

} // verus!
