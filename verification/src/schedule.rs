//! Refresh scheduling: a pure time-gating decision.
//!
//! The probe is re-run only when at least the configured interval has passed
//! since the last refresh.  The same gate applies uniformly to every metric
//! family, so all values stay mutually consistent as of one timestamp.

use vstd::prelude::*;

verus! {

/// A refresh is due exactly when the interval has fully elapsed.
pub open spec fn spec_due(now_ms: u64, last_refresh_ms: u64, interval_ms: u64) -> bool {
    now_ms >= last_refresh_ms && now_ms - last_refresh_ms >= interval_ms
}

/// Decides whether a refresh is due: true iff `now_ms - last_refresh_ms`
/// is at least `interval_ms`.
pub fn due(now_ms: u64, last_refresh_ms: u64, interval_ms: u64) -> (r: bool)
    ensures
        r == spec_due(now_ms, last_refresh_ms, interval_ms),
{
    now_ms >= last_refresh_ms && now_ms - last_refresh_ms >= interval_ms
}

/// Gate state owned by the control loop: the instant of the last refresh,
/// in milliseconds of the caller's clock, and the configured interval.
pub struct RefreshState {
    pub last_refresh_ms: u64,
    pub interval_ms: u64,
}

impl RefreshState {
    /// Fresh gate whose last refresh is the construction instant.
    pub fn new(now_ms: u64, interval_ms: u64) -> (state: Self)
        ensures
            state.last_refresh_ms == now_ms,
            state.interval_ms == interval_ms,
    {
        RefreshState { last_refresh_ms: now_ms, interval_ms }
    }

    /// Whether a refresh is due at `now_ms`.
    pub fn is_due(&self, now_ms: u64) -> (r: bool)
        ensures
            r == spec_due(now_ms, self.last_refresh_ms, self.interval_ms),
    {
        due(now_ms, self.last_refresh_ms, self.interval_ms)
    }

    /// Records that a refresh ran at `now_ms`.  A forced refresh skips the
    /// `is_due` test but still calls this, so the timer restarts.
    pub fn mark_refreshed(&mut self, now_ms: u64)
        ensures
            final(self).last_refresh_ms == now_ms,
            final(self).interval_ms == old(self).interval_ms,
    {
        self.last_refresh_ms = now_ms;
    }
}

} // verus!
