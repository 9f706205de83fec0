//! The refresh scheduler.
//!
//! A single timestamp, "last refresh", is compared on every run-loop
//! iteration against a wall-clock reading; once the fixed interval has
//! elapsed the tick fires and the timestamp resets, so the next tick
//! can fire no earlier than one full interval later. The clock itself
//! lives outside the library: callers hand in a monotonic reading in
//! milliseconds.

use vstd::prelude::*;

verus! {

/// How long a refresh tick waits, in milliseconds.
pub const REFRESH_INTERVAL_MS: u64 = 5000;

/// The wall-clock timer behind the periodic telemetry re-fetch.
pub struct RefreshScheduler {
    pub last_refresh_ms: u64,
}

impl RefreshScheduler {
    /// A tick is due once a full interval has elapsed since the last
    /// refresh; exactly at the interval it is already due.
    pub open spec fn spec_due(self, now_ms: u64) -> bool {
        now_ms >= self.last_refresh_ms + REFRESH_INTERVAL_MS
    }

    /// Start the timer at the given clock reading.
    pub fn new(now_ms: u64) -> (r: RefreshScheduler)
        ensures
            r.last_refresh_ms == now_ms,
    {
        RefreshScheduler { last_refresh_ms: now_ms }
    }

    /// Check the clock: report whether a refresh is due, and when it
    /// is, reset the timer to the given reading. A reading older than
    /// the last refresh (a clock that went backwards) is never due.
    pub fn tick(&mut self, now_ms: u64) -> (due: bool)
        ensures
            due == old(self).spec_due(now_ms),
            due ==> final(self).last_refresh_ms == now_ms,
            !due ==> *final(self) == *old(self),
    {
        if now_ms >= self.last_refresh_ms && now_ms - self.last_refresh_ms >= REFRESH_INTERVAL_MS {
            self.last_refresh_ms = now_ms;
            true
        } else {
            false
        }
    }
}

/// Law: right after a tick fires at reading `t`, no tick is due at any
/// reading earlier than `t` plus one full interval, and a tick is due
/// again at every reading from `t` plus one full interval on.
pub proof fn lemma_refresh_spacing(t: u64, later: u64)
    ensures
        (RefreshScheduler { last_refresh_ms: t }).spec_due(later) <==> later >= t
            + REFRESH_INTERVAL_MS,
{
}

} // verus!
