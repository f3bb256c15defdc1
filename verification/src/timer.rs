//! The shared timer state and the arithmetic it is judged by.

use vstd::prelude::*;

verus! {

/// The single shared record of truth for the timer.
///
/// One instance lives for the whole process. The controller operations and the
/// background loop are its only writers; the host serializes their access (a
/// mutual-exclusion lock around each mutation).
pub struct TimerState {
    /// Last computed remaining time in whole seconds; the value most recently
    /// pushed toward the notification sink. Negative once the timer has run
    /// past zero (overtime).
    pub remaining_seconds: i64,
    /// True exactly while a session is active, that is, while the loop bound
    /// to the current `session_id` should keep ticking.
    pub is_running: bool,
    /// The duration, in seconds, configured at the most recent start; `reset`
    /// restores `remaining_seconds` to it.
    pub initial_duration: i64,
    /// The monotonic instant of the most recent start, in milliseconds;
    /// present exactly while a run is active. Remaining time is recomputed
    /// from this absolute instant, never decremented per tick.
    pub start_instant_ms: Option<u64>,
    /// Counter incremented exactly once per successful start. A background
    /// loop carries the value assigned when it was spawned and treats itself
    /// as stale the moment the state carries a different one.
    pub session_id: u64,
}

impl TimerState {
    /// Well-formedness: a start instant is recorded exactly while a run is
    /// active. Constructors establish it and every operation preserves it.
    pub open spec fn wf(self) -> bool {
        self.is_running <==> self.start_instant_ms is Some
    }

    /// The idle state the process begins in: nothing configured, nothing
    /// running, no session yet.
    pub open spec fn idle_spec() -> TimerState {
        TimerState {
            remaining_seconds: 0,
            is_running: false,
            initial_duration: 0,
            start_instant_ms: None,
            session_id: 0,
        }
    }
}

impl Default for TimerState {
    /// The all-zero idle default.
    fn default() -> (s: Self)
        ensures
            s == TimerState::idle_spec(),
            s.wf(),
    {
        TimerState {
            remaining_seconds: 0,
            is_running: false,
            initial_duration: 0,
            start_instant_ms: None,
            session_id: 0,
        }
    }
}

/// Whole seconds elapsed between the start instant and `now_ms`, truncated.
pub open spec fn elapsed_secs(start_ms: u64, now_ms: u64) -> int
    recommends
        start_ms <= now_ms,
{
    (now_ms - start_ms) / 1000
}

/// The drift-free remaining time at instant `now_ms`: the configured duration
/// minus the true elapsed seconds since the session started.
pub open spec fn recomputed_remaining(s: TimerState, now_ms: u64) -> int
    recommends
        s.start_instant_ms is Some,
        s.start_instant_ms->0 <= now_ms,
{
    s.initial_duration - elapsed_secs(s.start_instant_ms->0, now_ms)
}

} // verus!
