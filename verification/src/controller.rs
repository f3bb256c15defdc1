//! The control surface: start, stop and reset.
//!
//! These are the only operations the host invokes directly. Each one mutates
//! the shared [`TimerState`] and nothing else; spawning the background loop
//! for a fresh session, and the lock around the mutation, belong to the host.

use vstd::prelude::*;

use crate::timer::TimerState;

verus! {

/// Why a control operation was refused.
#[derive(Clone, Copy, Debug, PartialEq, Eq, Structural)]
pub enum TimerError {
    /// `start_timer` was called while a session is already active. The caller
    /// decides whether to stop first; no state was touched.
    AlreadyRunning,
}

/// The state right after a successful start at instant `now_ms`: the duration
/// is configured, the remaining time starts at the full duration, the start
/// instant is recorded, and a fresh session id fences off every older loop.
pub open spec fn started(s: TimerState, duration_seconds: i64, now_ms: u64) -> TimerState {
    TimerState {
        remaining_seconds: duration_seconds,
        is_running: true,
        initial_duration: duration_seconds,
        start_instant_ms: Some(now_ms),
        session_id: (s.session_id + 1) as u64,
    }
}

/// The state right after a stop: the running flag and the start instant are
/// cleared, everything else is kept.
pub open spec fn stopped(s: TimerState) -> TimerState {
    TimerState { is_running: false, start_instant_ms: None, ..s }
}

/// The state right after a reset: stopped, with the remaining time restored to
/// the duration configured at the most recent start.
pub open spec fn reset_to_duration(s: TimerState) -> TimerState {
    TimerState {
        remaining_seconds: s.initial_duration,
        is_running: false,
        start_instant_ms: None,
        ..s
    }
}

/// Begin a new session of `duration_seconds` at monotonic instant `now_ms`.
///
/// Refused with [`TimerError::AlreadyRunning`], leaving the state untouched,
/// exactly when a session is active; otherwise the state moves to
/// [`started`] and the fresh session id — the one the new background loop
/// must be bound to — is returned.
pub fn start_timer(state: &mut TimerState, duration_seconds: i64, now_ms: u64) -> (r: Result<
    u64,
    TimerError,
>)
    requires
        old(state).wf(),
        !old(state).is_running ==> old(state).session_id < u64::MAX,
    ensures
        final(state).wf(),
        old(state).is_running ==> r == Err::<u64, TimerError>(TimerError::AlreadyRunning)
            && *final(state) == *old(state),
        !old(state).is_running ==> *final(state) == started(
            *old(state),
            duration_seconds,
            now_ms,
        ) && r == Ok::<u64, TimerError>(final(state).session_id),
{
    if state.is_running {
        return Err(TimerError::AlreadyRunning);
    }
    state.initial_duration = duration_seconds;
    state.remaining_seconds = duration_seconds;
    state.start_instant_ms = Some(now_ms);
    state.is_running = true;
    state.session_id = state.session_id + 1;
    Ok(state.session_id)
}

/// Stop the active session, if any: total and idempotent.
///
/// Only the running flag and the start instant are cleared; the remaining
/// time, the configured duration and the session id are kept, so the loop
/// bound to the current session observes the flag and terminates on its next
/// wake.
pub fn stop_timer(state: &mut TimerState)
    ensures
        *final(state) == stopped(*old(state)),
        final(state).wf(),
{
    state.is_running = false;
    state.start_instant_ms = None;
}

/// Stop the active session, if any, and restore the remaining time to the
/// duration configured at the most recent start: total and idempotent.
pub fn reset_timer(state: &mut TimerState)
    ensures
        *final(state) == reset_to_duration(*old(state)),
        final(state).wf(),
{
    state.is_running = false;
    state.start_instant_ms = None;
    state.remaining_seconds = state.initial_duration;
}

} // verus!
