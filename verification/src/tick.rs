//! One wake of the background loop.
//!
//! The host schedules a recurring task per session (cadence at or below one
//! second). On every wake the task calls [`tick`] under the lock, then acts on
//! the returned [`TickOutcome`] outside the lock: it terminates, stays silent,
//! or emits the notifications the outcome asks for.

use vstd::prelude::*;

use crate::timer::{elapsed_secs, recomputed_remaining, TimerState};

verus! {

/// What one wake of the background loop decided.
#[derive(Clone, Copy, Debug, PartialEq, Eq, Structural)]
pub enum TickOutcome {
    /// The loop is stale (the state carries another session id) or the session
    /// was stopped: the loop must terminate without emitting anything.
    Exit,
    /// The recomputed remaining time equals the last emitted value: emit
    /// nothing and wait for the next wake (edge-triggered emission).
    Silent,
    /// The remaining time changed: emit one `timer-update` carrying
    /// `remaining`; when `finished` is set — exactly at the change that lands
    /// on zero — additionally emit the one-time `timer-finished`.
    Update { remaining: i64, finished: bool },
}

/// The session fence: the loop bound to `loop_session` may mutate the shared
/// state only while the state is running and still carries that session id.
/// This is the sole cancellation mechanism; nothing signals a loop directly.
pub open spec fn loop_may_mutate(s: TimerState, loop_session: u64) -> bool {
    s.is_running && loop_session == s.session_id
}

/// What the machine demands of a wake instant: the monotonic clock never runs
/// backwards past the recorded start instant, and the recomputed remaining
/// time fits in the signed 64-bit field it is stored in.
pub open spec fn tick_bounds(s: TimerState, now_ms: u64) -> bool {
    s.start_instant_ms matches Some(start_ms) ==> {
        &&& start_ms <= now_ms
        &&& elapsed_secs(start_ms, now_ms) <= i64::MAX
        &&& i64::MIN <= s.initial_duration - elapsed_secs(start_ms, now_ms)
    }
}

/// The state after a wake that observed a change: only the cached remaining
/// time moves, to the value recomputed from the absolute start instant.
pub open spec fn ticked(s: TimerState, now_ms: u64) -> TimerState {
    TimerState { remaining_seconds: recomputed_remaining(s, now_ms) as i64, ..s }
}

/// One wake of the loop bound to `loop_session`, at monotonic instant
/// `now_ms`, performed under the lock.
///
/// A stale or stopped session exits untouched. Otherwise the remaining time is
/// recomputed from the absolute start instant — a missed wake therefore shows
/// up as one jump, never as a backlog of events. An unchanged value stays
/// silent; a changed value is cached and handed out for emission, flagged as
/// finished exactly when the change lands on zero.
pub fn tick(state: &mut TimerState, loop_session: u64, now_ms: u64) -> (out: TickOutcome)
    requires
        old(state).wf(),
        tick_bounds(*old(state), now_ms),
    ensures
        final(state).wf(),
        !loop_may_mutate(*old(state), loop_session) ==> out == TickOutcome::Exit && *final(state)
            == *old(state),
        loop_may_mutate(*old(state), loop_session) && recomputed_remaining(*old(state), now_ms)
            == old(state).remaining_seconds ==> out == TickOutcome::Silent && *final(state)
            == *old(state),
        loop_may_mutate(*old(state), loop_session) && recomputed_remaining(*old(state), now_ms)
            != old(state).remaining_seconds ==> {
            &&& *final(state) == ticked(*old(state), now_ms)
            &&& final(state).remaining_seconds == recomputed_remaining(*old(state), now_ms)
            &&& out == (TickOutcome::Update {
                remaining: final(state).remaining_seconds,
                finished: (recomputed_remaining(*old(state), now_ms) == 0),
            })
        },
{
    if !state.is_running || loop_session != state.session_id {
        return TickOutcome::Exit;
    }
    let start_ms: u64 = state.start_instant_ms.unwrap();
    let elapsed_ms: u64 = now_ms - start_ms;
    let elapsed_s: i64 = (elapsed_ms / 1000) as i64;
    let new_remaining: i64 = state.initial_duration - elapsed_s;
    if new_remaining == state.remaining_seconds {
        return TickOutcome::Silent;
    }
    state.remaining_seconds = new_remaining;
    TickOutcome::Update { remaining: new_remaining, finished: new_remaining == 0 }
}

} // verus!
