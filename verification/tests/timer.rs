use std::sync::{Arc, Mutex};

use overtime_timer::{
    reset_timer, start_timer, stop_timer, tick, TickOutcome, TimerError, TimerState,
};

#[test]
fn test_timer_state_default() {
    let state = TimerState::default();
    assert_eq!(state.remaining_seconds, 0);
    assert_eq!(state.is_running, false);
}

#[test]
fn test_timer_decrement_logic() {
    let state = Arc::new(Mutex::new(TimerState {
        remaining_seconds: 5,
        is_running: true,
        initial_duration: 5,
        start_instant_ms: Some(0),
        session_id: 1,
    }));

    // Simulate one loop iteration logic manually, one second in
    {
        let mut locked_state = state.lock().unwrap();
        tick(&mut *locked_state, 1, 1000);
    }

    assert_eq!(state.lock().unwrap().remaining_seconds, 4);
}

#[test]
fn test_timer_overtime_logic() {
    let state = Arc::new(Mutex::new(TimerState {
        remaining_seconds: 0,
        is_running: true,
        initial_duration: 5,
        start_instant_ms: Some(0),
        session_id: 1,
    }));

    // 0 -> -1 (Overtime start): the wake one second past the zero observation
    {
        let mut locked_state = state.lock().unwrap();
        tick(&mut *locked_state, 1, 6000);
    }

    assert_eq!(state.lock().unwrap().remaining_seconds, -1);
}

#[test]
fn test_start_assigns_fresh_session() {
    let mut state = TimerState::default();
    let sid = start_timer(&mut state, 10, 0).unwrap();
    assert_eq!(sid, 1);
    assert!(state.is_running);
    assert_eq!(state.remaining_seconds, 10);
    assert_eq!(state.initial_duration, 10);
    assert_eq!(state.start_instant_ms, Some(0));
    assert_eq!(state.session_id, 1);

    stop_timer(&mut state);
    let sid2 = start_timer(&mut state, 3, 20_000).unwrap();
    assert_eq!(sid2, 2);
    assert_eq!(state.start_instant_ms, Some(20_000));
}

#[test]
fn test_start_while_running_rejected() {
    let mut state = TimerState::default();
    start_timer(&mut state, 10, 0).unwrap();
    let err = start_timer(&mut state, 99, 5000);
    assert_eq!(err, Err(TimerError::AlreadyRunning));
    assert!(state.is_running);
    assert_eq!(state.remaining_seconds, 10);
    assert_eq!(state.initial_duration, 10);
    assert_eq!(state.start_instant_ms, Some(0));
    assert_eq!(state.session_id, 1);
}

#[test]
fn test_countdown_emits_each_second_and_finishes_once() {
    let mut state = TimerState::default();
    let sid = start_timer(&mut state, 10, 0).unwrap();
    let mut updates: Vec<i64> = Vec::new();
    let mut finishes = 0;
    for k in 1..=10u64 {
        match tick(&mut state, sid, 1000 * k) {
            TickOutcome::Update { remaining, finished } => {
                updates.push(remaining);
                if finished {
                    assert_eq!(remaining, 0);
                    finishes += 1;
                }
            }
            other => panic!("expected an update at second {}, got {:?}", k, other),
        }
    }
    assert_eq!(updates, vec![9, 8, 7, 6, 5, 4, 3, 2, 1, 0]);
    assert_eq!(finishes, 1);
}

#[test]
fn test_overtime_continues_and_never_finishes_again() {
    let mut state = TimerState::default();
    let sid = start_timer(&mut state, 10, 0).unwrap();
    let mut updates: Vec<i64> = Vec::new();
    let mut finishes = 0;
    for k in 1..=15u64 {
        match tick(&mut state, sid, 1000 * k) {
            TickOutcome::Update { remaining, finished } => {
                updates.push(remaining);
                if finished {
                    finishes += 1;
                }
            }
            other => panic!("expected an update at second {}, got {:?}", k, other),
        }
    }
    assert_eq!(updates, vec![9, 8, 7, 6, 5, 4, 3, 2, 1, 0, -1, -2, -3, -4, -5]);
    assert_eq!(finishes, 1);
}

#[test]
fn test_reset_restores_initial_duration() {
    let mut state = TimerState::default();
    let sid = start_timer(&mut state, 10, 0).unwrap();
    for k in 1..=3u64 {
        tick(&mut state, sid, 1000 * k);
    }
    assert_eq!(state.remaining_seconds, 7);

    reset_timer(&mut state);
    assert_eq!(state.is_running, false);
    assert_eq!(state.remaining_seconds, 10);
    assert_eq!(state.session_id, sid);
    assert_eq!(state.start_instant_ms, None);
}

#[test]
fn test_missed_ticks_emit_single_jump() {
    let mut state = TimerState::default();
    let sid = start_timer(&mut state, 10, 0).unwrap();
    assert_eq!(
        tick(&mut state, sid, 1000),
        TickOutcome::Update { remaining: 9, finished: false }
    );
    // the scheduler stalls for three seconds: one update reflects the jump
    assert_eq!(
        tick(&mut state, sid, 4000),
        TickOutcome::Update { remaining: 6, finished: false }
    );
}

#[test]
fn test_subsecond_wakes_stay_silent() {
    let mut state = TimerState::default();
    let sid = start_timer(&mut state, 10, 0).unwrap();
    assert_eq!(tick(&mut state, sid, 200), TickOutcome::Silent);
    assert_eq!(tick(&mut state, sid, 400), TickOutcome::Silent);
    assert_eq!(
        tick(&mut state, sid, 1000),
        TickOutcome::Update { remaining: 9, finished: false }
    );
    assert_eq!(tick(&mut state, sid, 1400), TickOutcome::Silent);
}

#[test]
fn test_stop_is_idempotent_and_keeps_remaining() {
    let mut state = TimerState::default();
    let sid = start_timer(&mut state, 10, 0).unwrap();
    tick(&mut state, sid, 1000);
    stop_timer(&mut state);
    assert_eq!(state.is_running, false);
    assert_eq!(state.remaining_seconds, 9);
    assert_eq!(state.session_id, sid);
    assert_eq!(state.start_instant_ms, None);

    stop_timer(&mut state);
    assert_eq!(state.is_running, false);
    assert_eq!(state.remaining_seconds, 9);
}

#[test]
fn test_stale_loop_exits_untouched() {
    let mut state = TimerState::default();
    let sid1 = start_timer(&mut state, 10, 0).unwrap();
    stop_timer(&mut state);
    assert_eq!(tick(&mut state, sid1, 1000), TickOutcome::Exit);

    let sid2 = start_timer(&mut state, 5, 2000).unwrap();
    assert_ne!(sid1, sid2);
    // the loop of the stopped session wakes against the new session: it exits
    let before = state.remaining_seconds;
    assert_eq!(tick(&mut state, sid1, 9000), TickOutcome::Exit);
    assert_eq!(state.remaining_seconds, before);
    // the loop of the live session keeps working
    assert_eq!(
        tick(&mut state, sid2, 9000),
        TickOutcome::Update { remaining: -2, finished: false }
    );
}

#[test]
fn test_zero_duration_skips_finished() {
    let mut state = TimerState::default();
    let sid = start_timer(&mut state, 0, 0).unwrap();
    // remaining starts at 0, so the first observation is unchanged ...
    assert_eq!(tick(&mut state, sid, 500), TickOutcome::Silent);
    // ... and the first change already lands below zero: no finished flag
    assert_eq!(
        tick(&mut state, sid, 1000),
        TickOutcome::Update { remaining: -1, finished: false }
    );
}

#[test]
fn test_negative_duration_counts_further_down() {
    let mut state = TimerState::default();
    let sid = start_timer(&mut state, -5, 0).unwrap();
    assert_eq!(state.remaining_seconds, -5);
    assert_eq!(
        tick(&mut state, sid, 1000),
        TickOutcome::Update { remaining: -6, finished: false }
    );
}
