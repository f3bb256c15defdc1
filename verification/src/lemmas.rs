//! The laws of the timer, proved once and for all.
//!
//! The first group speaks of single states and instants: the session fence
//! admits at most one loop, a start or a stop/reset fences stale loops, and
//! the recomputed remaining time only ever moves down, so `timer-finished`
//! can fire at most once per session. The second group speaks of whole
//! command sequences issued through the control surface: session ids never
//! decrease, and two successful starts never hand out the same id.

use vstd::arithmetic::div_mod::{lemma_div_by_multiple, lemma_div_is_ordered};
use vstd::prelude::*;

use crate::controller::{reset_to_duration, started, stopped};
use crate::tick::loop_may_mutate;
use crate::timer::{recomputed_remaining, TimerState};

verus! {

/// At most one loop is ever live against a given state: loops bound to two
/// distinct session ids can never both pass the mutation fence, so no two
/// loops ever concurrently mutate `remaining_seconds`.
pub proof fn lemma_at_most_one_live_loop(s: TimerState, sid1: u64, sid2: u64)
    requires
        sid1 != sid2,
    ensures
        !(loop_may_mutate(s, sid1) && loop_may_mutate(s, sid2)),
{
}

/// A successful start fences off every loop spawned earlier: no session id at
/// or below the previous counter value passes the fence afterwards, so the
/// freshly spawned loop is the only live one.
pub proof fn lemma_start_fences_stale_loops(
    s: TimerState,
    duration_seconds: i64,
    now_ms: u64,
    stale: u64,
)
    requires
        !s.is_running,
        s.session_id < u64::MAX,
        stale <= s.session_id,
    ensures
        !loop_may_mutate(started(s, duration_seconds, now_ms), stale),
        loop_may_mutate(started(s, duration_seconds, now_ms), (s.session_id + 1) as u64),
{
}

/// Stop and reset fence every loop: afterwards no session id at all passes
/// the fence, so the loop bound to the stopped session terminates on its next
/// wake and nothing mutates the state until the next start.
pub proof fn lemma_stop_fences_every_loop(s: TimerState, sid: u64)
    ensures
        !loop_may_mutate(stopped(s), sid),
        !loop_may_mutate(reset_to_duration(s), sid),
{
}

/// The recomputed remaining time never increases with time: observing later
/// can only show an equal or smaller value, whatever wakes were missed in
/// between.
pub proof fn lemma_remaining_nonincreasing(s: TimerState, t1: u64, t2: u64)
    requires
        s.start_instant_ms is Some,
        s.start_instant_ms->0 <= t1 <= t2,
    ensures
        recomputed_remaining(s, t2) <= recomputed_remaining(s, t1),
{
    let start_ms = s.start_instant_ms->0;
    lemma_div_is_ordered((t1 - start_ms) as int, (t2 - start_ms) as int, 1000);
}

/// Edge-triggered emissions only move down: while the cached remaining time
/// is the one observed at some instant `t1`, a changed recomputation at any
/// later instant `t2` is a strict decrease, so the values a session emits are
/// strictly decreasing in emission order.
pub proof fn lemma_updates_strictly_decrease(s: TimerState, t1: u64, t2: u64)
    requires
        s.start_instant_ms is Some,
        s.start_instant_ms->0 <= t1 <= t2,
        s.remaining_seconds == recomputed_remaining(s, t1),
        recomputed_remaining(s, t2) != s.remaining_seconds,
    ensures
        recomputed_remaining(s, t2) < s.remaining_seconds,
{
    lemma_remaining_nonincreasing(s, t1, t2);
}

/// `timer-finished` fires at most once per session: once the cached remaining
/// time has been observed at zero or below, every later change is strictly
/// negative, and the finished flag accompanies only the change that lands
/// exactly on zero.
pub proof fn lemma_finished_at_most_once(s: TimerState, t1: u64, t2: u64)
    requires
        s.start_instant_ms is Some,
        s.start_instant_ms->0 <= t1 <= t2,
        s.remaining_seconds == recomputed_remaining(s, t1),
        s.remaining_seconds <= 0,
        recomputed_remaining(s, t2) != s.remaining_seconds,
    ensures
        recomputed_remaining(s, t2) < 0,
{
    lemma_remaining_nonincreasing(s, t1, t2);
}

/// Under ideal cadence the observations count down one by one: the wake at
/// exactly `k` seconds past the start instant recomputes `duration - k`, so a
/// session of duration `n` emits `n - 1, n - 2, ..., 1, 0, -1, ...` when no
/// wake is missed.
pub proof fn lemma_ideal_cadence(s: TimerState, start_ms: u64, k: u64)
    requires
        s.start_instant_ms == Some(start_ms),
        start_ms + 1000 * k <= u64::MAX,
    ensures
        recomputed_remaining(s, (start_ms + 1000 * k) as u64) == s.initial_duration - k,
{
    lemma_div_by_multiple(k as int, 1000);
    assert((k as int) * 1000 == 1000 * (k as int));
}

/// A control call the host can issue through the control surface; the
/// argument of a start and the monotonic instant it happens at are recorded.
pub enum Command {
    Start { duration_seconds: i64, now_ms: u64 },
    Stop,
    Reset,
}

/// The state transition of one control call, exactly as the control surface
/// implements it: a start is refused, and changes nothing, while a session is
/// running.
pub open spec fn apply_command(s: TimerState, c: Command) -> TimerState {
    match c {
        Command::Start { duration_seconds, now_ms } => if s.is_running {
            s
        } else {
            started(s, duration_seconds, now_ms)
        },
        Command::Stop => stopped(s),
        Command::Reset => reset_to_duration(s),
    }
}

/// The state after a whole command sequence, applied left to right.
pub open spec fn apply_commands(s: TimerState, cs: Seq<Command>) -> TimerState
    decreases cs.len(),
{
    if cs.len() == 0 {
        s
    } else {
        apply_commands(apply_command(s, cs[0]), cs.subrange(1, cs.len() as int))
    }
}

/// Whether every successful start in the sequence happens below the counter's
/// ceiling, so no session id is ever truncated — the one machine limit of the
/// control surface.
pub open spec fn no_session_overflow(s: TimerState, cs: Seq<Command>) -> bool
    decreases cs.len(),
{
    cs.len() == 0 || {
        &&& (cs[0] is Start && !s.is_running ==> s.session_id < u64::MAX)
        &&& no_session_overflow(apply_command(s, cs[0]), cs.subrange(1, cs.len() as int))
    }
}

/// Splitting a run of commands at any point changes nothing: running the
/// concatenation equals running the two halves in turn.
pub proof fn lemma_apply_commands_concat(s: TimerState, a: Seq<Command>, b: Seq<Command>)
    ensures
        apply_commands(s, a + b) == apply_commands(apply_commands(s, a), b),
    decreases a.len(),
{
    if a.len() == 0 {
        assert(a + b =~= b);
    } else {
        let rest = a.subrange(1, a.len() as int);
        assert((a + b)[0] == a[0]);
        assert((a + b).subrange(1, (a + b).len() as int) =~= rest + b);
        lemma_apply_commands_concat(apply_command(s, a[0]), rest, b);
    }
}

/// Running a single command is one transition.
proof fn lemma_apply_commands_singleton(s: TimerState, c: Command)
    ensures
        apply_commands(s, seq![c]) == apply_command(s, c),
{
    assert(seq![c].subrange(1, 1) =~= Seq::<Command>::empty());
    assert(apply_commands(apply_command(s, c), Seq::<Command>::empty()) == apply_command(s, c));
}

/// The counter's ceiling condition carries over any prefix that was already
/// run: what holds of the whole sequence holds of its tail from there on.
pub proof fn lemma_no_overflow_drop(s: TimerState, a: Seq<Command>, b: Seq<Command>)
    requires
        no_session_overflow(s, a + b),
    ensures
        no_session_overflow(apply_commands(s, a), b),
    decreases a.len(),
{
    if a.len() == 0 {
        assert(a + b =~= b);
    } else {
        let rest = a.subrange(1, a.len() as int);
        assert((a + b)[0] == a[0]);
        assert((a + b).subrange(1, (a + b).len() as int) =~= rest + b);
        lemma_no_overflow_drop(apply_command(s, a[0]), rest, b);
    }
}

/// The counter's ceiling condition carries over to every prefix.
pub proof fn lemma_no_overflow_prefix(s: TimerState, cs: Seq<Command>, k: int)
    requires
        no_session_overflow(s, cs),
        0 <= k <= cs.len(),
    ensures
        no_session_overflow(s, cs.take(k)),
    decreases k,
{
    if k > 0 {
        let rest = cs.subrange(1, cs.len() as int);
        assert(cs.take(k)[0] == cs[0]);
        assert(cs.take(k).subrange(1, k) =~= rest.take(k - 1));
        lemma_no_overflow_prefix(apply_command(s, cs[0]), rest, k - 1);
    }
}

/// The session counter never decreases along any command sequence: only a
/// successful start touches it, and then by adding one.
pub proof fn lemma_session_monotone(s: TimerState, cs: Seq<Command>)
    requires
        no_session_overflow(s, cs),
    ensures
        s.session_id <= apply_commands(s, cs).session_id,
    decreases cs.len(),
{
    if cs.len() > 0 {
        lemma_session_monotone(apply_command(s, cs[0]), cs.subrange(1, cs.len() as int));
    }
}

/// Whether the command at position `i` is a start that succeeds there, that
/// is, one issued while no session was running.
pub open spec fn start_succeeds_at(s: TimerState, cs: Seq<Command>, i: int) -> bool
    recommends
        0 <= i < cs.len(),
{
    cs[i] is Start && !apply_commands(s, cs.take(i)).is_running
}

/// The session id a successful start at position `i` assigns: the counter of
/// the state right after commands `0..=i`.
pub open spec fn session_assigned_at(s: TimerState, cs: Seq<Command>, i: int) -> u64
    recommends
        0 <= i < cs.len(),
{
    apply_commands(s, cs.take(i + 1)).session_id
}

/// For any command sequence respecting the counter's ceiling, two successful
/// starts assign strictly increasing — in particular distinct — session ids.
/// Together with the fence lemmas: every spawned loop carries its own id, at
/// most one of them is ever live, and at most one loop ever concurrently
/// mutates `remaining_seconds`.
pub proof fn lemma_sessions_distinct(s: TimerState, cs: Seq<Command>, i: int, j: int)
    requires
        no_session_overflow(s, cs),
        0 <= i < j < cs.len(),
        start_succeeds_at(s, cs, i),
        start_succeeds_at(s, cs, j),
    ensures
        session_assigned_at(s, cs, i) < session_assigned_at(s, cs, j),
{
    let before_i = apply_commands(s, cs.take(i));
    let after_i = apply_commands(s, cs.take(i + 1));
    let before_j = apply_commands(s, cs.take(j));
    let mid = cs.subrange(i + 1, j);

    // one step at i: the assigned id is the previous counter plus one
    assert(cs.take(i + 1) =~= cs.take(i) + seq![cs[i]]);
    lemma_apply_commands_concat(s, cs.take(i), seq![cs[i]]);
    lemma_apply_commands_singleton(before_i, cs[i]);
    assert(after_i == apply_command(before_i, cs[i]));

    // the ceiling held at i, so the step did not truncate
    assert(cs =~= cs.take(i) + cs.subrange(i, cs.len() as int));
    lemma_no_overflow_drop(s, cs.take(i), cs.subrange(i, cs.len() as int));
    assert(cs.subrange(i, cs.len() as int)[0] == cs[i]);
    assert(before_i.session_id < u64::MAX);
    assert(after_i.session_id == before_i.session_id + 1);

    // the counter never decreases from right after i to right before j
    assert(cs =~= cs.take(i + 1) + cs.subrange(i + 1, cs.len() as int));
    lemma_no_overflow_drop(s, cs.take(i + 1), cs.subrange(i + 1, cs.len() as int));
    lemma_no_overflow_prefix(after_i, cs.subrange(i + 1, cs.len() as int), j - i - 1);
    assert(cs.subrange(i + 1, cs.len() as int).take(j - i - 1) =~= mid);
    lemma_session_monotone(after_i, mid);
    assert(cs.take(j) =~= cs.take(i + 1) + mid);
    lemma_apply_commands_concat(s, cs.take(i + 1), mid);
    assert(after_i.session_id <= before_j.session_id);

    // one step at j: a fresh id strictly above everything assigned so far
    assert(cs.take(j + 1) =~= cs.take(j) + seq![cs[j]]);
    lemma_apply_commands_concat(s, cs.take(j), seq![cs[j]]);
    lemma_apply_commands_singleton(before_j, cs[j]);
    assert(cs =~= cs.take(j) + cs.subrange(j, cs.len() as int));
    lemma_no_overflow_drop(s, cs.take(j), cs.subrange(j, cs.len() as int));
    assert(cs.subrange(j, cs.len() as int)[0] == cs[j]);
    assert(before_j.session_id < u64::MAX);
}

} // verus!
