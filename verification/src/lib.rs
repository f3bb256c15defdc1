//! Core of a background countdown/overtime timer.
//!
//! A host starts a timer for a number of seconds, receives a `timer-update`
//! notification whenever the remaining time changes, and a single
//! `timer-finished` notification at the moment the remaining time reaches
//! exactly zero. The timer never halts on its own: past zero it keeps counting
//! into negative values ("overtime") until the host stops or resets it.
//!
//! The crate holds the shared state machine and the per-wake decision logic of
//! the background loop. Remaining time is always recomputed from the absolute
//! start instant of the session, so scheduling jitter never accumulates into
//! drift. The host supplies the collaborators the logic is written against: a
//! monotonic clock (instants in milliseconds), a recurring scheduler for the
//! loop, and a fire-and-forget notification sink.

pub mod controller;
pub mod lemmas;
pub mod tick;
pub mod timer;

pub use controller::{reset_timer, start_timer, stop_timer, TimerError};
pub use tick::{tick, TickOutcome};
pub use timer::TimerState;
