//! Observable timers: a verified state machine that counts fixed-length
//! intervals and decides which lifecycle notifications a host emits.
//!
//! Time is measured in whole nanoseconds throughout the library, as unsigned
//! integers: a negative time step cannot be expressed.

pub mod interval;
pub mod timer;
pub mod lifecycle;

pub use interval::{IntervalTimer, IntervalTimerView};
pub use timer::{ObservableTimer, ObservableTimerView, TickOutcome, TimerFinishBehavior, TimerMode};
pub use lifecycle::{TimerFinished, TimerStarted, TimerStopped, TimerUpdate};
