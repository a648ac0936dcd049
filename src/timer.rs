use vstd::prelude::*;

use crate::interval::{IntervalTimer, IntervalTimerView};

verus! {

/// How many intervals a timer made by [`ObservableTimer::new`] runs for.
#[derive(Clone, Copy, Debug, PartialEq, Eq, Structural)]
pub enum TimerMode {
    /// A single interval.
    Once,
    /// Intervals without end.
    Repeating,
}

/// What the host does with a timer right after it finishes on its own. It is
/// never applied to a timer that was removed before finishing.
#[derive(Clone, Copy, Debug, PartialEq, Eq, Structural)]
pub enum TimerFinishBehavior {
    /// Leave the timer in place, finished; later ticks do nothing.
    DoNothing,
    /// Remove only the timer, keeping the entity that owns it.
    RemoveComponent,
    /// Despawn the entity that owns the timer. This is the default.
    DespawnEntity,
    /// Despawn the owning entity together with everything it owns.
    DespawnRecursive,
}

impl Default for TimerFinishBehavior {
    fn default() -> (r: TimerFinishBehavior)
        ensures
            r == TimerFinishBehavior::DespawnEntity,
    {
        TimerFinishBehavior::DespawnEntity
    }
}

/// What an [`ObservableTimer`] means.
pub ghost struct ObservableTimerView {
    pub interval: IntervalTimerView,
    /// Intervals still to run; `None` for a timer without end.
    pub remaining_intervals: Option<nat>,
    /// Intervals completed since the timer was made.
    pub elapsed_intervals: nat,
    /// Intervals completed by the most recent tick.
    pub completed_this_tick: nat,
    pub finish_behavior: TimerFinishBehavior,
}

impl ObservableTimerView {
    pub open spec fn wf(self) -> bool {
        &&& self.interval.wf()
        &&& self.interval.duration <= u64::MAX
        &&& self.elapsed_intervals <= u64::MAX
        &&& self.completed_this_tick <= u64::MAX
        &&& self.remaining_intervals matches Some(r) ==> self.elapsed_intervals + r <= u64::MAX
    }

    /// The terminal state: every interval of a bounded timer has run.
    pub open spec fn is_done(self) -> bool {
        self.remaining_intervals == Some(0nat)
    }

    /// Intervals that a tick of `delta` nanoseconds counts: what the interval
    /// timer reports, cut at the intervals still to run.
    pub open spec fn applied(self, delta: nat) -> nat {
        let c = self.interval.completions(delta);
        match self.remaining_intervals {
            Some(r) => if c <= r { c } else { r },
            None => c,
        }
    }

    /// The timer after a tick of `delta` nanoseconds.
    pub open spec fn ticked(self, delta: nat) -> ObservableTimerView {
        if self.is_done() {
            ObservableTimerView { completed_this_tick: 0, ..self }
        } else {
            let a = self.applied(delta);
            ObservableTimerView {
                interval: self.interval.advanced(delta),
                remaining_intervals: match self.remaining_intervals {
                    Some(r) => Some((r - a) as nat),
                    None => None,
                },
                elapsed_intervals: self.elapsed_intervals + a,
                completed_this_tick: a,
                ..self
            }
        }
    }

    /// Whether a tick of `delta` nanoseconds moves the timer into the
    /// terminal state.
    pub open spec fn finishes_on(self, delta: nat) -> bool {
        !self.is_done() && self.ticked(delta).is_done()
    }

    /// The interval count of a timer without end stays representable.
    pub open spec fn can_tick(self, delta: nat) -> bool {
        self.remaining_intervals is None ==> self.elapsed_intervals
            + self.interval.completions(delta) <= u64::MAX
    }

    /// A timer as made: no interval has run, and the timer can still finish
    /// only if it is bounded.
    pub open spec fn is_fresh(self) -> bool {
        &&& self.elapsed_intervals == 0
        &&& self.completed_this_tick == 0
        &&& self.interval.elapsed == 0
        &&& !self.interval.paused
        &&& self.remaining_intervals != Some(0nat)
    }
}

/// Intervals that one tick completed, numbered from one over the life of the
/// timer: they are `intervals_before + 1 ..= intervals_before + completed`.
#[derive(Clone, Copy, Debug, PartialEq, Eq, Structural)]
pub struct TickOutcome {
    /// Intervals completed before the tick.
    pub intervals_before: u64,
    /// Intervals completed by the tick.
    pub completed: u64,
    /// Whether the tick moved the timer into the terminal state.
    pub just_finished: bool,
}

impl TickOutcome {
    /// The numbers of the completed intervals, in ascending order.
    pub fn interval_numbers(&self) -> (r: Vec<u64>)
        requires
            self.intervals_before + self.completed <= u64::MAX,
        ensures
            r@.len() == self.completed,
            forall|i: int| 0 <= i < r@.len() ==> r@[i] == self.intervals_before + 1 + i,
    {
        let mut r: Vec<u64> = Vec::new();
        let mut i: u64 = 0;
        while i < self.completed
            invariant
                i <= self.completed,
                self.intervals_before + self.completed <= u64::MAX,
                r@.len() == i,
                forall|j: int| 0 <= j < i ==> r@[j] == self.intervals_before + 1 + j,
            decreases self.completed - i,
        {
            r.push(self.intervals_before + 1 + i);
            i = i + 1;
        }
        r
    }
}

/// A timer that counts fixed-length intervals, a fixed number of them or
/// without end, and reports each completed interval and the moment it
/// finishes.
pub struct ObservableTimer {
    interval: IntervalTimer,
    remaining_intervals: Option<u64>,
    elapsed_intervals: u64,
    completed_this_tick: u64,
    finish_behavior: TimerFinishBehavior,
}

impl View for ObservableTimer {
    type V = ObservableTimerView;

    closed spec fn view(&self) -> ObservableTimerView {
        ObservableTimerView {
            interval: self.interval@,
            remaining_intervals: match self.remaining_intervals {
                Some(r) => Some(r as nat),
                None => None,
            },
            elapsed_intervals: self.elapsed_intervals as nat,
            completed_this_tick: self.completed_this_tick as nat,
            finish_behavior: self.finish_behavior,
        }
    }
}

impl ObservableTimer {
    /// A timer of `interval_count` intervals of `interval_duration`
    /// nanoseconds each; a count of zero makes a timer without end.
    pub fn with_interval_count(interval_count: u64, interval_duration: u64) -> (r: ObservableTimer)
        ensures
            r@.wf(),
            r@.is_fresh(),
            r@.interval == (IntervalTimerView {
                duration: interval_duration as nat,
                elapsed: 0,
                paused: false,
            }),
            r@.remaining_intervals == (if interval_count == 0 {
                None
            } else {
                Some(interval_count as nat)
            }),
            r@.finish_behavior == TimerFinishBehavior::DespawnEntity,
    {
        ObservableTimer {
            interval: IntervalTimer::new(interval_duration),
            remaining_intervals: if interval_count == 0 { None } else { Some(interval_count) },
            elapsed_intervals: 0,
            completed_this_tick: 0,
            finish_behavior: TimerFinishBehavior::default(),
        }
    }

    /// A timer of one interval (`TimerMode::Once`) or of intervals without end
    /// (`TimerMode::Repeating`), each `duration` nanoseconds long.
    pub fn new(duration: u64, mode: TimerMode) -> (r: ObservableTimer)
        ensures
            r@.wf(),
            r@.is_fresh(),
            r@.interval == (IntervalTimerView { duration: duration as nat, elapsed: 0, paused: false }),
            r@.remaining_intervals == (match mode {
                TimerMode::Once => Some(1nat),
                TimerMode::Repeating => None,
            }),
            r@.finish_behavior == TimerFinishBehavior::DespawnEntity,
    {
        let count: u64 = match mode {
            TimerMode::Once => 1,
            TimerMode::Repeating => 0,
        };
        ObservableTimer::with_interval_count(count, duration)
    }

    /// A timer that runs as many whole intervals of `interval_duration`
    /// nanoseconds as fit in `total_duration`. When none fits, or the interval
    /// is of length zero, the count is zero and the timer runs without end.
    pub fn for_total_duration(total_duration: u64, interval_duration: u64) -> (r: ObservableTimer)
        ensures
            r@.wf(),
            r@.is_fresh(),
            r@.interval == (IntervalTimerView {
                duration: interval_duration as nat,
                elapsed: 0,
                paused: false,
            }),
            r@.remaining_intervals == (if interval_duration == 0 || total_duration
                < interval_duration {
                None
            } else {
                Some((total_duration / interval_duration) as nat)
            }),
            r@.finish_behavior == TimerFinishBehavior::DespawnEntity,
    {
        let count: u64 = if interval_duration == 0 {
            0
        } else {
            total_duration / interval_duration
        };
        proof {
            if interval_duration > 0 && total_duration >= interval_duration {
                vstd::arithmetic::div_mod::lemma_div_non_zero(
                    total_duration as int,
                    interval_duration as int,
                );
            } else if interval_duration > 0 {
                vstd::arithmetic::div_mod::lemma_basic_div(
                    total_duration as int,
                    interval_duration as int,
                );
            }
        }
        ObservableTimer::with_interval_count(count, interval_duration)
    }

    /// The same timer with another [`TimerFinishBehavior`].
    pub fn with_finish_behavior(self, finish_behavior: TimerFinishBehavior) -> (r: ObservableTimer)
        ensures
            r@ == (ObservableTimerView { finish_behavior, ..self@ }),
    {
        ObservableTimer { finish_behavior, ..self }
    }

    /// Whether [`ObservableTimer::tick`] may be called with `delta`: for a
    /// timer without end, the count of completed intervals must stay
    /// representable.
    pub fn tick_fits(&self, delta: u64) -> (r: bool)
        requires
            self@.wf(),
        ensures
            r == self@.can_tick(delta as nat),
    {
        if self.remaining_intervals.is_some() {
            return true;
        }
        let mut probe = self.interval;
        let completions = probe.advance(delta);
        completions <= u64::MAX - self.elapsed_intervals
    }

    /// Moves the timer on by `delta` nanoseconds. A finished timer stays as it
    /// is and reports nothing; otherwise the completed intervals are counted,
    /// at most as many as are still to run.
    pub fn tick(&mut self, delta: u64) -> (r: TickOutcome)
        requires
            old(self)@.wf(),
            old(self)@.can_tick(delta as nat),
        ensures
            final(self)@.wf(),
            final(self)@ == old(self)@.ticked(delta as nat),
            r.intervals_before == old(self)@.elapsed_intervals,
            r.completed == final(self)@.completed_this_tick,
            r.just_finished == old(self)@.finishes_on(delta as nat),
    {
        if self.remaining_intervals == Some(0u64) {
            self.completed_this_tick = 0;
            return TickOutcome {
                intervals_before: self.elapsed_intervals,
                completed: 0,
                just_finished: false,
            };
        }
        let before = self.elapsed_intervals;
        let completions = self.interval.advance(delta);
        let applied: u64 = match self.remaining_intervals {
            Some(r) => {
                let a: u64 = if completions <= r { completions } else { r };
                self.remaining_intervals = Some(r - a);
                a
            },
            None => completions,
        };
        self.elapsed_intervals = before + applied;
        self.completed_this_tick = applied;
        TickOutcome {
            intervals_before: before,
            completed: applied,
            just_finished: self.remaining_intervals == Some(0u64),
        }
    }

    /// Intervals completed since the timer was made.
    pub fn elapsed_intervals(&self) -> (r: u64)
        ensures
            r == self@.elapsed_intervals,
    {
        self.elapsed_intervals
    }

    /// Intervals still to run; `None` for a timer without end.
    pub fn remaining_intervals(&self) -> (r: Option<u64>)
        ensures
            r matches Some(n) ==> self@.remaining_intervals == Some(n as nat),
            r is None ==> self@.remaining_intervals is None,
    {
        self.remaining_intervals
    }

    /// Intervals completed by the most recent tick.
    pub fn intervals_completed_this_tick(&self) -> (r: u64)
        ensures
            r == self@.completed_this_tick,
    {
        self.completed_this_tick
    }

    /// Whether every interval of a bounded timer has run.
    pub fn is_finished(&self) -> (r: bool)
        ensures
            r == self@.is_done(),
    {
        self.remaining_intervals == Some(0u64)
    }

    /// Length of one interval, in nanoseconds.
    pub fn interval_duration(&self) -> (r: u64)
        ensures
            r == self@.interval.duration,
    {
        self.interval.duration()
    }

    /// Progress into the current interval, in nanoseconds.
    pub fn elapsed(&self) -> (r: u64)
        ensures
            r == self@.interval.elapsed,
    {
        self.interval.elapsed()
    }

    /// Time left until the current interval completes, in nanoseconds.
    pub fn remaining(&self) -> (r: u64)
        requires
            self@.wf(),
        ensures
            r == self@.interval.duration - self@.interval.elapsed,
    {
        self.interval.remaining()
    }

    pub fn is_paused(&self) -> (r: bool)
        ensures
            r == self@.interval.paused,
    {
        self.interval.is_paused()
    }

    /// Stops time from counting for this timer until it is unpaused.
    pub fn pause(&mut self)
        ensures
            final(self)@ == (ObservableTimerView {
                interval: IntervalTimerView { paused: true, ..old(self)@.interval },
                ..old(self)@
            }),
    {
        self.interval.pause();
    }

    pub fn unpause(&mut self)
        ensures
            final(self)@ == (ObservableTimerView {
                interval: IntervalTimerView { paused: false, ..old(self)@.interval },
                ..old(self)@
            }),
    {
        self.interval.unpause();
    }

    pub fn finish_behavior(&self) -> (r: TimerFinishBehavior)
        ensures
            r == self@.finish_behavior,
    {
        self.finish_behavior
    }

    pub fn set_finish_behavior(&mut self, finish_behavior: TimerFinishBehavior)
        ensures
            final(self)@ == (ObservableTimerView { finish_behavior, ..old(self)@ }),
    {
        self.finish_behavior = finish_behavior;
    }
}

} // verus!
