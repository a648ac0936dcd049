use vstd::prelude::*;

use crate::timer::{ObservableTimer, ObservableTimerView, TickOutcome, TimerFinishBehavior};

verus! {

/// Notification that a timer was added to its owner.
#[derive(Clone, Copy, Debug, PartialEq, Eq, Structural)]
pub struct TimerStarted;

/// Notification that one interval of a timer completed; `interval` counts
/// from one over the life of the timer.
#[derive(Clone, Copy, Debug, PartialEq, Eq, Structural)]
pub struct TimerFinished {
    pub interval: u64,
}

/// Notification that a timer is over: `finished` is `true` when it ran all
/// its intervals, `false` when it was removed before that.
#[derive(Clone, Copy, Debug, PartialEq, Eq, Structural)]
pub struct TimerStopped {
    pub finished: bool,
}

/// What the host does for one timer in one update.
#[derive(Debug)]
pub struct TimerUpdate {
    /// Whether to send [`TimerStarted`].
    pub started: bool,
    /// One notification per completed interval, in ascending order.
    pub finished: Vec<TimerFinished>,
    /// The notification that the timer finished on its own, if it did.
    pub stopped: Option<TimerStopped>,
    /// What to do with the timer now; `DoNothing` unless it just finished.
    pub disposal: TimerFinishBehavior,
}

/// The notification sent when a tick of `delta` nanoseconds finishes `v`.
pub open spec fn tick_notice(v: ObservableTimerView, delta: nat) -> Option<TimerStopped> {
    if v.finishes_on(delta) {
        Some(TimerStopped { finished: true })
    } else {
        None
    }
}

/// The notification sent when `v` is removed by the host. A timer that
/// already finished was announced then, and is removed silently.
pub open spec fn removal_notice(v: ObservableTimerView) -> Option<TimerStopped> {
    if v.is_done() {
        None
    } else {
        Some(TimerStopped { finished: false })
    }
}

/// What to do with `v` after a tick of `delta` nanoseconds.
pub open spec fn disposal_after(v: ObservableTimerView, delta: nat) -> TimerFinishBehavior {
    if v.finishes_on(delta) {
        v.finish_behavior
    } else {
        TimerFinishBehavior::DoNothing
    }
}

/// The timer `v` after ticks of `deltas` nanoseconds, in order.
pub open spec fn run(v: ObservableTimerView, deltas: Seq<nat>) -> ObservableTimerView
    decreases deltas.len(),
{
    if deltas.len() == 0 {
        v
    } else {
        run(v, deltas.drop_last()).ticked(deltas.last())
    }
}

/// How many of the ticks of `deltas` send a notification that the timer
/// finished on its own.
pub open spec fn natural_finishes(v: ObservableTimerView, deltas: Seq<nat>) -> nat
    decreases deltas.len(),
{
    if deltas.len() == 0 {
        0
    } else {
        natural_finishes(v, deltas.drop_last()) + if tick_notice(
            run(v, deltas.drop_last()),
            deltas.last(),
        ) is Some {
            1nat
        } else {
            0nat
        }
    }
}

/// Intervals are neither lost nor counted twice: over any ticks of a bounded
/// timer, completed and remaining intervals add up to the same number.
pub proof fn lemma_intervals_conserved(v: ObservableTimerView, deltas: Seq<nat>)
    requires
        v.remaining_intervals is Some,
    ensures
        run(v, deltas).remaining_intervals is Some,
        run(v, deltas).elapsed_intervals + run(v, deltas).remaining_intervals->0
            == v.elapsed_intervals + v.remaining_intervals->0,
    decreases deltas.len(),
{
    if deltas.len() > 0 {
        lemma_intervals_conserved(v, deltas.drop_last());
    }
}

/// Ticking a finished timer, by any amount, changes none of its counters or
/// its progress, reports no completed interval and sends no notification.
pub proof fn lemma_finished_tick_changes_nothing(v: ObservableTimerView, delta: nat)
    requires
        v.is_done(),
    ensures
        v.ticked(delta) == (ObservableTimerView { completed_this_tick: 0, ..v }),
        !v.finishes_on(delta),
        tick_notice(v, delta) is None,
        disposal_after(v, delta) == TimerFinishBehavior::DoNothing,
{
}

/// Once finished, a timer stays finished whatever ticks follow, with the
/// same counters, and never again announces that it finished.
pub proof fn lemma_finished_stays_finished(v: ObservableTimerView, deltas: Seq<nat>)
    requires
        v.is_done(),
    ensures
        run(v, deltas).is_done(),
        run(v, deltas).elapsed_intervals == v.elapsed_intervals,
        run(v, deltas).interval == v.interval,
        natural_finishes(v, deltas) == 0,
    decreases deltas.len(),
{
    if deltas.len() > 0 {
        lemma_finished_stays_finished(v, deltas.drop_last());
    }
}

/// A timer without end stays without end and never finishes, however often
/// it is ticked.
pub proof fn lemma_unbounded_never_finishes(v: ObservableTimerView, deltas: Seq<nat>)
    requires
        v.remaining_intervals is None,
    ensures
        run(v, deltas).remaining_intervals is None,
        natural_finishes(v, deltas) == 0,
    decreases deltas.len(),
{
    if deltas.len() > 0 {
        lemma_unbounded_never_finishes(v, deltas.drop_last());
    }
}

/// A timer that has not finished yet is announced over exactly once: after
/// any ticks, either one tick sent the notification that it finished on its
/// own and its removal sends nothing, or no tick did and its removal sends
/// the notification that it was cancelled.
pub proof fn lemma_one_stop_notice(v: ObservableTimerView, deltas: Seq<nat>)
    requires
        !v.is_done(),
    ensures
        natural_finishes(v, deltas) <= 1,
        natural_finishes(v, deltas) == 1 <==> run(v, deltas).is_done(),
        natural_finishes(v, deltas) + (if removal_notice(run(v, deltas)) is Some {
            1nat
        } else {
            0nat
        }) == 1,
    decreases deltas.len(),
{
    if deltas.len() > 0 {
        lemma_one_stop_notice(v, deltas.drop_last());
    }
}

/// A single-interval timer of length zero finishes on the first tick that
/// moves time at all, with exactly one completed interval.
pub proof fn lemma_zero_length_finishes_at_once(v: ObservableTimerView, delta: nat)
    requires
        v.interval.duration == 0,
        !v.interval.paused,
        v.remaining_intervals == Some(1nat),
        delta > 0,
    ensures
        v.ticked(delta).completed_this_tick == 1,
        v.ticked(delta).elapsed_intervals == v.elapsed_intervals + 1,
        v.finishes_on(delta),
        tick_notice(v, delta) == Some(TimerStopped { finished: true }),
{
}

impl ObservableTimer {
    /// One update of the timer by the host: tick it by `delta` nanoseconds and
    /// say which notifications to send and what to do with it. `newly_added`
    /// tells whether the timer was added since the previous update.
    pub fn update(&mut self, delta: u64, newly_added: bool) -> (r: TimerUpdate)
        requires
            old(self)@.wf(),
            old(self)@.can_tick(delta as nat),
        ensures
            final(self)@.wf(),
            final(self)@ == old(self)@.ticked(delta as nat),
            r.started == newly_added,
            r.finished@.len() == final(self)@.completed_this_tick,
            forall|i: int|
                0 <= i < r.finished@.len() ==> r.finished@[i].interval == old(
                    self,
                )@.elapsed_intervals + 1 + i,
            r.stopped == tick_notice(old(self)@, delta as nat),
            r.disposal == disposal_after(old(self)@, delta as nat),
    {
        let outcome = self.tick(delta);
        let numbers = outcome.interval_numbers();
        let mut finished: Vec<TimerFinished> = Vec::new();
        let mut i: usize = 0;
        while i < numbers.len()
            invariant
                i <= numbers@.len(),
                finished@.len() == i,
                forall|j: int| 0 <= j < i ==> finished@[j].interval == numbers@[j],
            decreases numbers@.len() - i,
        {
            finished.push(TimerFinished { interval: numbers[i] });
            i = i + 1;
        }
        let stopped = if outcome.just_finished {
            Some(TimerStopped { finished: true })
        } else {
            None
        };
        let disposal = if outcome.just_finished {
            self.finish_behavior()
        } else {
            TimerFinishBehavior::DoNothing
        };
        assert forall|j: int| 0 <= j < finished@.len() implies finished@[j].interval
            == outcome.intervals_before + 1 + j by {
            assert(numbers@[j] == outcome.intervals_before + 1 + j);
        }
        TimerUpdate { started: newly_added, finished, stopped, disposal }
    }

    /// The notification to send when the host removes the timer.
    pub fn on_removed(&self) -> (r: Option<TimerStopped>)
        ensures
            r == removal_notice(self@),
    {
        if self.is_finished() {
            None
        } else {
            Some(TimerStopped { finished: false })
        }
    }
}

} // verus!
