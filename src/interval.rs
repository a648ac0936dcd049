use vstd::prelude::*;

use vstd::arithmetic::div_mod::{
    lemma_div_is_ordered, lemma_div_multiples_vanish_fancy, lemma_fundamental_div_mod,
    lemma_fundamental_div_mod_converse,
};

use bevy::time::{Timer, TimerMode};

verus! {

/// What an [`IntervalTimer`] means: the interval length, the progress into the
/// current interval (both in nanoseconds), and whether time is ignored.
pub ghost struct IntervalTimerView {
    pub duration: nat,
    pub elapsed: nat,
    pub paused: bool,
}

impl IntervalTimerView {
    /// Progress is always strictly inside the current interval; a timer of
    /// length zero never holds any progress.
    pub open spec fn wf(self) -> bool {
        &&& self.duration > 0 ==> self.elapsed < self.duration
        &&& self.duration == 0 ==> self.elapsed == 0
    }

    /// How many intervals complete when `delta` nanoseconds pass.
    pub open spec fn completions(self, delta: nat) -> nat {
        if self.paused {
            0
        } else if self.duration == 0 {
            if delta > 0 { 1 } else { 0 }
        } else {
            (self.elapsed + delta) / self.duration
        }
    }

    /// The timer after `delta` nanoseconds pass: the completed intervals are
    /// taken out and only the progress into the next one is kept.
    pub open spec fn advanced(self, delta: nat) -> IntervalTimerView {
        if self.paused || self.duration == 0 {
            self
        } else {
            IntervalTimerView { elapsed: (self.elapsed + delta) % self.duration, ..self }
        }
    }
}

/// Progress through one repeating interval of fixed length.
#[derive(Clone, Copy, Debug)]
pub struct IntervalTimer {
    duration: u64,
    elapsed: u64,
    paused: bool,
}

/// Largest number of whole intervals handed to one repeating tick, so that the
/// count it reports always fits in a `u32`.
const MAX_INTERVALS_PER_STEP: u64 = 4294967294;

/// Relies on bevy's `Timer::tick` for a `TimerMode::Repeating` timer whose
/// elapsed time was set with `Timer::set_elapsed`: it adds `delta` to the
/// elapsed time, reports `elapsed / duration` (as a `u32`) through
/// `Timer::times_finished_this_tick` and keeps `elapsed % duration`.
#[verifier::external_body]
fn repeating_tick(duration: u64, elapsed: u64, delta: u64) -> (r: (u64, u32))
    requires
        duration > 0,
        (elapsed + delta) / (duration as int) <= u32::MAX,
    ensures
        r.0 == (elapsed + delta) % (duration as int),
        r.1 == (elapsed + delta) / (duration as int),
{
    let mut timer = Timer::new(std::time::Duration::from_nanos(duration), TimerMode::Repeating);
    timer.set_elapsed(std::time::Duration::from_nanos(elapsed));
    timer.tick(std::time::Duration::from_nanos(delta));
    (timer.elapsed().as_nanos() as u64, timer.times_finished_this_tick())
}

impl View for IntervalTimer {
    type V = IntervalTimerView;

    closed spec fn view(&self) -> IntervalTimerView {
        IntervalTimerView {
            duration: self.duration as nat,
            elapsed: self.elapsed as nat,
            paused: self.paused,
        }
    }
}

impl IntervalTimer {
    /// A running timer at the start of an interval of `duration` nanoseconds.
    pub fn new(duration: u64) -> (r: IntervalTimer)
        ensures
            r@ == (IntervalTimerView { duration: duration as nat, elapsed: 0, paused: false }),
    {
        IntervalTimer { duration, elapsed: 0, paused: false }
    }

    /// Length of one interval, in nanoseconds.
    pub fn duration(&self) -> (r: u64)
        ensures
            r == self@.duration,
    {
        self.duration
    }

    /// Progress into the current interval, in nanoseconds.
    pub fn elapsed(&self) -> (r: u64)
        ensures
            r == self@.elapsed,
    {
        self.elapsed
    }

    /// Time left until the current interval completes, in nanoseconds.
    pub fn remaining(&self) -> (r: u64)
        requires
            self@.wf(),
        ensures
            r == self@.duration - self@.elapsed,
    {
        self.duration - self.elapsed
    }

    pub fn is_paused(&self) -> (r: bool)
        ensures
            r == self@.paused,
    {
        self.paused
    }

    /// Stops time from counting until [`IntervalTimer::unpause`].
    pub fn pause(&mut self)
        ensures
            final(self)@ == (IntervalTimerView { paused: true, ..old(self)@ }),
    {
        self.paused = true;
    }

    pub fn unpause(&mut self)
        ensures
            final(self)@ == (IntervalTimerView { paused: false, ..old(self)@ }),
    {
        self.paused = false;
    }

    /// Drops the progress into the current interval.
    pub fn reset(&mut self)
        ensures
            final(self)@ == (IntervalTimerView { elapsed: 0, ..old(self)@ }),
    {
        self.elapsed = 0;
    }

    /// Moves the timer on by `delta` nanoseconds and returns how many
    /// intervals completed. A paused timer does not move. A timer of length
    /// zero completes exactly one interval on any non-zero `delta`.
    pub fn advance(&mut self, delta: u64) -> (completions: u64)
        requires
            old(self)@.wf(),
        ensures
            final(self)@.wf(),
            final(self)@ == old(self)@.advanced(delta as nat),
            completions == old(self)@.completions(delta as nat),
    {
        if self.paused {
            return 0;
        }
        if self.duration == 0 {
            return if delta > 0 { 1 } else { 0 };
        }
        let d = self.duration;
        let ghost start = self.elapsed as int;
        let mut rest: u64 = delta;
        let mut total: u64 = 0;
        while rest > 0
            invariant
                d == self.duration,
                d > 0,
                !self.paused,
                self.elapsed < d,
                0 <= start < d,
                rest <= delta,
                total * d + self.elapsed + rest == start + delta,
            decreases rest,
        {
            let step: u64 = if rest / d < MAX_INTERVALS_PER_STEP {
                proof {
                    assert((self.elapsed + rest) / (d as int) <= MAX_INTERVALS_PER_STEP) by {
                        lemma_step_bound(self.elapsed as int, rest as int, d as int);
                    }
                }
                rest
            } else {
                proof {
                    assert(d * MAX_INTERVALS_PER_STEP <= rest) by {
                        lemma_chunk_fits(rest as int, d as int, MAX_INTERVALS_PER_STEP as int);
                    }
                    assert((self.elapsed + d * MAX_INTERVALS_PER_STEP) / (d as int)
                        == MAX_INTERVALS_PER_STEP) by {
                        lemma_div_multiples_vanish_fancy(
                            MAX_INTERVALS_PER_STEP as int,
                            self.elapsed as int,
                            d as int,
                        );
                    }
                }
                d * MAX_INTERVALS_PER_STEP
            };
            let (next, n) = repeating_tick(d, self.elapsed, step);
            proof {
                lemma_fundamental_div_mod((self.elapsed + step) as int, d as int);
                let x = self.elapsed + step;
                assert(x == n * d + next) by (nonlinear_arith)
                    requires
                        x == d * (x / (d as int)) + x % (d as int),
                        n == x / (d as int),
                        next == x % (d as int),
                ;
                assert(total * d + n * d == (total + n) * d) by (nonlinear_arith);
                assert((total + n) * d + next + (rest - step) == start + delta);
                lemma_total_bound((total + n) as int, d as int, start, delta as int);
            }
            total = total + n as u64;
            self.elapsed = next;
            rest = rest - step;
        }
        proof {
            lemma_fundamental_div_mod_converse(start + delta, d as int, total as int, self.elapsed as int);
        }
        total
    }
}

proof fn lemma_step_bound(e: int, rest: int, d: int)
    requires
        0 <= e < d,
        0 <= rest,
        rest / d < MAX_INTERVALS_PER_STEP,
    ensures
        (e + rest) / d <= MAX_INTERVALS_PER_STEP,
{
    lemma_fundamental_div_mod(rest, d);
    let q = rest / d;
    let r = rest % d;
    assert(e + rest < (q + 2) * d) by (nonlinear_arith)
        requires rest == d * q + r, 0 <= r < d, 0 <= e < d;
    lemma_div_is_ordered(e + rest, (q + 2) * d - 1, d);
    lemma_div_multiples_vanish_fancy(q + 1, d - 1, d);
    assert((q + 2) * d - 1 == (q + 1) * d + (d - 1)) by (nonlinear_arith);
}

proof fn lemma_chunk_fits(rest: int, d: int, k: int)
    requires
        0 <= rest,
        0 < d,
        rest / d >= k,
    ensures
        d * k <= rest,
{
    lemma_fundamental_div_mod(rest, d);
    assert(d * k <= d * (rest / d)) by (nonlinear_arith)
        requires 0 < d, k <= rest / d;
}

proof fn lemma_total_bound(t: int, d: int, start: int, delta: int)
    requires
        0 <= start < d,
        0 <= t,
        t * d <= start + delta,
        0 <= delta <= u64::MAX,
    ensures
        t <= u64::MAX,
{
    if t >= 1 {
        assert((t - 1) * d < delta) by (nonlinear_arith)
            requires t * d <= start + delta, start < d;
        assert(t - 1 <= (t - 1) * d) by (nonlinear_arith)
            requires t >= 1, d >= 1;
    }
}

} // verus!
