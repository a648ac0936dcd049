use bevy_mod_observable_timer::{
    IntervalTimer, ObservableTimer, TimerFinishBehavior, TimerMode, TimerStopped,
};

const SECOND: u64 = 1_000_000_000;

#[test]
fn overshoot_is_clamped_to_remaining_intervals() {
    let mut timer = ObservableTimer::with_interval_count(2, SECOND);
    let outcome = timer.tick(10 * SECOND);
    assert_eq!(outcome.completed, 2);
    assert_eq!(outcome.interval_numbers(), vec![1, 2]);
    assert!(outcome.just_finished);
    assert_eq!(timer.remaining_intervals(), Some(0));
    assert_eq!(timer.elapsed_intervals(), 2);
}

#[test]
fn five_intervals_one_per_tick() {
    let mut timer = ObservableTimer::with_interval_count(5, SECOND);
    for n in 1..=5u64 {
        let update = timer.update(SECOND, n == 1);
        assert_eq!(update.started, n == 1);
        assert_eq!(update.finished.len(), 1);
        assert_eq!(update.finished[0].interval, n);
        if n == 5 {
            assert_eq!(update.stopped, Some(TimerStopped { finished: true }));
            assert_eq!(update.disposal, TimerFinishBehavior::DespawnEntity);
        } else {
            assert_eq!(update.stopped, None);
            assert_eq!(update.disposal, TimerFinishBehavior::DoNothing);
        }
    }
    assert!(timer.is_finished());
    // Removal as the disposal action sends nothing more.
    assert_eq!(timer.on_removed(), None);
}

#[test]
fn removal_before_completion_cancels() {
    let mut timer = ObservableTimer::new(SECOND, TimerMode::Once);
    let update = timer.update(SECOND / 2, true);
    assert!(update.started);
    assert!(update.finished.is_empty());
    assert_eq!(update.stopped, None);
    assert_eq!(timer.on_removed(), Some(TimerStopped { finished: false }));
}

#[test]
fn removal_before_any_tick_cancels() {
    let timer = ObservableTimer::new(SECOND, TimerMode::Once);
    assert_eq!(timer.on_removed(), Some(TimerStopped { finished: false }));
}

#[test]
fn indefinite_large_delta_carries_progress() {
    let mut timer = ObservableTimer::new(SECOND, TimerMode::Repeating);
    let outcome = timer.tick(3 * SECOND + SECOND / 2);
    assert_eq!(outcome.interval_numbers(), vec![1, 2, 3]);
    assert!(!outcome.just_finished);
    assert_eq!(timer.elapsed(), SECOND / 2);
    assert_eq!(timer.remaining(), SECOND / 2);
    assert_eq!(timer.remaining_intervals(), None);
    assert_eq!(timer.intervals_completed_this_tick(), 3);
}

#[test]
fn indefinite_never_finishes() {
    let mut timer = ObservableTimer::with_interval_count(0, SECOND);
    for _ in 0..100 {
        let update = timer.update(SECOND * 7 / 3, false);
        assert_eq!(update.stopped, None);
        assert_eq!(update.disposal, TimerFinishBehavior::DoNothing);
        assert_eq!(timer.remaining_intervals(), None);
    }
    assert_eq!(timer.elapsed_intervals(), 233);
}

#[test]
fn zero_duration_completes_in_one_tick() {
    let mut timer = ObservableTimer::with_interval_count(1, 0);
    let outcome = timer.tick(1);
    assert_eq!(outcome.completed, 1);
    assert!(outcome.just_finished);
    assert!(timer.is_finished());
}

#[test]
fn zero_duration_ignores_zero_delta() {
    let mut timer = ObservableTimer::with_interval_count(3, 0);
    let outcome = timer.tick(0);
    assert_eq!(outcome.completed, 0);
    assert_eq!(timer.remaining_intervals(), Some(3));
    let outcome = timer.tick(u64::MAX);
    assert_eq!(outcome.completed, 1);
    assert_eq!(timer.remaining_intervals(), Some(2));
}

#[test]
fn finished_timer_tick_is_noop() {
    let mut timer = ObservableTimer::with_interval_count(1, SECOND);
    assert!(timer.tick(SECOND).just_finished);
    let elapsed = timer.elapsed();
    for delta in [0, 1, SECOND, u64::MAX] {
        let update = timer.update(delta, false);
        assert!(update.finished.is_empty());
        assert_eq!(update.stopped, None);
        assert_eq!(update.disposal, TimerFinishBehavior::DoNothing);
        assert_eq!(timer.remaining_intervals(), Some(0));
        assert_eq!(timer.elapsed_intervals(), 1);
        assert_eq!(timer.intervals_completed_this_tick(), 0);
        assert_eq!(timer.elapsed(), elapsed);
    }
}

#[test]
fn intervals_are_conserved() {
    let mut timer = ObservableTimer::with_interval_count(10, 300);
    for delta in [0u64, 299, 1, 450, 1000, 7, 2000, 5000] {
        timer.tick(delta);
        assert_eq!(timer.elapsed_intervals() + timer.remaining_intervals().unwrap(), 10);
    }
    assert!(timer.is_finished());
}

#[test]
fn exactly_one_stop_notice() {
    let mut timer = ObservableTimer::with_interval_count(3, 100)
        .with_finish_behavior(TimerFinishBehavior::RemoveComponent);
    let mut natural = 0;
    for _ in 0..10 {
        let update = timer.update(60, false);
        if update.stopped.is_some() {
            natural += 1;
            assert_eq!(update.disposal, TimerFinishBehavior::RemoveComponent);
        }
    }
    assert_eq!(natural, 1);
    assert_eq!(timer.on_removed(), None);
}

#[test]
fn paused_timer_does_not_move() {
    let mut timer = ObservableTimer::new(SECOND, TimerMode::Once);
    timer.pause();
    assert!(timer.is_paused());
    let outcome = timer.tick(5 * SECOND);
    assert_eq!(outcome.completed, 0);
    assert_eq!(timer.elapsed(), 0);
    timer.unpause();
    assert!(timer.tick(SECOND).just_finished);
}

#[test]
fn interval_timer_formula() {
    let mut interval = IntervalTimer::new(400);
    assert_eq!(interval.advance(150), 0);
    assert_eq!(interval.elapsed(), 150);
    assert_eq!(interval.remaining(), 250);
    assert_eq!(interval.advance(1000), 2);
    assert_eq!(interval.elapsed(), 350);
    assert_eq!(interval.advance(0), 0);
    assert_eq!(interval.elapsed(), 350);
    interval.reset();
    assert_eq!(interval.elapsed(), 0);
    assert_eq!(interval.duration(), 400);
}

#[test]
fn interval_timer_many_intervals_in_one_advance() {
    let mut interval = IntervalTimer::new(1);
    assert_eq!(interval.advance(10_000_000_000), 10_000_000_000);
    assert_eq!(interval.elapsed(), 0);
    let mut interval = IntervalTimer::new(1_000_000);
    interval.advance(999_999);
    assert_eq!(interval.advance(u64::MAX), 18_446_744_073_710);
    assert_eq!(interval.elapsed(), 551_614);
}

#[test]
fn interval_timer_zero_duration() {
    let mut interval = IntervalTimer::new(0);
    assert_eq!(interval.advance(0), 0);
    assert_eq!(interval.advance(12345), 1);
    assert_eq!(interval.elapsed(), 0);
}

#[test]
fn constructors() {
    let once = ObservableTimer::new(SECOND, TimerMode::Once);
    assert_eq!(once.remaining_intervals(), Some(1));
    assert_eq!(once.interval_duration(), SECOND);
    assert_eq!(once.finish_behavior(), TimerFinishBehavior::DespawnEntity);
    let total = ObservableTimer::for_total_duration(3 * SECOND + 1, SECOND);
    assert_eq!(total.remaining_intervals(), Some(3));
    let short = ObservableTimer::for_total_duration(SECOND - 1, SECOND);
    assert_eq!(short.remaining_intervals(), None);
    let zero = ObservableTimer::for_total_duration(SECOND, 0);
    assert_eq!(zero.remaining_intervals(), None);
    assert_eq!(TimerFinishBehavior::default(), TimerFinishBehavior::DespawnEntity);
    let mut timer = once.with_finish_behavior(TimerFinishBehavior::DespawnRecursive);
    assert_eq!(timer.finish_behavior(), TimerFinishBehavior::DespawnRecursive);
    timer.set_finish_behavior(TimerFinishBehavior::DoNothing);
    assert_eq!(timer.finish_behavior(), TimerFinishBehavior::DoNothing);
}

#[test]
fn tick_fits_guards_interval_count() {
    let mut timer = ObservableTimer::with_interval_count(0, 1);
    assert!(timer.tick_fits(10_000_000_000));
    timer.tick(10_000_000_000);
    assert_eq!(timer.elapsed_intervals(), 10_000_000_000);
    assert!(timer.tick_fits(0));
    let bounded = ObservableTimer::with_interval_count(1, 1);
    assert!(bounded.tick_fits(u64::MAX));
}
