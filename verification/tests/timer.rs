use lotus_engine::time::{Timer, TimerType, DURATION_MAX_NANOS};

#[test]
fn new_timer_starts_empty() {
    let timer = Timer::new(TimerType::Once, 1_000);
    assert_eq!(timer.timer_type, TimerType::Once);
    assert_eq!(timer.duration_nanos, 1_000);
    assert_eq!(timer.elapsed_nanos, 0);
    assert!(!timer.is_finished());
}

#[test]
fn once_timer_holds_at_duration() {
    let mut timer = Timer::new(TimerType::Once, 1_000);
    timer.tick(400);
    assert!(!timer.is_finished());
    assert_eq!(timer.elapsed_nanos, 400);
    timer.tick(700);
    assert!(timer.is_finished());
    assert_eq!(timer.elapsed_nanos, 1_000);
    timer.tick(1);
    assert!(timer.is_finished());
    assert_eq!(timer.elapsed_nanos, 1_000);
}

#[test]
fn repeat_timer_starts_over() {
    let mut timer = Timer::new(TimerType::Repeat, 1_000);
    timer.tick(999);
    assert!(!timer.is_finished());
    timer.tick(1);
    assert!(timer.is_finished());
    assert_eq!(timer.elapsed_nanos, 0);
    timer.tick(10);
    assert!(!timer.is_finished());
    assert_eq!(timer.elapsed_nanos, 10);
}

#[test]
fn zero_duration_finishes_on_every_tick() {
    let mut timer = Timer::new(TimerType::Repeat, 0);
    timer.tick(0);
    assert!(timer.is_finished());
    timer.tick(0);
    assert!(timer.is_finished());
}

#[test]
fn reset_clears_progress() {
    let mut timer = Timer::new(TimerType::Once, 5);
    timer.tick(9);
    assert!(timer.is_finished());
    timer.reset();
    assert!(!timer.is_finished());
    assert_eq!(timer.elapsed_nanos, 0);
    assert_eq!(timer.duration_nanos, 5);
    assert_eq!(timer.timer_type, TimerType::Once);
}

#[test]
fn tick_up_to_the_largest_duration() {
    let mut timer = Timer::new(TimerType::Once, DURATION_MAX_NANOS);
    timer.tick(DURATION_MAX_NANOS);
    assert!(timer.is_finished());
    assert_eq!(DURATION_MAX_NANOS, std::time::Duration::MAX.as_nanos());
}

#[test]
fn default_timer_type_is_once() {
    assert_eq!(TimerType::default(), TimerType::Once);
}
