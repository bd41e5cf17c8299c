//! Timers.
use std::time::{Duration, Instant};

use graftx::obs::{time_call, Timer};

#[test]
fn elapsed_is_monotonic_non_decreasing() {
    let timer = Timer::start();
    let first = timer.elapsed();
    let second = timer.elapsed();
    assert!(second >= first);
}

#[test]
fn time_call_returns_closure_value() {
    let (value, _duration) = time_call(|| 42);
    assert_eq!(value, 42);
}

#[test]
fn time_call_yields_a_duration() {
    let (value, duration) = time_call(|| "ok");
    assert_eq!(value, "ok");
    assert!(duration >= Duration::ZERO);
}

#[test]
fn elapsed_time_is_measured_from_the_start() {
    let start = Instant::now();
    let timer = Timer::at(start);
    assert_eq!(timer.elapsed_at(start), Duration::ZERO);
    let end = start + Duration::from_millis(1_500);
    assert_eq!(timer.elapsed_at(end), Duration::from_millis(1_500));
    // An end before the start counts as none.
    assert_eq!(Timer::at(end).elapsed_at(start), Duration::ZERO);
}

#[test]
fn elapsed_lies_between_the_readings_around_it() {
    let timer = Timer::at(Instant::now());
    let before = timer.elapsed_at(Instant::now());
    let elapsed = timer.elapsed();
    let after = timer.elapsed_at(Instant::now());
    assert!(before <= elapsed && elapsed <= after);
}
