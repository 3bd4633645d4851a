use particle_sim::config::Config;
use particle_sim::simulation::timestep::{TimeStep, MICROS_PER_SECOND, MS_PER_UPDATE};
use std::time::Instant;

#[test]
fn barriers_are_on_by_default() {
    assert!(Config::new().barriers_on);
    assert_eq!(Config::new(), Config { barriers_on: true });
}

#[test]
fn a_tick_is_four_milliseconds() {
    assert_eq!(MS_PER_UPDATE, 4);
    assert_eq!(MICROS_PER_SECOND, 1_000_000);
}

#[test]
fn advance_reports_the_time_it_is_given() {
    let mut step = TimeStep::new();
    assert_eq!(step.advance(Instant::now(), 1_234), 1_234);
    assert_eq!(step.advance(Instant::now(), 0), 0);
    assert_eq!(step.advance(Instant::now(), u64::MAX as u128), u64::MAX);
    assert_eq!(step.advance(Instant::now(), u64::MAX as u128 + 1), u64::MAX);
    assert_eq!(step.advance(Instant::now(), u128::MAX), u64::MAX);
}

#[test]
fn frames_are_reported_once_a_second_has_passed() {
    let mut step = TimeStep::new();
    assert_eq!(step.frame_count(), 0);
    assert_eq!(step.fps(), None);
    step.advance(Instant::now(), 400_000);
    assert_eq!(step.fps(), None);
    assert_eq!(step.fps(), None);
    assert_eq!(step.frame_count(), 3);
    assert_eq!(step.fps(), Some(4));
    assert_eq!(step.frame_count(), 0);
    assert_eq!(step.fps(), None);
    assert_eq!(step.fps(), None);
    assert_eq!(step.fps(), Some(3));
}

#[test]
fn a_second_exactly_is_enough() {
    let mut step = TimeStep::new();
    step.advance(Instant::now(), 999_999);
    assert_eq!(step.fps(), None);
    step.advance(Instant::now(), 1);
    assert_eq!(step.fps(), Some(2));
    step.advance(Instant::now(), 1_000_000);
    assert_eq!(step.fps(), Some(1));
}

#[test]
fn the_longest_time_does_not_overflow_the_count() {
    let mut step = TimeStep::new();
    step.advance(Instant::now(), 999_999);
    assert_eq!(step.fps(), None);
    step.advance(Instant::now(), u128::MAX);
    assert_eq!(step.fps(), Some(2));
    assert_eq!(step.fps(), Some(1));
}

#[test]
fn delta_measures_the_time_that_passes() {
    let mut step = TimeStep::new();
    let started = Instant::now();
    let mut spins: u64 = 0;
    while started.elapsed().as_micros() < 20_000 {
        spins += 1;
    }
    assert!(spins > 0);
    let first = step.delta();
    assert!(first >= 20_000);
    assert!(first < 20_000_000);
    let second = step.delta();
    assert!(second < first);
    assert_eq!(step.fps(), None);
}
