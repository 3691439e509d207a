//! The dispatch gates: singleton exclusion, the parallelism cap, and
//! the pause flag, exercised over interleaved begin/finish sequences.

use auto_open::dispatch::{DispatchGate, SchedulerRunner};

fn id(s: &str) -> String {
    s.to_string()
}

#[test]
fn a_singleton_never_overlaps_itself() {
    let mut r = SchedulerRunner::new(3);
    assert_eq!(r.try_begin(&id("a"), true), DispatchGate::Started);
    // A second tick finds the task in flight and skips it.
    assert_eq!(r.try_begin(&id("a"), true), DispatchGate::SkippedSingleton);
    assert_eq!(r.try_begin(&id("a"), true), DispatchGate::SkippedSingleton);
    assert_eq!(r.in_flight_count(), 1);
    // Once it completes, it may start again.
    r.finish_execution(&id("a"));
    assert!(!r.is_in_flight(&id("a")));
    assert_eq!(r.try_begin(&id("a"), true), DispatchGate::Started);
    assert_eq!(r.in_flight_count(), 1);
}

#[test]
fn the_in_flight_count_never_exceeds_the_cap() {
    let mut r = SchedulerRunner::new(2);
    // A burst of simultaneously-due tasks.
    assert_eq!(r.try_begin(&id("a"), true), DispatchGate::Started);
    assert_eq!(r.try_begin(&id("b"), true), DispatchGate::Started);
    for name in ["c", "d", "e"] {
        assert_eq!(r.try_begin(&id(name), true), DispatchGate::Deferred);
        assert!(r.in_flight_count() <= 2);
    }
    // A deferred task is reconsidered once a slot frees up.
    r.finish_execution(&id("a"));
    assert_eq!(r.try_begin(&id("c"), true), DispatchGate::Started);
    assert_eq!(r.in_flight_count(), 2);
    assert_eq!(r.try_begin(&id("d"), true), DispatchGate::Deferred);
}

#[test]
fn a_non_singleton_id_occupies_one_slot() {
    let mut r = SchedulerRunner::new(3);
    assert_eq!(r.try_begin(&id("x"), false), DispatchGate::Started);
    assert_eq!(r.try_begin(&id("x"), false), DispatchGate::Started);
    assert_eq!(r.in_flight_count(), 1);
    r.finish_execution(&id("x"));
    assert_eq!(r.in_flight_count(), 0);
}

#[test]
fn finishing_an_unknown_task_changes_nothing() {
    let mut r = SchedulerRunner::new(2);
    assert_eq!(r.try_begin(&id("a"), true), DispatchGate::Started);
    r.finish_execution(&id("ghost-task"));
    assert_eq!(r.in_flight_count(), 1);
    assert!(r.is_in_flight(&id("a")));
}

#[test]
fn a_zero_cap_defers_everything() {
    let mut r = SchedulerRunner::new(0);
    assert_eq!(r.try_begin(&id("a"), true), DispatchGate::Deferred);
    assert_eq!(r.in_flight_count(), 0);
}

#[test]
fn interleaved_ticks_keep_the_gates_consistent() {
    let mut r = SchedulerRunner::new(2);
    assert_eq!(r.try_begin(&id("a"), true), DispatchGate::Started);
    assert_eq!(r.try_begin(&id("b"), false), DispatchGate::Started);
    assert_eq!(r.try_begin(&id("a"), true), DispatchGate::SkippedSingleton);
    r.finish_execution(&id("b"));
    assert_eq!(r.try_begin(&id("b"), false), DispatchGate::Started);
    assert_eq!(r.try_begin(&id("c"), true), DispatchGate::Deferred);
    r.finish_execution(&id("a"));
    assert_eq!(r.try_begin(&id("c"), true), DispatchGate::Started);
    assert_eq!(r.in_flight_count(), 2);
    assert!(r.is_in_flight(&id("b")));
    assert!(r.is_in_flight(&id("c")));
    assert!(!r.is_in_flight(&id("a")));
}

#[test]
fn pause_resume_and_toggle() {
    let mut r = SchedulerRunner::new(1);
    assert!(!r.is_paused());
    r.pause();
    assert!(r.is_paused());
    r.resume();
    assert!(!r.is_paused());
    assert!(r.toggle_pause());
    assert!(r.is_paused());
    assert!(!r.toggle_pause());
    assert!(!r.is_paused());
    assert_eq!(r.max_parallel_runs(), 1);
}
