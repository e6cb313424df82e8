use cargo_watch::timelock::{current, timestamp, TimeLock};
use cargo_watch::WINDOW;

#[test]
fn window_is_two_seconds() {
    assert_eq!(WINDOW, 2);
}

#[test]
fn new_lock_holds_zero() {
    assert_eq!(TimeLock::new().read(), 0);
}

#[test]
fn update_overwrites_the_stamp() {
    let mut t = TimeLock::new();
    t.update(1_700_000_000);
    assert_eq!(t.read(), 1_700_000_000);
    t.update(5);
    assert_eq!(t.read(), 5);
    t.update(-3);
    assert_eq!(t.read(), -3);
}

#[test]
fn read_does_not_change_the_stamp() {
    let mut t = TimeLock::new();
    t.update(42);
    assert_eq!(t.read(), 42);
    assert_eq!(t.read(), 42);
}

#[test]
fn request_in_the_same_second_is_denied() {
    let mut t = TimeLock::new();
    t.update(100);
    assert!(!t.admits(100));
}

#[test]
fn request_one_second_later_is_denied() {
    let mut t = TimeLock::new();
    t.update(100);
    assert!(!t.admits(101));
}

#[test]
fn request_two_seconds_later_is_admitted() {
    let mut t = TimeLock::new();
    t.update(100);
    assert!(t.admits(102));
}

#[test]
fn request_long_after_is_admitted() {
    let mut t = TimeLock::new();
    t.update(100);
    assert!(t.admits(100_000));
}

#[test]
fn request_before_the_stamp_is_denied() {
    let mut t = TimeLock::new();
    t.update(100);
    assert!(!t.admits(50));
}

#[test]
fn admission_at_the_lowest_clock_readings() {
    let mut t = TimeLock::new();
    assert!(!t.admits(i64::MIN));
    assert!(!t.admits(i64::MIN + 1));
    t.update(i64::MIN);
    assert!(!t.admits(i64::MIN));
    assert!(!t.admits(i64::MIN + 1));
    assert!(t.admits(i64::MIN + 2));
}

#[test]
fn admission_at_the_highest_clock_readings() {
    let mut t = TimeLock::new();
    t.update(i64::MAX);
    assert!(!t.admits(i64::MAX));
    t.update(i64::MAX - 2);
    assert!(t.admits(i64::MAX));
    t.update(i64::MAX - 1);
    assert!(!t.admits(i64::MAX));
}

#[test]
fn admission_does_not_change_the_stamp() {
    let mut t = TimeLock::new();
    t.update(7);
    let _ = t.admits(100);
    assert_eq!(t.read(), 7);
}

#[test]
fn clock_reads_a_time_of_this_century() {
    assert!(current() > 1_000_000_000);
}

#[test]
fn clock_does_not_run_far_back() {
    let first = current();
    let second = current();
    assert!(second + 60 > first);
}

#[test]
fn update_now_stores_the_reading_it_returns() {
    let mut t = TimeLock::new();
    let before = current();
    let now = t.update_now();
    assert_eq!(t.read(), now);
    assert!(now + 60 > before);
    assert!(now > 1_000_000_000);
}

#[test]
fn request_right_after_a_stamp_is_denied() {
    let mut t = TimeLock::new();
    let now = t.update_now();
    assert!(!t.admits(now));
    assert!(!t.admits(now + 1));
    assert!(t.admits(now + 2));
}

#[test]
fn clock_reading_is_never_negative() {
    assert!(current() >= 0);
}

#[test]
fn timestamp_of_a_reading_is_its_seconds() {
    assert_eq!(timestamp(Some(0)), 0);
    assert_eq!(timestamp(Some(1_700_000_000)), 1_700_000_000);
    assert_eq!(timestamp(Some(9_223_372_036_854_775_807)), i64::MAX);
}

#[test]
fn timestamp_is_held_at_the_largest_value() {
    assert_eq!(timestamp(Some(9_223_372_036_854_775_808)), i64::MAX);
    assert_eq!(timestamp(Some(u64::MAX)), i64::MAX);
}

#[test]
fn timestamp_before_the_epoch_is_zero() {
    assert_eq!(timestamp(None), 0);
}
