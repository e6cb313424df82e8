use cargo_watch::{Pid, State};

#[test]
fn new_registry_is_empty() {
    let s = State::new();
    assert!(s.is_empty());
    assert_eq!(s.len(), 0);
}

#[test]
fn record_keeps_every_identifier() {
    let mut s = State::new();
    s.record(10);
    s.record(20);
    s.record(10);
    assert_eq!(s.len(), 3);
    assert!(!s.is_empty());
}

#[test]
fn drain_hands_out_identifiers_in_recording_order() {
    let mut s = State::new();
    s.record(31);
    s.record(7);
    s.record(4000);
    let doomed: Vec<Pid> = s.drain_and_kill();
    assert_eq!(doomed, vec![31, 7, 4000]);
    assert!(s.is_empty());
}

#[test]
fn drain_of_an_empty_registry_hands_out_nothing() {
    let mut s = State::new();
    let doomed = s.drain_and_kill();
    assert_eq!(doomed, Vec::<Pid>::new());
    assert!(s.is_empty());
}

#[test]
fn second_drain_finds_nothing() {
    let mut s = State::new();
    s.record(1);
    s.record(2);
    assert_eq!(s.drain_and_kill().len(), 2);
    assert_eq!(s.drain_and_kill().len(), 0);
    assert_eq!(s.len(), 0);
}

#[test]
fn drain_empties_a_large_registry() {
    let mut s = State::new();
    let mut pid: Pid = 1;
    while pid <= 1000 {
        s.record(pid);
        pid += 1;
    }
    let doomed = s.drain_and_kill();
    assert_eq!(doomed.len(), 1000);
    assert_eq!(doomed[0], 1);
    assert_eq!(doomed[999], 1000);
    assert!(s.is_empty());
}

#[test]
fn clear_forgets_without_handing_out() {
    let mut s = State::new();
    s.record(5);
    s.record(6);
    s.clear();
    assert!(s.is_empty());
    assert_eq!(s.drain_and_kill(), Vec::<Pid>::new());
}

#[test]
fn registry_is_usable_again_after_a_drain() {
    let mut s = State::new();
    s.record(1);
    let _ = s.drain_and_kill();
    s.record(2);
    assert_eq!(s.drain_and_kill(), vec![2]);
}
