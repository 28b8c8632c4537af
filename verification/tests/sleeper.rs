use ylong_driver::sleeper::{Record, Sleeper};

/// Four workers active and none searching: the cap of half the active
/// workers admits two searchers and refuses the third.
#[test]
fn sleeper_search_cap_scenario() {
    let mut s = Sleeper::new(4);
    assert!(s.try_inc_searching_num());
    assert!(s.try_inc_searching_num());
    assert!(!s.try_inc_searching_num());
}

/// The packed word decodes to the same pair a plain counter model gives
/// after each step.
#[test]
fn record_counters_match_model() {
    let mut r = Record::new(5);
    assert_eq!(r.load_state(), (5, 0));
    r.inc_searching_num();
    assert_eq!(r.load_state(), (5, 1));
    r.inc_active_num();
    assert_eq!(r.load_state(), (6, 1));
    assert!(!r.dec_active_num());
    assert_eq!(r.load_state(), (5, 1));
    assert!(r.dec_searching_num());
    assert_eq!(r.load_state(), (5, 0));
}

/// Decrementing the active count reports true exactly when it reaches
/// zero.
#[test]
fn record_last_active_flag() {
    let mut r = Record::new(1);
    assert!(r.dec_active_num());
    r.inc_active_num();
    r.inc_active_num();
    assert!(!r.dec_active_num());
    assert!(r.dec_active_num());
}

/// Parking and unparking keep the idle list and the counters in step:
/// the last parker learns so, and unparks are suppressed while anyone
/// searches or all workers are active.
#[test]
fn sleeper_park_and_unpark() {
    let mut s = Sleeper::new(2);
    assert!(!s.is_parked(&0));
    assert!(!s.push_worker(0));
    assert!(s.is_parked(&0));
    assert!(s.push_worker(1));
    assert_eq!(s.load_state(), (0, 0));
    assert_eq!(s.pop_worker(), Some(1));
    assert_eq!(s.load_state(), (1, 0));
    assert!(s.try_inc_searching_num());
    assert_eq!(s.pop_worker(), None);
    assert!(s.dec_searching_num());
    assert_eq!(s.pop_worker(), Some(0));
    assert_eq!(s.pop_worker(), None);
}
