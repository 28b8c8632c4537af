use ylong_driver::timer::TimeDriver;

/// Two timers registered with the same deadline fire at that tick in
/// registration order.
#[test]
fn timers_with_equal_deadline_fire_in_registration_order() {
    let mut t = TimeDriver::initialize();
    let a = t.timer_register(5, 100);
    let b = t.timer_register(5, 200);
    assert!(a < b);
    let (fired, next) = t.run(5);
    assert_eq!(fired, vec![100, 200]);
    assert!(next.is_none());
}

/// Advancing the wheel fires exactly the due entries and reports the
/// time left until the next pending deadline.
#[test]
fn timer_run_reports_time_to_next_deadline() {
    let mut t = TimeDriver::initialize();
    t.timer_register(10, 1);
    t.timer_register(5, 2);
    let (fired, next) = t.run(3);
    assert!(fired.is_empty());
    assert_eq!(next, Some(2));
    let (fired, next) = t.run(7);
    assert_eq!(fired, vec![2]);
    assert_eq!(next, Some(3));
    let (fired, next) = t.run(10);
    assert_eq!(fired, vec![1]);
    assert!(next.is_none());
}

/// A cancelled timer no longer fires; cancelling twice fails.
#[test]
fn timer_cancel_removes_pending_entry() {
    let mut t = TimeDriver::initialize();
    let a = t.timer_register(5, 1);
    let _b = t.timer_register(6, 2);
    assert!(t.timer_cancel(a));
    assert!(!t.timer_cancel(a));
    let (fired, next) = t.run(10);
    assert_eq!(fired, vec![2]);
    assert!(next.is_none());
}
