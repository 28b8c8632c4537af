use ylong_driver::events::Token;
use ylong_driver::waker::{Poll, Waker};

/// UT cases for debug info of waker
///
/// # Brief
/// 1. Create a Waker
/// 2. Check its fmt debug info
#[test]
fn ut_waker_debug_info() {
    let poll = Poll::new().unwrap();
    let waker = Waker::new(&poll, Token::from_usize(0)).unwrap();
    let fmt = format!("{:?}", waker);
    assert!(fmt.contains("fd:"));
    assert!(fmt.contains("read:"));
    assert!(fmt.contains("write:"));
}

/// Waking latches the device readable; repeated wakes coalesce.
#[test]
fn waker_wake_latches_and_coalesces() {
    let poll = Poll::new().unwrap();
    let mut waker = Waker::new(&poll, Token::from_usize(3)).unwrap();
    assert!(!waker.inner.read);
    waker.wake().unwrap();
    assert!(waker.inner.read);
    waker.wake().unwrap();
    assert!(waker.inner.read);
    assert_eq!(waker.inner.fd, 3);
    assert!(waker.inner.write);
}
