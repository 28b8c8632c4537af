use ylong_driver::driver::Driver;
use ylong_driver::error::ErrorKind;
use ylong_driver::events::{Direction, Event, Interest, Ready, Token};
use ylong_driver::reactor::{IoDriver, WAKE_TOKEN};
use ylong_driver::registry::Ref;
use ylong_driver::schedule_io::RegisterResult;

fn readable() -> Ready {
    Ready { readable: true, writable: false, read_closed: false, write_closed: false, error: false }
}

/// A waker stored while the entry was not ready is fired by the next
/// read edge — and only by that one.
#[test]
fn stored_waker_fires_exactly_once() {
    let mut io = IoDriver::initialize();
    let r = io.register_source(7, Interest::readable()).unwrap();
    let token = r.token();
    let res = io.registry.register_waker(r.index, r.generation, Direction::Read, 42).unwrap();
    assert!(matches!(res, RegisterResult::Stored));
    let (rw, ww) = io.drive_one(Event { token: Token(token), ready: readable() });
    assert_eq!(rw, Some(42));
    assert!(ww.is_none());
    let (rw2, _) = io.drive_one(Event { token: Token(token), ready: readable() });
    assert!(rw2.is_none());
}

/// If the edge is recorded first, installing the waker reports the entry
/// already ready and stores nothing — the wakeup is never lost.
#[test]
fn registration_race_reports_already_ready() {
    let mut io = IoDriver::initialize();
    let r = io.register_source(7, Interest::readable()).unwrap();
    let token = r.token();
    let (rw, _) = io.drive_one(Event { token: Token(token), ready: readable() });
    assert!(rw.is_none());
    let res = io.registry.register_waker(r.index, r.generation, Direction::Read, 42).unwrap();
    assert!(matches!(res, RegisterResult::AlreadyReady(ready) if ready.readable));
    let (rw2, _) = io.drive_one(Event { token: Token(token), ready: readable() });
    assert!(rw2.is_none());
}

/// Events whose generation no longer matches are dropped silently, and a
/// reused slot comes back under a fresh generation.
#[test]
fn stale_generation_events_are_dropped() {
    let mut io = IoDriver::initialize();
    let r = io.register_source(7, Interest::readable()).unwrap();
    let token = r.token();
    let idx = r.index;
    let gen = r.generation;
    let entry = io.registry.get(idx, gen).unwrap();
    assert_eq!(entry.fd, 7);
    io.deregister_source(r).unwrap();
    assert!(io.registry.get(idx, gen).is_none());
    let (rw, ww) = io.drive_one(Event { token: Token(token), ready: readable() });
    assert!(rw.is_none() && ww.is_none());
    assert_eq!(io.get_ready_count(), 0);
    let r2 = io.register_source(8, Interest::readable()).unwrap();
    assert_eq!(r2.index, idx);
    assert_ne!(r2.generation, gen);
    let err = io.deregister_source(Ref { index: idx, generation: gen }).unwrap_err();
    assert_eq!(err, ErrorKind::InvalidInput);
}

/// A batch fires the stored wakers in event order; an empty batch fires
/// nothing and changes nothing.
#[test]
fn drive_processes_batches_in_order() {
    let mut io = IoDriver::initialize();
    let a = io.register_source(3, Interest::readable()).unwrap();
    let b = io.register_source(4, Interest::readable()).unwrap();
    io.registry.register_waker(a.index, a.generation, Direction::Read, 10).unwrap();
    io.registry.register_waker(b.index, b.generation, Direction::Read, 20).unwrap();
    let none: Vec<Event> = Vec::new();
    let woken = io.drive(&none);
    assert!(woken.is_empty());
    let batch = vec![
        Event { token: Token(b.token()), ready: readable() },
        Event { token: Token(a.token()), ready: readable() },
    ];
    let woken = io.drive(&batch);
    assert_eq!(woken, vec![20, 10]);
    assert_eq!(io.get_ready_count(), 2);
}

/// A latched wake is consumed by the turn that sees the wake event, so a
/// blocked driver comes back without touching any entry.
#[test]
fn wake_unblocks_the_driver() {
    let (mut handle, mut driver) = Driver::initialize();
    handle.wake();
    assert!(handle.io.wake_pending);
    let events = vec![Event { token: Token(WAKE_TOKEN), ready: readable() }];
    let out = driver.run(&mut handle, 0, &events);
    assert!(!handle.io.wake_pending);
    assert!(out.io_woken.is_empty());
    assert!(out.next_timeout.is_none());
}

/// The handle counts registrations and delivered events, and an event
/// whose waker slots are empty still marks the entry ready.
#[test]
fn handle_counts_registrations_and_ready_events() {
    let (mut handle, mut driver) = Driver::initialize();
    let r = handle.io_register(5, Interest::readable().add(Interest::writable())).unwrap();
    assert_eq!(handle.get_register_count(), 1);
    assert_eq!(handle.start_time(), 0);
    let ev = vec![Event { token: Token(r.token()), ready: readable() }];
    let out = driver.run_once(&mut handle, 0, &ev);
    assert_eq!(handle.get_ready_count(), 1);
    assert_eq!(out.next_timeout, Some(0));
    handle.io_deregister(r).unwrap();
}

/// Registering a timer through the handle wakes the driver so the sleep
/// deadline is recomputed, and the due timer fires on the next turn.
#[test]
fn timer_register_wakes_the_driver() {
    let (mut handle, mut driver) = Driver::initialize();
    let id = handle.timer_register(4, 11);
    assert_eq!(id, 0);
    assert!(handle.io.wake_pending);
    let events = vec![Event { token: Token(WAKE_TOKEN), ready: readable() }];
    let out = driver.run(&mut handle, 4, &events);
    assert_eq!(out.timer_woken, vec![11]);
    assert!(!handle.io.wake_pending);
    assert!(!handle.timer_cancel(id));
}
