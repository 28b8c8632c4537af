//! Cross-thread wake device bound to a poll instance.
//!
//! The runtime unblocks a driver stuck in the kernel wait by writing to
//! an eventfd-like device whose descriptor is registered with the poll
//! under a reserved token. Here the device is modelled by the token it is
//! registered under and a latch: waking sets the latch (repeated wakes
//! coalesce, as on the edge-triggered device), and the poll side observes
//! it as a readable wake event.

use vstd::prelude::*;

use crate::error::ErrorKind;
use crate::events::Token;

verus! {

/// Handle of the kernel readiness primitive; the real device lives with
/// the embedder, so nothing of it is modelled beyond its existence.
#[derive(Debug)]
pub struct Poll {}

impl Poll {
    /// Obtain the readiness primitive.
    pub fn new() -> (r: Result<Poll, ErrorKind>)
        ensures
            r is Ok,
    {
        Ok(Poll {})
    }
}

/// The wake device's state: its identity and its two ends.
#[derive(Debug)]
pub struct WakerInner {
    /// The device's identity: the reserved token it is registered under.
    pub fd: u64,
    /// Whether a wake is signalled and not yet drained — the readable end.
    pub read: bool,
    /// Whether the signalling end is open.
    pub write: bool,
}

/// Allows cross-thread waking of [`Poll`].
#[derive(Debug)]
pub struct Waker {
    /// The modelled wake device.
    pub inner: WakerInner,
}

impl Waker {
    /// Creates a new Waker whose device is registered with `poll` under
    /// the reserved `token`; no wake is signalled yet.
    pub fn new(poll: &Poll, token: Token) -> (r: Result<Waker, ErrorKind>)
        ensures
            r matches Ok(w) && w.inner.fd == token.0 && !w.inner.read && w.inner.write,
    {
        let _ = poll;
        Ok(Waker { inner: WakerInner { fd: token.0, read: false, write: true } })
    }

    /// Wakes up the [`Poll`] associated with this `Waker`: the device
    /// latches a readable wake. Wakes coalesce: waking an already-woken
    /// device changes nothing more.
    pub fn wake(&mut self) -> (r: Result<(), ErrorKind>)
        ensures
            r is Ok,
            final(self).inner.read,
            final(self).inner.fd == old(self).inner.fd,
            final(self).inner.write == old(self).inner.write,
    {
        self.inner.read = true;
        Ok(())
    }
}

} // verus!
