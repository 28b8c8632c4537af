//! Per-source schedule entry: readiness state, tick and waker slots.
//!
//! The reactor keeps one entry per registered source. The entry records
//! the current readiness mask with a tick that bumps on every change, and
//! one waker slot per direction. A task that finds the entry not yet
//! ready parks its waker in the slot; the reactor's next matching edge
//! takes the waker out and fires it — so a waker is fired exactly once
//! per readiness edge, and an entry that is already ready reports so
//! instead of storing anything. The laws at the bottom state that no
//! serialization of the install/report race loses a wakeup.

use vstd::prelude::*;

use crate::events::{Direction, Interest, Ready};

verus! {

/// The next tick value; the counter wraps around.
pub open spec fn wrap_inc(t: u64) -> u64 {
    if t == u64::MAX {
        0
    } else {
        (t + 1) as u64
    }
}

/// What installing a waker found.
#[derive(Clone, Copy, Debug, PartialEq, Eq, Structural)]
pub enum RegisterResult {
    /// The entry was already ready for the direction; nothing was stored
    /// and the caller should consume this readiness instead of waiting.
    AlreadyReady(Ready),
    /// The waker was stored and will be fired on the next matching edge.
    Stored,
}

/// The per-source state the reactor manipulates on readiness events.
#[derive(Clone, Copy, Debug)]
pub struct ScheduleIo {
    /// Bumps on every readiness change, so a racing waker installation
    /// can tell that the reactor ran in between.
    pub tick: u64,
    /// The current readiness mask.
    pub ready: Ready,
    /// The waker of at most one task waiting to read.
    pub read_waker: Option<u64>,
    /// The waker of at most one task waiting to write.
    pub write_waker: Option<u64>,
    /// The file descriptor the entry was registered for.
    pub fd: i32,
    /// The directions the registration asked for.
    pub interest: Interest,
}

/// What [`ScheduleIo::set_readiness`] guarantees: the mask is merged in,
/// the tick bumps, and each direction the event touches has its waker
/// taken out (`woken`) and its slot emptied.
pub open spec fn set_readiness_post(
    pre: ScheduleIo,
    post: ScheduleIo,
    ready: Ready,
    woken: (Option<u64>, Option<u64>),
) -> bool {
    &&& post.ready == pre.ready.union(ready)
    &&& post.tick == wrap_inc(pre.tick)
    &&& post.fd == pre.fd
    &&& post.interest == pre.interest
    &&& if ready.read_edge() {
        woken.0 == pre.read_waker && post.read_waker is None
    } else {
        woken.0 is None && post.read_waker == pre.read_waker
    }
    &&& if ready.write_edge() {
        woken.1 == pre.write_waker && post.write_waker is None
    } else {
        woken.1 is None && post.write_waker == pre.write_waker
    }
}

/// What [`ScheduleIo::register_waker`] guarantees: readiness and tick are
/// untouched; either the entry was already ready for the direction and
/// nothing was stored, or the waker now sits in that direction's slot.
pub open spec fn register_waker_post(
    pre: ScheduleIo,
    post: ScheduleIo,
    dir: Direction,
    waker: u64,
    r: RegisterResult,
) -> bool {
    &&& post.ready == pre.ready
    &&& post.tick == pre.tick
    &&& post.fd == pre.fd
    &&& post.interest == pre.interest
    &&& match dir {
        Direction::Read => {
            &&& post.write_waker == pre.write_waker
            &&& if pre.ready.read_edge() {
                r == RegisterResult::AlreadyReady(pre.ready) && post.read_waker == pre.read_waker
            } else {
                r == RegisterResult::Stored && post.read_waker == Some(waker)
            }
        },
        Direction::Write => {
            &&& post.read_waker == pre.read_waker
            &&& if pre.ready.write_edge() {
                r == RegisterResult::AlreadyReady(pre.ready) && post.write_waker == pre.write_waker
            } else {
                r == RegisterResult::Stored && post.write_waker == Some(waker)
            }
        },
    }
}

impl ScheduleIo {
    /// A fresh entry: no readiness, tick zero, empty slots.
    pub fn new(fd: i32, interest: Interest) -> (r: ScheduleIo)
        ensures
            r.tick == 0,
            r.ready == Ready::spec_empty(),
            r.read_waker is None,
            r.write_waker is None,
            r.fd == fd,
            r.interest == interest,
    {
        ScheduleIo {
            tick: 0,
            ready: Ready::empty(),
            read_waker: None,
            write_waker: None,
            fd,
            interest,
        }
    }

    /// Record a readiness edge: merge the mask, bump the tick, and take
    /// the waker of each direction the edge touches. Each returned waker
    /// must be fired exactly once by the caller.
    pub fn set_readiness(&mut self, ready: Ready) -> (woken: (Option<u64>, Option<u64>))
        ensures
            set_readiness_post(*old(self), *final(self), ready, woken),
    {
        self.ready = self.ready.merge(ready);
        self.tick = if self.tick == u64::MAX {
            0
        } else {
            self.tick + 1
        };
        let rw: Option<u64> = if ready.is_read_edge() {
            let w = self.read_waker;
            self.read_waker = None;
            w
        } else {
            None
        };
        let ww: Option<u64> = if ready.is_write_edge() {
            let w = self.write_waker;
            self.write_waker = None;
            w
        } else {
            None
        };
        (rw, ww)
    }

    /// Install a waker for a direction, unless the entry is already ready
    /// for it; a stored waker replaces (and drops) the previous one.
    pub fn register_waker(&mut self, dir: Direction, waker: u64) -> (r: RegisterResult)
        ensures
            register_waker_post(*old(self), *final(self), dir, waker, r),
    {
        match dir {
            Direction::Read => {
                if self.ready.is_read_edge() {
                    RegisterResult::AlreadyReady(self.ready)
                } else {
                    self.read_waker = Some(waker);
                    RegisterResult::Stored
                }
            },
            Direction::Write => {
                if self.ready.is_write_edge() {
                    RegisterResult::AlreadyReady(self.ready)
                } else {
                    self.write_waker = Some(waker);
                    RegisterResult::Stored
                }
            },
        }
    }

    /// Consume the readiness of one direction after acting on it, bumping
    /// the tick. The error flag stays: it is terminal for both sides.
    pub fn clear_readiness(&mut self, dir: Direction)
        ensures
            final(self).tick == wrap_inc(old(self).tick),
            final(self).fd == old(self).fd,
            final(self).interest == old(self).interest,
            final(self).read_waker == old(self).read_waker,
            final(self).write_waker == old(self).write_waker,
            final(self).ready == (match dir {
                Direction::Read => Ready {
                    readable: false,
                    read_closed: false,
                    ..old(self).ready
                },
                Direction::Write => Ready {
                    writable: false,
                    write_closed: false,
                    ..old(self).ready
                },
            }),
    {
        match dir {
            Direction::Read => {
                self.ready = Ready { readable: false, read_closed: false, ..self.ready };
            },
            Direction::Write => {
                self.ready = Ready { writable: false, write_closed: false, ..self.ready };
            },
        }
        self.tick = if self.tick == u64::MAX {
            0
        } else {
            self.tick + 1
        };
    }
}

/// Registration-race law, first serialization: a read waker stored while
/// the entry was not ready is taken and fired by the next read edge, and
/// the slot comes out empty.
pub proof fn lemma_stored_waker_is_woken(
    s0: ScheduleIo,
    s1: ScheduleIo,
    s2: ScheduleIo,
    waker: u64,
    ev: Ready,
    woken: (Option<u64>, Option<u64>),
)
    requires
        register_waker_post(s0, s1, Direction::Read, waker, RegisterResult::Stored),
        set_readiness_post(s1, s2, ev, woken),
        ev.read_edge(),
    ensures
        woken.0 == Some(waker),
        s2.read_waker is None,
{
}

/// Registration-race law, second serialization: once a read edge has been
/// recorded, installing a read waker does not wait — it reports the entry
/// already ready and stores nothing. Together with the first law: the
/// waker is either fired by the reactor or told at once, never neither.
pub proof fn lemma_register_after_edge_reports_ready(
    s0: ScheduleIo,
    s1: ScheduleIo,
    s2: ScheduleIo,
    ev: Ready,
    woken: (Option<u64>, Option<u64>),
    waker: u64,
    r: RegisterResult,
)
    requires
        set_readiness_post(s0, s1, ev, woken),
        ev.read_edge(),
        register_waker_post(s1, s2, Direction::Read, waker, r),
    ensures
        r == RegisterResult::AlreadyReady(s1.ready),
        s2.read_waker == s1.read_waker,
{
}

/// Exactly-once law: after a stored waker is fired by one read edge, a
/// second read edge finds the slot empty and fires nothing.
pub proof fn lemma_waker_fires_exactly_once(
    s0: ScheduleIo,
    s1: ScheduleIo,
    s2: ScheduleIo,
    s3: ScheduleIo,
    waker: u64,
    ev1: Ready,
    ev2: Ready,
    woken1: (Option<u64>, Option<u64>),
    woken2: (Option<u64>, Option<u64>),
)
    requires
        register_waker_post(s0, s1, Direction::Read, waker, RegisterResult::Stored),
        set_readiness_post(s1, s2, ev1, woken1),
        ev1.read_edge(),
        set_readiness_post(s2, s3, ev2, woken2),
    ensures
        woken1.0 == Some(waker),
        woken2.0 is None,
{
}

} // verus!
