//! The fused driver: reactor and timer wheel behind one handle.
//!
//! `Driver::initialize` builds the pair: the [`Handle`] owns the shared
//! state every registration and wakeup goes through (in the runtime it
//! sits behind a shared reference; here the embedder locks and passes it
//! in), while the [`Driver`] value is the exclusive right to advance that
//! state — only its holder may run the composite loop, which is how at
//! most one worker is the driver at a time. A turn of the loop advances
//! the timer wheel to the current instant, processes the kernel's event
//! batch, and reports the fired wakers and how long the next kernel wait
//! may block.

use vstd::prelude::*;

use crate::error::ErrorKind;
use crate::events::{Event, Interest, Ready};
use crate::reactor::{drive_rel, has_wake, IoDriver, WAKE_TOKEN};
use crate::registry::{Ref, MAX_SLOTS};
use crate::timer::{due_count, TimeDriver, TimerEntry};

verus! {

/// What one turn of the driver produced.
pub struct RunOutcome {
    /// The wakers of the timers that expired, in wheel order.
    pub timer_woken: Vec<u64>,
    /// The wakers taken from schedule entries the event batch touched.
    pub io_woken: Vec<u64>,
    /// How many ticks the next kernel wait may block: the time until the
    /// next timer deadline, nothing when no timer is pending, and zero
    /// after a non-blocking turn.
    pub next_timeout: Option<u64>,
}

/// The shareable facade over the driver's state.
pub struct Handle {
    /// The readiness reactor.
    pub io: IoDriver,
    /// The timer wheel.
    pub time: TimeDriver,
    /// The instant, in driver ticks, the driver was created at.
    pub start: u64,
}

/// The exclusive right to drive the reactor and the timer wheel.
pub struct Driver {}

impl Handle {
    /// Both components are well-formed.
    pub open spec fn wf(self) -> bool {
        self.io.wf() && self.time.wf()
    }

    /// Unblock any ongoing kernel wait: latch a wake, which the next
    /// event batch hands back as a wake event.
    pub fn wake(&mut self)
        ensures
            final(self).io.wake_pending,
            final(self).io.registry == old(self).io.registry,
            final(self).io.register_count == old(self).io.register_count,
            final(self).io.ready_count == old(self).io.ready_count,
            final(self).time == old(self).time,
            final(self).start == old(self).start,
    {
        self.io.wake_pending = true;
    }

    /// Register an I/O source with the reactor: allocate a fresh schedule
    /// entry for its descriptor, with no readiness yet and both waker
    /// slots empty; see [`IoDriver::register_source`].
    pub fn io_register(&mut self, fd: i32, interest: Interest) -> (r: Result<Ref, ErrorKind>)
        requires
            old(self).wf(),
        ensures
            final(self).wf(),
            final(self).time == old(self).time,
            final(self).start == old(self).start,
            final(self).io.wake_pending == old(self).io.wake_pending,
            final(self).io.ready_count == old(self).io.ready_count,
            r is Ok <==> (old(self).io.registry.free@.len() > 0
                || old(self).io.registry.slots@.len() < MAX_SLOTS),
            r matches Ok(rf) ==> {
                &&& final(self).io.registry.valid(rf.index, rf.generation)
                &&& !old(self).io.registry.valid(rf.index, rf.generation)
                &&& final(self).io.registry.entry_at(rf.index).fd == fd
                &&& final(self).io.registry.entry_at(rf.index).interest == interest
                &&& final(self).io.registry.entry_at(rf.index).ready == Ready::spec_empty()
                &&& final(self).io.registry.entry_at(rf.index).read_waker is None
                &&& final(self).io.registry.entry_at(rf.index).write_waker is None
                &&& rf.spec_token() != WAKE_TOKEN
                &&& forall|i: u32, g: u32|
                    #[trigger] old(self).io.registry.valid(i, g) ==> final(self).io.registry.valid(
                        i,
                        g,
                    ) && final(self).io.registry.entry_at(i) == old(self).io.registry.entry_at(i)
            },
            r is Err ==> {
                &&& r == Err::<Ref, ErrorKind>(ErrorKind::StorageFull)
                &&& final(self).io.registry.slots@ == old(self).io.registry.slots@
                &&& final(self).io.registry.free@ == old(self).io.registry.free@
            },
    {
        self.io.register_source(fd, interest)
    }

    /// Deregister an I/O source: free its schedule entry. The slot's
    /// generation moves past the reference (or the slot retires), so the
    /// stale token can never reach a reused entry, and every other live
    /// entry is untouched; see [`IoDriver::deregister_source`].
    pub fn io_deregister(&mut self, r: Ref) -> (res: Result<(), ErrorKind>)
        requires
            old(self).wf(),
        ensures
            final(self).wf(),
            final(self).time == old(self).time,
            final(self).start == old(self).start,
            final(self).io.wake_pending == old(self).io.wake_pending,
            final(self).io.register_count == old(self).io.register_count,
            final(self).io.ready_count == old(self).io.ready_count,
            res is Ok <==> old(self).io.registry.valid(r.index, r.generation),
            res is Err ==> {
                &&& res == Err::<(), ErrorKind>(ErrorKind::InvalidInput)
                &&& final(self).io.registry.slots@ == old(self).io.registry.slots@
                &&& final(self).io.registry.free@ == old(self).io.registry.free@
            },
            res is Ok ==> {
                &&& forall|g: u32| !final(self).io.registry.valid(r.index, g)
                &&& !final(self).io.registry.slots@[r.index as int].occupied
                &&& (r.generation < u32::MAX
                    ==> final(self).io.registry.slots@[r.index as int].generation == r.generation
                    + 1)
                &&& (r.generation == u32::MAX
                    ==> final(self).io.registry.slots@[r.index as int].generation == r.generation
                    && (forall|k: int|
                    0 <= k < final(self).io.registry.free@.len() ==> final(self).io.registry.free@[k] != r.index))
                &&& forall|i: u32, g: u32|
                    i != r.index && #[trigger] old(self).io.registry.valid(i, g) ==> final(self).io.registry.valid(i, g) && final(self).io.registry.entry_at(i) == old(self).io.registry.entry_at(i)
            },
    {
        self.io.deregister_source(r)
    }

    /// The number of sources ever registered.
    pub fn get_register_count(&self) -> (r: u64)
        ensures
            r == self.io.register_count,
    {
        self.io.get_register_count()
    }

    /// The number of events that reached a live entry.
    pub fn get_ready_count(&self) -> (r: u64)
        ensures
            r == self.io.ready_count,
    {
        self.io.get_ready_count()
    }

    /// The instant the driver was created at.
    pub fn start_time(&self) -> (r: u64)
        ensures
            r == self.start,
    {
        self.start
    }

    /// Register a timer and wake the driver, so the blocked kernel wait
    /// recomputes its deadline against the new entry.
    pub fn timer_register(&mut self, deadline: u64, waker: u64) -> (id: u64)
        requires
            old(self).wf(),
            old(self).time.next_id < u64::MAX,
        ensures
            final(self).wf(),
            final(self).start == old(self).start,
            final(self).io.registry == old(self).io.registry,
            final(self).io.wake_pending,
            id == old(self).time.next_id,
            final(self).time.next_id == old(self).time.next_id + 1,
            exists|p: int|
                {
                    &&& 0 <= p <= old(self).time.pending@.len()
                    &&& final(self).time.pending@ == old(self).time.pending@.insert(
                        p,
                        TimerEntry { id, deadline, waker },
                    )
                },
    {
        let id = self.time.timer_register(deadline, waker);
        self.wake();
        id
    }

    /// Cancel a timer; a driver already sleeping need not be woken, since
    /// a spurious early wakeup is harmless.
    pub fn timer_cancel(&mut self, id: u64) -> (found: bool)
        requires
            old(self).wf(),
        ensures
            final(self).wf(),
            final(self).start == old(self).start,
            final(self).io == old(self).io,
            final(self).time.next_id == old(self).time.next_id,
            !found ==> final(self).time.pending@ == old(self).time.pending@ && (forall|j: int|
                0 <= j < old(self).time.pending@.len() ==> old(self).time.pending@[j].id != id),
            found ==> exists|i: int|
                {
                    &&& 0 <= i < old(self).time.pending@.len()
                    &&& old(self).time.pending@[i].id == id
                    &&& final(self).time.pending@ == old(self).time.pending@.remove(i)
                },
    {
        self.time.timer_cancel(id)
    }
}

impl Driver {
    /// Create the driver pair: the shareable handle and the exclusive
    /// right to drive it.
    pub fn initialize() -> (r: (Handle, Driver))
        ensures
            r.0.wf(),
            r.0.io.registry.slots@.len() == 0,
            !r.0.io.wake_pending,
            r.0.io.register_count == 0,
            r.0.io.ready_count == 0,
            r.0.time.pending@.len() == 0,
            r.0.time.next_id == 0,
            r.0.start == 0,
    {
        let handle = Handle { io: IoDriver::initialize(), time: TimeDriver::initialize(), start: 0 };
        (handle, Driver {})
    }

    /// One blocking turn: advance the timer wheel to `now`, firing every
    /// expired timer in wheel order; process the kernel's event batch,
    /// consuming a latched wake; report the time until the next deadline
    /// as the bound for the next kernel wait.
    pub fn run(&mut self, handle: &mut Handle, now: u64, events: &Vec<Event>) -> (r: RunOutcome)
        requires
            old(handle).wf(),
        ensures
            final(handle).wf(),
            final(handle).start == old(handle).start,
            final(handle).time.next_id == old(handle).time.next_id,
            final(handle).io.register_count == old(handle).io.register_count,
            final(handle).io.wake_pending == (old(handle).io.wake_pending && !has_wake(events@)),
            drive_rel(old(handle).io, final(handle).io, events@, r.io_woken@),
            ({
                let k = due_count(old(handle).time.pending@, now);
                &&& r.timer_woken@ == old(handle).time.pending@.take(k).map_values(
                    |e: TimerEntry| e.waker,
                )
                &&& final(handle).time.pending@ == old(handle).time.pending@.skip(k)
                &&& r.next_timeout == (if k == old(handle).time.pending@.len() {
                    None::<u64>
                } else {
                    Some((old(handle).time.pending@[k].deadline - now) as u64)
                })
            }),
    {
        let (timer_woken, next_timeout) = handle.time.run(now);
        let io_woken = handle.io.drive(events);
        RunOutcome { timer_woken, io_woken, next_timeout }
    }

    /// One non-blocking turn: like [`Driver::run`], but the reported
    /// timeout is zero so the caller polls the kernel without blocking.
    pub fn run_once(&mut self, handle: &mut Handle, now: u64, events: &Vec<Event>) -> (r:
        RunOutcome)
        requires
            old(handle).wf(),
        ensures
            final(handle).wf(),
            final(handle).start == old(handle).start,
            final(handle).time.next_id == old(handle).time.next_id,
            final(handle).io.register_count == old(handle).io.register_count,
            final(handle).io.wake_pending == (old(handle).io.wake_pending && !has_wake(events@)),
            r.next_timeout == Some(0u64),
            drive_rel(old(handle).io, final(handle).io, events@, r.io_woken@),
            ({
                let k = due_count(old(handle).time.pending@, now);
                &&& r.timer_woken@ == old(handle).time.pending@.take(k).map_values(
                    |e: TimerEntry| e.waker,
                )
                &&& final(handle).time.pending@ == old(handle).time.pending@.skip(k)
            }),
    {
        let (timer_woken, _) = handle.time.run(now);
        let io_woken = handle.io.drive(events);
        RunOutcome { timer_woken, io_woken, next_timeout: Some(0) }
    }
}

} // verus!
