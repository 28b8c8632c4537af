//! The readiness reactor: the registry plus the cross-thread wake latch.
//!
//! The reactor owns the slab of schedule entries and the pending-wake
//! flag that models the eventfd-like wake device. Kernel events arrive as
//! plain `(token, readiness)` pairs: the reserved wake token only clears
//! the latch, every other token is resolved through the registry and its
//! entry's wakers are taken for firing. Stale tokens are dropped
//! silently.

use vstd::prelude::*;

use crate::error::ErrorKind;
use crate::events::{Event, Interest, Ready};
use crate::registry::{token_generation, token_index, EventOutcome, Ref, Registry, MAX_SLOTS};
use crate::schedule_io::set_readiness_post;

verus! {

/// The reserved token the wake device is registered under; no registry
/// reference ever packs to it.
pub const WAKE_TOKEN: u64 = 0xFFFF_FFFF_FFFF_FFFF;

/// Whether an event batch contains a wake event.
pub open spec fn has_wake(events: Seq<Event>) -> bool {
    exists|i: int| 0 <= i < events.len() && (#[trigger] events[i]).token.0 == WAKE_TOKEN
}

/// The wakers one event fired, as a sequence: the read side first.
pub open spec fn fired_seq(woken: (Option<u64>, Option<u64>)) -> Seq<u64> {
    (match woken.0 {
        Option::Some(w) => seq![w],
        Option::None => Seq::empty(),
    }) + (match woken.1 {
        Option::Some(w) => seq![w],
        Option::None => Seq::empty(),
    })
}

/// What processing one event does to the reactor: the wake token only
/// clears the latch; any other token, if it resolves to a live entry,
/// has that entry's readiness recorded (and its touched wakers taken) by
/// [`set_readiness_post`], while a stale token changes nothing.
pub open spec fn drive_one_rel(
    pre: IoDriver,
    post: IoDriver,
    event: Event,
    woken: (Option<u64>, Option<u64>),
) -> bool {
    &&& post.register_count == pre.register_count
    &&& if event.token.0 == WAKE_TOKEN {
        &&& !post.wake_pending
        &&& post.registry.slots@ == pre.registry.slots@
        &&& post.registry.free@ == pre.registry.free@
        &&& post.ready_count == pre.ready_count
        &&& woken == (None::<u64>, None::<u64>)
    } else {
        &&& post.wake_pending == pre.wake_pending
        &&& post.registry.slots@.len() == pre.registry.slots@.len()
        &&& post.registry.free@ == pre.registry.free@
        &&& forall|i: int|
            0 <= i < post.registry.slots@.len() ==> (#[trigger] post.registry.slots@[i]).occupied
                == pre.registry.slots@[i].occupied && post.registry.slots@[i].generation
                == pre.registry.slots@[i].generation
        &&& ({
            let idx = token_index(event.token.0);
            let gen = token_generation(event.token.0);
            if idx < pre.registry.slots@.len() && pre.registry.valid(idx as u32, gen as u32) {
                &&& set_readiness_post(
                    pre.registry.entry_at(idx as u32),
                    post.registry.entry_at(idx as u32),
                    event.ready,
                    woken,
                )
                &&& post.ready_count == (if pre.ready_count < u64::MAX {
                    pre.ready_count + 1
                } else {
                    pre.ready_count as int
                })
                &&& forall|i: int|
                    0 <= i < post.registry.slots@.len() && i != idx ==> (
                    #[trigger] post.registry.slots@[i]).entry == pre.registry.slots@[i].entry
            } else {
                &&& post.registry.slots@ == pre.registry.slots@
                &&& post.ready_count == pre.ready_count
                &&& woken == (None::<u64>, None::<u64>)
            }
        })
    }
}

/// What processing a whole batch does: the per-event relation folded
/// over the batch, with every fired waker collected in order.
pub open spec fn drive_rel(pre: IoDriver, post: IoDriver, events: Seq<Event>, woken: Seq<
    u64,
>) -> bool
    decreases events.len(),
{
    if events.len() == 0 {
        post == pre && woken == Seq::<u64>::empty()
    } else {
        exists|mid: IoDriver, w0: (Option<u64>, Option<u64>), wpre: Seq<u64>|
            {
                &&& #[trigger] drive_witness(mid, w0, wpre)
                &&& drive_rel(pre, mid, events.drop_last(), wpre)
                &&& drive_one_rel(mid, post, events.last(), w0)
                &&& woken == wpre + fired_seq(w0)
            }
    }
}

/// Marks the intermediate state and wakers of one fold step of
/// [`drive_rel`], so a proof can point at them.
pub open spec fn drive_witness(
    mid: IoDriver,
    w0: (Option<u64>, Option<u64>),
    wpre: Seq<u64>,
) -> bool {
    true
}

/// One more processed event extends the fold by one step.
proof fn lemma_drive_rel_step(
    pre: IoDriver,
    mid: IoDriver,
    post: IoDriver,
    events: Seq<Event>,
    wpre: Seq<u64>,
    w0: (Option<u64>, Option<u64>),
    woken: Seq<u64>,
)
    requires
        events.len() > 0,
        drive_rel(pre, mid, events.drop_last(), wpre),
        drive_one_rel(mid, post, events.last(), w0),
        woken == wpre + fired_seq(w0),
    ensures
        drive_rel(pre, post, events, woken),
{
    assert(drive_witness(mid, w0, wpre));
}

/// The reactor state.
pub struct IoDriver {
    /// The slab of schedule entries.
    pub registry: Registry,
    /// Whether a cross-thread wake is latched and not yet consumed.
    pub wake_pending: bool,
    /// How many sources were ever registered.
    pub register_count: u64,
    /// How many events reached a live entry.
    pub ready_count: u64,
}

impl IoDriver {
    /// The registry invariant carries over.
    pub open spec fn wf(self) -> bool {
        self.registry.wf()
    }

    /// A fresh reactor: empty registry, no wake latched.
    pub fn initialize() -> (r: IoDriver)
        ensures
            r.wf(),
            r.registry.slots@.len() == 0,
            !r.wake_pending,
            r.register_count == 0,
            r.ready_count == 0,
    {
        IoDriver {
            registry: Registry::new(),
            wake_pending: false,
            register_count: 0,
            ready_count: 0,
        }
    }

    /// Register a source: allocate a schedule entry for its descriptor
    /// and interest. Succeeds exactly while the table has room; the
    /// reference's token never collides with the wake token.
    pub fn register_source(&mut self, fd: i32, interest: Interest) -> (r: Result<Ref, ErrorKind>)
        requires
            old(self).wf(),
        ensures
            final(self).wf(),
            final(self).wake_pending == old(self).wake_pending,
            final(self).ready_count == old(self).ready_count,
            r is Ok <==> (old(self).registry.free@.len() > 0 || old(self).registry.slots@.len()
                < MAX_SLOTS),
            r matches Ok(rf) ==> {
                &&& final(self).register_count == (if old(self).register_count < u64::MAX {
                    old(self).register_count + 1
                } else {
                    old(self).register_count as int
                })
                &&& final(self).registry.valid(rf.index, rf.generation)
                &&& !old(self).registry.valid(rf.index, rf.generation)
                &&& final(self).registry.entry_at(rf.index).fd == fd
                &&& final(self).registry.entry_at(rf.index).interest == interest
                &&& final(self).registry.entry_at(rf.index).ready == Ready::spec_empty()
                &&& final(self).registry.entry_at(rf.index).read_waker is None
                &&& final(self).registry.entry_at(rf.index).write_waker is None
                &&& rf.spec_token() != WAKE_TOKEN
                &&& forall|i: u32, g: u32|
                    #[trigger] old(self).registry.valid(i, g) ==> final(self).registry.valid(i, g)
                        && final(self).registry.entry_at(i) == old(self).registry.entry_at(i)
            },
            r is Err ==> {
                &&& final(self).registry.slots@ == old(self).registry.slots@
                &&& final(self).registry.free@ == old(self).registry.free@
                &&& final(self).register_count == old(self).register_count
                &&& r == Err::<Ref, ErrorKind>(ErrorKind::StorageFull)
            },
    {
        match self.registry.insert(fd, interest) {
            Ok(rf) => {
                if self.register_count < u64::MAX {
                    self.register_count = self.register_count + 1;
                }
                proof {
                    assert(rf.index * 0x1_0000_0000u64 + rf.generation
                        < 0xFFFF_FFFF_FFFF_FFFFu64) by (nonlinear_arith)
                        requires
                            rf.index < 0xFFFF_FFFFu64,
                            rf.generation <= 0xFFFF_FFFFu64,
                    ;
                }
                Ok(rf)
            },
            Err(e) => Err(e),
        }
    }

    /// Deregister a source: free its schedule entry. Fails exactly when
    /// the reference is stale.
    pub fn deregister_source(&mut self, r: Ref) -> (res: Result<(), ErrorKind>)
        requires
            old(self).wf(),
        ensures
            final(self).wf(),
            final(self).wake_pending == old(self).wake_pending,
            final(self).register_count == old(self).register_count,
            final(self).ready_count == old(self).ready_count,
            res is Ok <==> old(self).registry.valid(r.index, r.generation),
            res is Err ==> {
                &&& res == Err::<(), ErrorKind>(ErrorKind::InvalidInput)
                &&& final(self).registry.slots@ == old(self).registry.slots@
                &&& final(self).registry.free@ == old(self).registry.free@
            },
            res is Ok ==> {
                &&& forall|g: u32| !final(self).registry.valid(r.index, g)
                &&& !final(self).registry.slots@[r.index as int].occupied
                &&& (r.generation < u32::MAX ==> final(self).registry.slots@[r.index as int].generation == r.generation + 1)
                &&& (r.generation == u32::MAX ==> final(self).registry.slots@[r.index as int].generation == r.generation && (forall|k: int|
                    0 <= k < final(self).registry.free@.len() ==> final(self).registry.free@[k]
                        != r.index))
                &&& forall|i: u32, g: u32|
                    i != r.index && #[trigger] old(self).registry.valid(i, g) ==> final(self).registry.valid(i, g) && final(self).registry.entry_at(i) == old(self).registry.entry_at(i)
            },
    {
        if self.registry.release(r) {
            Ok(())
        } else {
            Err(ErrorKind::InvalidInput)
        }
    }

    /// Process one kernel event: the wake token clears the latch; any
    /// other token is resolved and, if live, has its entry's readiness
    /// recorded and the touched wakers taken for firing.
    pub fn drive_one(&mut self, event: Event) -> (woken: (Option<u64>, Option<u64>))
        requires
            old(self).wf(),
        ensures
            final(self).wf(),
            drive_one_rel(*old(self), *final(self), event, woken),
    {
        if event.token.0 == WAKE_TOKEN {
            self.wake_pending = false;
            return (None, None);
        }
        match self.registry.process_event(event.token.0, event.ready) {
            EventOutcome::Stale => (None, None),
            EventOutcome::Woken(rw, ww) => {
                if self.ready_count < u64::MAX {
                    self.ready_count = self.ready_count + 1;
                }
                (rw, ww)
            },
        }
    }

    /// Process a whole batch of kernel events, collecting every waker
    /// fired; a wake event anywhere in the batch consumes the latch.
    /// Per-event behaviour is [`IoDriver::drive_one`]'s.
    pub fn drive(&mut self, events: &Vec<Event>) -> (woken: Vec<u64>)
        requires
            old(self).wf(),
        ensures
            final(self).wf(),
            final(self).register_count == old(self).register_count,
            final(self).wake_pending == (old(self).wake_pending && !has_wake(events@)),
            final(self).registry.slots@.len() == old(self).registry.slots@.len(),
            final(self).registry.free@ == old(self).registry.free@,
            forall|i: int|
                0 <= i < final(self).registry.slots@.len() ==> (#[trigger] final(self).registry.slots@[i]).occupied == old(self).registry.slots@[i].occupied && final(self).registry.slots@[i].generation == old(self).registry.slots@[i].generation,
            events@.len() == 0 ==> final(self).registry.slots@ == old(self).registry.slots@
                && woken@.len() == 0,
            drive_rel(*old(self), *final(self), events@, woken@),
    {
        let mut woken: Vec<u64> = Vec::new();
        let mut i: usize = 0;
        proof {
            assert(events@.take(0) =~= Seq::<Event>::empty());
        }
        while i < events.len()
            invariant
                i <= events@.len(),
                self.wf(),
                drive_rel(*old(self), *self, events@.take(i as int), woken@),
                self.register_count == old(self).register_count,
                self.wake_pending == (old(self).wake_pending && !has_wake(events@.take(i as int))),
                self.registry.slots@.len() == old(self).registry.slots@.len(),
                self.registry.free@ == old(self).registry.free@,
                forall|j: int|
                    0 <= j < self.registry.slots@.len() ==> (#[trigger] self.registry.slots@[j]).occupied
                        == old(self).registry.slots@[j].occupied
                        && self.registry.slots@[j].generation == old(self).registry.slots@[j].generation,
                i == 0 ==> self.registry.slots@ == old(self).registry.slots@ && woken@.len() == 0,
            decreases events@.len() - i,
        {
            let event = events[i];
            let ghost pre_state = *self;
            let ghost pre_woken = woken@;
            let (rw, ww) = self.drive_one(event);
            if let Some(w) = rw {
                woken.push(w);
            }
            if let Some(w) = ww {
                woken.push(w);
            }
            proof {
                assert(woken@ =~= pre_woken + fired_seq((rw, ww)));
                assert(events@.take(i + 1).drop_last() =~= events@.take(i as int));
                assert(events@.take(i + 1).last() == events@[i as int]);
                lemma_drive_rel_step(
                    *old(self),
                    pre_state,
                    *self,
                    events@.take(i + 1),
                    pre_woken,
                    (rw, ww),
                    woken@,
                );
                assert(has_wake(events@.take(i + 1)) == (has_wake(events@.take(i as int))
                    || events@[i as int].token.0 == WAKE_TOKEN)) by {
                    let s = events@.take(i + 1);
                    if has_wake(s) {
                        let k = choose|k: int|
                            0 <= k < s.len() && (#[trigger] s[k]).token.0 == WAKE_TOKEN;
                        if k < i {
                            assert(events@.take(i as int)[k].token.0 == WAKE_TOKEN);
                        }
                    }
                    if has_wake(events@.take(i as int)) {
                        let k = choose|k: int|
                            0 <= k < i && (#[trigger] events@.take(i as int)[k]).token.0
                                == WAKE_TOKEN;
                        assert(s[k].token.0 == WAKE_TOKEN);
                    }
                    if events@[i as int].token.0 == WAKE_TOKEN {
                        assert(s[i as int].token.0 == WAKE_TOKEN);
                    }
                }
            }
            i = i + 1;
        }
        proof {
            assert(events@.take(events@.len() as int) =~= events@);
        }
        woken
    }

    /// The number of sources ever registered.
    pub fn get_register_count(&self) -> (r: u64)
        ensures
            r == self.register_count,
    {
        self.register_count
    }

    /// The number of events that reached a live entry.
    pub fn get_ready_count(&self) -> (r: u64)
        ensures
            r == self.ready_count,
    {
        self.ready_count
    }
}

} // verus!
