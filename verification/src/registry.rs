//! Slab registry of schedule entries.
//!
//! Entries live in a growable table of slots; a freed slot goes on a free
//! list and is reused only after its generation was bumped, so a stale
//! reference (same index, older generation) can never reach a reused
//! entry. The reference handed to callers — and packed into the kernel's
//! event user-data — is the pair of index and generation.

use vstd::prelude::*;

use crate::error::ErrorKind;
use crate::events::{Interest, Ready};
use crate::events::Direction;
use crate::schedule_io::{register_waker_post, set_readiness_post, RegisterResult, ScheduleIo};

verus! {

/// The largest number of slots the table may hold (indices fit 32 bits).
pub const MAX_SLOTS: usize = 0xFFFF_FFFF;

/// Value of one index step inside a packed token.
pub const TOKEN_INDEX_UNIT: u64 = 0x1_0000_0000;

/// The index half of a packed token.
pub open spec fn token_index(token: u64) -> u64 {
    token / TOKEN_INDEX_UNIT
}

/// The generation half of a packed token.
pub open spec fn token_generation(token: u64) -> u64 {
    token % TOKEN_INDEX_UNIT
}

/// The owning reference to a registry entry: index plus generation.
#[derive(Debug, PartialEq, Eq, Structural)]
pub struct Ref {
    /// The slot index.
    pub index: u32,
    /// The slot generation the reference was issued for.
    pub generation: u32,
}

impl Ref {
    /// The packed token: index in the high half, generation in the low.
    pub open spec fn spec_token(self) -> u64 {
        (self.index * TOKEN_INDEX_UNIT + self.generation) as u64
    }

    /// Pack the reference into a kernel token.
    pub fn token(&self) -> (t: u64)
        ensures
            t == self.spec_token(),
            token_index(t) == self.index,
            token_generation(t) == self.generation,
    {
        let t = (self.index as u64) * TOKEN_INDEX_UNIT + (self.generation as u64);
        proof {
            assert(t / 0x1_0000_0000u64 == self.index && t % 0x1_0000_0000u64
                == self.generation) by (nonlinear_arith)
                requires
                    t == self.index * 0x1_0000_0000u64 + self.generation,
                    self.index <= 0xFFFF_FFFFu64,
                    self.generation <= 0xFFFF_FFFFu64,
            ;
        }
        t
    }
}

/// One slot of the table.
#[derive(Clone, Copy, Debug)]
pub struct Slot {
    /// Bumped each time the slot is freed; stale references fail to match.
    pub generation: u32,
    /// Whether the slot currently holds a live entry.
    pub occupied: bool,
    /// The entry itself.
    pub entry: ScheduleIo,
}

/// What processing one kernel event did.
#[derive(Clone, Copy, Debug, PartialEq, Eq, Structural)]
pub enum EventOutcome {
    /// The token resolved to no live entry; the event is dropped.
    Stale,
    /// The entry was updated; these wakers were taken and must be fired.
    Woken(Option<u64>, Option<u64>),
}

/// The append/reuse slab of schedule entries.
pub struct Registry {
    /// The slot table.
    pub slots: Vec<Slot>,
    /// Indices of unoccupied slots available for reuse.
    pub free: Vec<u32>,
}

impl Registry {
    /// Every free-list index points below the table at an unoccupied
    /// slot, no index twice, and the table never outgrows 32-bit indices.
    pub open spec fn wf(self) -> bool {
        &&& self.slots@.len() <= MAX_SLOTS
        &&& forall|i: int|
            0 <= i < self.free@.len() ==> (#[trigger] self.free@[i]) < self.slots@.len()
                && !self.slots@[self.free@[i] as int].occupied
        &&& forall|i: int, j: int|
            0 <= i < j < self.free@.len() ==> self.free@[i] != self.free@[j]
    }

    /// Whether the pair denotes a live entry.
    pub open spec fn valid(self, index: u32, generation: u32) -> bool {
        &&& index < self.slots@.len()
        &&& self.slots@[index as int].occupied
        &&& self.slots@[index as int].generation == generation
    }

    /// The entry at a slot.
    pub open spec fn entry_at(self, index: u32) -> ScheduleIo {
        self.slots@[index as int].entry
    }

    /// An empty registry.
    pub fn new() -> (r: Registry)
        ensures
            r.wf(),
            r.slots@.len() == 0,
            r.free@.len() == 0,
    {
        Registry { slots: Vec::new(), free: Vec::new() }
    }

    /// Allocate a slot for a fresh entry. Succeeds exactly while a slot
    /// can be reused or the table can still grow; every live reference
    /// keeps denoting its unchanged entry, and the returned reference was
    /// not valid before.
    pub fn insert(&mut self, fd: i32, interest: Interest) -> (r: Result<Ref, ErrorKind>)
        requires
            old(self).wf(),
        ensures
            final(self).wf(),
            r is Ok <==> (old(self).free@.len() > 0 || old(self).slots@.len() < MAX_SLOTS),
            r matches Ok(rf) ==> {
                &&& final(self).valid(rf.index, rf.generation)
                &&& !old(self).valid(rf.index, rf.generation)
                &&& final(self).entry_at(rf.index) == (ScheduleIo {
                    tick: 0,
                    ready: Ready::spec_empty(),
                    read_waker: None,
                    write_waker: None,
                    fd,
                    interest,
                })
                &&& (rf.index < old(self).slots@.len() ==> rf.generation == old(self).slots@[rf.index as int].generation && old(self).free@.contains(rf.index))
                &&& (rf.index >= old(self).slots@.len() ==> rf.index == old(self).slots@.len()
                    && rf.generation == 0)
                &&& forall|i: int|
                    0 <= i < old(self).slots@.len() ==> (#[trigger] final(self).slots@[i]).generation
                        == old(self).slots@[i].generation
                &&& forall|i: int|
                    0 <= i < old(self).slots@.len() && i != rf.index ==> (#[trigger] final(self).slots@[i]).occupied == old(self).slots@[i].occupied && final(self).slots@[i].entry == old(self).slots@[i].entry
                &&& forall|i: u32, g: u32|
                    #[trigger] old(self).valid(i, g) ==> final(self).valid(i, g) && final(self).entry_at(i) == old(self).entry_at(i)
            },
            r is Err ==> {
                &&& r == Err::<Ref, ErrorKind>(ErrorKind::StorageFull)
                &&& final(self).slots@ == old(self).slots@
                &&& final(self).free@ == old(self).free@
            },
    {
        let entry = ScheduleIo::new(fd, interest);
        match self.free.pop() {
            Some(index) => {
                let gen = self.slots[index as usize].generation;
                self.slots.set(
                    index as usize,
                    Slot { generation: gen, occupied: true, entry },
                );
                proof {
                    assert(forall|i: int|
                        0 <= i < self.free@.len() ==> (#[trigger] self.free@[i])
                            < self.slots@.len() && !self.slots@[self.free@[i] as int].occupied);
                }
                Ok(Ref { index, generation: gen })
            },
            None => {
                if self.slots.len() < MAX_SLOTS {
                    let index = self.slots.len() as u32;
                    self.slots.push(Slot { generation: 0, occupied: true, entry });
                    Ok(Ref { index, generation: 0 })
                } else {
                    Err(ErrorKind::StorageFull)
                }
            },
        }
    }

    /// Look a reference up.
    pub fn get(&self, index: u32, generation: u32) -> (r: Option<&ScheduleIo>)
        ensures
            r is Some <==> self.valid(index, generation),
            r matches Some(e) ==> *e == self.entry_at(index),
    {
        if (index as usize) < self.slots.len() {
            let slot = &self.slots[index as usize];
            if slot.occupied && slot.generation == generation {
                return Some(&slot.entry);
            }
        }
        None
    }

    /// Free the entry a reference owns; its generation is bumped so the
    /// index cannot be reached through stale references, and the slot is
    /// reused only for later generations (an exhausted generation retires
    /// the slot). Reports whether the reference was live.
    pub fn release(&mut self, r: Ref) -> (found: bool)
        requires
            old(self).wf(),
        ensures
            final(self).wf(),
            found == old(self).valid(r.index, r.generation),
            !found ==> {
                &&& final(self).slots@ == old(self).slots@
                &&& final(self).free@ == old(self).free@
            },
            found ==> {
                &&& final(self).slots@.len() == old(self).slots@.len()
                &&& forall|g: u32| !final(self).valid(r.index, g)
                &&& !final(self).slots@[r.index as int].occupied
                &&& (r.generation < u32::MAX ==> final(self).slots@[r.index as int].generation
                    == r.generation + 1)
                &&& (r.generation == u32::MAX ==> final(self).slots@[r.index as int].generation
                    == r.generation && (forall|k: int|
                    0 <= k < final(self).free@.len() ==> final(self).free@[k] != r.index))
                &&& forall|i: u32, g: u32|
                    i != r.index && #[trigger] old(self).valid(i, g) ==> final(self).valid(i, g)
                        && final(self).entry_at(i) == old(self).entry_at(i)
            },
    {
        if (r.index as usize) < self.slots.len() {
            let slot = self.slots[r.index as usize];
            if slot.occupied && slot.generation == r.generation {
                if slot.generation < u32::MAX {
                    self.slots.set(
                        r.index as usize,
                        Slot {
                            generation: slot.generation + 1,
                            occupied: false,
                            entry: slot.entry,
                        },
                    );
                    self.free.push(r.index);
                    proof {
                        assert(forall|i: int|
                            0 <= i < old(self).free@.len() ==> old(self).free@[i] != r.index);
                    }
                } else {
                    self.slots.set(
                        r.index as usize,
                        Slot { generation: slot.generation, occupied: false, entry: slot.entry },
                    );
                }
                return true;
            }
        }
        false
    }

    /// Install a waker on a live entry for one direction; see
    /// [`ScheduleIo::register_waker`]. A stale reference installs nothing.
    pub fn register_waker(&mut self, index: u32, generation: u32, dir: Direction, waker: u64) -> (r:
        Option<RegisterResult>)
        requires
            old(self).wf(),
        ensures
            final(self).wf(),
            final(self).free@ == old(self).free@,
            final(self).slots@.len() == old(self).slots@.len(),
            forall|i: int|
                0 <= i < final(self).slots@.len() ==> (#[trigger] final(self).slots@[i]).occupied
                    == old(self).slots@[i].occupied && final(self).slots@[i].generation == old(self).slots@[i].generation,
            !old(self).valid(index, generation) ==> r is None && final(self).slots@ == old(self).slots@,
            old(self).valid(index, generation) ==> (r matches Some(rr) && register_waker_post(
                old(self).entry_at(index),
                final(self).entry_at(index),
                dir,
                waker,
                rr,
            ) && (forall|i: int|
                0 <= i < final(self).slots@.len() && i != index ==> (#[trigger] final(self).slots@[i]).entry == old(self).slots@[i].entry)),
    {
        if (index as usize) < self.slots.len() {
            let slot = self.slots[index as usize];
            if slot.occupied && slot.generation == generation {
                let mut entry = slot.entry;
                let rr = entry.register_waker(dir, waker);
                self.slots.set(
                    index as usize,
                    Slot { generation: slot.generation, occupied: slot.occupied, entry },
                );
                return Some(rr);
            }
        }
        None
    }

    /// Resolve one kernel event's token and record its readiness: a stale
    /// token is dropped silently; a live entry gets the mask merged, its
    /// tick bumped, and the wakers of the touched directions taken out.
    pub fn process_event(&mut self, token: u64, ready: Ready) -> (outcome: EventOutcome)
        requires
            old(self).wf(),
        ensures
            final(self).wf(),
            final(self).slots@.len() == old(self).slots@.len(),
            final(self).free@ == old(self).free@,
            forall|i: int|
                0 <= i < final(self).slots@.len() ==> (#[trigger] final(self).slots@[i]).occupied
                    == old(self).slots@[i].occupied && final(self).slots@[i].generation == old(self).slots@[i].generation,
            ({
                let idx = token_index(token);
                let gen = token_generation(token);
                if idx < old(self).slots@.len() && old(self).valid(idx as u32, gen as u32) {
                    exists|woken: (Option<u64>, Option<u64>)|
                        {
                            &&& outcome == EventOutcome::Woken(woken.0, woken.1)
                            &&& #[trigger] set_readiness_post(
                                old(self).entry_at(idx as u32),
                                final(self).entry_at(idx as u32),
                                ready,
                                woken,
                            )
                            &&& forall|i: int|
                                0 <= i < final(self).slots@.len() && i != idx ==> (
                                #[trigger] final(self).slots@[i]).entry == old(self).slots@[i].entry
                        }
                } else {
                    outcome == EventOutcome::Stale && final(self).slots@ == old(self).slots@
                }
            }),
    {
        let index = token / TOKEN_INDEX_UNIT;
        let generation = token % TOKEN_INDEX_UNIT;
        proof {
            assert(token / 0x1_0000_0000u64 <= 0xFFFF_FFFFu64 && token % 0x1_0000_0000u64
                <= 0xFFFF_FFFFu64) by (nonlinear_arith);
        }
        if (index as usize) < self.slots.len() {
            let slot = self.slots[index as usize];
            if slot.occupied && slot.generation == generation as u32 {
                let mut entry = slot.entry;
                let woken = entry.set_readiness(ready);
                self.slots.set(
                    index as usize,
                    Slot { generation: slot.generation, occupied: slot.occupied, entry },
                );
                return EventOutcome::Woken(woken.0, woken.1);
            }
        }
        EventOutcome::Stale
    }
}

/// No use-after-free across reuse: a reference whose slot generation has
/// moved past it, or whose slot was retired off the free list, can never
/// be revalidated by an insertion — the newly issued reference always
/// differs from it. Releasing a live reference leaves it in exactly that
/// stale shape, so the token of a dropped registration never reaches a
/// reused entry.
pub proof fn lemma_stale_ref_not_revalidated(pre: Registry, post: Registry, r: Ref, rf: Ref)
    requires
        pre.wf(),
        r.index < pre.slots@.len(),
        // the reference is stale in `pre`: generation bumped past it, or
        // its slot retired off the free list
        pre.slots@[r.index as int].generation > r.generation || (!pre.slots@[r.index as int].occupied
            && (forall|k: int| 0 <= k < pre.free@.len() ==> pre.free@[k] != r.index)),
        // `post` is `pre` after a successful insertion that issued `rf`
        post.valid(rf.index, rf.generation),
        rf.index < pre.slots@.len() ==> rf.generation == pre.slots@[rf.index as int].generation
            && pre.free@.contains(rf.index),
        rf.index >= pre.slots@.len() ==> rf.index == pre.slots@.len(),
        forall|i: int|
            0 <= i < pre.slots@.len() ==> (#[trigger] post.slots@[i]).generation
                == pre.slots@[i].generation,
        forall|i: int|
            0 <= i < pre.slots@.len() && i != rf.index ==> (#[trigger] post.slots@[i]).occupied
                == pre.slots@[i].occupied,
    ensures
        rf != r,
        !post.valid(r.index, r.generation),
{
    if rf.index == r.index {
        if pre.slots@[r.index as int].generation > r.generation {
            assert(rf.generation > r.generation);
        } else {
            assert(pre.free@.contains(rf.index));
            let k = choose|k: int| 0 <= k < pre.free@.len() && pre.free@[k] == rf.index;
            assert(pre.free@[k] != r.index);
        }
    } else {
        assert(post.slots@[r.index as int].generation == pre.slots@[r.index as int].generation);
        assert(post.slots@[r.index as int].occupied == pre.slots@[r.index as int].occupied);
        if pre.slots@[r.index as int].generation > r.generation {
        } else {
            assert(!post.slots@[r.index as int].occupied);
        }
    }
}

} // verus!

