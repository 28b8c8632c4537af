//! Worker-sleep coordinator.
//!
//! The executor keeps one packed word that counts active and searching
//! workers, plus a list of parked worker indices. Workers park by pushing
//! their index and decrementing the active count; the last worker to park
//! learns so and takes over driving the reactor. A worker whose run queue
//! ran dry first becomes "searching"; the number of searchers is capped at
//! half the active workers to avoid thundering scans.
//!
//! Layout of the packed state word:
//!
//! ```text
//!          48 bits            16 bits
//! |     active workers   | searching workers |
//! ```
//!
//! In the concurrent runtime the word is a single atomic and the idle list
//! sits behind a short mutex; this model gives the same transitions to one
//! owner at a time, so the operations take `&mut self`.

use vstd::prelude::*;

verus! {

/// Bits the active count is shifted by inside the packed word.
pub const ACTIVE_WORKER_SHIFT: u64 = 16;
/// Mask of the searching count inside the packed word.
pub const SEARCHING_MASK: u64 = 0xFFFF;
/// Mask of the active count inside the packed word.
pub const ACTIVE_MASK: u64 = 0xFFFF_FFFF_FFFF_0000;
/// Value of one active worker inside the packed word.
pub const ACTIVE_UNIT: u64 = 0x1_0000;
/// Exclusive upper bound of the active count (it has 48 bits).
pub const ACTIVE_LIMIT: u64 = 0x1_0000_0000_0000;

/// The packed pair of worker counters.
pub struct Record {
    /// The packed state word.
    pub word: u64,
}

/// One step a caller can take on a [`Record`].
pub enum RecordOp {
    /// Increment the active count.
    IncActive,
    /// Decrement the active count.
    DecActive,
    /// Increment the searching count.
    IncSearching,
    /// Decrement the searching count.
    DecSearching,
}

/// The pair of counters a word decodes to: `(active, searching)`.
pub open spec fn decode(word: u64) -> (nat, nat) {
    ((word / ACTIVE_UNIT) as nat, (word % ACTIVE_UNIT) as nat)
}

/// Reference model: the step applied to plain counters.
pub open spec fn counter_step(c: (nat, nat), op: RecordOp) -> (nat, nat) {
    match op {
        RecordOp::IncActive => ((c.0 + 1) as nat, c.1),
        RecordOp::DecActive => ((c.0 - 1) as nat, c.1),
        RecordOp::IncSearching => (c.0, (c.1 + 1) as nat),
        RecordOp::DecSearching => (c.0, (c.1 - 1) as nat),
    }
}

/// When a step keeps both counters inside their packed fields: a count
/// being decremented is positive, and a count being incremented still
/// fits its field afterwards — 48 bits for the active count, 16 for the
/// searching count. The bound on the active count is forced by the
/// word's layout alone; any worker count the runtime can hold sits far
/// below it.
pub open spec fn counter_ok(c: (nat, nat), op: RecordOp) -> bool {
    match op {
        RecordOp::IncActive => c.0 < ACTIVE_LIMIT - 1,
        RecordOp::DecActive => c.0 >= 1,
        RecordOp::IncSearching => c.1 < SEARCHING_MASK,
        RecordOp::DecSearching => c.1 >= 1,
    }
}

/// The reference counters after a whole sequence of steps.
pub open spec fn counters_after(c: (nat, nat), ops: Seq<RecordOp>) -> (nat, nat)
    decreases ops.len(),
{
    if ops.len() == 0 {
        c
    } else {
        counters_after(counter_step(c, ops[0]), ops.drop_first())
    }
}

/// Whether every step of the sequence is admissible in turn.
pub open spec fn ops_ok(c: (nat, nat), ops: Seq<RecordOp>) -> bool
    decreases ops.len(),
{
    if ops.len() == 0 {
        true
    } else {
        counter_ok(c, ops[0]) && ops_ok(counter_step(c, ops[0]), ops.drop_first())
    }
}

/// The step applied to the packed word.
pub open spec fn word_step(word: u64, op: RecordOp) -> u64 {
    match op {
        RecordOp::IncActive => (word + ACTIVE_UNIT) as u64,
        RecordOp::DecActive => (word - ACTIVE_UNIT) as u64,
        RecordOp::IncSearching => (word + 1) as u64,
        RecordOp::DecSearching => (word - 1) as u64,
    }
}

/// The packed word after a whole sequence of steps.
pub open spec fn word_after(word: u64, ops: Seq<RecordOp>) -> u64
    decreases ops.len(),
{
    if ops.len() == 0 {
        word
    } else {
        word_after(word_step(word, ops[0]), ops.drop_first())
    }
}

/// One admissible step moves the packed word exactly as it moves the
/// reference counters.
proof fn lemma_record_step(word: u64, op: RecordOp)
    requires
        counter_ok(decode(word), op),
    ensures
        decode(word_step(word, op)) == counter_step(decode(word), op),
{
    match op {
        RecordOp::IncActive => {
            let w2 = (word + ACTIVE_UNIT) as u64;
            assert(w2 / 0x1_0000u64 == word / 0x1_0000u64 + 1 && w2 % 0x1_0000u64 == word
                % 0x1_0000u64) by (bit_vector)
                requires
                    word / 0x1_0000u64 < 0xFFFF_FFFF_FFFFu64,
                    w2 == (word + 0x1_0000) as u64,
            ;
        },
        RecordOp::DecActive => {
            let w2 = (word - ACTIVE_UNIT) as u64;
            assert(w2 / 0x1_0000u64 + 1 == word / 0x1_0000u64 && w2 % 0x1_0000u64 == word
                % 0x1_0000u64) by (bit_vector)
                requires
                    word / 0x1_0000u64 >= 1,
                    w2 + 0x1_0000 == word,
            ;
        },
        RecordOp::IncSearching => {
            let w2 = (word + 1) as u64;
            assert(w2 / 0x1_0000u64 == word / 0x1_0000u64 && w2 % 0x1_0000u64 == word % 0x1_0000u64
                + 1) by (bit_vector)
                requires
                    word % 0x1_0000u64 < 0xFFFFu64,
                    w2 == (word + 1) as u64,
            ;
        },
        RecordOp::DecSearching => {
            let w2 = (word - 1) as u64;
            assert(w2 / 0x1_0000u64 == word / 0x1_0000u64 && w2 % 0x1_0000u64 + 1 == word
                % 0x1_0000u64) by (bit_vector)
                requires
                    word % 0x1_0000u64 >= 1,
                    w2 + 1 == word,
            ;
        },
    }
}

/// Sleeper bitfield law: a packed word stepped through any admissible
/// sequence of increments and decrements decodes to the pair of reference
/// counters stepped through the same sequence. Admissible means no count
/// drops below zero and no count outgrows its field ([`counter_ok`]);
/// within those widths the decoding is the exact inverse of the packing
/// at every step.
pub proof fn lemma_record_matches_counters(word: u64, ops: Seq<RecordOp>)
    requires
        ops_ok(decode(word), ops),
    ensures
        decode(word_after(word, ops)) == counters_after(decode(word), ops),
    decreases ops.len(),
{
    if ops.len() != 0 {
        lemma_record_step(word, ops[0]);
        lemma_record_matches_counters(word_step(word, ops[0]), ops.drop_first());
    }
}

impl Record {
    /// The active count encoded in the word.
    pub open spec fn active(self) -> nat {
        decode(self.word).0
    }

    /// The searching count encoded in the word.
    pub open spec fn searching(self) -> nat {
        decode(self.word).1
    }

    /// A fresh record with the given active count and no searcher.
    pub fn new(active_num: u64) -> (r: Record)
        requires
            active_num < ACTIVE_LIMIT,
        ensures
            r.active() == active_num,
            r.searching() == 0,
    {
        proof {
            assert((active_num << 16u64) / 0x1_0000u64 == active_num && (active_num << 16u64)
                % 0x1_0000u64 == 0) by (bit_vector)
                requires
                    active_num < 0x1_0000_0000_0000u64,
            ;
        }
        Record { word: active_num << ACTIVE_WORKER_SHIFT }
    }

    /// Decrement the searching count; report whether the caller was the
    /// last searching worker.
    pub fn dec_searching_num(&mut self) -> (is_last: bool)
        requires
            old(self).searching() >= 1,
        ensures
            final(self).active() == old(self).active(),
            final(self).searching() == old(self).searching() - 1,
            is_last == (old(self).searching() == 1),
    {
        let ret = self.word;
        proof {
            assert(ret >= 1) by (bit_vector)
                requires
                    ret % 0x1_0000u64 >= 1,
            ;
        }
        self.word = self.word - 1;
        proof {
            let w2 = self.word;
            assert(w2 / 0x1_0000u64 == ret / 0x1_0000u64 && w2 % 0x1_0000u64 + 1 == ret
                % 0x1_0000u64 && ((ret & 0xFFFFu64 == 1) <==> (ret % 0x1_0000u64 == 1)))
                by (bit_vector)
                requires
                    ret % 0x1_0000u64 >= 1,
                    w2 + 1 == ret,
            ;
        }
        (ret & SEARCHING_MASK) == 1
    }

    /// Increment the searching count.
    pub fn inc_searching_num(&mut self)
        requires
            old(self).searching() < SEARCHING_MASK,
        ensures
            final(self).active() == old(self).active(),
            final(self).searching() == old(self).searching() + 1,
    {
        let ret = self.word;
        proof {
            assert(ret < 0xFFFF_FFFF_FFFF_FFFFu64) by (bit_vector)
                requires
                    ret % 0x1_0000u64 < 0xFFFFu64,
            ;
        }
        self.word = self.word + 1;
        proof {
            let w2 = self.word;
            assert(w2 / 0x1_0000u64 == ret / 0x1_0000u64 && w2 % 0x1_0000u64 == ret % 0x1_0000u64
                + 1) by (bit_vector)
                requires
                    ret % 0x1_0000u64 < 0xFFFFu64,
                    w2 == (ret + 1) as u64,
            ;
        }
    }

    /// Increment the active count.
    pub fn inc_active_num(&mut self)
        requires
            old(self).active() < ACTIVE_LIMIT - 1,
        ensures
            final(self).active() == old(self).active() + 1,
            final(self).searching() == old(self).searching(),
    {
        let ret = self.word;
        proof {
            assert(ret <= 0xFFFF_FFFF_FFFF_FFFFu64 - 0x1_0000u64) by (bit_vector)
                requires
                    ret / 0x1_0000u64 < 0xFFFF_FFFF_FFFFu64,
            ;
        }
        let inc = ACTIVE_UNIT;
        self.word = self.word + inc;
        proof {
            let w2 = self.word;
            assert(w2 / 0x1_0000u64 == ret / 0x1_0000u64 + 1 && w2 % 0x1_0000u64 == ret
                % 0x1_0000u64) by (bit_vector)
                requires
                    ret / 0x1_0000u64 < 0xFFFF_FFFF_FFFFu64,
                    w2 == (ret + 0x1_0000) as u64,
            ;
        }
    }

    /// Decrement the active count; report whether the count reached zero.
    pub fn dec_active_num(&mut self) -> (is_last: bool)
        requires
            old(self).active() >= 1,
        ensures
            final(self).active() == old(self).active() - 1,
            final(self).searching() == old(self).searching(),
            is_last == (old(self).active() == 1),
    {
        let ret = self.word;
        proof {
            assert(ret >= 0x1_0000u64 && (ret & 0xFFFF_FFFF_FFFF_0000u64) >> 16u64 == ret
                / 0x1_0000u64) by (bit_vector)
                requires
                    ret / 0x1_0000u64 >= 1,
            ;
        }
        let dec = ACTIVE_UNIT;
        self.word = self.word - dec;
        proof {
            let w2 = self.word;
            assert(w2 / 0x1_0000u64 + 1 == ret / 0x1_0000u64 && w2 % 0x1_0000u64 == ret
                % 0x1_0000u64) by (bit_vector)
                requires
                    ret / 0x1_0000u64 >= 1,
                    w2 + 0x1_0000 == ret,
            ;
        }
        let active_num = ((ret & ACTIVE_MASK) >> ACTIVE_WORKER_SHIFT) - 1;
        active_num == 0
    }

    /// Decode the word into `(active, searching)`.
    pub fn load_state(&self) -> (r: (u64, u64))
        ensures
            r.0 == self.active(),
            r.1 == self.searching(),
    {
        let union_num = self.word;
        let searching_num = union_num & SEARCHING_MASK;
        let active_num = (union_num & ACTIVE_MASK) >> ACTIVE_WORKER_SHIFT;
        proof {
            assert((union_num & 0xFFFFu64) == union_num % 0x1_0000u64 && (union_num
                & 0xFFFF_FFFF_FFFF_0000u64) >> 16u64 == union_num / 0x1_0000u64) by (bit_vector);
        }
        (active_num, searching_num)
    }
}

/// The coordinator: the packed counters plus the list of parked workers.
pub struct Sleeper {
    /// The packed pair of counters.
    pub record: Record,
    /// Indices of the parked workers, in parking order.
    pub idle_list: Vec<usize>,
    /// The total number of workers of the runtime.
    pub num_workers: usize,
}

impl Sleeper {
    /// The active-worker count.
    pub open spec fn active(self) -> nat {
        self.record.active()
    }

    /// The searching-worker count.
    pub open spec fn searching(self) -> nat {
        self.record.searching()
    }

    /// Well-formedness: the searching field has 16 bits, so the worker
    /// count must fit it; every worker is either active or parked; no more
    /// workers search than are active.
    pub open spec fn wf(self) -> bool {
        &&& self.num_workers <= SEARCHING_MASK
        &&& self.active() + self.idle_list@.len() == self.num_workers
        &&& self.searching() <= self.active()
    }

    /// A fresh coordinator: all workers active, none searching or parked.
    pub fn new(num_workers: usize) -> (r: Sleeper)
        requires
            num_workers <= SEARCHING_MASK,
        ensures
            r.wf(),
            r.active() == num_workers,
            r.searching() == 0,
            r.idle_list@.len() == 0,
            r.num_workers == num_workers,
    {
        Sleeper {
            record: Record::new(num_workers as u64),
            idle_list: Vec::with_capacity(num_workers),
            num_workers,
        }
    }

    /// Whether the given worker is currently parked.
    pub fn is_parked(&self, worker_index: &usize) -> (r: bool)
        ensures
            r == self.idle_list@.contains(*worker_index),
    {
        let mut i: usize = 0;
        while i < self.idle_list.len()
            invariant
                i <= self.idle_list@.len(),
                forall|j: int| 0 <= j < i ==> self.idle_list@[j] != *worker_index,
            decreases self.idle_list@.len() - i,
        {
            if self.idle_list[i] == *worker_index {
                assert(self.idle_list@.contains(*worker_index)) by {
                    assert(self.idle_list@[i as int] == *worker_index);
                }
                return true;
            }
            i = i + 1;
        }
        false
    }

    /// Unpark one worker, unless the runtime is already at capacity or some
    /// worker is still searching (an unpark would then be redundant).
    pub fn pop_worker(&mut self) -> (r: Option<usize>)
        requires
            old(self).wf(),
        ensures
            final(self).wf(),
            final(self).num_workers == old(self).num_workers,
            old(self).active() >= old(self).num_workers || old(self).searching() > 0 ==> {
                &&& r is None
                &&& final(self).record == old(self).record
                &&& final(self).idle_list@ == old(self).idle_list@
            },
            old(self).active() < old(self).num_workers && old(self).searching() == 0 ==> {
                &&& r == Some(old(self).idle_list@.last())
                &&& final(self).idle_list@ == old(self).idle_list@.drop_last()
                &&& final(self).active() == old(self).active() + 1
                &&& final(self).searching() == old(self).searching()
            },
    {
        let (active_num, searching_num) = self.record.load_state();
        if active_num >= self.num_workers as u64 || searching_num > 0 {
            return None;
        }
        let res = self.idle_list.pop();
        if res.is_some() {
            self.record.inc_active_num();
        }
        res
    }

    /// Park the calling worker; report whether it was the last active one
    /// (the last parker takes responsibility for driving the reactor). The
    /// caller must be active and must have left the searching state first.
    pub fn push_worker(&mut self, worker_index: usize) -> (is_last: bool)
        requires
            old(self).wf(),
            old(self).active() >= 1,
            old(self).searching() < old(self).active(),
        ensures
            final(self).wf(),
            final(self).num_workers == old(self).num_workers,
            final(self).idle_list@ == old(self).idle_list@.push(worker_index),
            final(self).active() == old(self).active() - 1,
            final(self).searching() == old(self).searching(),
            is_last == (old(self).active() == 1),
    {
        self.idle_list.push(worker_index);
        self.record.dec_active_num()
    }

    /// Enter the searching state if fewer than half the active workers are
    /// already searching; report whether the caller may search.
    pub fn try_inc_searching_num(&mut self) -> (r: bool)
        requires
            old(self).wf(),
        ensures
            final(self).wf(),
            final(self).num_workers == old(self).num_workers,
            final(self).idle_list@ == old(self).idle_list@,
            final(self).active() == old(self).active(),
            r == (old(self).searching() * 2 < old(self).active()),
            r ==> final(self).searching() == old(self).searching() + 1,
            !r ==> final(self).searching() == old(self).searching(),
    {
        let (active_num, searching_num) = self.record.load_state();
        if searching_num * 2 < active_num {
            self.record.inc_searching_num();
            return true;
        }
        false
    }

    /// Leave the searching state; report whether the caller was the last
    /// searching worker (the last searcher that found work must ping
    /// another worker so search capacity is preserved).
    pub fn dec_searching_num(&mut self) -> (is_last: bool)
        requires
            old(self).wf(),
            old(self).searching() >= 1,
        ensures
            final(self).wf(),
            final(self).num_workers == old(self).num_workers,
            final(self).idle_list@ == old(self).idle_list@,
            final(self).active() == old(self).active(),
            final(self).searching() == old(self).searching() - 1,
            is_last == (old(self).searching() == 1),
    {
        self.record.dec_searching_num()
    }

    /// The decoded pair `(active, searching)`.
    pub fn load_state(&self) -> (r: (usize, usize))
        requires
            self.wf(),
        ensures
            r.0 == self.active(),
            r.1 == self.searching(),
    {
        let (active_num, searching_num) = self.record.load_state();
        (active_num as usize, searching_num as usize)
    }
}

} // verus!
