//! Timer driver: a deadline-ordered wheel of waker entries.
//!
//! Each registration gets a fresh, strictly increasing identifier, and
//! the wheel keeps its entries sorted by `(deadline, id)`. Advancing the
//! wheel fires every entry whose deadline has passed — entries with equal
//! deadlines in registration order — and reports how long the driver may
//! sleep until the next deadline.

use vstd::prelude::*;

verus! {

/// One pending timer: its registration id, deadline and waker.
#[derive(Clone, Copy, Debug, PartialEq, Eq, Structural)]
pub struct TimerEntry {
    /// The identifier the registration returned; later registrations get
    /// larger ones.
    pub id: u64,
    /// The absolute instant, in driver ticks, the timer is due at.
    pub deadline: u64,
    /// The waker to fire when the timer expires.
    pub waker: u64,
}

/// The wheel order: earlier deadline first, registration order within a
/// deadline.
pub open spec fn entry_lt(a: TimerEntry, b: TimerEntry) -> bool {
    a.deadline < b.deadline || (a.deadline == b.deadline && a.id < b.id)
}

/// How many leading entries of a sorted wheel are due at `now`.
pub open spec fn due_count(s: Seq<TimerEntry>, now: u64) -> int
    decreases s.len(),
{
    if s.len() == 0 {
        0
    } else if s[0].deadline <= now {
        1 + due_count(s.drop_first(), now)
    } else {
        0
    }
}

/// On a sequence whose first `k` entries are due and whose entry `k` (if
/// any) is not, the due prefix has length exactly `k`.
proof fn lemma_due_count_is_prefix(s: Seq<TimerEntry>, now: u64, k: int)
    requires
        0 <= k <= s.len(),
        forall|j: int| 0 <= j < k ==> s[j].deadline <= now,
        k == s.len() || s[k].deadline > now,
    ensures
        due_count(s, now) == k,
    decreases s.len(),
{
    if s.len() == 0 {
    } else if k == 0 {
    } else {
        lemma_due_count_is_prefix(s.drop_first(), now, k - 1);
    }
}

/// The timer driver.
pub struct TimeDriver {
    /// The pending entries, sorted by `(deadline, id)`.
    pub pending: Vec<TimerEntry>,
    /// The identifier the next registration will get.
    pub next_id: u64,
}

impl TimeDriver {
    /// Sorted by `(deadline, id)`, and every id below the next one.
    pub open spec fn wf(self) -> bool {
        &&& forall|i: int, j: int|
            0 <= i < j < self.pending@.len() ==> entry_lt(
                #[trigger] self.pending@[i],
                #[trigger] self.pending@[j],
            )
        &&& forall|i: int|
            0 <= i < self.pending@.len() ==> (#[trigger] self.pending@[i]).id < self.next_id
    }

    /// An empty wheel.
    pub fn initialize() -> (r: TimeDriver)
        ensures
            r.wf(),
            r.pending@.len() == 0,
            r.next_id == 0,
    {
        TimeDriver { pending: Vec::new(), next_id: 0 }
    }

    /// Register a timer; the entry takes the next identifier and is
    /// placed after every entry due not later than it, so equal deadlines
    /// keep registration order.
    pub fn timer_register(&mut self, deadline: u64, waker: u64) -> (id: u64)
        requires
            old(self).wf(),
            old(self).next_id < u64::MAX,
        ensures
            final(self).wf(),
            id == old(self).next_id,
            final(self).next_id == old(self).next_id + 1,
            exists|p: int|
                {
                    &&& 0 <= p <= old(self).pending@.len()
                    &&& final(self).pending@ == old(self).pending@.insert(
                        p,
                        TimerEntry { id, deadline, waker },
                    )
                    &&& forall|j: int| 0 <= j < p ==> old(self).pending@[j].deadline <= deadline
                    &&& forall|j: int|
                        p <= j < old(self).pending@.len() ==> old(self).pending@[j].deadline
                            > deadline
                },
    {
        let e = TimerEntry { id: self.next_id, deadline, waker };
        self.next_id = self.next_id + 1;
        let mut p: usize = 0;
        while p < self.pending.len() && self.pending[p].deadline <= deadline
            invariant
                p <= self.pending@.len(),
                forall|j: int| 0 <= j < p ==> self.pending@[j].deadline <= deadline,
                self.pending@ == old(self).pending@,
                self.next_id == old(self).next_id + 1,
            decreases self.pending@.len() - p,
        {
            p = p + 1;
        }
        self.pending.insert(p, e);
        proof {
            let s0 = old(self).pending@;
            let s1 = self.pending@;
            assert(forall|a: int|
                0 <= a < s1.len() ==> #[trigger] s1[a] == (if a < p {
                    s0[a]
                } else if a == p {
                    e
                } else {
                    s0[a - 1]
                }));
            assert(forall|a: int, b: int|
                0 <= a < b < s1.len() ==> entry_lt(#[trigger] s1[a], #[trigger] s1[b]));
        }
        e.id
    }

    /// Cancel the timer with the given identifier; reports whether it was
    /// still pending.
    pub fn timer_cancel(&mut self, id: u64) -> (found: bool)
        requires
            old(self).wf(),
        ensures
            final(self).wf(),
            final(self).next_id == old(self).next_id,
            !found ==> final(self).pending@ == old(self).pending@ && (forall|j: int|
                0 <= j < old(self).pending@.len() ==> old(self).pending@[j].id != id),
            found ==> exists|i: int|
                {
                    &&& 0 <= i < old(self).pending@.len()
                    &&& old(self).pending@[i].id == id
                    &&& final(self).pending@ == old(self).pending@.remove(i)
                },
    {
        let mut i: usize = 0;
        while i < self.pending.len()
            invariant
                i <= self.pending@.len(),
                old(self).wf(),
                forall|j: int| 0 <= j < i ==> self.pending@[j].id != id,
                self.pending@ == old(self).pending@,
                self.next_id == old(self).next_id,
            decreases self.pending@.len() - i,
        {
            if self.pending[i].id == id {
                self.pending.remove(i);
                proof {
                    let s0 = old(self).pending@;
                    let s1 = self.pending@;
                    assert forall|a: int| 0 <= a < s1.len() implies #[trigger] s1[a] == (if a < i {
                        s0[a]
                    } else {
                        s0[a + 1]
                    }) by {
                        if a < i {
                            assert(s1[a] == s0.subrange(0, i as int)[a]);
                        } else {
                            assert(s1[a] == s0.subrange(i + 1, s0.len() as int)[a - i]);
                        }
                    }
                    assert(forall|a: int, b: int|
                        0 <= a < b < s1.len() ==> entry_lt(#[trigger] s1[a], #[trigger] s1[b]));
                }
                return true;
            }
            i = i + 1;
        }
        false
    }

    /// Advance the wheel to `now`: fire every entry due at or before it,
    /// in wheel order, and report the time left until the next pending
    /// deadline, or nothing if the wheel is empty.
    pub fn run(&mut self, now: u64) -> (r: (Vec<u64>, Option<u64>))
        requires
            old(self).wf(),
        ensures
            final(self).wf(),
            final(self).next_id == old(self).next_id,
            ({
                let k = due_count(old(self).pending@, now);
                &&& r.0@ == old(self).pending@.take(k).map_values(|e: TimerEntry| e.waker)
                &&& final(self).pending@ == old(self).pending@.skip(k)
                &&& r.1 == (if k == old(self).pending@.len() {
                    None::<u64>
                } else {
                    Some((old(self).pending@[k].deadline - now) as u64)
                })
            }),
    {
        let mut fired: Vec<u64> = Vec::new();
        while self.pending.len() > 0 && self.pending[0].deadline <= now
            invariant
                fired@.len() <= old(self).pending@.len(),
                self.pending@ == old(self).pending@.skip(fired@.len() as int),
                fired@ == old(self).pending@.take(fired@.len() as int).map_values(
                    |e: TimerEntry| e.waker,
                ),
                forall|j: int|
                    0 <= j < fired@.len() ==> old(self).pending@[j].deadline <= now,
                self.next_id == old(self).next_id,
                old(self).wf(),
            decreases self.pending@.len(),
        {
            let ghost k = fired@.len() as int;
            let e = self.pending.remove(0);
            fired.push(e.waker);
            proof {
                assert(self.pending@ =~= old(self).pending@.skip(k + 1));
                assert(e == old(self).pending@[k]);
                assert(fired@ =~= old(self).pending@.take(k + 1).map_values(
                    |e: TimerEntry| e.waker,
                ));
            }
        }
        proof {
            lemma_due_count_is_prefix(old(self).pending@, now, fired@.len() as int);
        }
        let next = if self.pending.len() == 0 {
            None
        } else {
            Some(self.pending[0].deadline - now)
        };
        (fired, next)
    }
}

/// Tie-breaking law: among pending entries with equal deadline, the
/// earlier-registered one stands earlier in the wheel, so advancing the
/// wheel fires it first.
pub proof fn lemma_equal_deadline_registration_order(d: TimeDriver, i: int, j: int)
    requires
        d.wf(),
        0 <= i < d.pending@.len(),
        0 <= j < d.pending@.len(),
        d.pending@[i].deadline == d.pending@[j].deadline,
        d.pending@[i].id < d.pending@[j].id,
    ensures
        i < j,
{
    if j < i {
        assert(entry_lt(d.pending@[j], d.pending@[i]));
    }
}

} // verus!
