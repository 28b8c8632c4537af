//! Buffers of the asynchronous file envelope.
//!
//! A [`FileBuf`] travels between the envelope and its blocking jobs: a read
//! job fills it from the file, a write job drains it into the file, and any
//! bytes a read job fetched beyond what the caller consumed stay behind as
//! read-ahead for the next read. A [`ReadBuf`] is the caller-facing output
//! buffer of a read: fixed capacity, filled from the front.

use vstd::prelude::*;

verus! {

/// The smaller of two naturals.
pub open spec fn spec_min(a: nat, b: nat) -> nat {
    if a <= b {
        a
    } else {
        b
    }
}

/// The transfer buffer shared with blocking jobs.
pub struct FileBuf {
    /// The stored bytes; `data[pos..]` are not yet consumed.
    pub data: Vec<u8>,
    /// How many stored bytes the caller has already consumed.
    pub pos: usize,
}

impl FileBuf {
    /// The consumed prefix never runs past the stored bytes.
    pub open spec fn wf(self) -> bool {
        self.pos <= self.data@.len()
    }

    /// The unconsumed bytes (read-ahead).
    pub open spec fn unread(self) -> Seq<u8> {
        self.data@.subrange(self.pos as int, self.data@.len() as int)
    }

    /// An empty buffer. The capacity hint only sizes the allocation.
    pub fn with_capacity(capacity: usize) -> (r: FileBuf)
        ensures
            r.wf(),
            r.data@.len() == 0,
            r.pos == 0,
    {
        FileBuf { data: Vec::with_capacity(capacity), pos: 0 }
    }

    /// How many read-ahead bytes are left.
    pub fn remaining(&self) -> (r: usize)
        requires
            self.wf(),
        ensures
            r == self.unread().len(),
    {
        self.data.len() - self.pos
    }

    /// Discard all read-ahead and report how many bytes were dropped; the
    /// buffer comes out empty. The count is what a caller must seek the
    /// file backwards by to line the physical cursor up with the logical
    /// one.
    pub fn drop_unread(&mut self) -> (n: usize)
        requires
            old(self).wf(),
        ensures
            final(self).wf(),
            final(self).data@.len() == 0,
            final(self).pos == 0,
            n == old(self).unread().len(),
    {
        let n = self.data.len() - self.pos;
        self.data = Vec::new();
        self.pos = 0;
        n
    }

    /// Move as much read-ahead as fits into `out`, advancing both the
    /// consumed prefix here and the fill level there.
    pub fn append_to(&mut self, out: &mut ReadBuf)
        requires
            old(self).wf(),
            old(out).wf(),
        ensures
            final(self).wf(),
            final(out).wf(),
            final(self).data@ == old(self).data@,
            final(self).pos == old(self).pos + spec_min(
                old(self).unread().len(),
                old(out).space(),
            ),
            final(out).data@.len() == old(out).data@.len(),
            final(out).filled == old(out).filled + spec_min(
                old(self).unread().len(),
                old(out).space(),
            ),
            final(out).data@ == ({
                let k = spec_min(old(self).unread().len(), old(out).space()) as int;
                old(out).data@.take(old(out).filled as int) + old(self).unread().take(k) + old(
                    out,
                ).data@.skip(old(out).filled + k)
            }),
    {
        let mut k = self.data.len() - self.pos;
        let space = out.data.len() - out.filled;
        if space < k {
            k = space;
        }
        let mut i: usize = 0;
        while i < k
            invariant
                i <= k,
                self.wf(),
                k == spec_min(old(self).unread().len(), old(out).space()),
                self.data@ == old(self).data@,
                self.pos == old(self).pos,
                self.pos + k <= self.data@.len(),
                self.data@.len() <= usize::MAX,
                out.filled == old(out).filled,
                out.filled + k <= out.data@.len(),
                out.data@.len() <= usize::MAX,
                out.data@.len() == old(out).data@.len(),
                forall|j: int| 0 <= j < old(out).filled ==> out.data@[j] == old(out).data@[j],
                forall|j: int|
                    0 <= j < i ==> out.data@[old(out).filled + j] == old(self).unread()[j],
                forall|j: int|
                    old(out).filled + k <= j < out.data@.len() ==> out.data@[j] == old(
                        out,
                    ).data@[j],
            decreases k - i,
        {
            let b = self.data[self.pos + i];
            assert(b == old(self).unread()[i as int]);
            out.data.set(out.filled + i, b);
            i = i + 1;
        }
        self.pos = self.pos + k;
        out.filled = out.filled + k;
        proof {
            let kk = spec_min(old(self).unread().len(), old(out).space()) as int;
            assert(out.data@ =~= old(out).data@.take(old(out).filled as int) + old(
                self,
            ).unread().take(kk) + old(out).data@.skip(old(out).filled + kk));
        }
    }

    /// Fill the (empty) buffer with the first bytes of `src`, capped at
    /// `limit`; report how many bytes were taken.
    pub fn append(&mut self, src: &Vec<u8>, limit: usize) -> (n: usize)
        requires
            old(self).wf(),
            old(self).data@.len() == 0,
            old(self).pos == 0,
        ensures
            final(self).wf(),
            final(self).pos == 0,
            n == spec_min(src@.len(), limit as nat),
            final(self).data@ == src@.take(n as int),
    {
        let mut n = src.len();
        if limit < n {
            n = limit;
        }
        let mut i: usize = 0;
        while i < n
            invariant
                i <= n,
                n == spec_min(src@.len(), limit as nat),
                self.pos == 0,
                self.data@ == src@.take(i as int),
            decreases n - i,
        {
            self.data.push(src[i]);
            proof {
                assert(self.data@ =~= src@.take(i + 1));
            }
            i = i + 1;
        }
        n
    }
}

/// The caller-facing output buffer of a read.
pub struct ReadBuf {
    /// The backing storage; its length is the capacity.
    pub data: Vec<u8>,
    /// How many bytes from the front hold read results.
    pub filled: usize,
}

impl ReadBuf {
    /// The fill level never runs past the capacity.
    pub open spec fn wf(self) -> bool {
        self.filled <= self.data@.len()
    }

    /// The bytes read so far.
    pub open spec fn filled_bytes(self) -> Seq<u8> {
        self.data@.take(self.filled as int)
    }

    /// How much room is left.
    pub open spec fn space(self) -> nat {
        (self.data@.len() - self.filled) as nat
    }

    /// A zeroed buffer of the given capacity.
    pub fn new(capacity: usize) -> (r: ReadBuf)
        ensures
            r.wf(),
            r.filled == 0,
            r.data@.len() == capacity,
            forall|j: int| 0 <= j < capacity ==> r.data@[j] == 0u8,
    {
        let mut data: Vec<u8> = Vec::with_capacity(capacity);
        let mut i: usize = 0;
        while i < capacity
            invariant
                i <= capacity,
                data@.len() == i,
                forall|j: int| 0 <= j < i ==> data@[j] == 0u8,
            decreases capacity - i,
        {
            data.push(0);
            i = i + 1;
        }
        ReadBuf { data, filled: 0 }
    }

    /// How much room is left.
    pub fn remaining(&self) -> (r: usize)
        requires
            self.wf(),
        ensures
            r == self.space(),
    {
        self.data.len() - self.filled
    }
}

} // verus!
