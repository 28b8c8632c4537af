//! In-memory model of the synchronous file a blocking job works on.
//!
//! The blocking pool hands each job a shared handle to an operating-system
//! file; the job seeks, reads, writes or truncates it. [`MemFile`] gives
//! those four operations on a byte vector with the same observable
//! behaviour (a cursor that may sit past the end, zero-filling of gaps,
//! short reads at end of file), so the file state machine can be exercised
//! and its round-trip law proved without touching the file system.

use vstd::prelude::*;

use crate::error::ErrorKind;
use crate::file_buf::{spec_min, FileBuf};

verus! {

/// Where a seek starts from.
#[derive(Clone, Copy, Debug, PartialEq, Eq, Structural)]
pub enum SeekFrom {
    /// An absolute offset from the start of the file.
    Start(u64),
    /// A relative offset from the end of the file.
    End(i64),
    /// A relative offset from the current cursor.
    Current(i64),
}

/// Round-trip law: after writing `data` at the cursor, seeking back to
/// where the write began and reading `data.len()` bytes into an empty
/// buffer fetches exactly `data` — the bytes read equal the bytes written.
pub proof fn lemma_write_seek_read_round_trip(
    m0: MemFile,
    m1: MemFile,
    m2: MemFile,
    m3: MemFile,
    data: Seq<u8>,
    b0: FileBuf,
    b1: FileBuf,
    sr: Result<u64, ErrorKind>,
)
    requires
        write_post(m0, m1, data),
        seek_post(m1, m2, SeekFrom::Start(m0.cursor), sr),
        read_post(m2, m3, b0, b1, data.len()),
        b0.data@.len() == 0,
    ensures
        b1.data@ == data,
        sr == Ok::<u64, ErrorKind>(m0.cursor),
{
    assert(m2.cursor == m0.cursor);
    assert(m2.data@.len() >= m0.cursor + data.len());
    assert(b1.data@ =~= data);
}

/// A byte-vector file with a cursor.
pub struct MemFile {
    /// The file contents.
    pub data: Vec<u8>,
    /// The cursor; it may sit past the end of `data`.
    pub cursor: u64,
}

/// What [`MemFile::seek`] guarantees: `post` is `pre` after a seek to
/// `pos` that returned `r`.
pub open spec fn seek_post(pre: MemFile, post: MemFile, pos: SeekFrom, r: Result<
    u64,
    ErrorKind,
>) -> bool {
    &&& post.data@ == pre.data@
    &&& ({
        let t = pre.seek_target(pos);
        if 0 <= t <= u64::MAX {
            r == Ok::<u64, ErrorKind>(t as u64) && post.cursor == t
        } else {
            r == Err::<u64, ErrorKind>(ErrorKind::InvalidInput) && post.cursor == pre.cursor
        }
    })
}

/// What [`MemFile::read`] guarantees: `post` is `pre` after a read of up
/// to `max` bytes that turned `bufpre` into `bufpost`.
pub open spec fn read_post(pre: MemFile, post: MemFile, bufpre: FileBuf, bufpost: FileBuf, max: nat) -> bool {
    &&& post.data@ == pre.data@
    &&& post.cursor == pre.cursor + spec_min(max, pre.available())
    &&& bufpost.pos == bufpre.pos
    &&& bufpost.data@ == bufpre.data@ + pre.read_chunk(max)
}

/// What [`MemFile::write`] guarantees: `post` is `pre` after writing all
/// of `src` at the cursor.
pub open spec fn write_post(pre: MemFile, post: MemFile, src: Seq<u8>) -> bool {
    &&& post.cursor == pre.cursor + src.len()
    &&& post.data@.len() == ({
        let end = pre.cursor + src.len();
        if end >= pre.data@.len() {
            end
        } else {
            pre.data@.len() as int
        }
    })
    &&& forall|j: int|
        0 <= j < pre.cursor && j < pre.data@.len() ==> post.data@[j] == pre.data@[j]
    &&& forall|j: int| pre.data@.len() <= j < pre.cursor ==> post.data@[j] == 0u8
    &&& forall|j: int| 0 <= j < src.len() ==> post.data@[pre.cursor + j] == src[j]
    &&& forall|j: int|
        pre.cursor + src.len() <= j < pre.data@.len() ==> post.data@[j] == pre.data@[j]
}

/// What [`MemFile::set_len`] guarantees: `post` is `pre` truncated or
/// zero-extended to `size` bytes.
pub open spec fn set_len_post(pre: MemFile, post: MemFile, size: u64) -> bool {
    &&& post.cursor == pre.cursor
    &&& post.data@.len() == size
    &&& forall|j: int| 0 <= j < size && j < pre.data@.len() ==> post.data@[j] == pre.data@[j]
    &&& forall|j: int| pre.data@.len() <= j < size ==> post.data@[j] == 0u8
}

/// `base + delta` clamped into `u64`, or nothing when it leaves the range.
fn offset_from(base: u64, delta: i64) -> (r: Option<u64>)
    ensures
        0 <= base + delta <= u64::MAX ==> r == Some((base + delta) as u64),
        !(0 <= base + delta <= u64::MAX) ==> r is None,
{
    if delta >= 0 {
        let d = delta as u64;
        if base <= u64::MAX - d {
            Some(base + d)
        } else {
            None
        }
    } else {
        let m: u64 = if delta == i64::MIN {
            0x8000_0000_0000_0000
        } else {
            (-delta) as u64
        };
        if base >= m {
            Some(base - m)
        } else {
            None
        }
    }
}

impl MemFile {
    /// The byte offset a seek aims at, as an unbounded integer.
    pub open spec fn seek_target(self, pos: SeekFrom) -> int {
        match pos {
            SeekFrom::Start(p) => p as int,
            SeekFrom::End(d) => self.data@.len() + d,
            SeekFrom::Current(d) => self.cursor + d,
        }
    }

    /// How many bytes a read may still fetch at the current cursor.
    pub open spec fn available(self) -> nat {
        if self.cursor < self.data@.len() {
            (self.data@.len() - self.cursor) as nat
        } else {
            0
        }
    }

    /// The bytes a read capped at `max` fetches at the current cursor.
    pub open spec fn read_chunk(self, max: nat) -> Seq<u8> {
        if self.cursor <= self.data@.len() {
            self.data@.subrange(
                self.cursor as int,
                self.cursor + spec_min(max, self.available()),
            )
        } else {
            Seq::empty()
        }
    }

    /// An empty file with the cursor at the start.
    pub fn new() -> (r: MemFile)
        ensures
            r.data@.len() == 0,
            r.cursor == 0,
    {
        MemFile { data: Vec::new(), cursor: 0 }
    }

    /// The current length in bytes.
    pub fn len(&self) -> (r: u64)
        ensures
            r == self.data@.len(),
    {
        self.data.len() as u64
    }

    /// Move the cursor. Succeeds exactly when the target offset is
    /// representable and not negative; on failure the cursor is unmoved.
    pub fn seek(&mut self, pos: SeekFrom) -> (r: Result<u64, ErrorKind>)
        ensures
            seek_post(*old(self), *final(self), pos, r),
    {
        let target = match pos {
            SeekFrom::Start(p) => Some(p),
            SeekFrom::End(d) => offset_from(self.data.len() as u64, d),
            SeekFrom::Current(d) => offset_from(self.cursor, d),
        };
        match target {
            Some(t) => {
                self.cursor = t;
                Ok(t)
            },
            None => Err(ErrorKind::InvalidInput),
        }
    }

    /// Read up to `max` bytes at the cursor, appending them to `buf`. A
    /// cursor at or past the end reads nothing; otherwise the read is only
    /// short when the file ends.
    pub fn read(&mut self, buf: &mut FileBuf, max: usize) -> (r: Result<(), ErrorKind>)
        requires
            old(buf).wf(),
        ensures
            final(buf).wf(),
            r == Ok::<(), ErrorKind>(()),
            read_post(*old(self), *final(self), *old(buf), *final(buf), max as nat),
    {
        let len = self.data.len();
        let avail: usize = if self.cursor >= len as u64 {
            0
        } else {
            (len as u64 - self.cursor) as usize
        };
        let k = if max <= avail {
            max
        } else {
            avail
        };
        if k > 0 {
            let start = self.cursor as usize;
            let mut i: usize = 0;
            while i < k
                invariant
                    i <= k,
                    k <= avail,
                    0 < avail,
                    start == old(self).cursor,
                    start + avail == self.data@.len(),
                    self.data@ == old(self).data@,
                    self.cursor == old(self).cursor,
                    self.data@.len() <= usize::MAX,
                    buf.pos == old(buf).pos,
                    buf.data@ == old(buf).data@ + self.data@.subrange(start as int, start + i),
                decreases k - i,
            {
                let b = self.data[start + i];
                buf.data.push(b);
                proof {
                    assert(buf.data@ =~= old(buf).data@ + self.data@.subrange(
                        start as int,
                        start + i + 1,
                    ));
                }
                i = i + 1;
            }
            proof {
                assert(buf.data@ =~= old(buf).data@ + old(self).read_chunk(max as nat));
            }
        } else {
            proof {
                assert(old(self).read_chunk(max as nat) =~= Seq::<u8>::empty());
                assert(buf.data@ =~= old(buf).data@ + old(self).read_chunk(max as nat));
            }
        }
        self.cursor = self.cursor + k as u64;
        Ok(())
    }

    /// Write all of `src` at the cursor, zero-filling any gap between the
    /// end of the file and a cursor past it, and advance the cursor.
    pub fn write(&mut self, src: &Vec<u8>) -> (r: Result<(), ErrorKind>)
        requires
            old(self).cursor + src@.len() <= usize::MAX,
        ensures
            r == Ok::<(), ErrorKind>(()),
            write_post(*old(self), *final(self), src@),
    {
        let c = self.cursor as usize;
        while self.data.len() < c
            invariant
                self.cursor == old(self).cursor,
                c == old(self).cursor,
                c <= usize::MAX,
                old(self).data@.len() <= self.data@.len(),
                self.data@.len() <= c || self.data@.len() == old(self).data@.len(),
                forall|j: int|
                    0 <= j < old(self).data@.len() ==> self.data@[j] == old(self).data@[j],
                forall|j: int|
                    old(self).data@.len() <= j < self.data@.len() ==> self.data@[j] == 0u8,
            decreases c - self.data@.len(),
        {
            self.data.push(0);
        }
        let base_len: Ghost<int> = Ghost(self.data@.len() as int);
        let mut i: usize = 0;
        while i < src.len()
            invariant
                i <= src@.len(),
                c + src@.len() <= usize::MAX,
                self.cursor == old(self).cursor,
                c == old(self).cursor,
                base_len@ == if c >= old(self).data@.len() {
                    c as int
                } else {
                    old(self).data@.len() as int
                },
                self.data@.len() == if c + i >= base_len@ {
                    c + i
                } else {
                    base_len@
                },
                c <= self.data@.len(),
                forall|j: int|
                    0 <= j < old(self).cursor && j < old(self).data@.len() ==> self.data@[j] == old(
                        self,
                    ).data@[j],
                forall|j: int|
                    old(self).data@.len() <= j < old(self).cursor ==> self.data@[j] == 0u8,
                forall|j: int| 0 <= j < i ==> self.data@[c + j] == src@[j],
                forall|j: int|
                    c + src@.len() <= j < old(self).data@.len() ==> self.data@[j] == old(
                        self,
                    ).data@[j],
            decreases src@.len() - i,
        {
            if c + i < self.data.len() {
                self.data.set(c + i, src[i]);
            } else {
                self.data.push(src[i]);
            }
            i = i + 1;
        }
        self.cursor = (c + src.len()) as u64;
        Ok(())
    }

    /// Truncate or zero-extend the file to `size` bytes. The cursor does
    /// not move, so it may end up past the new end.
    pub fn set_len(&mut self, size: u64) -> (r: Result<(), ErrorKind>)
        requires
            size <= usize::MAX,
        ensures
            r == Ok::<(), ErrorKind>(()),
            set_len_post(*old(self), *final(self), size),
    {
        let target = size as usize;
        while self.data.len() > target
            invariant
                self.cursor == old(self).cursor,
                target <= self.data@.len() || self.data@.len() == old(self).data@.len(),
                forall|j: int|
                    0 <= j < self.data@.len() && j < old(self).data@.len() ==> self.data@[j]
                        == old(self).data@[j],
                self.data@.len() <= old(self).data@.len(),
            decreases self.data@.len(),
        {
            self.data.pop();
            proof {
                assert(forall|j: int|
                    0 <= j < self.data@.len() ==> self.data@[j] == old(self).data@[j]);
            }
        }
        while self.data.len() < target
            invariant
                self.cursor == old(self).cursor,
                target <= usize::MAX,
                if target <= old(self).data@.len() {
                    self.data@.len() == target
                } else {
                    old(self).data@.len() <= self.data@.len() <= target
                },
                forall|j: int|
                    0 <= j < self.data@.len() && j < old(self).data@.len() ==> self.data@[j]
                        == old(self).data@[j],
                forall|j: int|
                    old(self).data@.len() <= j < self.data@.len() ==> self.data@[j] == 0u8,
            decreases target - self.data@.len(),
        {
            self.data.push(0);
        }
        Ok(())
    }
}

} // verus!
