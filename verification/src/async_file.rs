//! Ownership state machine of the asynchronous file envelope.
//!
//! Every read, write, seek or truncation of an asynchronous file runs as a
//! blocking job on a separate pool while the envelope keeps a state with
//! four variants: `Idle` (holding the transfer buffer) or one in-flight
//! job of kind `Reading`, `Writing` or `Seeking`. The poll functions here
//! are the decision half of that machine: each call inspects the state and
//! either answers from the buffer, asks the caller to spawn a described
//! job, absorbs a finished job, or reports that the job is still pending.
//! The embedder loops: it runs the returned job description against the
//! real file (or [`crate::mem_file::MemFile`]) and feeds the outcome back
//! as the next call's event.
//!
//! Write errors are sticky: a failed write job stores its error kind, the
//! next write or flush surfaces it exactly once and clears it.

use vstd::prelude::*;

use crate::error::ErrorKind;
use crate::file_buf::{spec_min, FileBuf, ReadBuf};
use crate::mem_file::{read_post, seek_post, write_post, MemFile, SeekFrom};

verus! {

/// Default cap on how many bytes one buffer may hold per operation.
pub const DEFAULT_BUF_LIMIT: usize = 2 * 1024 * 1024;

/// The kind of the in-flight blocking job.
#[derive(Clone, Copy, Debug, PartialEq, Eq, Structural)]
pub enum FileOp {
    /// A blocking read is outstanding.
    Reading,
    /// A blocking write is outstanding.
    Writing,
    /// A blocking seek or truncation is outstanding.
    Seeking,
}

/// The per-file state: idle with the transfer buffer, or one job out.
pub enum FileState {
    /// No job is outstanding; the envelope holds the transfer buffer.
    Idle(Option<FileBuf>),
    /// A blocking read owns the buffer.
    Reading,
    /// A blocking write owns the buffer.
    Writing,
    /// A blocking seek or truncation owns the buffer.
    Seeking,
}

/// Description of a read job: fill `buf` with up to `max` bytes from the
/// file at its current cursor.
pub struct ReadJob {
    /// The (empty) transfer buffer the job fills.
    pub buf: FileBuf,
    /// The cap on how many bytes to read.
    pub max: usize,
}

/// Description of a write job: first seek the file back over `unread`
/// dropped read-ahead bytes, then write out the buffer's content.
pub struct WriteJob {
    /// The buffer holding the bytes to write, from position zero.
    pub buf: FileBuf,
    /// How many read-ahead bytes were dropped and must be seeked back over.
    pub unread: usize,
}

/// Description of a seek job.
pub struct SeekJob {
    /// The (empty) transfer buffer the job carries.
    pub buf: FileBuf,
    /// The position to seek to, already adjusted for dropped read-ahead.
    pub target: SeekFrom,
}

/// Description of a truncation job: seek back over `unread` dropped
/// read-ahead bytes if any, then set the file length to `size`.
pub struct SetLenJob {
    /// The (empty) transfer buffer the job carries.
    pub buf: FileBuf,
    /// How many read-ahead bytes were dropped.
    pub unread: usize,
    /// The length to truncate or extend the file to.
    pub size: u64,
}

/// A finished blocking job, handed back to the poll that finds it.
pub enum JobOutcome {
    /// A read or write job finished, returning the buffer and its result.
    Rw(FileBuf, Result<(), ErrorKind>),
    /// A seek or truncation job finished, returning the buffer and the
    /// resulting offset.
    Seek(FileBuf, Result<u64, ErrorKind>),
}

/// What one step of polling a read produced.
pub enum ReadPoll {
    /// The read is complete with this result.
    Done(Result<(), ErrorKind>),
    /// The caller must run this read job and feed its outcome back.
    Spawn(ReadJob),
    /// A foreign job was absorbed; poll again.
    Progress,
    /// The outstanding job has not finished; poll again with its outcome.
    Pending,
}

/// What one step of polling a write produced.
pub enum WritePoll {
    /// The write is complete with this result.
    Done(Result<usize, ErrorKind>),
    /// The caller got the second field's byte count accepted and must run
    /// this write job, feeding its outcome to a later poll.
    Spawn(WriteJob, usize),
    /// A foreign job was absorbed; poll again.
    Progress,
    /// The outstanding job has not finished; poll again with its outcome.
    Pending,
}

/// What one step of polling a seek produced.
pub enum SeekPoll {
    /// The seek is complete with this resulting offset.
    Done(Result<u64, ErrorKind>),
    /// The caller must run this seek job and feed its outcome back.
    Spawn(SeekJob),
    /// A foreign job was absorbed; poll again.
    Progress,
    /// The outstanding job has not finished; poll again with its outcome.
    Pending,
}

/// What one step of polling a flush produced.
pub enum FlushPoll {
    /// The flush is complete with this result.
    Done(Result<(), ErrorKind>),
    /// The outstanding job has not finished; poll again with its outcome.
    Pending,
}

/// The envelope state shared by all operations on one file.
pub struct FileInner {
    /// The ownership state.
    pub state: FileState,
    /// The sticky error kind of a failed write job, surfaced by the next
    /// write or flush.
    pub write_err: Option<ErrorKind>,
    /// The logical cursor, updated when seeks complete.
    pub idx: u64,
}

/// An asynchronous file: a token for the shared OS file, the state
/// machine, and the buffer cap.
pub struct File {
    /// Identifies the shared synchronous file held by the embedder.
    pub handle: u64,
    /// The ownership state machine.
    pub inner: FileInner,
    /// Cap on how many bytes the buffer may take per operation.
    pub buf_size_limit: usize,
}

/// Whether an event is a plausible outcome for the outstanding job: a
/// read/write outcome only while a read or write is out, a seek outcome
/// only while a seek is out, and no outcome at all while idle.
pub open spec fn event_matches(state: FileState, event: Option<JobOutcome>) -> bool {
    match event {
        Option::None => true,
        Option::Some(JobOutcome::Rw(b, _)) => (state is Reading || state is Writing) && b.wf(),
        Option::Some(JobOutcome::Seek(b, _)) => state is Seeking && b.wf(),
    }
}

/// The transfer of read-ahead from `b0` into the output buffer `out0`,
/// as [`FileBuf::append_to`] performs it.
pub open spec fn serve_post(b0: FileBuf, out0: ReadBuf, b1: FileBuf, out1: ReadBuf) -> bool {
    let k = spec_min(b0.unread().len(), out0.space()) as int;
    &&& b1.data@ == b0.data@
    &&& b1.pos == b0.pos + k
    &&& out1.filled == out0.filled + k
    &&& out1.data@ == out0.data@.take(out0.filled as int) + b0.unread().take(k) + out0.data@.skip(
        out0.filled + k,
    )
}

/// An output buffer that did not change.
pub open spec fn out_unchanged(out0: ReadBuf, out1: ReadBuf) -> bool {
    out1.data@ == out0.data@ && out1.filled == out0.filled
}

/// A relative seek shortened by the dropped read-ahead; absolute seeks
/// pass through.
pub open spec fn adjust_seek(pos: SeekFrom, unread: int) -> SeekFrom {
    match pos {
        SeekFrom::Current(d) => SeekFrom::Current((d - unread) as i64),
        _ => pos,
    }
}

/// At any instant a well-formed envelope is in exactly one of the four
/// states, and an idle envelope always holds its transfer buffer. Since
/// every non-idle state stands for the one outstanding blocking job, and
/// the poll contracts spawn only from `Idle`, no two jobs of one handle
/// can be in flight together.
pub proof fn lemma_state_is_one_of_four(s: FileInner)
    requires
        s.wf(),
    ensures
        s.state is Idle || s.state is Reading || s.state is Writing || s.state is Seeking,
        s.state matches FileState::Idle(b) ==> b is Some,
{
}

/// Round-trip law through the envelope: a write job carries exactly the
/// accepted prefix of the caller's bytes (as [`File::poll_write`]
/// guarantees of the job it spawns); once that job has written them, a
/// seek back to where the write began and a read job of the same length
/// fetch exactly those bytes, and handing the read job's buffer over to
/// an output buffer with room for them (as [`File::poll_read`] does on
/// the job's completion) delivers them to the caller unchanged.
pub proof fn lemma_envelope_round_trip(
    src: Seq<u8>,
    n: nat,
    wjob: WriteJob,
    m0: MemFile,
    m1: MemFile,
    m2: MemFile,
    m3: MemFile,
    sr: Result<u64, ErrorKind>,
    b0: FileBuf,
    b1: FileBuf,
    b2: FileBuf,
    out0: ReadBuf,
    out1: ReadBuf,
)
    requires
        // the accepted prefix is at most the whole of `src`
        n <= src.len(),
        // the spawned write job holds the accepted prefix, no read-ahead
        wjob.buf.data@ == src.take(n as int),
        wjob.unread == 0,
        // the write job ran: the bytes went out at the cursor
        write_post(m0, m1, wjob.buf.data@),
        // the seek job ran, back to where the write began
        seek_post(m1, m2, SeekFrom::Start(m0.cursor), sr),
        // the read job ran with an empty transfer buffer and cap `n`
        b0.data@.len() == 0,
        b0.pos == 0,
        read_post(m2, m3, b0, b1, n),
        // finishing the read hands the buffer over to the caller's output
        serve_post(b1, out0, b2, out1),
        out0.filled == 0,
        out0.data@.len() == n,
    ensures
        out1.filled_bytes() == src.take(n as int),
{
    crate::mem_file::lemma_write_seek_read_round_trip(
        m0,
        m1,
        m2,
        m3,
        wjob.buf.data@,
        b0,
        b1,
        sr,
    );
    assert(b1.unread() =~= wjob.buf.data@);
    assert(out1.filled_bytes() =~= src.take(n as int));
}

impl FileState {
    /// The kind of the outstanding job; meaningless while idle.
    pub open spec fn spec_op(self) -> FileOp {
        match self {
            FileState::Idle(_) => FileOp::Reading,
            FileState::Reading => FileOp::Reading,
            FileState::Writing => FileOp::Writing,
            FileState::Seeking => FileOp::Seeking,
        }
    }

    /// The kind of the outstanding job.
    pub fn get_op(&self) -> (op: FileOp)
        requires
            !(self is Idle),
        ensures
            op == self.spec_op(),
    {
        match self {
            FileState::Idle(_) => {
                proof {
                    assert(false);
                }
                FileOp::Reading
            },
            FileState::Reading => FileOp::Reading,
            FileState::Writing => FileOp::Writing,
            FileState::Seeking => FileOp::Seeking,
        }
    }
}

impl FileInner {
    /// Well-formed: an idle envelope always holds a well-formed buffer.
    pub open spec fn wf(self) -> bool {
        match self.state {
            FileState::Idle(b) => match b {
                Option::Some(fb) => fb.wf(),
                Option::None => false,
            },
            _ => true,
        }
    }

    /// Whether no job is outstanding.
    pub open spec fn is_idle(self) -> bool {
        self.state is Idle
    }

    /// The buffer held while idle.
    pub open spec fn idle_buf(self) -> FileBuf {
        match self.state {
            FileState::Idle(b) => match b {
                Option::Some(fb) => fb,
                Option::None => arbitrary(),
            },
            _ => arbitrary(),
        }
    }

    /// A fresh idle envelope.
    pub fn new() -> (r: FileInner)
        ensures
            r.wf(),
            r.is_idle(),
            r.idle_buf().data@.len() == 0,
            r.idle_buf().pos == 0,
            r.write_err is None,
            r.idx == 0,
    {
        FileInner {
            state: FileState::Idle(Some(FileBuf::with_capacity(0))),
            write_err: None,
            idx: 0,
        }
    }

    /// One step of flushing: surface a sticky write error once, report an
    /// idle envelope as flushed, or absorb the outstanding job's outcome
    /// (only a write job's error is the flush's business).
    pub fn poll_flush(&mut self, event: Option<JobOutcome>) -> (r: FlushPoll)
        requires
            old(self).wf(),
            event_matches(old(self).state, event),
            old(self).write_err is Some ==> event is None,
        ensures
            final(self).wf(),
            final(self).idx == old(self).idx,
            old(self).write_err matches Some(e) ==> {
                &&& r == FlushPoll::Done(Err::<(), ErrorKind>(e))
                &&& final(self).state == old(self).state
                &&& final(self).write_err is None
            },
            old(self).write_err is None && old(self).is_idle() ==> {
                &&& r == FlushPoll::Done(Ok::<(), ErrorKind>(()))
                &&& final(self).state == old(self).state
                &&& final(self).write_err is None
            },
            old(self).write_err is None && !old(self).is_idle() && event is None ==> {
                &&& r == FlushPoll::Pending
                &&& final(self).state == old(self).state
                &&& final(self).write_err is None
            },
            old(self).write_err is None ==> (event matches Some(JobOutcome::Rw(b, res)) ==> {
                &&& final(self).state == FileState::Idle(Some(b))
                &&& final(self).write_err is None
                &&& r == FlushPoll::Done(
                    if old(self).state is Writing {
                        res
                    } else {
                        Ok::<(), ErrorKind>(())
                    },
                )
            }),
            old(self).write_err is None ==> (event matches Some(JobOutcome::Seek(b, _)) ==> {
                &&& final(self).state == FileState::Idle(Some(b))
                &&& final(self).write_err is None
                &&& r == FlushPoll::Done(Ok::<(), ErrorKind>(()))
            }),
    {
        if let Some(e) = self.write_err {
            self.write_err = None;
            return FlushPoll::Done(Err(e));
        }
        match event {
            Some(JobOutcome::Rw(b, res)) => {
                let writing = match self.state {
                    FileState::Writing => true,
                    _ => false,
                };
                self.state = FileState::Idle(Some(b));
                if writing {
                    FlushPoll::Done(res)
                } else {
                    FlushPoll::Done(Ok(()))
                }
            },
            Some(JobOutcome::Seek(b, _)) => {
                self.state = FileState::Idle(Some(b));
                FlushPoll::Done(Ok(()))
            },
            None => {
                match self.state {
                    FileState::Idle(_) => FlushPoll::Done(Ok(())),
                    _ => FlushPoll::Pending,
                }
            },
        }
    }

    /// Drive one step of a flush whose own result is not surfaced: any
    /// error it finds is recorded as the sticky write error. Reports
    /// whether the flush is complete.
    pub fn flush(&mut self, event: Option<JobOutcome>) -> (done: bool)
        requires
            old(self).wf(),
            event_matches(old(self).state, event),
            old(self).write_err is Some ==> event is None,
        ensures
            final(self).wf(),
            final(self).idx == old(self).idx,
            old(self).write_err is Some ==> {
                &&& done
                &&& final(self).state == old(self).state
                &&& final(self).write_err == old(self).write_err
            },
            old(self).write_err is None && old(self).is_idle() ==> {
                &&& done
                &&& final(self).state == old(self).state
                &&& final(self).write_err is None
            },
            old(self).write_err is None && !old(self).is_idle() && event is None ==> {
                &&& !done
                &&& final(self).state == old(self).state
                &&& final(self).write_err is None
            },
            old(self).write_err is None ==> (event matches Some(JobOutcome::Rw(b, res)) ==> {
                &&& done
                &&& final(self).state == FileState::Idle(Some(b))
                &&& final(self).write_err == (match res {
                    Err(e) => if old(self).state is Writing {
                        Some(e)
                    } else {
                        None::<ErrorKind>
                    },
                    Ok(_) => None::<ErrorKind>,
                })
            }),
            old(self).write_err is None ==> (event matches Some(JobOutcome::Seek(b, _)) ==> {
                &&& done
                &&& final(self).state == FileState::Idle(Some(b))
                &&& final(self).write_err is None
            }),
    {
        match self.poll_flush(event) {
            FlushPoll::Done(res) => {
                if let Err(e) = res {
                    self.write_err = Some(e);
                }
                true
            },
            FlushPoll::Pending => false,
        }
    }
}

impl File {
    /// A fresh envelope around the shared synchronous file identified by
    /// `file`: idle, no sticky error, cursor zero, default buffer cap.
    pub fn new(file: u64) -> (r: File)
        ensures
            r.inner.wf(),
            r.inner.is_idle(),
            r.inner.idle_buf().data@.len() == 0,
            r.inner.write_err is None,
            r.inner.idx == 0,
            r.handle == file,
            r.buf_size_limit == DEFAULT_BUF_LIMIT,
    {
        File { handle: file, inner: FileInner::new(), buf_size_limit: DEFAULT_BUF_LIMIT }
    }

    /// Change the cap on how many bytes the buffer may take per operation.
    pub fn set_buffer_size_limit(&mut self, buf_size_limit: usize)
        ensures
            final(self).buf_size_limit == buf_size_limit,
            final(self).handle == old(self).handle,
            final(self).inner == old(self).inner,
    {
        self.buf_size_limit = buf_size_limit;
    }

    /// Whether a sticky write error is waiting to be surfaced.
    pub fn has_write_err(&self) -> (r: bool)
        ensures
            r == (self.inner.write_err is Some),
    {
        self.inner.write_err.is_some()
    }

    /// One step of polling a read. While idle, read-ahead answers the read
    /// at once and an empty buffer turns into a read job capped at the
    /// buffer limit; a finished read job hands its bytes over; foreign
    /// jobs are absorbed (a write error becomes sticky, a seek moves the
    /// logical cursor).
    pub fn poll_read(&mut self, out: &mut ReadBuf, event: Option<JobOutcome>) -> (r: ReadPoll)
        requires
            old(self).inner.wf(),
            old(out).wf(),
            event_matches(old(self).inner.state, event),
        ensures
            final(self).inner.wf(),
            final(out).wf(),
            final(self).handle == old(self).handle,
            final(self).buf_size_limit == old(self).buf_size_limit,
            final(out).data@.len() == old(out).data@.len(),
            old(self).inner.is_idle() && old(self).inner.idle_buf().unread().len() > 0 ==> {
                &&& r == ReadPoll::Done(Ok::<(), ErrorKind>(()))
                &&& final(self).inner.state matches FileState::Idle(bo) && bo matches Some(b1)
                    && serve_post(old(self).inner.idle_buf(), *old(out), b1, *final(out))
                &&& final(self).inner.write_err == old(self).inner.write_err
                &&& final(self).inner.idx == old(self).inner.idx
            },
            old(self).inner.is_idle() && old(self).inner.idle_buf().unread().len() == 0 ==> {
                &&& r matches ReadPoll::Spawn(job) && job.buf.data@.len() == 0 && job.buf.pos == 0
                    && job.max == spec_min(old(out).space(), old(self).buf_size_limit as nat)
                &&& final(self).inner.state is Reading
                &&& out_unchanged(*old(out), *final(out))
                &&& final(self).inner.write_err == old(self).inner.write_err
                &&& final(self).inner.idx == old(self).inner.idx
            },
            old(self).inner.state is Reading ==> (event matches Some(JobOutcome::Rw(b, res))
                ==> {
                &&& r == ReadPoll::Done(res)
                &&& final(self).inner.state matches FileState::Idle(bo) && bo matches Some(b1)
                    && (if res is Ok {
                    serve_post(b, *old(out), b1, *final(out))
                } else {
                    b1 == b && out_unchanged(*old(out), *final(out))
                })
                &&& final(self).inner.write_err == old(self).inner.write_err
                &&& final(self).inner.idx == old(self).inner.idx
            }),
            old(self).inner.state is Writing ==> (event matches Some(JobOutcome::Rw(b, res))
                ==> {
                &&& r == ReadPoll::Progress
                &&& final(self).inner.state == FileState::Idle(Some(b))
                &&& out_unchanged(*old(out), *final(out))
                &&& final(self).inner.write_err == (match res {
                    Err(e) => Some(e),
                    Ok(_) => old(self).inner.write_err,
                })
                &&& final(self).inner.idx == old(self).inner.idx
            }),
            event matches Some(JobOutcome::Seek(b, res)) ==> {
                &&& r == ReadPoll::Progress
                &&& final(self).inner.state == FileState::Idle(Some(b))
                &&& out_unchanged(*old(out), *final(out))
                &&& final(self).inner.write_err == old(self).inner.write_err
                &&& final(self).inner.idx == (match res {
                    Ok(i) => i,
                    Err(_) => old(self).inner.idx,
                })
            },
            !old(self).inner.is_idle() && event is None ==> {
                &&& r == ReadPoll::Pending
                &&& final(self).inner.state == old(self).inner.state
                &&& out_unchanged(*old(out), *final(out))
                &&& final(self).inner.write_err == old(self).inner.write_err
                &&& final(self).inner.idx == old(self).inner.idx
            },
    {
        match event {
            Some(JobOutcome::Rw(b, res)) => {
                let mut b = b;
                match self.inner.state {
                    FileState::Reading => {
                        if res.is_ok() {
                            b.append_to(out);
                        }
                        self.inner.state = FileState::Idle(Some(b));
                        ReadPoll::Done(res)
                    },
                    FileState::Writing => {
                        if let Err(e) = res {
                            self.inner.write_err = Some(e);
                        }
                        self.inner.state = FileState::Idle(Some(b));
                        ReadPoll::Progress
                    },
                    _ => {
                        proof {
                            assert(false);
                        }
                        ReadPoll::Pending
                    },
                }
            },
            Some(JobOutcome::Seek(b, res)) => {
                if let Ok(i) = res {
                    self.inner.idx = i;
                }
                self.inner.state = FileState::Idle(Some(b));
                ReadPoll::Progress
            },
            None => {
                let mut st = FileState::Reading;
                core::mem::swap(&mut st, &mut self.inner.state);
                match st {
                    FileState::Idle(bo) => {
                        let mut fb = match bo {
                            Some(fb) => fb,
                            None => {
                                proof {
                                    assert(false);
                                }
                                FileBuf::with_capacity(0)
                            },
                        };
                        if fb.remaining() > 0 {
                            fb.append_to(out);
                            self.inner.state = FileState::Idle(Some(fb));
                            return ReadPoll::Done(Ok(()));
                        }
                        let _dropped = fb.drop_unread();
                        let space = out.remaining();
                        let max = if space <= self.buf_size_limit {
                            space
                        } else {
                            self.buf_size_limit
                        };
                        ReadPoll::Spawn(ReadJob { buf: fb, max })
                    },
                    other => {
                        self.inner.state = other;
                        ReadPoll::Pending
                    },
                }
            },
        }
    }

    /// One step of polling a write. A sticky error is surfaced first and
    /// cleared, with no new job issued. While idle, the source bytes are
    /// accepted up to the buffer cap and a write job is issued at once;
    /// the job's own failure is surfaced by whichever poll absorbs it.
    pub fn poll_write(&mut self, src: &Vec<u8>, event: Option<JobOutcome>) -> (r: WritePoll)
        requires
            old(self).inner.wf(),
            event_matches(old(self).inner.state, event),
            old(self).inner.write_err is Some ==> event is None,
        ensures
            final(self).inner.wf(),
            final(self).handle == old(self).handle,
            final(self).buf_size_limit == old(self).buf_size_limit,
            old(self).inner.write_err matches Some(e) ==> {
                &&& r == WritePoll::Done(Err::<usize, ErrorKind>(e))
                &&& final(self).inner.state == old(self).inner.state
                &&& final(self).inner.write_err is None
                &&& final(self).inner.idx == old(self).inner.idx
            },
            old(self).inner.write_err is None && old(self).inner.is_idle() ==> {
                &&& r matches WritePoll::Spawn(job, n) && job.buf.pos == 0 && n == spec_min(
                    src@.len(),
                    old(self).buf_size_limit as nat,
                ) && job.buf.data@ == src@.take(n as int) && job.unread == old(self).inner.idle_buf().unread().len()
                &&& final(self).inner.state is Writing
                &&& final(self).inner.write_err is None
                &&& final(self).inner.idx == old(self).inner.idx
            },
            old(self).inner.write_err is None && old(self).inner.state is Writing ==> (event
                matches Some(JobOutcome::Rw(b, res)) ==> {
                &&& final(self).inner.state == FileState::Idle(Some(b))
                &&& final(self).inner.write_err is None
                &&& final(self).inner.idx == old(self).inner.idx
                &&& r == (match res {
                    Err(e) => WritePoll::Done(Err::<usize, ErrorKind>(e)),
                    Ok(_) => WritePoll::Progress,
                })
            }),
            old(self).inner.write_err is None && old(self).inner.state is Reading ==> (event
                matches Some(JobOutcome::Rw(b, _)) ==> {
                &&& r == WritePoll::Progress
                &&& final(self).inner.state == FileState::Idle(Some(b))
                &&& final(self).inner.write_err is None
                &&& final(self).inner.idx == old(self).inner.idx
            }),
            old(self).inner.write_err is None ==> (event matches Some(JobOutcome::Seek(b, _))
                ==> {
                &&& r == WritePoll::Progress
                &&& final(self).inner.state == FileState::Idle(Some(b))
                &&& final(self).inner.write_err is None
                &&& final(self).inner.idx == old(self).inner.idx
            }),
            old(self).inner.write_err is None && !old(self).inner.is_idle() && event is None
                ==> {
                &&& r == WritePoll::Pending
                &&& final(self).inner.state == old(self).inner.state
                &&& final(self).inner.write_err is None
                &&& final(self).inner.idx == old(self).inner.idx
            },
    {
        if let Some(e) = self.inner.write_err {
            self.inner.write_err = None;
            return WritePoll::Done(Err(e));
        }
        match event {
            Some(JobOutcome::Rw(b, res)) => {
                let writing = match self.inner.state {
                    FileState::Writing => true,
                    _ => false,
                };
                self.inner.state = FileState::Idle(Some(b));
                if writing {
                    if let Err(e) = res {
                        return WritePoll::Done(Err(e));
                    }
                }
                WritePoll::Progress
            },
            Some(JobOutcome::Seek(b, _)) => {
                self.inner.state = FileState::Idle(Some(b));
                WritePoll::Progress
            },
            None => {
                let mut st = FileState::Writing;
                core::mem::swap(&mut st, &mut self.inner.state);
                match st {
                    FileState::Idle(bo) => {
                        let mut fb = match bo {
                            Some(fb) => fb,
                            None => {
                                proof {
                                    assert(false);
                                }
                                FileBuf::with_capacity(0)
                            },
                        };
                        let unread = fb.drop_unread();
                        let n = fb.append(src, self.buf_size_limit);
                        WritePoll::Spawn(WriteJob { buf: fb, unread }, n)
                    },
                    other => {
                        self.inner.state = other;
                        WritePoll::Pending
                    },
                }
            },
        }
    }

    /// One step of polling a seek. While idle, any read-ahead is dropped
    /// and a relative seek is shortened by that amount, so the logical
    /// cursor moves by what the caller asked; the adjusted position goes
    /// out as a seek job. A finished seek job's offset becomes the logical
    /// cursor and is returned.
    pub fn poll_seek(&mut self, pos: SeekFrom, event: Option<JobOutcome>) -> (r: SeekPoll)
        requires
            old(self).inner.wf(),
            event_matches(old(self).inner.state, event),
            old(self).inner.is_idle() ==> old(self).inner.idle_buf().unread().len() <= i64::MAX,
            old(self).inner.is_idle() ==> (pos matches SeekFrom::Current(d) ==> d - old(self).inner.idle_buf().unread().len() >= i64::MIN),
        ensures
            final(self).inner.wf(),
            final(self).handle == old(self).handle,
            final(self).buf_size_limit == old(self).buf_size_limit,
            old(self).inner.is_idle() ==> {
                &&& r matches SeekPoll::Spawn(job) && job.buf.data@.len() == 0 && job.buf.pos == 0
                    && job.target == adjust_seek(
                    pos,
                    old(self).inner.idle_buf().unread().len() as int,
                )
                &&& final(self).inner.state is Seeking
                &&& final(self).inner.write_err == old(self).inner.write_err
                &&& final(self).inner.idx == old(self).inner.idx
            },
            old(self).inner.state is Seeking ==> (event matches Some(JobOutcome::Seek(b, res))
                ==> {
                &&& r == SeekPoll::Done(res)
                &&& final(self).inner.state == FileState::Idle(Some(b))
                &&& final(self).inner.write_err == old(self).inner.write_err
                &&& final(self).inner.idx == (match res {
                    Ok(i) => i,
                    Err(_) => old(self).inner.idx,
                })
            }),
            old(self).inner.state is Reading ==> (event matches Some(JobOutcome::Rw(b, _)) ==> {
                &&& r == SeekPoll::Progress
                &&& final(self).inner.state == FileState::Idle(Some(b))
                &&& final(self).inner.write_err == old(self).inner.write_err
                &&& final(self).inner.idx == old(self).inner.idx
            }),
            old(self).inner.state is Writing ==> (event matches Some(JobOutcome::Rw(b, res))
                ==> {
                &&& r == SeekPoll::Progress
                &&& final(self).inner.state == FileState::Idle(Some(b))
                &&& final(self).inner.write_err == (match res {
                    Err(e) => Some(e),
                    Ok(_) => old(self).inner.write_err,
                })
                &&& final(self).inner.idx == old(self).inner.idx
            }),
            !old(self).inner.is_idle() && event is None ==> {
                &&& r == SeekPoll::Pending
                &&& final(self).inner.state == old(self).inner.state
                &&& final(self).inner.write_err == old(self).inner.write_err
                &&& final(self).inner.idx == old(self).inner.idx
            },
    {
        match event {
            Some(JobOutcome::Rw(b, res)) => {
                let writing = match self.inner.state {
                    FileState::Writing => true,
                    _ => false,
                };
                if writing {
                    if let Err(e) = res {
                        self.inner.write_err = Some(e);
                    }
                }
                self.inner.state = FileState::Idle(Some(b));
                SeekPoll::Progress
            },
            Some(JobOutcome::Seek(b, res)) => {
                if let Ok(i) = res {
                    self.inner.idx = i;
                }
                self.inner.state = FileState::Idle(Some(b));
                SeekPoll::Done(res)
            },
            None => {
                let mut st = FileState::Seeking;
                core::mem::swap(&mut st, &mut self.inner.state);
                match st {
                    FileState::Idle(bo) => {
                        let mut fb = match bo {
                            Some(fb) => fb,
                            None => {
                                proof {
                                    assert(false);
                                }
                                FileBuf::with_capacity(0)
                            },
                        };
                        let unread = fb.drop_unread();
                        let target = match pos {
                            SeekFrom::Current(d) => {
                                if unread != 0 {
                                    SeekFrom::Current(d - unread as i64)
                                } else {
                                    SeekFrom::Current(d)
                                }
                            },
                            p => p,
                        };
                        SeekPoll::Spawn(SeekJob { buf: fb, target })
                    },
                    other => {
                        self.inner.state = other;
                        SeekPoll::Pending
                    },
                }
            },
        }
    }

    /// One step of polling a flush; see [`FileInner::poll_flush`].
    pub fn poll_flush(&mut self, event: Option<JobOutcome>) -> (r: FlushPoll)
        requires
            old(self).inner.wf(),
            event_matches(old(self).inner.state, event),
            old(self).inner.write_err is Some ==> event is None,
        ensures
            final(self).inner.wf(),
            final(self).handle == old(self).handle,
            final(self).buf_size_limit == old(self).buf_size_limit,
            final(self).inner.idx == old(self).inner.idx,
            old(self).inner.write_err matches Some(e) ==> {
                &&& r == FlushPoll::Done(Err::<(), ErrorKind>(e))
                &&& final(self).inner.state == old(self).inner.state
                &&& final(self).inner.write_err is None
            },
            old(self).inner.write_err is None && old(self).inner.is_idle() ==> {
                &&& r == FlushPoll::Done(Ok::<(), ErrorKind>(()))
                &&& final(self).inner.state == old(self).inner.state
                &&& final(self).inner.write_err is None
            },
            old(self).inner.write_err is None && !old(self).inner.is_idle() && event is None
                ==> {
                &&& r == FlushPoll::Pending
                &&& final(self).inner.state == old(self).inner.state
                &&& final(self).inner.write_err is None
            },
            old(self).inner.write_err is None ==> (event matches Some(JobOutcome::Rw(b, res))
                ==> {
                &&& final(self).inner.state == FileState::Idle(Some(b))
                &&& final(self).inner.write_err is None
                &&& r == FlushPoll::Done(
                    if old(self).inner.state is Writing {
                        res
                    } else {
                        Ok::<(), ErrorKind>(())
                    },
                )
            }),
            old(self).inner.write_err is None ==> (event matches Some(JobOutcome::Seek(b, _))
                ==> {
                &&& final(self).inner.state == FileState::Idle(Some(b))
                &&& final(self).inner.write_err is None
                &&& r == FlushPoll::Done(Ok::<(), ErrorKind>(()))
            }),
    {
        self.inner.poll_flush(event)
    }

    /// One step of polling a shutdown, which for a file is a flush: the
    /// same case split as [`File::poll_flush`].
    pub fn poll_shutdown(&mut self, event: Option<JobOutcome>) -> (r: FlushPoll)
        requires
            old(self).inner.wf(),
            event_matches(old(self).inner.state, event),
            old(self).inner.write_err is Some ==> event is None,
        ensures
            final(self).inner.wf(),
            final(self).handle == old(self).handle,
            final(self).buf_size_limit == old(self).buf_size_limit,
            final(self).inner.idx == old(self).inner.idx,
            old(self).inner.write_err matches Some(e) ==> {
                &&& r == FlushPoll::Done(Err::<(), ErrorKind>(e))
                &&& final(self).inner.state == old(self).inner.state
                &&& final(self).inner.write_err is None
            },
            old(self).inner.write_err is None && old(self).inner.is_idle() ==> {
                &&& r == FlushPoll::Done(Ok::<(), ErrorKind>(()))
                &&& final(self).inner.state == old(self).inner.state
                &&& final(self).inner.write_err is None
            },
            old(self).inner.write_err is None && !old(self).inner.is_idle() && event is None
                ==> {
                &&& r == FlushPoll::Pending
                &&& final(self).inner.state == old(self).inner.state
                &&& final(self).inner.write_err is None
            },
            old(self).inner.write_err is None ==> (event matches Some(JobOutcome::Rw(b, res))
                ==> {
                &&& final(self).inner.state == FileState::Idle(Some(b))
                &&& final(self).inner.write_err is None
                &&& r == FlushPoll::Done(
                    if old(self).inner.state is Writing {
                        res
                    } else {
                        Ok::<(), ErrorKind>(())
                    },
                )
            }),
            old(self).inner.write_err is None ==> (event matches Some(JobOutcome::Seek(b, _))
                ==> {
                &&& final(self).inner.state == FileState::Idle(Some(b))
                &&& final(self).inner.write_err is None
                &&& r == FlushPoll::Done(Ok::<(), ErrorKind>(()))
            }),
    {
        self.poll_flush(event)
    }

    /// Start a truncation: the envelope must be idle (flushed); the
    /// returned job seeks back over any dropped read-ahead and truncates.
    pub fn set_len_start(&mut self, size: u64) -> (job: SetLenJob)
        requires
            old(self).inner.wf(),
            old(self).inner.is_idle(),
        ensures
            final(self).inner.wf(),
            final(self).handle == old(self).handle,
            final(self).buf_size_limit == old(self).buf_size_limit,
            final(self).inner.state is Seeking,
            final(self).inner.write_err == old(self).inner.write_err,
            final(self).inner.idx == old(self).inner.idx,
            job.buf.data@.len() == 0,
            job.buf.pos == 0,
            job.unread == old(self).inner.idle_buf().unread().len(),
            job.size == size,
    {
        let mut st = FileState::Seeking;
        core::mem::swap(&mut st, &mut self.inner.state);
        match st {
            FileState::Idle(bo) => {
                let mut fb = match bo {
                    Some(fb) => fb,
                    None => {
                        proof {
                            assert(false);
                        }
                        FileBuf::with_capacity(0)
                    },
                };
                let unread = fb.drop_unread();
                SetLenJob { buf: fb, unread, size }
            },
            _ => {
                proof {
                    assert(false);
                }
                SetLenJob { buf: FileBuf::with_capacity(0), unread: 0, size }
            },
        }
    }

    /// Finish a truncation with the job's outcome, restoring the idle
    /// state. The logical cursor is not re-normalized: truncation moves
    /// neither the physical nor the logical cursor, so after shrinking
    /// the file the cursor may lie past the new end. The offset a
    /// successful truncation outcome carries is a placeholder and is
    /// ignored.
    pub fn set_len_finish(&mut self, buf: FileBuf, res: Result<u64, ErrorKind>) -> (r: Result<
        (),
        ErrorKind,
    >)
        requires
            old(self).inner.wf(),
            old(self).inner.state is Seeking,
            buf.wf(),
        ensures
            final(self).inner.wf(),
            final(self).handle == old(self).handle,
            final(self).buf_size_limit == old(self).buf_size_limit,
            final(self).inner.state == FileState::Idle(Some(buf)),
            final(self).inner.write_err == old(self).inner.write_err,
            final(self).inner.idx == old(self).inner.idx,
            r == (match res {
                Ok(_) => Ok::<(), ErrorKind>(()),
                Err(e) => Err::<(), ErrorKind>(e),
            }),
    {
        self.inner.state = FileState::Idle(Some(buf));
        match res {
            Ok(_) => Ok(()),
            Err(e) => Err(e),
        }
    }

    /// Hand the shared file back, requiring that every job has completed
    /// (the envelope is idle after a flush).
    pub fn into_std(self) -> (r: u64)
        requires
            self.inner.is_idle(),
        ensures
            r == self.handle,
    {
        self.handle
    }

    /// Hand the shared file back without waiting: succeeds exactly when no
    /// job is outstanding; otherwise the envelope comes back unchanged as
    /// the error payload.
    pub fn try_into_std(self) -> (r: Result<u64, File>)
        ensures
            self.inner.is_idle() ==> r == Ok::<u64, File>(self.handle),
            !self.inner.is_idle() ==> r == Err::<u64, File>(self),
    {
        match self.inner.state {
            FileState::Idle(_) => Ok(self.handle),
            _ => Err(self),
        }
    }
}

} // verus!
