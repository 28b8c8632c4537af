//! Model executor for the blocking jobs of the file envelope.
//!
//! In the runtime, a job description from [`crate::async_file`] is handed
//! to the blocking pool, which performs it on the shared operating-system
//! file. These functions perform the same jobs on a [`MemFile`], with the
//! job's exact semantics — the seek-back over dropped read-ahead before a
//! write or a truncation, the buffer drained after a write — so the whole
//! envelope can be driven and checked in memory.

use vstd::prelude::*;

use crate::async_file::{JobOutcome, ReadJob, SeekJob, SetLenJob, WriteJob};
use crate::error::ErrorKind;
use crate::mem_file::{read_post, seek_post, set_len_post, write_post, MemFile, SeekFrom};

verus! {

/// Run a read job: fill the buffer with up to `max` bytes at the cursor.
pub fn run_read_job(m: &mut MemFile, job: ReadJob) -> (r: JobOutcome)
    requires
        job.buf.wf(),
    ensures
        r matches JobOutcome::Rw(b, res) && res == Ok::<(), ErrorKind>(()) && b.wf() && read_post(
            *old(m),
            *final(m),
            job.buf,
            b,
            job.max as nat,
        ),
{
    let mut buf = job.buf;
    let res = m.read(&mut buf, job.max);
    JobOutcome::Rw(buf, res)
}

/// Run a write job: seek back over the dropped read-ahead, then write out
/// the buffer, which comes back drained.
pub fn run_write_job(m: &mut MemFile, job: WriteJob) -> (r: JobOutcome)
    requires
        job.buf.wf(),
        job.buf.pos == 0,
        job.unread <= i64::MAX,
        old(m).cursor + job.buf.data@.len() <= usize::MAX,
    ensures
        job.unread > old(m).cursor ==> (r matches JobOutcome::Rw(b, res) && res == Err::<
            (),
            ErrorKind,
        >(ErrorKind::InvalidInput) && b.wf() && b.data@.len() == 0 && b.pos == 0 && final(m).data@
            == old(m).data@ && final(m).cursor == old(m).cursor),
        job.unread <= old(m).cursor ==> (r matches JobOutcome::Rw(b, res) && res == Ok::<
            (),
            ErrorKind,
        >(()) && b.wf() && b.data@.len() == 0 && b.pos == 0 && write_post(
            MemFile { data: old(m).data, cursor: (old(m).cursor - job.unread) as u64 },
            *final(m),
            job.buf.data@,
        )),
{
    let mut buf = job.buf;
    if job.unread > 0 {
        match m.seek(SeekFrom::Current(-(job.unread as i64))) {
            Ok(_) => {},
            Err(e) => {
                // the buffered bytes are lost with the failed write; the
                // envelope's sticky error reports that loss
                let _lost = buf.drop_unread();
                return JobOutcome::Rw(buf, Err(e));
            },
        }
    }
    let res = m.write(&buf.data);
    let _drained = buf.drop_unread();
    JobOutcome::Rw(buf, res)
}

/// Run a seek job against the already-adjusted target position.
pub fn run_seek_job(m: &mut MemFile, job: SeekJob) -> (r: JobOutcome)
    requires
        job.buf.wf(),
    ensures
        r matches JobOutcome::Seek(b, res) && b == job.buf && seek_post(
            *old(m),
            *final(m),
            job.target,
            res,
        ),
{
    let res = m.seek(job.target);
    JobOutcome::Seek(job.buf, res)
}

/// Run a truncation job: seek back over the dropped read-ahead if any,
/// then set the file length. The offset a successful outcome carries is
/// a placeholder; [`crate::async_file::File::set_len_finish`] ignores it
/// and leaves the logical cursor where it was.
pub fn run_set_len_job(m: &mut MemFile, job: SetLenJob) -> (r: JobOutcome)
    requires
        job.buf.wf(),
        job.unread <= i64::MAX,
        job.size <= usize::MAX,
    ensures
        job.unread > old(m).cursor ==> {
            &&& r == JobOutcome::Seek(job.buf, Err::<u64, ErrorKind>(ErrorKind::InvalidInput))
            &&& final(m).data@ == old(m).data@
            &&& final(m).cursor == old(m).cursor
        },
        job.unread <= old(m).cursor ==> (r matches JobOutcome::Seek(b, res) && b == job.buf && res
            == Ok::<u64, ErrorKind>(0) && set_len_post(
            MemFile { data: old(m).data, cursor: (old(m).cursor - job.unread) as u64 },
            *final(m),
            job.size,
        )),
{
    if job.unread > 0 {
        match m.seek(SeekFrom::Current(-(job.unread as i64))) {
            Ok(_) => {},
            Err(e) => {
                return JobOutcome::Seek(job.buf, Err(e));
            },
        }
    }
    let res = match m.set_len(job.size) {
        Ok(_) => Ok(0),
        Err(e) => Err(e),
    };
    JobOutcome::Seek(job.buf, res)
}

} // verus!
