use ylong_driver::async_file::{
    File, FileOp, FileState, FlushPoll, JobOutcome, ReadPoll, SeekPoll, WritePoll,
    DEFAULT_BUF_LIMIT,
};
use ylong_driver::blocking::{run_read_job, run_seek_job, run_set_len_job, run_write_job};
use ylong_driver::error::ErrorKind;
use ylong_driver::file_buf::{FileBuf, ReadBuf};
use ylong_driver::mem_file::{MemFile, SeekFrom};

/// Drives the file envelope against an in-memory file, playing the role
/// of the blocking pool: each spawned job runs at once and its outcome is
/// fed to the next poll.
struct Runner {
    file: File,
    mem: MemFile,
    done: Option<JobOutcome>,
}

impl Runner {
    fn new() -> Runner {
        Runner { file: File::new(1), mem: MemFile::new(), done: None }
    }

    fn write(&mut self, data: &Vec<u8>) -> Result<usize, ErrorKind> {
        loop {
            if self.file.has_write_err() {
                match self.file.poll_write(data, None) {
                    WritePoll::Done(res) => return res,
                    _ => unreachable!(),
                }
            }
            let ev = self.done.take();
            match self.file.poll_write(data, ev) {
                WritePoll::Done(res) => return res,
                WritePoll::Spawn(job, n) => {
                    self.done = Some(run_write_job(&mut self.mem, job));
                    return Ok(n);
                }
                WritePoll::Progress => continue,
                WritePoll::Pending => unreachable!(),
            }
        }
    }

    fn read(&mut self, out: &mut ReadBuf) -> Result<usize, ErrorKind> {
        let before = out.filled;
        loop {
            let ev = self.done.take();
            match self.file.poll_read(out, ev) {
                ReadPoll::Done(res) => return res.map(|_| out.filled - before),
                ReadPoll::Spawn(job) => {
                    self.done = Some(run_read_job(&mut self.mem, job));
                }
                ReadPoll::Progress => continue,
                ReadPoll::Pending => unreachable!(),
            }
        }
    }

    fn seek(&mut self, pos: SeekFrom) -> Result<u64, ErrorKind> {
        loop {
            let ev = self.done.take();
            match self.file.poll_seek(pos, ev) {
                SeekPoll::Done(res) => return res,
                SeekPoll::Spawn(job) => {
                    self.done = Some(run_seek_job(&mut self.mem, job));
                }
                SeekPoll::Progress => continue,
                SeekPoll::Pending => unreachable!(),
            }
        }
    }

    fn flush(&mut self) -> Result<(), ErrorKind> {
        let ev = if self.file.has_write_err() { None } else { self.done.take() };
        match self.file.poll_flush(ev) {
            FlushPoll::Done(res) => res,
            FlushPoll::Pending => unreachable!(),
        }
    }

    /// The flush whose errors are recorded as the sticky write error.
    fn flush_record(&mut self) {
        let ev = if self.file.has_write_err() { None } else { self.done.take() };
        let done = self.file.inner.flush(ev);
        assert!(done);
    }

    fn set_len(&mut self, size: u64) -> Result<(), ErrorKind> {
        self.flush_record();
        let job = self.file.set_len_start(size);
        match run_set_len_job(&mut self.mem, job) {
            JobOutcome::Seek(buf, res) => self.file.set_len_finish(buf, res),
            JobOutcome::Rw(..) => unreachable!(),
        }
    }
}

/// UT test cases for asynchronous file Seek
///
/// # Brief
/// 1. Write a known byte run through the envelope and flush it.
/// 2. Reopen the stored bytes under a fresh envelope.
/// 3. Interleave relative, absolute and end-relative seeks with reads.
#[test]
fn ut_fs_file_seek() {
    let mut w = Runner::new();
    let buf = vec![65, 66, 67, 68, 69, 70, 71, 72, 73];
    let res = w.write(&buf).unwrap();
    assert_eq!(res, 9);
    w.flush().unwrap();

    let mut file = Runner { file: File::new(1), mem: w.mem, done: None };
    file.mem.seek(SeekFrom::Start(0)).unwrap();

    let ret = file.seek(SeekFrom::Current(3)).unwrap();
    assert_eq!(ret, 3);

    let mut buf = ReadBuf::new(1);
    let ret = file.read(&mut buf).unwrap();
    assert_eq!(ret, 1);
    assert_eq!(buf.data, vec![68]);

    let ret = file.seek(SeekFrom::Current(1)).unwrap();
    assert_eq!(ret, 5);

    let mut buf = ReadBuf::new(1);
    let ret = file.read(&mut buf).unwrap();
    assert_eq!(ret, 1);
    assert_eq!(buf.data, vec![70]);

    let ret = file.seek(SeekFrom::Current(2)).unwrap();
    assert_eq!(ret, 8);

    let mut buf = ReadBuf::new(2);
    let ret = file.read(&mut buf).unwrap();
    assert_eq!(ret, 1);
    assert_eq!(buf.data, vec![73, 0]);

    let ret = file.seek(SeekFrom::Start(0)).unwrap();
    assert_eq!(ret, 0);
    let mut buf = ReadBuf::new(9);
    let ret = file.read(&mut buf).unwrap();
    assert_eq!(ret, 9);
    assert_eq!(buf.data, vec![65, 66, 67, 68, 69, 70, 71, 72, 73]);

    let ret = file.seek(SeekFrom::End(-1)).unwrap();
    assert_eq!(ret, 8);
    let mut buf = ReadBuf::new(2);
    let ret = file.read(&mut buf).unwrap();
    assert_eq!(ret, 1);
    assert_eq!(buf.data, vec![73, 0]);
}

/// UT for `try_into_std`
///
/// # Brief
/// 1. Write without flushing, leaving the write job outstanding.
/// 2. The conversion fails and hands the envelope back.
/// 3. After a flush the conversion succeeds.
#[test]
fn ut_file_try_into_std() {
    let mut w = Runner::new();
    let res = w.write(&vec![104, 101, 108, 108, 111]);
    assert!(res.is_ok());

    let Runner { file, mem, done } = w;
    let std = file.try_into_std();
    assert!(std.is_err());

    let mut w = Runner { file: std.unwrap_err(), mem, done };
    let ret = w.flush();
    assert!(ret.is_ok());

    let Runner { file, .. } = w;
    let std = file.try_into_std();
    assert!(std.is_ok());
}

/// UT for `into_std`
///
/// # Brief
/// 1. Write through the envelope and flush.
/// 2. Convert the idle envelope back into the shared file.
/// 3. The stored bytes read back unchanged.
#[test]
fn ut_file_into_std() {
    let mut w = Runner::new();
    assert!(w.write(&vec![104, 101, 108, 108, 111]).is_ok());
    assert!(w.flush().is_ok());
    let Runner { file, mut mem, .. } = w;
    let handle = file.into_std();
    assert_eq!(handle, 1);
    let ret = mem.seek(SeekFrom::Start(0)).unwrap();
    assert_eq!(ret, 0);
    let mut fb = FileBuf::with_capacity(0);
    mem.read(&mut fb, 5).unwrap();
    assert_eq!(fb.data, vec![104, 101, 108, 108, 111]);
}

/// UT test for `set_len`
///
/// # Brief
/// 1. Create an empty file and extend it to 10 bytes.
/// 2. The operation succeeds and the file reports the new length.
#[test]
fn ut_fs_file_set_len() {
    let mut w = Runner::new();
    let res = w.set_len(10);
    assert!(res.is_ok());
    assert_eq!(w.mem.len(), 10);
}

/// Truncation does not re-normalize the logical cursor: after shrinking
/// the file below it, the cursor stays where it was, past the new end.
#[test]
fn set_len_leaves_cursor_past_end() {
    let mut w = Runner::new();
    let data = vec![1u8, 2, 3, 4, 5, 6];
    assert_eq!(w.write(&data).unwrap(), 6);
    w.flush().unwrap();
    assert_eq!(w.seek(SeekFrom::Start(4)).unwrap(), 4);
    assert_eq!(w.file.inner.idx, 4);
    assert!(w.set_len(2).is_ok());
    assert_eq!(w.mem.len(), 2);
    assert_eq!(w.file.inner.idx, 4);
    assert_eq!(w.mem.cursor, 4);
}

/// UT for setting the buffer's size limit
///
/// # Brief
/// 1. A fresh file carries the default cap.
/// 2. A new cap takes effect and a large write still goes through.
#[test]
fn ut_fs_set_buf_size_limit() {
    let mut w = Runner::new();
    assert_eq!(w.file.buf_size_limit, DEFAULT_BUF_LIMIT);

    w.file.set_buffer_size_limit(1024 * 1024 * 4);
    assert_eq!(w.file.buf_size_limit, 1024 * 1024 * 4);

    let buf = vec![2u8; 20000];
    let ret = w.write(&buf);
    assert!(ret.is_ok());
    assert_eq!(ret.unwrap(), 20000);
    let ret = w.flush();
    assert!(ret.is_ok());
}

/// UT test cases for asynchronous file sync
///
/// # Brief
/// 1. Write a large buffer and complete it, as syncing does.
/// 2. Write and complete a second large buffer.
#[test]
fn ut_fs_file_sync_all() {
    let mut w = Runner::new();
    let buf = vec![2u8; 20000];
    let ret = w.write(&buf);
    assert!(ret.is_ok());
    let ret = w.flush();
    assert!(ret.is_ok());

    let buf = vec![2u8; 20000];
    let ret = w.write(&buf);
    assert!(ret.is_ok());
    let ret = w.flush();
    assert!(ret.is_ok());
    assert_eq!(w.mem.len(), 40000);
}

/// Round trip: write a byte run, flush, seek to the start, read the same
/// number of bytes — the bytes read equal the bytes written.
#[test]
fn write_flush_seek_read_round_trip() {
    let mut w = Runner::new();
    let data = vec![10u8, 20, 30, 40, 50];
    assert_eq!(w.write(&data).unwrap(), 5);
    w.flush().unwrap();
    assert_eq!(w.seek(SeekFrom::Start(0)).unwrap(), 0);
    let mut out = ReadBuf::new(5);
    assert_eq!(w.read(&mut out).unwrap(), 5);
    assert_eq!(out.data, data);
}

/// Sticky write error: a failed write job's kind is stored, the next
/// write surfaces it once without a new job, and writes after that
/// proceed normally.
#[test]
fn sticky_write_error_surfaces_once() {
    let mut w = Runner::new();
    // read-ahead the file cannot seek back over (its cursor is at zero)
    w.file.inner.state = FileState::Idle(Some(FileBuf { data: vec![9, 9, 9], pos: 0 }));
    let n = w.write(&vec![1, 2]).unwrap();
    assert_eq!(n, 2);
    w.flush_record();
    assert!(w.file.has_write_err());

    let cursor_before = w.mem.cursor;
    let err = w.write(&vec![3]).unwrap_err();
    assert_eq!(err, ErrorKind::InvalidInput);
    assert_eq!(w.mem.cursor, cursor_before);
    assert!(!w.file.has_write_err());
    assert!(matches!(w.file.inner.state, FileState::Idle(_)));

    let n = w.write(&vec![7, 8]).unwrap();
    assert_eq!(n, 2);
    w.flush().unwrap();
    assert!(!w.file.has_write_err());
}

/// Read-ahead left from an earlier read answers the next reads without a
/// blocking job.
#[test]
fn read_ahead_serves_next_read() {
    let mut w = Runner::new();
    w.file.inner.state = FileState::Idle(Some(FileBuf { data: vec![1, 2, 3], pos: 1 }));
    let mut out = ReadBuf::new(1);
    assert_eq!(w.read(&mut out).unwrap(), 1);
    assert_eq!(out.data, vec![2]);
    assert_eq!(w.mem.cursor, 0);
    let mut out2 = ReadBuf::new(2);
    assert_eq!(w.read(&mut out2).unwrap(), 1);
    assert_eq!(out2.data, vec![3, 0]);
    assert_eq!(w.mem.cursor, 0);
}

/// A relative seek is shortened by the dropped read-ahead, so the logical
/// cursor moves by what the caller asked.
#[test]
fn relative_seek_accounts_for_read_ahead() {
    let mut w = Runner::new();
    w.mem.write(&vec![65, 66, 67, 68, 69]).unwrap();
    w.mem.seek(SeekFrom::Start(2)).unwrap();
    w.file.inner.state = FileState::Idle(Some(FileBuf { data: vec![65, 66], pos: 0 }));
    let ret = w.seek(SeekFrom::Current(1)).unwrap();
    assert_eq!(ret, 1);
    let mut out = ReadBuf::new(1);
    assert_eq!(w.read(&mut out).unwrap(), 1);
    assert_eq!(out.data, vec![66]);
}

/// A seek to before the start of the file is rejected and moves nothing.
#[test]
fn seek_before_start_is_invalid() {
    let mut w = Runner::new();
    let err = w.seek(SeekFrom::Current(-1)).unwrap_err();
    assert_eq!(err, ErrorKind::InvalidInput);
    assert_eq!(w.mem.cursor, 0);
}

/// Writes are accepted only up to the buffer cap; the rest is left for
/// the caller to resubmit.
#[test]
fn write_accepts_up_to_buffer_limit() {
    let mut w = Runner::new();
    w.file.set_buffer_size_limit(4);
    let n = w.write(&vec![1, 2, 3, 4, 5, 6]).unwrap();
    assert_eq!(n, 4);
    w.flush().unwrap();
    assert_eq!(w.mem.data, vec![1, 2, 3, 4]);
}

/// The state names the outstanding job's kind while one is out.
#[test]
fn file_state_get_op_names_outstanding_job() {
    let mut w = Runner::new();
    let _ = w.write(&vec![1]).unwrap();
    assert!(matches!(w.file.inner.state.get_op(), FileOp::Writing));
    w.flush().unwrap();
    let mut out = ReadBuf::new(1);
    match w.file.poll_read(&mut out, None) {
        ReadPoll::Spawn(job) => {
            assert!(matches!(w.file.inner.state.get_op(), FileOp::Reading));
            w.done = Some(run_read_job(&mut w.mem, job));
        }
        _ => unreachable!(),
    }
    let _ = w.read(&mut out).unwrap();
    assert!(matches!(w.file.inner.state, FileState::Idle(Some(_))));
}
