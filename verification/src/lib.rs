//! Core of a readiness-based asynchronous runtime driver.
//!
//! The crate models the fused driver of a work-stealing executor: the
//! worker-sleep coordinator, the slab-backed readiness registry with its
//! reactor, a timer wheel, and the ownership state machine behind an
//! asynchronous file handle. All decision logic is verified; the operating
//! system calls that feed it (polling the kernel, running blocking jobs)
//! live outside and hand the library plain values.

pub mod async_file;
pub mod blocking;
pub mod driver;
pub mod error;
pub mod events;
pub mod file_buf;
pub mod mem_file;
pub mod reactor;
pub mod registry;
pub mod schedule_io;
pub mod sleeper;
pub mod sock_opt;
pub mod timer;
pub mod waker;
