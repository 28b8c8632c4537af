//! Interest, readiness and event types shared by the reactor.

use vstd::prelude::*;

verus! {

/// The directions a source can be registered for.
#[derive(Clone, Copy, Debug, PartialEq, Eq, Structural)]
pub struct Interest {
    /// Wait for the source to become readable.
    pub read: bool,
    /// Wait for the source to become writable.
    pub write: bool,
}

impl Interest {
    /// Interest in readability alone.
    pub fn readable() -> (r: Interest)
        ensures
            r.read && !r.write,
    {
        Interest { read: true, write: false }
    }

    /// Interest in writability alone.
    pub fn writable() -> (r: Interest)
        ensures
            !r.read && r.write,
    {
        Interest { read: false, write: true }
    }

    /// The union of two interests.
    pub fn add(self, other: Interest) -> (r: Interest)
        ensures
            r.read == (self.read || other.read),
            r.write == (self.write || other.write),
    {
        Interest { read: self.read || other.read, write: self.write || other.write }
    }
}

/// The readiness mask of a schedule entry or of one kernel event.
#[derive(Clone, Copy, Debug, PartialEq, Eq, Structural)]
pub struct Ready {
    /// The source has data to read.
    pub readable: bool,
    /// The source accepts writes.
    pub writable: bool,
    /// The peer closed the read half.
    pub read_closed: bool,
    /// The peer closed the write half.
    pub write_closed: bool,
    /// The source is in an error state.
    pub error: bool,
}

impl Ready {
    /// No readiness at all.
    pub open spec fn spec_empty() -> Ready {
        Ready { readable: false, writable: false, read_closed: false, write_closed: false, error: false }
    }

    /// Whether the mask wakes readers: readable, read-closed or error.
    pub open spec fn read_edge(self) -> bool {
        self.readable || self.read_closed || self.error
    }

    /// Whether the mask wakes writers: writable, write-closed or error.
    pub open spec fn write_edge(self) -> bool {
        self.writable || self.write_closed || self.error
    }

    /// The bitwise union of two masks.
    pub open spec fn union(self, other: Ready) -> Ready {
        Ready {
            readable: self.readable || other.readable,
            writable: self.writable || other.writable,
            read_closed: self.read_closed || other.read_closed,
            write_closed: self.write_closed || other.write_closed,
            error: self.error || other.error,
        }
    }

    /// No readiness at all.
    pub fn empty() -> (r: Ready)
        ensures
            r == Ready::spec_empty(),
    {
        Ready { readable: false, writable: false, read_closed: false, write_closed: false, error: false }
    }

    /// Merge another mask into this one.
    pub fn merge(self, other: Ready) -> (r: Ready)
        ensures
            r == self.union(other),
    {
        Ready {
            readable: self.readable || other.readable,
            writable: self.writable || other.writable,
            read_closed: self.read_closed || other.read_closed,
            write_closed: self.write_closed || other.write_closed,
            error: self.error || other.error,
        }
    }

    /// Whether the mask wakes readers.
    pub fn is_read_edge(&self) -> (r: bool)
        ensures
            r == self.read_edge(),
    {
        self.readable || self.read_closed || self.error
    }

    /// Whether the mask wakes writers.
    pub fn is_write_edge(&self) -> (r: bool)
        ensures
            r == self.write_edge(),
    {
        self.writable || self.write_closed || self.error
    }
}

/// The direction a task waits for.
#[derive(Clone, Copy, Debug, PartialEq, Eq, Structural)]
pub enum Direction {
    /// Waiting to read.
    Read,
    /// Waiting to write.
    Write,
}

/// A completion token carried through the kernel as event user-data.
#[derive(Clone, Copy, Debug, PartialEq, Eq, Hash, Structural)]
pub struct Token(pub u64);

impl Token {
    /// A token from a plain index value.
    pub fn from_usize(val: usize) -> (r: Token)
        ensures
            r.0 == val,
    {
        Token(val as u64)
    }
}

/// One readiness event as the kernel reports it.
#[derive(Clone, Copy, Debug, PartialEq, Eq, Structural)]
pub struct Event {
    /// The token the source was registered under.
    pub token: Token,
    /// The readiness the kernel reported.
    pub ready: Ready,
}

} // verus!
