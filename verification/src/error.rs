//! Error classification used across the driver core.
//!
//! The kernel and the blocking pool report failures as I/O errors; the
//! library keeps only the classification, which is all the state machines
//! act on (a sticky write error, for instance, stores just the kind).

use vstd::prelude::*;

verus! {

/// The classification of an I/O failure.
#[derive(Clone, Copy, Debug, PartialEq, Eq, Structural)]
pub enum ErrorKind {
    /// The named entity does not exist.
    NotFound,
    /// The caller lacks the permission for the operation.
    PermissionDenied,
    /// The operation would have to block to proceed.
    WouldBlock,
    /// A parameter was malformed, such as a seek to a negative offset.
    InvalidInput,
    /// A write could not transfer any bytes.
    WriteZero,
    /// The operation was interrupted before completion.
    Interrupted,
    /// Storage for the operation is exhausted.
    StorageFull,
    /// Any failure outside the kinds above.
    Other,
}

} // verus!
