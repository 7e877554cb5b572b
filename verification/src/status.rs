//! The status codes surfaced to clients of the filesystem protocol.

use vstd::prelude::*;

verus! {

/// Result of a protocol request, mirroring the status codes of a
/// POSIX-like remote filesystem protocol.  `BufferTooSmall` is only
/// produced by directory enumeration when the very first entry of a page
/// does not fit the caller's byte budget.
#[derive(Clone, Copy, Debug, PartialEq, Eq, Structural)]
pub enum Status {
    Okay,
    NotFound,
    NotFile,
    NotDir,
    NotSupported,
    InvalidArgs,
    AccessDenied,
    BadPath,
    OutOfRange,
    BadHandle,
    Io,
    BufferTooSmall,
}

impl Status {
    /// True exactly for the success status.
    pub fn is_ok(&self) -> (r: bool)
        ensures
            r == (*self == Status::Okay),
    {
        matches!(self, Status::Okay)
    }
}

} // verus!
