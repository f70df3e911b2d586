//! Recoverable errors reported by the kernel during construction, read or write.

use vstd::prelude::*;

verus! {

/// The platform error number for an operation that would have had to suspend
/// the caller (`EAGAIN` on Linux).
pub const WOULD_BLOCK_ERRNO: i32 = 11;

/// A failure returned by the kernel, carrying the platform error number.
///
/// A would-block error is a normal, expected outcome on a non-blocking handle,
/// not an exceptional one: callers must treat it as a routine branch.
#[derive(Clone, Copy, PartialEq, Eq, Structural, Debug)]
pub struct OsError {
    /// The platform error number the kernel reported.
    pub errno: i32,
}

impl OsError {
    /// Whether the operation would have had to suspend the
    /// calling thread and failed at once instead.
    pub open spec fn spec_would_block(&self) -> bool {
        self.errno == WOULD_BLOCK_ERRNO
    }

    /// An error carrying the given platform error number.
    pub fn from_errno(errno: i32) -> (r: OsError)
        ensures
            r.errno == errno,
    {
        OsError { errno }
    }

    /// Whether this error reports that the operation would have blocked.
    pub fn is_would_block(&self) -> (r: bool)
        ensures
            r == self.spec_would_block(),
    {
        self.errno == WOULD_BLOCK_ERRNO
    }
}

} // verus!
