//! Mode flags recorded on a kernel counter object at creation time.

use vstd::prelude::*;

verus! {

/// The mode a kernel counter object is created with.
///
/// The mode lives in the kernel object itself, not in any one handle: every
/// duplicate of a handle observes the same mode.
#[derive(Clone, Copy, PartialEq, Eq, Structural, Debug)]
pub struct ModeFlags {
    /// Reads and writes that would suspend the caller instead fail at once
    /// with a would-block error.
    pub nonblock: bool,
    /// A read decrements the counter by exactly one and returns one, instead
    /// of draining the whole counter.
    pub semaphore: bool,
    /// The kernel object reference is not inherited across a process image
    /// replacement.
    pub cloexec: bool,
}

impl ModeFlags {
    /// No flags: blocking reads and writes, draining reads.
    pub fn empty() -> (r: ModeFlags)
        ensures
            r == (ModeFlags { nonblock: false, semaphore: false, cloexec: false }),
    {
        ModeFlags { nonblock: false, semaphore: false, cloexec: false }
    }

    /// Only the non-blocking flag.
    pub fn nonblock() -> (r: ModeFlags)
        ensures
            r == (ModeFlags { nonblock: true, semaphore: false, cloexec: false }),
    {
        ModeFlags { nonblock: true, semaphore: false, cloexec: false }
    }

    /// Only the semaphore flag.
    pub fn semaphore() -> (r: ModeFlags)
        ensures
            r == (ModeFlags { nonblock: false, semaphore: true, cloexec: false }),
    {
        ModeFlags { nonblock: false, semaphore: true, cloexec: false }
    }

    /// Only the close-on-exec flag.
    pub fn cloexec() -> (r: ModeFlags)
        ensures
            r == (ModeFlags { nonblock: false, semaphore: false, cloexec: true }),
    {
        ModeFlags { nonblock: false, semaphore: false, cloexec: true }
    }

    /// The combination of the flags set in `self` and in `other`.
    pub fn union(self, other: ModeFlags) -> (r: ModeFlags)
        ensures
            r.nonblock == (self.nonblock || other.nonblock),
            r.semaphore == (self.semaphore || other.semaphore),
            r.cloexec == (self.cloexec || other.cloexec),
    {
        ModeFlags {
            nonblock: self.nonblock || other.nonblock,
            semaphore: self.semaphore || other.semaphore,
            cloexec: self.cloexec || other.cloexec,
        }
    }
}

} // verus!
