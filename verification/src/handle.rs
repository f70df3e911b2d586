//! The owning handle on a kernel counter object.

use vstd::prelude::*;
use crate::counter::COUNTER_LIMIT;
use crate::error::{OsError, WOULD_BLOCK_ERRNO};
use crate::flags::ModeFlags;

verus! {

/// An instance of a kernel event counter: an owning wrapper around one
/// reference to a kernel counter object, created with [`EventFD::new`].
///
/// Duplicating the handle with `clone` yields a second owner of the *same*
/// kernel object: reads and writes through either handle observe and mutate
/// one shared counter, and the object is released only when the last owner's
/// lifetime ends. The reference is released when the handle is dropped.
pub struct EventFD {
    fd: i32,
    mode: ModeFlags,
}

/// Relies on `eventfd(2)` through `nix::sys::eventfd::eventfd`: allocates a
/// kernel counter object initialized to `initval`, in the mode named by the
/// three flags, and hands back its non-negative descriptor; on failure hands
/// back the platform error number.
#[verifier::external_body]
fn sys_eventfd(initval: u32, nonblock: bool, semaphore: bool, cloexec: bool) -> (r: Result<
    i32,
    i32,
>)
    ensures
        r matches Ok(fd) ==> fd >= 0,
{
    let mut flags = nix::sys::eventfd::EfdFlags::empty();
    if nonblock {
        flags |= nix::sys::eventfd::EfdFlags::EFD_NONBLOCK;
    }
    if semaphore {
        flags |= nix::sys::eventfd::EfdFlags::EFD_SEMAPHORE;
    }
    if cloexec {
        flags |= nix::sys::eventfd::EfdFlags::EFD_CLOEXEC;
    }
    match nix::sys::eventfd::eventfd(initval, flags) {
        Ok(fd) => Ok(fd),
        Err(e) => Err(e as i32),
    }
}

/// Relies on `read(2)` on a handle's own event counter descriptor, through
/// `nix::unistd::read`: a successful read takes the counter's eight bytes in
/// the platform's native order, and its value is never zero and never above
/// the counter's limit; on failure hands back the platform error number.
/// `nonblock` and `semaphore` are the descriptor's own mode: a non-blocking
/// read never sleeps, so the only failure it can report on an event counter
/// is would-block; and a semaphore-mode read takes exactly one off the
/// counter and hands back exactly one.
#[verifier::external_body]
fn sys_read_counter(fd: i32, nonblock: bool, semaphore: bool) -> (r: Result<u64, i32>)
    ensures
        r matches Ok(v) ==> 1 <= v <= COUNTER_LIMIT,
        semaphore ==> (r matches Ok(v) ==> v == 1),
        nonblock ==> (r matches Err(e) ==> e == WOULD_BLOCK_ERRNO),
{
    let mut buf = [0u8; 8];
    match nix::unistd::read(fd, &mut buf) {
        Ok(_) => Ok(u64::from_ne_bytes(buf)),
        Err(e) => Err(e as i32),
    }
}

/// Relies on `write(2)` on a handle's own event counter descriptor, through
/// `nix::unistd::write`: hands the kernel the value's eight bytes in the
/// platform's native order, to be added atomically to the counter; on failure
/// hands back the platform error number. Adding zero can never carry the
/// counter past its limit, so the kernel accepts a zero write at once.
/// `nonblock` is the descriptor's own mode: a non-blocking write never
/// sleeps, so for a representable value the only failure it can report is
/// would-block. The one value above the counter's limit, the maximum 64-bit
/// value itself, is refused with an invalid-argument error whatever the
/// counter holds, never with would-block.
#[verifier::external_body]
fn sys_add_counter(fd: i32, val: u64, nonblock: bool) -> (r: Result<(), i32>)
    ensures
        val == 0 ==> r is Ok,
        nonblock && val <= COUNTER_LIMIT ==> (r matches Err(e) ==> e == WOULD_BLOCK_ERRNO),
{
    let buf: [u8; 8] = val.to_ne_bytes();
    match nix::unistd::write(fd, &buf) {
        Ok(_) => Ok(()),
        Err(e) => Err(e as i32),
    }
}

/// Relies on `dup(2)` through `nix::unistd::dup`: the non-negative descriptor
/// handed back refers to the same open kernel object as `fd`. A kernel that
/// cannot duplicate the reference leaves no safe degraded mode, so this
/// panics rather than reporting a recoverable error.
#[verifier::external_body]
fn sys_dup(fd: i32) -> (r: i32)
    ensures
        r >= 0,
{
    nix::unistd::dup(fd).unwrap()
}

/// Relies on `close(2)` through `nix::unistd::close`: releases one reference
/// to the kernel object. By the time a failure here is seen the reference is
/// already being relinquished, so the result is discarded.
#[verifier::external_body]
fn sys_close(fd: i32)
    opens_invariants none
    no_unwind
{
    let _ = nix::unistd::close(fd);
}

impl EventFD {
    /// The raw kernel object reference this handle owns.
    pub closed spec fn spec_fd(&self) -> i32 {
        self.fd
    }

    /// The mode flags recorded on this handle: the mode of the underlying
    /// kernel object, shared with every duplicate.
    pub closed spec fn spec_mode(&self) -> ModeFlags {
        self.mode
    }

    /// A handle holds a valid (non-negative) kernel object reference.
    pub open spec fn wf(&self) -> bool {
        self.spec_fd() >= 0
    }

    /// Allocates a new kernel counter object initialized to `initval` and
    /// configured with `flags`, and hands back the handle that exclusively
    /// owns the new reference. Fails with the platform error if the kernel
    /// cannot allocate the object (for instance on resource exhaustion).
    pub fn new(initval: u32, flags: ModeFlags) -> (r: Result<EventFD, OsError>)
        ensures
            r matches Ok(e) ==> e.wf() && e.spec_mode() == flags,
    {
        match sys_eventfd(initval, flags.nonblock, flags.semaphore, flags.cloexec) {
            Ok(fd) => Ok(EventFD { fd, mode: flags }),
            Err(errno) => Err(OsError::from_errno(errno)),
        }
    }

    /// Atomically reads and resets the counter, as one kernel transaction.
    ///
    /// In normal mode a successful read hands back the whole counter and
    /// leaves zero behind; in semaphore mode it takes exactly one and hands
    /// back exactly one ([`crate::counter::read_value`] and
    /// [`crate::counter::read_leftover`] state the transition). A read of an
    /// empty counter suspends the caller until a write arrives, unless the
    /// object is in non-blocking mode, in which case it fails at once with a
    /// would-block error. A successful read is therefore never zero, and
    /// never above the counter's limit; and on a non-blocking handle, which
    /// never sleeps, would-block is the only failure a read can report.
    pub fn read(&self) -> (r: Result<u64, OsError>)
        ensures
            r matches Ok(v) ==> 1 <= v <= COUNTER_LIMIT,
            self.spec_mode().semaphore ==> (r matches Ok(v) ==> v == 1),
            self.spec_mode().nonblock ==> (r matches Err(e) ==> e.spec_would_block()),
    {
        match sys_read_counter(self.fd, self.mode.nonblock, self.mode.semaphore) {
            Ok(v) => Ok(v),
            Err(errno) => Err(OsError::from_errno(errno)),
        }
    }

    /// Atomically adds `val` to the counter, as one kernel transaction
    /// ([`crate::counter::write_sum`] states the transition). Writing zero is
    /// accepted and is a no-op that always succeeds: adding zero can never
    /// carry the counter past its limit. An addition that would carry it past
    /// the limit suspends the caller until reads make room, unless the object
    /// is in non-blocking mode, in which case it fails at once with a
    /// would-block error — and on a non-blocking handle that is the only
    /// failure a write of a representable value can report. The one value
    /// above the limit, the maximum 64-bit value itself, is always refused by
    /// the kernel with an invalid-argument error.
    pub fn write(&self, val: u64) -> (r: Result<(), OsError>)
        ensures
            val == 0 ==> r is Ok,
            self.spec_mode().nonblock && val <= COUNTER_LIMIT ==> (r matches Err(e)
                ==> e.spec_would_block()),
    {
        match sys_add_counter(self.fd, val, self.mode.nonblock) {
            Ok(()) => Ok(()),
            Err(errno) => Err(OsError::from_errno(errno)),
        }
    }

    /// The mode flags the underlying kernel object was created with.
    pub fn flags(&self) -> (r: ModeFlags)
        ensures
            r == self.spec_mode(),
    {
        self.mode
    }

    /// Borrows the underlying kernel object reference, for interoperation
    /// with lower-level facilities. The reference stays valid only as long as
    /// this handle, or one of its un-dropped duplicates, is alive.
    pub fn as_raw_fd(&self) -> (r: i32)
        ensures
            r == self.spec_fd(),
    {
        self.fd
    }

    /// Consumes the handle and transfers ownership of the kernel object
    /// reference out of it: the reference is no longer released when the
    /// handle's lifetime ends, and the caller becomes responsible for it.
    ///
    /// Relies on `core::mem::forget` to skip the handle's release.
    #[verifier::external_body]
    pub fn into_raw_fd(self) -> (r: i32)
        ensures
            r == self.spec_fd(),
    {
        let fd = self.fd;
        core::mem::forget(self);
        fd
    }
}

impl Clone for EventFD {
    /// Duplicates the underlying kernel object reference: the new handle is
    /// an independent owner of the *same* kernel counter, indistinguishable
    /// in use from the original, and records the same mode. A duplication
    /// failure is fatal (it panics): the kernel leaves no safe degraded mode
    /// and callers cannot meaningfully retry it.
    fn clone(&self) -> (r: EventFD)
        ensures
            r.wf() && r.spec_mode() == self.spec_mode(),
    {
        EventFD { fd: sys_dup(self.fd), mode: self.mode }
    }
}

impl Drop for EventFD {
    /// Releases this handle's reference to the kernel object. The object
    /// itself is destroyed by the kernel only once every duplicate's
    /// reference has been released.
    fn drop(&mut self)
        opens_invariants none
        no_unwind
    {
        sys_close(self.fd);
    }
}

} // verus!
