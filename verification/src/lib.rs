//! A thin, verified binding for the Linux kernel's 64-bit event counter.
//!
//! An [`EventFD`] owns one reference to a kernel counter object. Writing adds to
//! the counter; reading drains it (or, in semaphore mode, decrements it by one),
//! blocking or failing with a would-block error according to the mode the object
//! was created with. Duplicating a handle yields a second owner of the same
//! kernel object, so reads and writes through either are visible to both.
//!
//! The kernel's documented read/write transitions are stated as a pure model in
//! [`counter`], together with proofs of the laws the primitive obeys; the
//! syscalls themselves sit behind a handful of trusted wrappers in [`handle`].

pub mod counter;
pub mod error;
pub mod flags;
pub mod handle;
pub mod stream;

pub use crate::error::OsError;
pub use crate::flags::ModeFlags;
pub use crate::handle::EventFD;
pub use crate::stream::StreamStatus;
