//! One turn of the event stream's background read-loop.
//!
//! The stream adapter turns a handle into a push-based sequence of counter
//! values: a background loop holds its own duplicate of the handle, repeatedly
//! reads it, and hands each value to the consumer through a single-slot
//! synchronous channel. The single slot is deliberate: buffering more than one
//! undelivered value would let the stream run ahead of the kernel counter's
//! true state, so a slow consumer stalls the loop instead.
//!
//! The loop itself runs on a dedicated thread outside this library; what each
//! turn of it does is decided here, by [`EventFD::stream_once`]. The loop's
//! only termination signal is a failed hand-off (the consumer dropped its
//! receive endpoint), and that is observed only between reads: a loop blocked
//! inside a read on a blocking-mode handle cannot be cancelled until the next
//! write unblocks it. That latency is an accepted limit of the design, not a
//! defect.

use vstd::prelude::*;
use crate::counter::COUNTER_LIMIT;
use crate::error::OsError;
use crate::handle::EventFD;

verus! {

/// Declares std's bounded synchronous channel sender, which vstd gives no
/// specification.
#[verifier::external_type_specification]
#[verifier::external_body]
#[verifier::reject_recursive_types(T)]
pub struct ExSyncSender<T>(std::sync::mpsc::SyncSender<T>);

/// What one turn of the stream's background loop did, and what the loop must
/// do next.
#[derive(Clone, Copy, PartialEq, Eq, Structural, Debug)]
pub enum StreamStatus {
    /// A counter value was read and handed to the consumer: loop again.
    Delivered(u64),
    /// The consumer dropped its receive endpoint: the loop stops and its
    /// duplicate handle is released. This is the graceful termination path.
    Disconnected,
    /// The read itself failed: fatal for the loop alone, which stops and
    /// surfaces the error to whoever runs it rather than swallowing it.
    ReadFailed(OsError),
}

/// Relies on `std::sync::mpsc::SyncSender::send`: blocks until a channel slot
/// is free, and hands back whether the value was accepted — it is refused
/// exactly when the receiver end has been dropped.
#[verifier::external_body]
fn chan_send(tx: &std::sync::mpsc::SyncSender<u64>, v: u64) -> (r: bool) {
    tx.send(v).is_ok()
}

/// The decision a turn of the background loop ends with, given what the read
/// and the hand-off came back with: a failed read is fatal as is, whatever
/// became of the hand-off; a read value the consumer accepted was delivered;
/// one the consumer refused means the consumer is gone.
pub fn loop_status(read_result: Result<u64, OsError>, accepted: bool) -> (r: StreamStatus)
    ensures
        read_result matches Ok(v) ==> r == (if accepted {
            StreamStatus::Delivered(v)
        } else {
            StreamStatus::Disconnected
        }),
        read_result matches Err(e) ==> r == StreamStatus::ReadFailed(e),
{
    match read_result {
        Ok(v) => if accepted {
            StreamStatus::Delivered(v)
        } else {
            StreamStatus::Disconnected
        },
        Err(e) => StreamStatus::ReadFailed(e),
    }
}

impl EventFD {
    /// One turn of the stream's background loop: read this handle, hand the
    /// value to the consumer through `tx`, and end with the status
    /// [`loop_status`] decides. A delivered value obeys the counter's bounds
    /// — and in semaphore mode is exactly one; a refused hand-off means the
    /// consumer is gone; a failed read is reported as is, and on a
    /// non-blocking handle it can only be would-block.
    ///
    /// A value the consumer never took is not lost with it: it is written
    /// back (best effort) before the loop is told to stop, so the undelivered
    /// increment remains pending on the underlying kernel counter, by design.
    pub fn stream_once(&self, tx: &std::sync::mpsc::SyncSender<u64>) -> (r: StreamStatus)
        ensures
            r matches StreamStatus::Delivered(v) ==> 1 <= v <= COUNTER_LIMIT,
            self.spec_mode().semaphore ==> (r matches StreamStatus::Delivered(v) ==> v == 1),
            r matches StreamStatus::ReadFailed(e) ==> (self.spec_mode().nonblock
                ==> e.spec_would_block()),
    {
        let read_result = self.read();
        let accepted = match read_result {
            Ok(v) => chan_send(tx, v),
            Err(_) => false,
        };
        if let Ok(v) = read_result {
            if !accepted {
                let _ = self.write(v);
            }
        }
        loop_status(read_result, accepted)
    }
}

} // verus!
