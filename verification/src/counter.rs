//! A pure model of the kernel counter's read and write transitions.
//!
//! The kernel serializes reads and writes on one counter object as atomic
//! transactions. Each transaction is a function of the counter's current value
//! and the object's mode alone; the functions below state those transitions,
//! and the lemmas prove the laws the primitive obeys. The handle's methods
//! perform the same transitions through the kernel.

use vstd::prelude::*;

verus! {

/// The largest value the kernel counter can hold: one less than the maximum
/// 64-bit value. An addition that would carry the counter past this limit
/// blocks the writer (or fails with would-block) until readers make room.
pub const COUNTER_LIMIT: u64 = 0xffff_ffff_ffff_fffe;

/// Whether a read finds nothing to take: a read of an empty counter suspends
/// the caller, or fails at once with would-block on a non-blocking handle.
pub open spec fn read_blocks(ctr: nat) -> bool {
    ctr == 0
}

/// The value a successful read hands back: the whole counter in normal mode,
/// exactly one in semaphore mode.
pub open spec fn read_value(ctr: nat, semaphore: bool) -> nat
    recommends
        ctr > 0,
{
    if semaphore {
        1
    } else {
        ctr
    }
}

/// The counter left behind by a successful read: zero in normal mode, one
/// less in semaphore mode.
pub open spec fn read_leftover(ctr: nat, semaphore: bool) -> nat
    recommends
        ctr > 0,
{
    if semaphore {
        (ctr - 1) as nat
    } else {
        0
    }
}

/// Whether adding `v` to the counter stays within the representable range.
/// When it does not, the write suspends the caller (or fails with would-block
/// on a non-blocking handle); the counter is left unchanged either way until
/// room is made.
pub open spec fn write_fits(ctr: nat, v: nat) -> bool {
    ctr + v <= COUNTER_LIMIT
}

/// The counter after a successful write: the write adds its value atomically.
/// Writing zero is accepted and leaves the counter as it was.
pub open spec fn write_sum(ctr: nat, v: nat) -> nat
    recommends
        write_fits(ctr, v),
{
    ctr + v
}

/// The values handed back by `n` successive successful semaphore-mode reads
/// of a counter holding `ctr`.
pub open spec fn semaphore_reads(ctr: nat, n: nat) -> Seq<nat>
    recommends
        n <= ctr,
    decreases n,
{
    if n == 0 {
        Seq::empty()
    } else {
        seq![read_value(ctr, true)] + semaphore_reads(read_leftover(ctr, true), (n - 1) as nat)
    }
}

/// The counter left after `n` successive successful reads in the given mode.
pub open spec fn counter_after_reads(ctr: nat, n: nat, semaphore: bool) -> nat
    decreases n,
{
    if n == 0 {
        ctr
    } else {
        counter_after_reads(read_leftover(ctr, semaphore), (n - 1) as nat, semaphore)
    }
}

/// The sum of a sequence of counter values.
pub open spec fn total(vals: Seq<nat>) -> nat
    decreases vals.len(),
{
    if vals.len() == 0 {
        0
    } else {
        vals[0] + total(vals.drop_first())
    }
}

/// Law: a write of `v` into an empty counter followed by a normal-mode read
/// hands back exactly `v` and empties the counter again, so a further read
/// finds nothing and, on a non-blocking handle, reports would-block.
///
/// A write of zero is left out: it is a no-op, and the read that follows it
/// blocks rather than returning zero.
pub proof fn lemma_write_then_read_round_trip(v: nat)
    requires
        1 <= v <= COUNTER_LIMIT,
    ensures
        write_fits(0, v),
        !read_blocks(write_sum(0, v)),
        read_value(write_sum(0, v), false) == v,
        read_leftover(write_sum(0, v), false) == 0,
        read_blocks(read_leftover(write_sum(0, v), false)),
{
}

/// Law: writes through any two duplicate handles accumulate additively, in
/// either interleaving order, and a normal-mode read afterwards hands back
/// the initial value plus every write.
pub proof fn lemma_writes_accumulate(init: nat, a: nat, b: nat)
    requires
        init + a + b <= COUNTER_LIMIT,
    ensures
        write_fits(init, a) && write_fits(write_sum(init, a), b),
        write_fits(init, b) && write_fits(write_sum(init, b), a),
        write_sum(write_sum(init, a), b) == write_sum(write_sum(init, b), a),
        init + a + b > 0 ==> read_value(write_sum(write_sum(init, a), b), false) == init + a + b,
{
}

/// Law: a counter holding at least `n` admits `n` successive semaphore-mode
/// reads, each handing back exactly one; together they take `n` off the
/// counter, so their sum is `n` and `ctr - n` remains pending.
pub proof fn lemma_semaphore_drain(ctr: nat, n: nat)
    requires
        n <= ctr,
    ensures
        semaphore_reads(ctr, n) =~= Seq::new(n, |i: int| 1nat),
        total(semaphore_reads(ctr, n)) == n,
        counter_after_reads(ctr, n, true) == ctr - n,
        forall|i: int| 0 <= i < n ==> !read_blocks(#[trigger] counter_after_reads(ctr, i as nat, true)),
    decreases n,
{
    if n > 0 {
        lemma_semaphore_drain((ctr - 1) as nat, (n - 1) as nat);
        assert(semaphore_reads(ctr, n) =~= Seq::new(n, |i: int| 1nat));
        assert(semaphore_reads(ctr, n).drop_first() =~= semaphore_reads(
            (ctr - 1) as nat,
            (n - 1) as nat,
        ));
        assert forall|i: int| 0 <= i < n implies !read_blocks(
            #[trigger] counter_after_reads(ctr, i as nat, true),
        ) by {
            if i > 0 {
                assert(counter_after_reads(ctr, i as nat, true) == counter_after_reads(
                    (ctr - 1) as nat,
                    (i - 1) as nat,
                    true,
                ));
            }
        }
    }
}

} // verus!
