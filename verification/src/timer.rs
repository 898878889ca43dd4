//! Elapsed-cycle arithmetic over a free-running 32-bit cycle counter.

use vstd::prelude::*;

verus! {

/// Number of ticks between two readings of a free-running 32-bit counter,
/// taken modulo 2^32.
pub open spec fn spec_elapsed(start: u32, end: u32) -> int {
    (end - start) % 0x1_0000_0000
}

/// Difference of two counter readings.
///
/// The counter is never reset between measurements, so the interval is the
/// wrapped difference of the readings. It equals the true tick count as long
/// as the measured interval is shorter than 2^32 ticks.
pub fn elapsed_cycles(start: u32, end: u32) -> (elapsed: u32)
    ensures
        elapsed as int == spec_elapsed(start, end),
        start <= end ==> elapsed == end - start,
        start > end ==> elapsed == end + 0x1_0000_0000 - start,
{
    end.wrapping_sub(start)
}

/// The wrapped difference is the true tick count whenever fewer than 2^32
/// ticks pass between the readings, wherever the counter started and whether
/// or not it wrapped around in between.
pub proof fn lemma_elapsed_exact_below_one_wrap(start: u32, ticks: nat)
    requires
        ticks < 0x1_0000_0000,
    ensures
        spec_elapsed(start, ((start + ticks) % 0x1_0000_0000) as u32) == ticks,
{
}

/// Measures how many ticks `operation` takes.
///
/// Reads the counter, runs `operation` once to completion, reads the counter
/// again and returns the wrapped difference of the two readings. An
/// operation that runs for 2^32 ticks or more is not detected.
pub fn measure_cycles<C: Fn() -> u32, F: FnOnce()>(read_counter: C, operation: F) -> (elapsed: u32)
    requires
        read_counter.requires(()),
        operation.requires(()),
    ensures
        operation.ensures((), ()),
        exists|start: u32, end: u32|
            read_counter.ensures((), start) && read_counter.ensures((), end) && elapsed as int
                == spec_elapsed(start, end),
{
    let start: u32 = read_counter();
    operation();
    let end: u32 = read_counter();
    elapsed_cycles(start, end)
}

} // verus!
