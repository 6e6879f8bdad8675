//! Wraparound-safe arithmetic on the free-running 32-bit millisecond clock.

use vstd::prelude::*;

verus! {

/// Largest elapsed reading that the snapshot expiry test accepts as genuine
/// passage of time. A difference in the upper half of the 32-bit range can
/// only come from a timestamp written after the sample it is compared
/// against (or from a node left unfed for more than ~24.8 days, which is
/// outside the clock's contract).
pub const HALF_RANGE_MS: u32 = 0x7FFF_FFFF;

/// Milliseconds from the clock sample `last` to the clock sample `now`,
/// modulo 2^32. Correct across clock rollover as long as the true distance
/// is below 2^32.
pub open spec fn elapsed_ms(now: u32, last: u32) -> u32 {
    if now >= last {
        (now - last) as u32
    } else {
        (now - last + 0x1_0000_0000) as u32
    }
}

/// A clock sample taken `d` milliseconds after the sample `t`, wrapping
/// modulo 2^32.
pub open spec fn advance_ms(t: u32, d: u32) -> u32 {
    if t + d > u32::MAX {
        (t + d - 0x1_0000_0000) as u32
    } else {
        (t + d) as u32
    }
}

/// Computes `elapsed_ms` with wrapping subtraction.
pub fn elapsed_since(now: u32, last: u32) -> (e: u32)
    ensures
        e == elapsed_ms(now, last),
{
    now.wrapping_sub(last)
}

/// Wraparound correctness of the elapsed-time formula: however the 32-bit
/// clock wraps, a sample taken `d` milliseconds after `last` compares to
/// `last` as exactly `d` elapsed milliseconds.
pub proof fn lemma_elapsed_ms_roundtrip(last: u32, d: u32)
    ensures
        elapsed_ms(advance_ms(last, d), last) == d,
{
}

} // verus!
