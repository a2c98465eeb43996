//! Contracts for the std integer operations that report a carry or a borrow.
use vstd::prelude::*;

verus! {

/// Relies on `u64::overflowing_add`: the sum wrapped at `2^64`, with a flag
/// that is set exactly when the true sum does not fit in 64 bits.
pub assume_specification[ u64::overflowing_add ](x: u64, y: u64) -> (r: (u64, bool))
    ensures
        r.0 == (if x + y > u64::MAX { x + y - 0x1_0000_0000_0000_0000 } else { x + y }),
        r.1 == (x + y > u64::MAX),
;

/// Relies on `u64::overflowing_sub`: the difference wrapped at `2^64`, with a
/// flag that is set exactly when the true difference is negative.
pub assume_specification[ u64::overflowing_sub ](x: u64, y: u64) -> (r: (u64, bool))
    ensures
        r.0 == (if x < y { x - y + 0x1_0000_0000_0000_0000 } else { x - y }),
        r.1 == (x < y),
;

} // verus!
