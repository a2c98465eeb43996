//! Field addition: a reference algorithm and two division-free variants.
use vstd::prelude::*;
use crate::modulus::{
    add_mod, canonical, lemma_residue, sub_mod, sub_once, LOWER_MASK, P128, P64,
};
use crate::laws::lemma_additions_agree;

verus! {

/// Reference addition: the exact sum, reduced by a division.
pub fn add(x: u64, y: u64) -> (r: u64)
    ensures
        r == add_mod(x as int, y as int),
{
    let sum: u128 = x as u128 + y as u128;
    (sum % P128) as u64
}

/// Addition by one conditional subtraction of `p` from the exact sum.
pub fn add_fast(x: u64, y: u64) -> (r: u64)
    requires
        canonical(x as int),
        canonical(y as int),
    ensures
        r == sub_once(x + y),
        r == add_mod(x as int, y as int),
{
    let mut sum: u128 = x as u128 + y as u128;
    if sum >= P128 {
        sum -= P128;
    }
    proof {
        lemma_additions_agree(x as int, y as int);
    }
    sum as u64
}

/// Branch-free addition through `x + y = x - (p - y)`: the borrow of the
/// 64-bit subtraction is turned into a mask of `2^32 - 1`, whose removal
/// completes the correction by `p = 2^64 - (2^32 - 1)`.
pub fn add_winterfell(x: u64, y: u64) -> (r: u64)
    requires
        canonical(x as int),
        canonical(y as int),
    ensures
        r == sub_mod(x as int, P64 - y),
        r == add_mod(x as int, y as int),
{
    let (x1, c1) = x.overflowing_sub(P64 - y);
    let adj = 0u32.wrapping_sub(c1 as u32);
    proof {
        assert(adj == if c1 { LOWER_MASK } else { 0 });
    }
    let r = x1.wrapping_sub(adj as u64);
    proof {
        let k: int = if c1 { -1 } else { 0 };
        lemma_residue(x - (P64 - y), r as int, k);
        lemma_additions_agree(x as int, y as int);
    }
    r
}

} // verus!
