//! The field's modulus and the mathematical model of field elements.
use vstd::prelude::*;

verus! {

/// The field order `2^64 - 2^32 + 1`.
pub const P64: u64 = 0xffff_ffff_0000_0001;

/// The field order, widened for arithmetic on double-width values.
pub const P128: u128 = 0xffff_ffff_0000_0001;

/// `2^32 - 1`, the value to which `2^64` is congruent modulo the field order.
pub const LOWER_MASK: u64 = 0xffff_ffff;

/// A representation is canonical when it is the least residue of its class.
pub open spec fn canonical(x: int) -> bool {
    0 <= x < P64
}

/// The canonical sum of two residues.
pub open spec fn add_mod(x: int, y: int) -> int {
    (x + y) % (P64 as int)
}

/// The canonical difference of two residues.
pub open spec fn sub_mod(x: int, y: int) -> int {
    (x - y) % (P64 as int)
}

/// The canonical product of two residues.
pub open spec fn mul_mod(x: int, y: int) -> int {
    (x * y) % (P64 as int)
}

/// The four 32-bit limbs `a, b, c, d` of `v` (least significant first) folded
/// into one value congruent to `v`, using `2^64 = 2^32 - 1` and `2^96 = -1`
/// modulo `p`: the low half `ab`, less `d`, plus `c * (2^32 - 1)`.
pub open spec fn limb_fold(v: int) -> int {
    let ab = v % 0x1_0000_0000_0000_0000;
    let cd = v / 0x1_0000_0000_0000_0000;
    let c = cd % 0x1_0000_0000;
    let d = cd / 0x1_0000_0000;
    ab - d + c * 0xffff_ffff
}

/// Montgomery reduction with radix `R = 2^64`: the canonical residue of
/// `v * R^-1`, where `R^-1 = p - 2^32 = 0xffff_fffe_0000_0001`.
pub open spec fn redc(v: int) -> int {
    (v * 0xffff_fffe_0000_0001) % (P64 as int)
}

/// A value in `[0, 2p)` brought into `[0, p)` by at most one subtraction of `p`.
pub open spec fn sub_once(s: int) -> int {
    if s >= P64 {
        s - P64
    } else {
        s
    }
}

/// When `v == r + k * p` with `r` canonical, `r` is the residue of `v`.
pub proof fn lemma_residue(v: int, r: int, k: int)
    requires
        canonical(r),
        v == r + k * P64,
    ensures
        v % (P64 as int) == r,
{
    vstd::arithmetic::div_mod::lemma_fundamental_div_mod_converse(v, P64 as int, k, r);
}

/// Adding a multiple of `p` does not change the residue.
pub proof fn lemma_congruent(v: int, w: int, k: int)
    requires
        v == w + k * P64,
    ensures
        v % (P64 as int) == w % (P64 as int),
{
    vstd::arithmetic::div_mod::lemma_mod_multiples_vanish(k, w, P64 as int);
    assert(P64 * k == k * P64) by (nonlinear_arith);
}

} // verus!
