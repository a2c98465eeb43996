//! Field multiplication: a reference algorithm and two division-free
//! reductions of the 128-bit product.
use vstd::prelude::*;
use crate::modulus::{
    canonical, lemma_congruent, lemma_residue, limb_fold, mul_mod, redc, LOWER_MASK, P128, P64,
};
use crate::laws::lemma_limb_fold;

verus! {

/// The product of two 64-bit values fits in 128 bits.
proof fn lemma_product_fits(x: u64, y: u64)
    ensures
        x * y <= u128::MAX,
{
    assert(x * y <= u64::MAX * u64::MAX) by (nonlinear_arith);
}

/// Reference multiplication: the exact product, reduced by a division.
pub fn mul(x: u64, y: u64) -> (r: u64)
    ensures
        r == mul_mod(x as int, y as int),
{
    proof {
        lemma_product_fits(x, y);
    }
    let product: u128 = x as u128 * y as u128;
    (product % P128) as u64
}

/// Multiplication through the limb reduction of `reduce159`.
pub fn mul_reduce159(x: u64, y: u64) -> (r: u64)
    requires
        canonical(x as int),
        canonical(y as int),
    ensures
        r == limb_fold(x * y) % (P64 as int),
        r == mul_mod(x as int, y as int),
{
    proof {
        lemma_product_fits(x, y);
    }
    let product: u128 = x as u128 * y as u128;
    reduce159(product)
}

/// Multiplication followed by one Montgomery reduction: the canonical residue
/// of `x * y * 2^-64`.
pub fn mul_reduce_montgomery(x: u64, y: u64) -> (r: u64)
    requires
        canonical(x as int),
        canonical(y as int),
    ensures
        r == redc(x * y),
{
    proof {
        lemma_product_fits(x, y);
        assert(x * y <= (P64 - 1) * (P64 - 1)) by (nonlinear_arith)
            requires
                x < P64,
                y < P64,
        ;
    }
    let product: u128 = x as u128 * y as u128;
    reduce_montgomery(product)
}

/// Reduces a 128-bit value modulo `p` without a division. The value is read as
/// the 64-bit half `ab` and the 32-bit limbs `c` and `d` above it, and
/// `ab - d + c * 2^32 - c` is formed with each borrow and carry corrected by
/// `2^32 - 1`; a last conditional subtraction makes the result canonical.
pub fn reduce159(x: u128) -> (r: u64)
    ensures
        r == limb_fold(x as int) % (P64 as int),
        r == x % P128,
{
    let ab = x as u64;
    let cd = (x >> 64) as u64;
    let c = (cd as u32) as u64;
    let d = cd >> 32;
    proof {
        assert(ab == x % 0x1_0000_0000_0000_0000 && cd == x / 0x1_0000_0000_0000_0000)
            by (bit_vector)
            requires
                ab == x as u64,
                cd == (x >> 64) as u64,
        ;
        assert(c == cd % 0x1_0000_0000 && d == cd / 0x1_0000_0000) by (bit_vector)
            requires
                c == (cd as u32) as u64,
                d == cd >> 32,
        ;
    }

    // ab - d, where a borrow is repaired by adding 2^64 - (2^32 - 1) = p
    let (tmp0, is_under) = ab.overflowing_sub(d);
    let tmp1 = tmp0.wrapping_sub(LOWER_MASK * (is_under as u64));

    // c * 2^32 - c, which cannot borrow
    proof {
        assert(c << 32 == c * 0x1_0000_0000) by (bit_vector)
            requires
                c < 0x1_0000_0000,
        ;
    }
    let tmp2 = (c << 32) - c;

    // the sum, where a carry of 2^64 is replaced by the congruent 2^32 - 1
    let (sum, is_over) = tmp1.overflowing_add(tmp2);
    let folded = sum.wrapping_add(LOWER_MASK * (is_over as u64));
    let r = if folded >= P64 {
        folded - P64
    } else {
        folded
    };
    proof {
        let k: int = (if is_under { 1int } else { 0 }) - (if is_over { 1int } else { 0 }) - (if folded
            >= P64 { 1int } else { 0 });
        assert(r == limb_fold(x as int) + k * P64);
        lemma_residue(limb_fold(x as int), r as int, -k);
        lemma_limb_fold(x as int);
    }
    r
}

/// One step of Montgomery reduction for `p` and the radix `R = 2^64`. With
/// `xl` and `xh` the halves of `x`, `a = xl * (1 + 2^32) mod 2^64` is the
/// multiple of `p` that cancels `xl` (as `p^-1 = 1 + 2^32 mod 2^64`),
/// `b = a - (a >> 32) - carry` is the high half of `a * p`, and the result is
/// `xh - b`, with a borrow repaired by adding `p = 2^64 - (2^32 - 1)`.
/// The result is congruent to `x * R^-1`, and canonical when `x < R * p`.
pub fn reduce_montgomery(x: u128) -> (r: u64)
    ensures
        (r as int) % (P64 as int) == redc(x as int),
        x < 0x1_0000_0000_0000_0000 * P64 ==> r == redc(x as int),
{
    let xl = x as u64;
    let xh = (x >> 64) as u64;
    proof {
        assert(xl == x % 0x1_0000_0000_0000_0000 && xh == x / 0x1_0000_0000_0000_0000)
            by (bit_vector)
            requires
                xl == x as u64,
                xh == (x >> 64) as u64,
        ;
        assert(xl << 32 == (xl % 0x1_0000_0000) * 0x1_0000_0000) by (bit_vector);
    }
    let (a, e) = xl.overflowing_add(xl << 32);
    proof {
        assert(a >> 32 == a / 0x1_0000_0000) by (bit_vector);
        let hi = xl / 0x1_0000_0000;
        let lo = xl % 0x1_0000_0000;
        let q = hi + lo - (if e { 0x1_0000_0000int } else { 0 });
        assert(a == q * 0x1_0000_0000 + lo);
        vstd::arithmetic::div_mod::lemma_fundamental_div_mod_converse(a as int, 0x1_0000_0000, q, lo as int);
    }
    let b = a.wrapping_sub(a >> 32).wrapping_sub(e as u64);
    proof {
        assert(b * 0x1_0000_0000_0000_0000 + xl == a * P64);
    }
    let (r, c) = xh.overflowing_sub(b);
    let r = r.wrapping_sub(0u32.wrapping_sub(c as u32) as u64);
    proof {
        let ci: int = if c { 1 } else { 0 };
        assert(r == xh - b + ci * P64);
        let m = r * 0xffff_fffe_ffff_ffffint + (a - ci * 0x1_0000_0000_0000_0000) * 0xffff_fffe_0000_0001int;
        assert(x * 0xffff_fffe_0000_0001int == r + m * P64);
        lemma_congruent(x * 0xffff_fffe_0000_0001int, r as int, m);
        if x < 0x1_0000_0000_0000_0000 * P64 {
            lemma_residue(x * 0xffff_fffe_0000_0001int, r as int, m);
        }
    }
    r
}

/// Branch-free equality of two representations: `t = lhs ^ rhs` is zero
/// exactly when they are equal, and the sign bit of `t | -t` is set exactly
/// when `t` is not zero. Only identical bit patterns are judged equal; two
/// representations of one residue that differ by `p` are not.
pub fn montgomery_equals(lhs: u64, rhs: u64) -> (r: bool)
    ensures
        r == (lhs == rhs),
{
    let t = lhs ^ rhs;
    let neg = 0u64.wrapping_sub(t);
    let sign = (#[verifier::truncate] ((t | neg) as i64)) >> 63;
    let r = 0xffff_ffff_ffff_ffffu64 == !(#[verifier::truncate] (sign as u64));
    proof {
        assert(r == (lhs == rhs)) by (bit_vector)
            requires
                t == lhs ^ rhs,
                neg == (if t == 0 { 0 } else { (u64::MAX - t + 1) as u64 }),
                sign == (#[verifier::truncate] ((t | neg) as i64)) >> 63,
                r == (0xffff_ffff_ffff_ffffu64 == !(#[verifier::truncate] (sign as u64))),
        ;
    }
    r
}

} // verus!
