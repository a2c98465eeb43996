//! The identities that make the algorithms of this crate interchangeable, and
//! the algebraic laws of the field operations.
use vstd::prelude::*;
use vstd::arithmetic::div_mod::{
    lemma_add_mod_noop, lemma_mod_multiples_vanish, lemma_mul_mod_noop_general, lemma_small_mod,
};
use vstd::arithmetic::mul::{
    lemma_mul_is_associative, lemma_mul_is_commutative, lemma_mul_is_distributive_add,
};
use crate::modulus::{
    add_mod, canonical, lemma_congruent, limb_fold, mul_mod, redc, sub_mod, sub_once, P64,
};

verus! {

/// For canonical operands the three additions agree: one conditional
/// subtraction of `p` from the exact sum, and the subtraction of the
/// complement `p - y` from `x`, both give the canonical sum.
pub proof fn lemma_additions_agree(x: int, y: int)
    requires
        canonical(x),
        canonical(y),
    ensures
        sub_once(x + y) == add_mod(x, y),
        sub_mod(x, P64 - y) == add_mod(x, y),
{
    lemma_congruent(x + y, sub_once(x + y), if x + y >= P64 { 1 } else { 0 });
    lemma_small_mod(sub_once(x + y) as nat, P64 as nat);
    lemma_congruent(x + y, x - (P64 - y), 1);
}

/// Folding the limbs of a non-negative value keeps its residue modulo `p`.
pub proof fn lemma_limb_fold(v: int)
    requires
        0 <= v,
    ensures
        limb_fold(v) % (P64 as int) == v % (P64 as int),
{
    let ab = v % 0x1_0000_0000_0000_0000;
    let cd = v / 0x1_0000_0000_0000_0000;
    let c = cd % 0x1_0000_0000;
    let d = cd / 0x1_0000_0000;
    vstd::arithmetic::div_mod::lemma_fundamental_div_mod(v, 0x1_0000_0000_0000_0000);
    vstd::arithmetic::div_mod::lemma_fundamental_div_mod(cd, 0x1_0000_0000);
    assert(v == ab + c * 0x1_0000_0000_0000_0000 + d * 0x1_0000_0000_0000_0000_0000_0000);
    lemma_congruent(v, limb_fold(v), c + d * 0x1_0000_0001);
}

/// For canonical operands the limb reduction of the product is the canonical
/// product.
pub proof fn lemma_multiplications_agree(x: int, y: int)
    requires
        canonical(x),
        canonical(y),
    ensures
        limb_fold(x * y) % (P64 as int) == mul_mod(x, y),
{
    assert(0 <= x * y) by (nonlinear_arith)
        requires
            0 <= x,
            0 <= y,
    ;
    lemma_limb_fold(x * y);
}

/// Montgomery reduction of the product of canonical operands equals
/// Montgomery reduction of their canonical product, and that canonical
/// product lies below `2^64 * p`, where the reduction is exact.
pub proof fn lemma_montgomery_consistent(x: int, y: int)
    requires
        canonical(x),
        canonical(y),
    ensures
        redc(x * y) == redc(mul_mod(x, y)),
        0 <= mul_mod(x, y) < 0x1_0000_0000_0000_0000 * P64,
{
    lemma_mul_mod_noop_general(x * y, 0xffff_fffe_0000_0001, P64 as int);
}

/// Addition and multiplication modulo `p` are commutative.
pub proof fn lemma_commutative(x: int, y: int)
    ensures
        add_mod(x, y) == add_mod(y, x),
        mul_mod(x, y) == mul_mod(y, x),
{
    lemma_mul_is_commutative(x, y);
}

/// Addition and multiplication modulo `p` are associative on canonical values.
pub proof fn lemma_associative(x: int, y: int, z: int)
    requires
        canonical(x),
        canonical(y),
        canonical(z),
    ensures
        add_mod(add_mod(x, y), z) == add_mod(x, add_mod(y, z)),
        mul_mod(mul_mod(x, y), z) == mul_mod(x, mul_mod(y, z)),
{
    let m = P64 as int;
    lemma_small_mod(x as nat, P64 as nat);
    lemma_small_mod(z as nat, P64 as nat);
    lemma_add_mod_noop(x + y, z, m);
    lemma_add_mod_noop(x, y + z, m);
    assert(x + y + z == x + (y + z));
    lemma_mul_mod_noop_general(x * y, z, m);
    lemma_mul_mod_noop_general(x, y * z, m);
    lemma_mul_is_associative(x, y, z);
}

/// Multiplication modulo `p` distributes over addition modulo `p` on
/// canonical values.
pub proof fn lemma_distributive(x: int, y: int, z: int)
    requires
        canonical(x),
        canonical(y),
        canonical(z),
    ensures
        mul_mod(x, add_mod(y, z)) == add_mod(mul_mod(x, y), mul_mod(x, z)),
{
    let m = P64 as int;
    lemma_mul_mod_noop_general(x, y + z, m);
    lemma_small_mod(x as nat, P64 as nat);
    lemma_mul_is_distributive_add(x, y, z);
    lemma_add_mod_noop(x * y, x * z, m);
}

/// Zero is the additive identity and one the multiplicative identity on
/// canonical values, and zero times anything is zero.
pub proof fn lemma_identities(x: int, y: int)
    requires
        canonical(x),
    ensures
        add_mod(x, 0) == x,
        add_mod(0, x) == x,
        mul_mod(x, 1) == x,
        mul_mod(1, x) == x,
        mul_mod(0, y) == 0,
        mul_mod(y, 0) == 0,
{
    lemma_small_mod(x as nat, P64 as nat);
    lemma_mod_multiples_vanish(0, 0, P64 as int);
}

} // verus!
