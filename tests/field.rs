use prime_field::{
    add, add_fast, add_winterfell, montgomery_equals, mul, mul_reduce159, mul_reduce_montgomery,
    random_elements, reduce159, reduce_montgomery, P128, P64,
};

/// `2^-64` modulo p.
const R_INV: u64 = 0xffff_fffe_0000_0001;

#[test]
fn modulus_value() {
    assert_eq!(P64, 18446744069414584321);
    assert_eq!(P128, 18446744069414584321u128);
}

#[test]
fn add_exact_values() {
    assert_eq!(add(5, 7), 12);
    assert_eq!(add_fast(5, 7), 12);
    assert_eq!(add_winterfell(5, 7), 12);
    assert_eq!(add(P64 - 1, P64 - 1), P64 - 2);
    assert_eq!(add_fast(P64 - 1, P64 - 1), P64 - 2);
    assert_eq!(add_winterfell(P64 - 1, P64 - 1), P64 - 2);
}

#[test]
fn add_boundary_values() {
    assert_eq!(add(P64 - 1, 1), 0);
    assert_eq!(add_fast(P64 - 1, 1), 0);
    assert_eq!(add_winterfell(P64 - 1, 1), 0);
    assert_eq!(add(0, 0), 0);
    assert_eq!(add_fast(0, 0), 0);
    assert_eq!(add_winterfell(0, 0), 0);
}

#[test]
fn add_fast_sum_equal_to_modulus() {
    let x = 1u64 << 63;
    let y = P64 - x;
    assert_eq!(add_fast(x, y), 0);
    assert_eq!(add_winterfell(x, y), 0);
    assert_eq!(add(x, y), 0);
}

#[test]
fn mul_exact_values() {
    assert_eq!(mul(3, 5), 15);
    assert_eq!(mul(P64 - 1, 2), P64 - 2);
    assert_eq!(mul_reduce159(P64 - 1, 2), P64 - 2);
    assert_eq!(mul(1u64 << 32, 1u64 << 32), (1u64 << 32) - 1);
    assert_eq!(mul_reduce159(1u64 << 32, 1u64 << 32), (1u64 << 32) - 1);
}

#[test]
fn mul_boundary_values() {
    assert_eq!(mul(P64 - 1, P64 - 1), 1);
    assert_eq!(mul_reduce159(P64 - 1, P64 - 1), 1);
    assert_eq!(mul_reduce_montgomery(P64 - 1, P64 - 1), reduce_montgomery(1));
    for y in [0u64, 1, 2, 12345, P64 - 1] {
        assert_eq!(mul(0, y), 0);
        assert_eq!(mul_reduce159(0, y), 0);
        assert_eq!(mul_reduce_montgomery(0, y), 0);
    }
}

#[test]
fn reduce159_product_just_below_two_to_sixty_four() {
    // (2^32 + 1)(2^32 - 1) = 2^64 - 1, which lies in [p, 2^64)
    let x = (1u64 << 32) + 1;
    let y = (1u64 << 32) - 1;
    assert_eq!(mul(x, y), (1u64 << 32) - 2);
    assert_eq!(mul_reduce159(x, y), (1u64 << 32) - 2);
}

#[test]
fn reduce159_whole_range() {
    let values = [
        0u128,
        1,
        P128 - 1,
        P128,
        P128 + 1,
        u64::MAX as u128,
        1u128 << 64,
        1u128 << 96,
        (1u128 << 96) - 1,
        u128::MAX,
    ];
    for v in values {
        assert_eq!(reduce159(v) as u128, v % P128);
    }
}

#[test]
fn reduce_montgomery_exact_values() {
    assert_eq!(reduce_montgomery(0), 0);
    assert_eq!(reduce_montgomery(1), R_INV);
    // 2^64 * 2^-64 = 1
    assert_eq!(reduce_montgomery(1u128 << 64), 1);
    assert_eq!(reduce_montgomery(5u128 << 64), 5);
}

#[test]
fn reduce_montgomery_congruence_on_large_values() {
    for v in [u128::MAX, u128::MAX - 12345, (P128 << 64) + 7, 1u128 << 127] {
        let r = reduce_montgomery(v);
        let expected = mul((v % P128) as u64, R_INV);
        assert_eq!(r as u128 % P128, expected as u128);
    }
}

#[test]
fn montgomery_consistency_on_fixed_values() {
    let samples = [0u64, 1, 2, 3, 1u64 << 32, (1u64 << 32) + 1, P64 - 2, P64 - 1, 0x1234_5678_9abc_def0];
    for &x in samples.iter() {
        for &y in samples.iter() {
            let expected = reduce_montgomery(mul(x, y) as u128);
            assert_eq!(mul_reduce_montgomery(x, y), expected);
            // multiplying back by 2^64 = 2^32 - 1 (mod p) recovers the product
            assert_eq!(mul(mul_reduce_montgomery(x, y), (1u64 << 32) - 1), mul(x, y));
        }
    }
}

#[test]
fn montgomery_equals_is_exact_equality() {
    assert!(montgomery_equals(0, 0));
    assert!(montgomery_equals(u64::MAX, u64::MAX));
    assert!(!montgomery_equals(0, 1));
    assert!(!montgomery_equals(1u64 << 63, 0));
    // two representations of zero that differ by p are not judged equal
    assert!(!montgomery_equals(0, P64));
}

#[test]
fn algebraic_laws_on_fixed_values() {
    let (x, y, z) = (P64 - 3, 0x1234_5678_9abc_def0u64, (1u64 << 40) + 17);
    assert_eq!(add(x, y), add(y, x));
    assert_eq!(mul(x, y), mul(y, x));
    assert_eq!(add(add(x, y), z), add(x, add(y, z)));
    assert_eq!(mul(mul(x, y), z), mul(x, mul(y, z)));
    assert_eq!(mul(x, add(y, z)), add(mul(x, y), mul(x, z)));
    assert_eq!(add(x, 0), x);
    assert_eq!(mul(x, 1), x);
    assert_eq!(mul(0, y), 0);
}

#[test]
fn random_elements_count_and_range() {
    for n in [0usize, 1, 10, 257] {
        let values = random_elements(n);
        assert_eq!(values.len(), n + 1);
        for v in values {
            assert!(v < P64);
        }
    }
}

#[test]
fn end_to_end_scenario() {
    let p: u64 = 18446744069414584321;
    assert_eq!(p, P64);
    assert_eq!(add(p - 1, 2), 1);
    assert_eq!(add_fast(p - 1, 2), 1);
    assert_eq!(add_winterfell(p - 1, 2), 1);
    let half = (((p as u128 + 1) / 2) % p as u128) as u64;
    assert_eq!(mul(2, half), 1);
    assert_eq!(mul_reduce159(2, half), 1);
    for v in [0u64, 1, 12345, p - 2] {
        assert!(montgomery_equals(v, v));
        assert!(!montgomery_equals(v, v + 1));
    }
}
