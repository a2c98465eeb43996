use prime_field::{
    add, add_fast, add_winterfell, montgomery_equals, mul, mul_reduce159, mul_reduce_montgomery,
    random_elements, reduce_montgomery,
};

#[test]
fn add_equivalence() {
    let n_operations = 1_000;
    let operands = random_elements(n_operations + 1);
    for pair in operands.windows(2) {
        let (x, y) = (pair[0], pair[1]);
        assert_eq!(add(x, y), add_fast(x, y));
        assert_eq!(add(x, y), add_winterfell(x, y));
    }
}

#[test]
fn mul_equivalence() {
    let n_operations = 1_000;
    let operands = random_elements(n_operations + 1);
    for pair in operands.windows(2) {
        let (x, y) = (pair[0], pair[1]);
        let expected_product = mul(x, y);
        assert_eq!(expected_product, mul_reduce159(x, y));

        let expected_montgomery_product = reduce_montgomery(expected_product as u128);
        let actual_montgomery_product = mul_reduce_montgomery(x, y);
        assert!(montgomery_equals(
            expected_montgomery_product,
            actual_montgomery_product
        ));
    }
}
