use mass_props::gcd::gcd_u128;

#[test]
fn gcd_of_small_numbers() {
    assert_eq!(gcd_u128(12, 18), 6);
    assert_eq!(gcd_u128(18, 12), 6);
    assert_eq!(gcd_u128(17, 5), 1);
    assert_eq!(gcd_u128(0, 9), 9);
    assert_eq!(gcd_u128(9, 0), 9);
    assert_eq!(gcd_u128(0, 0), 0);
    assert_eq!(gcd_u128(1, u128::MAX), 1);
    assert_eq!(gcd_u128(1 << 100, 1 << 90), 1 << 90);
}
