use mass_props::scalar::Scalar;

#[test]
fn fractions_are_kept_in_lowest_terms() {
    assert_eq!(Scalar::new(2, 4), Scalar::new(1, 2));
    assert_eq!(Scalar::new(2, 4).parts(), (1, 2));
    assert_eq!(Scalar::new(3, -6).parts(), (-1, 2));
    assert_eq!(Scalar::new(0, 7).parts(), (0, 1));
    assert_eq!(Scalar::new(-10, -4).parts(), (5, 2));
}

#[test]
fn division_by_zero_gives_the_special_values() {
    assert_eq!(Scalar::new(5, 0), Scalar::infinity());
    assert_eq!(Scalar::new(-5, 0), Scalar::neg_infinity());
    assert_eq!(Scalar::new(0, 0), Scalar::nan());
    assert_eq!(Scalar::infinity().parts(), (1, 0));
    assert_eq!(Scalar::neg_infinity().parts(), (-1, 0));
    assert_eq!(Scalar::nan().parts(), (0, 0));
}

#[test]
fn sums_are_exact() {
    assert_eq!(Scalar::new(1, 2).add(Scalar::new(1, 3)), Scalar::new(5, 6));
    assert_eq!(Scalar::new(1, 2).add(Scalar::new(-1, 2)), Scalar::zero());
    assert_eq!(Scalar::new(1, 6).add(Scalar::new(1, 3)), Scalar::new(1, 2));
    assert_eq!(Scalar::from_int(7).sub(Scalar::new(1, 2)), Scalar::new(13, 2));
}

#[test]
fn products_are_exact() {
    assert_eq!(Scalar::new(2, 3).mul(Scalar::new(3, 4)), Scalar::new(1, 2));
    assert_eq!(Scalar::new(-2, 3).mul(Scalar::new(3, 2)), Scalar::from_int(-1));
    assert_eq!(Scalar::from_int(0).mul(Scalar::new(3, 4)), Scalar::zero());
}

#[test]
fn reciprocal_swaps_numerator_and_denominator() {
    assert_eq!(Scalar::new(2, 3).recip(), Scalar::new(3, 2));
    assert_eq!(Scalar::new(-2, 3).recip(), Scalar::new(-3, 2));
    assert_eq!(Scalar::zero().recip(), Scalar::infinity());
    assert_eq!(Scalar::infinity().recip(), Scalar::zero());
    assert_eq!(Scalar::neg_infinity().recip(), Scalar::zero());
    assert!(Scalar::nan().recip().is_nan());
}

#[test]
fn special_values_follow_the_usual_conventions() {
    let inf = Scalar::infinity();
    let ninf = Scalar::neg_infinity();
    let one = Scalar::one();
    assert_eq!(inf.add(one), inf);
    assert_eq!(one.add(ninf), ninf);
    assert_eq!(inf.add(inf), inf);
    assert!(inf.add(ninf).is_nan());
    assert!(inf.sub(inf).is_nan());
    assert_eq!(inf.mul(Scalar::from_int(-2)), ninf);
    assert_eq!(ninf.mul(ninf), inf);
    assert!(inf.mul(Scalar::zero()).is_nan());
    assert!(Scalar::nan().add(one).is_nan());
    assert!(Scalar::nan().mul(one).is_nan());
    assert_eq!(inf.neg(), ninf);
}

#[test]
fn a_result_out_of_range_is_nan() {
    let big = Scalar::from_int(i64::MAX);
    assert!(big.is_finite());
    assert!(big.add(Scalar::one()).is_nan());
    assert!(big.mul(Scalar::from_int(2)).is_nan());
    assert!(big.recip().mul(Scalar::new(1, 2)).is_nan());
    assert!(Scalar::from_int(i64::MIN).is_nan());
    assert!(Scalar::new(i64::MIN, 1).is_nan());
    assert_eq!(Scalar::new(i64::MIN, 2).parts(), (i64::MIN / 2, 1));
    assert_eq!(Scalar::new(i64::MIN, i64::MIN), Scalar::one());
    assert_eq!(big.mul(big.recip()), Scalar::one());
}

#[test]
fn classification() {
    assert!(Scalar::one().is_positive());
    assert!(Scalar::infinity().is_positive());
    assert!(!Scalar::zero().is_positive());
    assert!(!Scalar::nan().is_positive());
    assert!(Scalar::new(-1, 3).is_negative());
    assert!(Scalar::neg_infinity().is_negative());
    assert!(Scalar::zero().is_zero());
    assert!(!Scalar::nan().is_zero());
    assert!(Scalar::one().is_finite());
    assert!(!Scalar::infinity().is_finite());
    assert!(!Scalar::nan().is_finite());
    assert_eq!(Scalar::default(), Scalar::zero());
}
