use mass_props::scalar::Scalar;

fn single(x: f32) -> Scalar {
    Scalar::from_ieee_single(x.to_bits())
}

fn as_double(s: Scalar) -> f64 {
    let (n, d) = s.parts();
    n as f64 / d as f64
}

#[test]
fn simple_numbers_are_exact() {
    assert_eq!(single(1.0), Scalar::one());
    assert_eq!(single(0.5), Scalar::new(1, 2));
    assert_eq!(single(-0.75), Scalar::new(-3, 4));
    assert_eq!(single(3.0), Scalar::from_int(3));
    assert_eq!(single(1024.0), Scalar::from_int(1024));
    assert_eq!(single(-6.25), Scalar::new(-25, 4));
}

#[test]
fn both_zeros_are_zero() {
    assert_eq!(single(0.0), Scalar::zero());
    assert_eq!(single(-0.0), Scalar::zero());
}

#[test]
fn special_numbers() {
    assert_eq!(single(f32::INFINITY), Scalar::infinity());
    assert_eq!(single(f32::NEG_INFINITY), Scalar::neg_infinity());
    assert!(single(f32::NAN).is_nan());
    assert!(Scalar::from_ieee_single(0x7f80_0001).is_nan());
    assert!(Scalar::from_ieee_single(0xffc0_0000).is_nan());
}

#[test]
fn one_tenth_is_the_nearest_single() {
    assert_eq!(single(0.1), Scalar::new(13421773, 134217728));
}

#[test]
fn values_agree_with_the_hardware() {
    for x in [0.785_398_2_f32, 1.273_239_5, 0.098_174_77, 123456.79, -3.0e-5, 7.0e10, 1.0e-9] {
        let s = single(x);
        assert!(s.is_finite());
        assert_eq!(as_double(s), x as f64);
    }
}

#[test]
fn large_and_small_numbers() {
    // 2^62 fits, 2^63 does not
    assert_eq!(single(4_611_686_018_427_387_904.0), Scalar::from_int(1 << 62));
    assert!(single(9_223_372_036_854_775_808.0).is_nan());
    assert!(single(f32::MAX).is_nan());
    assert!(single(f32::MIN).is_nan());
    // 2^-62 fits, 2^-63 does not
    assert_eq!(Scalar::from_ieee_single((127 - 62) << 23), Scalar::new(1, 1 << 62));
    assert!(Scalar::from_ieee_single((127 - 63) << 23).is_nan());
    assert!(single(f32::MIN_POSITIVE).is_nan());
    assert!(Scalar::from_ieee_single(1).is_nan());
    assert!(Scalar::from_ieee_single(0x8000_0001).is_nan());
}
