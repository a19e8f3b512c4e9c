//! Scalars from IEEE 754 single-precision numbers, given by their bits.

use crate::gcd::gcd;
use crate::scalar::{
    abs, in_range, lemma_not_representable, lemma_ratio_cross, lemma_ratio_equal, ratio,
    representable, Extended, Scalar,
};
use vstd::arithmetic::power2::{
    lemma2_to64, lemma2_to64_rest, lemma_pow2_adds, lemma_pow2_pos, lemma_pow2_strictly_increases,
    lemma_pow2_unfold, pow2,
};
use vstd::prelude::*;

verus! {

/// The value of the single-precision number with the bit pattern `bits`: one
/// sign bit, eight bits of exponent and twenty-three bits of fraction. Both
/// zeros are zero, and a number that no scalar can hold is NaN.
pub open spec fn single_value(bits: u32) -> Extended {
    let negative = bits / 0x8000_0000 == 1;
    let exponent = (bits / 0x80_0000) % 0x100;
    let fraction = bits % 0x80_0000;
    if exponent == 0xff {
        if fraction != 0 {
            Extended::Nan
        } else if negative {
            Extended::NegInfinity
        } else {
            Extended::PosInfinity
        }
    } else {
        let significand: int = if exponent == 0 {
            fraction as int
        } else {
            fraction + 0x80_0000
        };
        let signed: int = if negative {
            -significand
        } else {
            significand
        };
        if exponent >= 150 {
            Extended::from_real(ratio(signed * pow2((exponent - 150) as nat), 1))
        } else if exponent == 0 {
            Extended::from_real(ratio(signed, pow2(149) as int))
        } else {
            Extended::from_real(ratio(signed, pow2((150 - exponent) as nat) as int))
        }
    }
}

/// The power of two with the exponent `e`.
fn power_of_two(e: u32) -> (r: u128)
    requires
        e <= 126,
    ensures
        r == pow2(e as nat),
        1 <= r <= 0x4000_0000_0000_0000_0000_0000_0000_0000,
{
    let mut r: u128 = 1;
    let mut i: u32 = 0;
    proof {
        lemma2_to64();
        lemma_top_power();
    }
    while i < e
        invariant
            i <= e <= 126,
            r == pow2(i as nat),
            r >= 1,
            pow2(126) == 0x4000_0000_0000_0000_0000_0000_0000_0000,
        decreases e - i,
    {
        proof {
            lemma_pow2_unfold((i + 1) as nat);
            if i + 1 < 126 {
                lemma_pow2_strictly_increases((i + 1) as nat, 126);
            }
        }
        r = r * 2;
        i = i + 1;
    }
    proof {
        if e < 126 {
            lemma_pow2_strictly_increases(e as nat, 126);
        }
    }
    r
}

/// The values of two large powers of two.
proof fn lemma_top_power()
    ensures
        pow2(126) == 0x4000_0000_0000_0000_0000_0000_0000_0000,
        pow2(87) == 0x80_0000_0000_0000_0000_0000,
{
    lemma2_to64();
    lemma2_to64_rest();
    lemma_pow2_adds(63, 63);
    lemma_pow2_adds(64, 23);
    assert(0x8000_0000_0000_0000int * 0x8000_0000_0000_0000int
        == 0x4000_0000_0000_0000_0000_0000_0000_0000int) by (nonlinear_arith);
    assert(0x1_0000_0000_0000_0000int * 0x80_0000int == 0x80_0000_0000_0000_0000_0000int)
        by (nonlinear_arith);
}

/// An integer beyond the range of the numerators is a value that no scalar
/// can hold.
proof fn lemma_integer_out_of_range(n: int)
    requires
        abs(n) > i64::MAX,
    ensures
        !representable(ratio(n, 1)),
{
    reveal_with_fuel(gcd, 3);
    assert(abs(n) == 1 * abs(n)) by (nonlinear_arith);
    lemma_not_representable(n, 1, abs(n), 1, 1);
}

/// A fraction with a small numerator that is not zero and a denominator of
/// more than 87 bits is a value that no scalar can hold.
proof fn lemma_fraction_out_of_range(n: int, d: int)
    requires
        n != 0,
        -0x100_0000 < n < 0x100_0000,
        d >= 0x80_0000_0000_0000_0000_0000,
    ensures
        !representable(ratio(n, d)),
{
    assert forall|p: int, q: int| in_range(p, q) implies ratio(n, d) != #[trigger] ratio(p, q) by {
        if ratio(n, d) == ratio(p, q) {
            lemma_ratio_cross(n, d, p, q);
            assert(false) by (nonlinear_arith)
                requires
                    n * q == p * d,
                    n != 0,
                    -0x100_0000 < n < 0x100_0000,
                    0 < q <= 0x7fff_ffff_ffff_ffff,
                    d >= 0x80_0000_0000_0000_0000_0000,
            ;
        }
    }
}

impl Scalar {
    /// The scalar with the value of the single-precision number with the bit
    /// pattern `bits`. Both zeros give zero; a number that no scalar can hold
    /// gives NaN.
    pub fn from_ieee_single(bits: u32) -> (r: Scalar)
        ensures
            r@ == single_value(bits),
    {
        let negative = bits / 0x8000_0000 == 1;
        let exponent: u32 = (bits / 0x80_0000) % 0x100;
        let fraction: u32 = bits % 0x80_0000;
        if exponent == 0xff {
            return if fraction != 0 {
                Scalar::nan()
            } else if negative {
                Scalar::neg_infinity()
            } else {
                Scalar::infinity()
            };
        }
        let significand: u32 = if exponent == 0 {
            fraction
        } else {
            fraction + 0x80_0000
        };
        let signed: i128 = if negative {
            -(significand as i128)
        } else {
            significand as i128
        };
        proof {
            lemma_top_power();
            lemma2_to64();
        }
        if exponent >= 150 {
            let shift: u32 = exponent - 150;
            proof {
                lemma_pow2_pos(shift as nat);
            }
            if shift >= 64 {
                proof {
                    let p = pow2(shift as nat) as int;
                    if shift > 64 {
                        lemma_pow2_strictly_increases(64, shift as nat);
                    }
                    assert(abs(signed * p) > i64::MAX) by (nonlinear_arith)
                        requires
                            p >= 0x1_0000_0000_0000_0000,
                            signed >= 0x80_0000 || signed <= -0x80_0000,
                    ;
                    lemma_integer_out_of_range(signed * p);
                }
                Scalar::nan()
            } else {
                let p = power_of_two(shift);
                proof {
                    if shift < 63 {
                        lemma_pow2_strictly_increases(shift as nat, 63);
                    }
                    lemma2_to64_rest();
                    assert(-0x80_0000_0000_0000_0000_0000 < signed * p
                        < 0x80_0000_0000_0000_0000_0000) by (nonlinear_arith)
                        requires
                            0 < p <= 0x8000_0000_0000_0000,
                            -0x100_0000 < signed < 0x100_0000,
                    ;
                }
                Scalar::reduce(signed * (p as i128), 1)
            }
        } else {
            let shift: u32 = if exponent == 0 {
                149
            } else {
                150 - exponent
            };
            if significand == 0 {
                proof {
                    lemma_pow2_pos(shift as nat);
                    assert(0 * 1 == 0 * pow2(shift as nat)) by (nonlinear_arith);
                    lemma_ratio_equal(0, pow2(shift as nat) as int, 0, 1);
                }
                Scalar::reduce(0, 1)
            } else if shift > 126 {
                proof {
                    lemma_pow2_strictly_increases(87, shift as nat);
                    lemma_fraction_out_of_range(signed as int, pow2(shift as nat) as int);
                }
                Scalar::nan()
            } else {
                let p = power_of_two(shift);
                Scalar::reduce(signed, p as i128)
            }
        }
    }
}

} // verus!
