//! Exact scalars: rational numbers in lowest terms, extended by the two
//! infinities and by NaN.

use crate::gcd::{
    gcd, gcd_u128, lemma_coprime_symmetric, lemma_gcd_factors, lemma_gcd_positive,
    lemma_gcd_reduced, lemma_lowest_terms_minimal, lemma_lowest_terms_unique,
};
use vstd::prelude::*;

verus! {

/// The quotient of two integers as a real number.
pub open spec fn ratio(n: int, d: int) -> real {
    n as real / d as real
}

/// The numerators and denominators that a finite scalar can hold.
pub open spec fn in_range(n: int, d: int) -> bool {
    -i64::MAX <= n <= i64::MAX && 0 < d <= i64::MAX
}

/// Whether a scalar can hold the real number `x` exactly.
pub open spec fn representable(x: real) -> bool {
    exists|n: int, d: int| in_range(n, d) && x == #[trigger] ratio(n, d)
}

/// The value of a scalar: a real number, an infinity, or NaN.
///
/// The operations below follow the IEEE conventions for the special values
/// (`1 / 0` is `+inf`, `0 * inf` and `inf - inf` are NaN) and are exact on the
/// reals. A finite result that no scalar can hold is NaN.
pub enum Extended {
    Finite(real),
    PosInfinity,
    NegInfinity,
    Nan,
}

impl Extended {
    /// The real number `x` as a scalar value: `x` itself where a scalar can
    /// hold it, NaN where none can.
    pub open spec fn from_real(x: real) -> Extended {
        if representable(x) {
            Extended::Finite(x)
        } else {
            Extended::Nan
        }
    }

    /// The quotient `num / den`, with `x / 0` an infinity of the sign of `x`
    /// and `0 / 0` NaN.
    pub open spec fn fraction(num: int, den: int) -> Extended {
        if den != 0 {
            Extended::from_real(ratio(num, den))
        } else if num > 0 {
            Extended::PosInfinity
        } else if num < 0 {
            Extended::NegInfinity
        } else {
            Extended::Nan
        }
    }

    /// Zero.
    pub open spec fn zero() -> Extended {
        Extended::Finite(0 as real)
    }

    /// One.
    pub open spec fn one() -> Extended {
        Extended::Finite(1 as real)
    }

    /// A value that a scalar can hold: a finite one is representable.
    pub open spec fn is_scalar(self) -> bool {
        self matches Extended::Finite(x) ==> representable(x)
    }

    /// Neither an infinity nor NaN.
    pub open spec fn is_finite(self) -> bool {
        self is Finite
    }

    /// `1`, `-1` or `0` as the value is above, below or at zero; `0` for NaN.
    pub open spec fn sign(self) -> int {
        match self {
            Extended::Finite(x) => if x > 0 as real {
                1
            } else if x < 0 as real {
                -1
            } else {
                0
            },
            Extended::PosInfinity => 1,
            Extended::NegInfinity => -1,
            Extended::Nan => 0,
        }
    }

    /// Strictly above zero; `+inf` is, NaN is not.
    pub open spec fn is_positive(self) -> bool {
        self.sign() == 1
    }

    /// The sum.
    pub open spec fn plus(self, rhs: Extended) -> Extended {
        match (self, rhs) {
            (Extended::Nan, _) => Extended::Nan,
            (_, Extended::Nan) => Extended::Nan,
            (Extended::Finite(x), Extended::Finite(y)) => Extended::from_real(x + y),
            (Extended::Finite(_), _) => rhs,
            (_, Extended::Finite(_)) => self,
            _ => if self == rhs {
                self
            } else {
                Extended::Nan
            },
        }
    }

    /// The additive inverse.
    pub open spec fn negated(self) -> Extended {
        match self {
            Extended::Finite(x) => Extended::Finite(-x),
            Extended::PosInfinity => Extended::NegInfinity,
            Extended::NegInfinity => Extended::PosInfinity,
            Extended::Nan => Extended::Nan,
        }
    }

    /// The difference.
    pub open spec fn minus(self, rhs: Extended) -> Extended {
        self.plus(rhs.negated())
    }

    /// The product.
    pub open spec fn times(self, rhs: Extended) -> Extended {
        match (self, rhs) {
            (Extended::Nan, _) => Extended::Nan,
            (_, Extended::Nan) => Extended::Nan,
            (Extended::Finite(x), Extended::Finite(y)) => Extended::from_real(x * y),
            _ => if self.sign() == 0 || rhs.sign() == 0 {
                Extended::Nan
            } else if self.sign() == rhs.sign() {
                Extended::PosInfinity
            } else {
                Extended::NegInfinity
            },
        }
    }

    /// The multiplicative inverse, with `1 / 0 == +inf` and `1 / inf == 0`.
    pub open spec fn reciprocal(self) -> Extended {
        match self {
            Extended::Finite(x) => if x == 0 as real {
                Extended::PosInfinity
            } else {
                Extended::Finite(1 as real / x)
            },
            Extended::PosInfinity => Extended::Finite(0 as real),
            Extended::NegInfinity => Extended::Finite(0 as real),
            Extended::Nan => Extended::Nan,
        }
    }
}

impl Extended {
    /// The real number that a finite value holds, and zero for the others.
    pub open spec fn to_real(self) -> real {
        match self {
            Extended::Finite(x) => x,
            _ => 0 as real,
        }
    }

    /// A finite sum has finite terms and is their sum as real numbers.
    pub proof fn lemma_plus_exact(self, rhs: Extended)
        requires
            self.plus(rhs).is_finite(),
        ensures
            self.is_finite(),
            rhs.is_finite(),
            self.plus(rhs).to_real() == self.to_real() + rhs.to_real(),
    {
    }

    /// A finite difference has finite terms and is their difference as real
    /// numbers.
    pub proof fn lemma_minus_exact(self, rhs: Extended)
        requires
            self.minus(rhs).is_finite(),
        ensures
            self.is_finite(),
            rhs.is_finite(),
            self.minus(rhs).to_real() == self.to_real() - rhs.to_real(),
    {
    }

    /// A finite product has finite factors and is their product as real
    /// numbers.
    pub proof fn lemma_times_exact(self, rhs: Extended)
        requires
            self.times(rhs).is_finite(),
        ensures
            self.is_finite(),
            rhs.is_finite(),
            self.times(rhs).to_real() == self.to_real() * rhs.to_real(),
    {
    }

    /// The product does not depend on the order of the factors.
    pub proof fn lemma_times_commutative(self, rhs: Extended)
        ensures
            self.times(rhs) == rhs.times(self),
    {
        if self is Finite && rhs is Finite {
            let x = self.to_real();
            let y = rhs.to_real();
            assert(x * y == y * x) by (nonlinear_arith);
        }
    }

    /// Sums and products are values that a scalar can hold.
    pub proof fn lemma_results_are_scalars(self, rhs: Extended)
        ensures
            self.plus(rhs).is_scalar(),
            self.times(rhs).is_scalar(),
    {
    }

    /// Zero is the neutral element of the sum.
    pub proof fn lemma_plus_zero(self)
        requires
            self.is_scalar(),
        ensures
            self.plus(Extended::zero()) == self,
            Extended::zero().plus(self) == self,
    {
    }

    /// The reciprocal of a scalar value is a scalar value.
    pub proof fn lemma_reciprocal_is_scalar(self)
        requires
            self.is_scalar(),
        ensures
            self.reciprocal().is_scalar(),
    {
        assert(in_range(0, 1));
        lemma_ratio_sign(0, 1);
        if let Extended::Finite(x) = self {
            if x != 0 as real {
                let (n, d) = choose|n: int, d: int| in_range(n, d) && x == #[trigger] ratio(n, d);
                lemma_ratio_sign(n, d);
                if n > 0 {
                    assert(in_range(d, n));
                } else {
                    assert(in_range(-d, -n));
                }
            }
        }
    }

    /// Taking the reciprocal of a finite value twice gives the value back:
    /// for zero by way of `+inf`.
    pub proof fn lemma_reciprocal_round_trip(self)
        requires
            self.is_finite(),
        ensures
            self.reciprocal().reciprocal() == self,
    {
        let x = self.to_real();
        if x != 0 as real {
            assert(1 as real / x != 0 as real && 1 as real / (1 as real / x) == x)
                by (nonlinear_arith)
                requires
                    x != 0 as real,
            ;
        }
    }
}

/// The absolute value of an integer.
pub open spec fn abs(n: int) -> nat {
    if n < 0 {
        (-n) as nat
    } else {
        n as nat
    }
}

/// Fractions with equal cross products have equal values.
pub proof fn lemma_ratio_equal(a: int, b: int, c: int, d: int)
    by (nonlinear_arith)
    requires
        b != 0,
        d != 0,
        a * d == c * b,
    ensures
        ratio(a, b) == ratio(c, d),
{
}

/// Fractions with equal values have equal cross products.
pub proof fn lemma_ratio_cross(a: int, b: int, c: int, d: int)
    by (nonlinear_arith)
    requires
        b != 0,
        d != 0,
        ratio(a, b) == ratio(c, d),
    ensures
        a * d == c * b,
{
}

/// The sum of two fractions.
pub proof fn lemma_ratio_sum(a: int, b: int, c: int, d: int)
    by (nonlinear_arith)
    requires
        b != 0,
        d != 0,
    ensures
        ratio(a, b) + ratio(c, d) == ratio(a * d + c * b, b * d),
{
}

/// The product of two fractions.
pub proof fn lemma_ratio_product(a: int, b: int, c: int, d: int)
    by (nonlinear_arith)
    requires
        b != 0,
        d != 0,
    ensures
        ratio(a, b) * ratio(c, d) == ratio(a * c, b * d),
{
}

/// The sign and the inverses of a fraction with a positive denominator.
pub proof fn lemma_ratio_sign(a: int, b: int)
    by (nonlinear_arith)
    requires
        b > 0,
    ensures
        a > 0 <==> ratio(a, b) > 0 as real,
        a < 0 <==> ratio(a, b) < 0 as real,
        a == 0 <==> ratio(a, b) == 0 as real,
        -ratio(a, b) == ratio(-a, b),
        a > 0 ==> 1 as real / ratio(a, b) == ratio(b, a),
        a < 0 ==> 1 as real / ratio(a, b) == ratio(-b, -a),
        ratio(a, 1) == a as real,
{
}

/// The product of two numbers of at most 63 bits has at most 126 bits.
proof fn lemma_product_bound(x: int, y: int)
    by (nonlinear_arith)
    requires
        -i64::MAX <= x <= i64::MAX,
        -i64::MAX <= y <= i64::MAX,
    ensures
        -0x3fff_ffff_ffff_ffff_0000_0000_0000_0001 <= x * y <= 0x3fff_ffff_ffff_ffff_0000_0000_0000_0001,
{
}

/// A fraction whose lowest terms are out of range has a value that no scalar
/// can hold.
pub proof fn lemma_not_representable(n: int, d: int, u: nat, v: nat, g: nat)
    requires
        d > 0,
        g > 0,
        abs(n) == g * u,
        d == g * v,
        gcd(u, v) == 1,
        !(u <= i64::MAX && v <= i64::MAX),
    ensures
        !representable(ratio(n, d)),
{
    assert forall|p: int, q: int| in_range(p, q) implies ratio(n, d) != #[trigger] ratio(p, q) by {
        if ratio(n, d) == ratio(p, q) {
            lemma_ratio_cross(n, d, p, q);
            let a = abs(n);
            let c = abs(p);
            assert(c * v == u * q) by (nonlinear_arith)
                requires
                    n * q == p * d,
                    a == abs(n),
                    c == abs(p),
                    a == g * u,
                    d == g * v,
                    g > 0,
                    d > 0,
                    q > 0,
            ;
            assert(v > 0) by (nonlinear_arith)
                requires
                    d == g * v,
                    d > 0,
                    g > 0,
            ;
            let k = lemma_lowest_terms_minimal(u, v, c, q as nat);
            assert(c >= u && q >= v) by (nonlinear_arith)
                requires
                    k >= 1,
                    c == k * u,
                    q == k * v,
            ;
        }
    }
}

/// An exact scalar: a rational number in lowest terms, `+inf`, `-inf` or NaN.
#[derive(Clone, Copy, Debug, PartialEq, Eq, Structural)]
pub struct Scalar {
    num: i64,
    den: i64,
}

impl View for Scalar {
    type V = Extended;

    closed spec fn view(&self) -> Extended {
        Extended::fraction(self.num as int, self.den as int)
    }
}

impl Scalar {
    /// What every scalar satisfies: a finite one is a fraction in lowest terms
    /// with a positive denominator, and the special values are `1/0`, `-1/0`
    /// and `0/0`.
    #[verifier::type_invariant]
    pub closed spec fn wf(self) -> bool {
        &&& self.den >= 0
        &&& -i64::MAX <= self.num
        &&& self.den > 0 ==> gcd(abs(self.num as int), self.den as nat) == 1
        &&& self.den == 0 ==> -1 <= self.num <= 1
    }

    /// A scalar holds a scalar value.
    pub proof fn lemma_view_is_scalar(self)
        requires
            self.wf(),
        ensures
            self@.is_scalar(),
    {
        if self.den > 0 {
            assert(in_range(self.num as int, self.den as int));
        }
    }

    /// A scalar is determined by its value.
    pub proof fn lemma_view_injective(self, other: Scalar)
        requires
            self.wf(),
            other.wf(),
            self@ == other@,
        ensures
            self == other,
    {
        if self.den > 0 {
            assert(in_range(self.num as int, self.den as int));
        }
        if other.den > 0 {
            assert(in_range(other.num as int, other.den as int));
        }
        if self.den > 0 && other.den > 0 {
            let (n, d) = (self.num as int, self.den as int);
            let (p, q) = (other.num as int, other.den as int);
            lemma_ratio_cross(n, d, p, q);
            assert(abs(p) * d == abs(n) * q && (n < 0 <==> p < 0)) by (nonlinear_arith)
                requires
                    n * q == p * d,
                    d > 0,
                    q > 0,
            ;
            lemma_lowest_terms_unique(abs(n), d as nat, abs(p), q as nat);
        }
    }

    /// The scalar that holds the value `v`.
    pub closed spec fn of_value(v: Extended) -> Scalar {
        choose|s: Scalar| s.wf() && s@ == v
    }

    /// The scalar that holds the value of a scalar is that scalar.
    pub proof fn lemma_of_value(self)
        requires
            self.wf(),
        ensures
            Scalar::of_value(self@) == self,
    {
        let s = Scalar::of_value(self@);
        s.lemma_view_injective(self);
    }

    /// Every scalar value is the value of a scalar.
    pub proof fn lemma_of_value_view(v: Extended)
        requires
            v.is_scalar(),
        ensures
            Scalar::of_value(v).wf(),
            Scalar::of_value(v)@ == v,
    {
        let w = match v {
            Extended::Nan => Scalar { num: 0, den: 0 },
            Extended::PosInfinity => Scalar { num: 1, den: 0 },
            Extended::NegInfinity => Scalar { num: (-1) as i64, den: 0 },
            Extended::Finite(x) => {
                let (n, d) = choose|n: int, d: int| in_range(n, d) && x == #[trigger] ratio(n, d);
                let a = abs(n);
                let g = gcd(a, d as nat);
                let (u, t) = lemma_gcd_factors(a, d as nat);
                lemma_gcd_positive(a, d as nat);
                lemma_gcd_reduced(a, d as nat, u, t);
                let m: int = if n < 0 {
                    -(u as int)
                } else {
                    u as int
                };
                assert(u <= a && 0 < t <= d && m * d == n * t) by (nonlinear_arith)
                    requires
                        g > 0,
                        d > 0,
                        a == g * u,
                        d == g * t,
                        a == abs(n),
                        m == (if n < 0 {
                            -(u as int)
                        } else {
                            u as int
                        }),
                ;
                lemma_ratio_equal(m, t as int, n, d);
                assert(in_range(m, t as int));
                Scalar { num: m as i64, den: t as i64 }
            },
        };
        assert(w.wf() && w@ == v);
    }

    /// Zero and one are values that a scalar can hold.
    pub proof fn lemma_zero_is_scalar()
        ensures
            Extended::zero().is_scalar(),
            Extended::one().is_scalar(),
    {
        lemma_ratio_sign(0, 1);
        lemma_ratio_sign(1, 1);
        assert(in_range(0, 1));
        assert(in_range(1, 1));
    }

    /// Zero.
    pub fn zero() -> (r: Scalar)
        ensures
            r@ == Extended::zero(),
    {
        proof {
            reveal_with_fuel(gcd, 3);
            lemma_ratio_sign(0, 1);
            assert(in_range(0, 1));
        }
        Scalar { num: 0, den: 1 }
    }

    /// One.
    pub fn one() -> (r: Scalar)
        ensures
            r@ == Extended::one(),
    {
        proof {
            reveal_with_fuel(gcd, 3);
            lemma_ratio_sign(1, 1);
            assert(in_range(1, 1));
        }
        Scalar { num: 1, den: 1 }
    }

    /// Positive infinity.
    pub fn infinity() -> (r: Scalar)
        ensures
            r@ == Extended::PosInfinity,
    {
        Scalar { num: 1, den: 0 }
    }

    /// Negative infinity.
    pub fn neg_infinity() -> (r: Scalar)
        ensures
            r@ == Extended::NegInfinity,
    {
        Scalar { num: -1, den: 0 }
    }

    /// Not a number.
    pub fn nan() -> (r: Scalar)
        ensures
            r@ == Extended::Nan,
    {
        Scalar { num: 0, den: 0 }
    }

    /// The fraction `n / d` in lowest terms, or NaN where its lowest terms are
    /// out of range.
    pub(crate) fn reduce(n: i128, d: i128) -> (r: Scalar)
        requires
            d > 0,
            n > i128::MIN,
        ensures
            r@ == Extended::from_real(ratio(n as int, d as int)),
    {
        let negative = n < 0;
        let a: u128 = if negative {
            (-n) as u128
        } else {
            n as u128
        };
        let b: u128 = d as u128;
        let g: u128 = gcd_u128(a, b);
        let ghost (gu, gv) = lemma_gcd_factors(a as nat, b as nat);
        proof {
            lemma_gcd_positive(a as nat, b as nat);
            lemma_gcd_reduced(a as nat, b as nat, gu, gv);
            assert(a / g == gu && b / g == gv) by (nonlinear_arith)
                requires
                    g > 0,
                    a == g * gu,
                    b == g * gv,
            ;
        }
        let u: u128 = a / g;
        let v: u128 = b / g;
        if u <= 0x7fff_ffff_ffff_ffff && v <= 0x7fff_ffff_ffff_ffff {
            let m: i64 = u as i64;
            let num: i64 = if negative {
                -m
            } else {
                m
            };
            let den: i64 = v as i64;
            proof {
                assert(v > 0 && num * d == n * den) by (nonlinear_arith)
                    requires
                        g > 0,
                        b > 0,
                        a == g * u,
                        b == g * v,
                        b == d,
                        den == v,
                        a == abs(n as int),
                        num == (if n < 0 {
                            -(u as int)
                        } else {
                            u as int
                        }),
                ;
                lemma_ratio_equal(num as int, den as int, n as int, d as int);
                assert(in_range(num as int, den as int));
            }
            Scalar { num, den }
        } else {
            proof {
                lemma_not_representable(n as int, d as int, gu, gv, g as nat);
            }
            Scalar { num: 0, den: 0 }
        }
    }

    /// The quotient `num / den`: the exact fraction where `den` is not zero,
    /// an infinity of the sign of `num` where it is, and NaN for `0 / 0`.
    pub fn new(num: i64, den: i64) -> (r: Scalar)
        ensures
            r@ == Extended::fraction(num as int, den as int),
    {
        if den > 0 {
            Scalar::reduce(num as i128, den as i128)
        } else if den < 0 {
            proof {
                assert((-num) * den == num * (-den)) by (nonlinear_arith);
                lemma_ratio_equal(-num, -den, num as int, den as int);
            }
            Scalar::reduce(-(num as i128), -(den as i128))
        } else if num > 0 {
            Scalar { num: 1, den: 0 }
        } else if num < 0 {
            Scalar { num: -1, den: 0 }
        } else {
            Scalar { num: 0, den: 0 }
        }
    }

    /// The numerator and the denominator: of the fraction in lowest terms for
    /// a finite scalar, and `(1, 0)`, `(-1, 0)`, `(0, 0)` for `+inf`, `-inf`
    /// and NaN.
    pub fn parts(&self) -> (r: (i64, i64))
        ensures
            self@ == Extended::fraction(r.0 as int, r.1 as int),
            r.1 >= 0,
            -i64::MAX <= r.0,
            r.1 > 0 ==> gcd(abs(r.0 as int), r.1 as nat) == 1,
            r.1 == 0 ==> -1 <= r.0 <= 1,
    {
        proof {
            use_type_invariant(self);
        }
        (self.num, self.den)
    }

    /// Whether the scalar is NaN.
    pub fn is_nan(&self) -> (r: bool)
        ensures
            r == (self@ is Nan),
    {
        proof {
            use_type_invariant(self);
            if self.den > 0 {
                assert(in_range(self.num as int, self.den as int));
            }
        }
        self.den == 0 && self.num == 0
    }

    /// Whether the scalar is neither an infinity nor NaN.
    pub fn is_finite(&self) -> (r: bool)
        ensures
            r == self@.is_finite(),
    {
        proof {
            use_type_invariant(self);
            if self.den > 0 {
                assert(in_range(self.num as int, self.den as int));
            }
        }
        self.den != 0
    }

    /// Whether the scalar is strictly above zero. `+inf` is; NaN is not.
    pub fn is_positive(&self) -> (r: bool)
        ensures
            r == self@.is_positive(),
    {
        proof {
            use_type_invariant(&self);
            self.lemma_sign();
        }
        self.num > 0
    }

    /// Whether the scalar is strictly below zero. `-inf` is; NaN is not.
    pub fn is_negative(&self) -> (r: bool)
        ensures
            r == (self@.sign() == -1),
    {
        proof {
            use_type_invariant(&self);
            self.lemma_sign();
        }
        self.num < 0
    }

    /// Whether the scalar is zero.
    pub fn is_zero(&self) -> (r: bool)
        ensures
            r == (self@ == Extended::zero()),
    {
        proof {
            use_type_invariant(&self);
            self.lemma_sign();
        }
        self.den != 0 && self.num == 0
    }

    /// The numerator has the sign of the value.
    proof fn lemma_sign(self)
        requires
            self.wf(),
        ensures
            self.num > 0 <==> self@.sign() == 1,
            self.num < 0 <==> self@.sign() == -1,
            self.den > 0 <==> self@ is Finite,
            self.den > 0 ==> self@ == Extended::Finite(ratio(self.num as int, self.den as int)),
    {
        if self.den > 0 {
            assert(in_range(self.num as int, self.den as int));
            lemma_ratio_sign(self.num as int, self.den as int);
        }
    }

    /// The negation.
    pub fn neg(self) -> (r: Scalar)
        ensures
            r@ == self@.negated(),
    {
        proof {
            use_type_invariant(&self);
            self.lemma_sign();
            if self.den > 0 {
                lemma_ratio_sign(self.num as int, self.den as int);
                assert(in_range(-self.num, self.den as int));
            }
        }
        Scalar { num: -self.num, den: self.den }
    }

    /// The reciprocal: `1 / 0` is `+inf`, and the reciprocal of an infinity
    /// is zero.
    pub fn recip(self) -> (r: Scalar)
        ensures
            r@ == self@.reciprocal(),
    {
        proof {
            use_type_invariant(&self);
            self.lemma_sign();
            reveal_with_fuel(gcd, 3);
            lemma_ratio_sign(0, 1);
            assert(in_range(0, 1));
            if self.den > 0 {
                lemma_ratio_sign(self.num as int, self.den as int);
                lemma_coprime_symmetric(abs(self.num as int), self.den as nat);
            }
        }
        if self.den == 0 {
            if self.num == 0 {
                self
            } else {
                Scalar { num: 0, den: 1 }
            }
        } else if self.num > 0 {
            proof {
                assert(in_range(self.den as int, self.num as int));
            }
            Scalar { num: self.den, den: self.num }
        } else if self.num < 0 {
            proof {
                assert(in_range(-self.den, -self.num));
            }
            Scalar { num: -self.den, den: -self.num }
        } else {
            Scalar { num: 1, den: 0 }
        }
    }

    /// The sum. It is exact: where no scalar can hold it, the result is NaN.
    pub fn add(self, rhs: Scalar) -> (r: Scalar)
        ensures
            r@ == self@.plus(rhs@),
    {
        proof {
            use_type_invariant(&self);
            use_type_invariant(&rhs);
            self.lemma_sign();
            rhs.lemma_sign();
        }
        if self.den == 0 {
            if rhs.den == 0 {
                if self.num == rhs.num {
                    self
                } else {
                    Scalar { num: 0, den: 0 }
                }
            } else {
                self
            }
        } else if rhs.den == 0 {
            rhs
        } else {
            let a: i128 = self.num as i128;
            let b: i128 = self.den as i128;
            let c: i128 = rhs.num as i128;
            let d: i128 = rhs.den as i128;
            proof {
                lemma_product_bound(a as int, d as int);
                lemma_product_bound(c as int, b as int);
                lemma_product_bound(b as int, d as int);
                lemma_ratio_sum(a as int, b as int, c as int, d as int);
                assert(b * d > 0) by (nonlinear_arith)
                    requires
                        b > 0,
                        d > 0,
                ;
            }
            Scalar::reduce(a * d + c * b, b * d)
        }
    }

    /// The difference. It is exact: where no scalar can hold it, the result is
    /// NaN.
    pub fn sub(self, rhs: Scalar) -> (r: Scalar)
        ensures
            r@ == self@.minus(rhs@),
    {
        self.add(rhs.neg())
    }

    /// The product. It is exact: where no scalar can hold it, the result is
    /// NaN.
    pub fn mul(self, rhs: Scalar) -> (r: Scalar)
        ensures
            r@ == self@.times(rhs@),
    {
        proof {
            use_type_invariant(&self);
            use_type_invariant(&rhs);
            self.lemma_sign();
            rhs.lemma_sign();
        }
        if self.den == 0 || rhs.den == 0 {
            if self.num == 0 || rhs.num == 0 {
                Scalar { num: 0, den: 0 }
            } else if (self.num > 0) == (rhs.num > 0) {
                Scalar { num: 1, den: 0 }
            } else {
                Scalar { num: -1, den: 0 }
            }
        } else {
            let a: i128 = self.num as i128;
            let b: i128 = self.den as i128;
            let c: i128 = rhs.num as i128;
            let d: i128 = rhs.den as i128;
            proof {
                lemma_product_bound(a as int, c as int);
                lemma_product_bound(b as int, d as int);
                lemma_ratio_product(a as int, b as int, c as int, d as int);
                assert(b * d > 0) by (nonlinear_arith)
                    requires
                        b > 0,
                        d > 0,
                ;
            }
            Scalar::reduce(a * c, b * d)
        }
    }

    /// The integer `n` as a scalar.
    pub fn from_int(n: i64) -> (r: Scalar)
        ensures
            r@ == Extended::from_real(n as real),
    {
        proof {
            lemma_ratio_sign(n as int, 1);
        }
        Scalar::reduce(n as i128, 1)
    }
}

impl Default for Scalar {
    /// Zero.
    fn default() -> (r: Scalar)
        ensures
            r@ == Extended::zero(),
    {
        Scalar::zero()
    }
}

} // verus!
