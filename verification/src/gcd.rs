//! Greatest common divisors, and the facts about them that keep fractions in
//! lowest terms.

use vstd::prelude::*;

verus! {

/// The greatest common divisor of `a` and `b`, by Euclid's recursion.
/// `gcd(a, 0)` is `a`, so `gcd(0, 0)` is `0`.
pub open spec fn gcd(a: nat, b: nat) -> nat
    decreases b,
{
    if b == 0 {
        a
    } else {
        gcd(b, a % b)
    }
}

/// `gcd(a, b)` is positive unless both arguments are zero.
pub proof fn lemma_gcd_positive(a: nat, b: nat)
    requires
        a > 0 || b > 0,
    ensures
        gcd(a, b) > 0,
    decreases b,
{
    if b != 0 {
        lemma_gcd_positive(b, a % b);
    }
}

/// `gcd(a, b)` divides both arguments: the cofactors are returned.
pub proof fn lemma_gcd_factors(a: nat, b: nat) -> (r: (nat, nat))
    ensures
        a == gcd(a, b) * r.0,
        b == gcd(a, b) * r.1,
    decreases b,
{
    if b == 0 {
        (1, 0)
    } else {
        let (u, v) = lemma_gcd_factors(b, a % b);
        let g = gcd(a, b);
        let q = a / b;
        assert(a == q * b + a % b) by (nonlinear_arith)
            requires
                b > 0,
                q == a / b,
        ;
        assert(q * (g * u) + g * v == g * (q * u + v)) by (nonlinear_arith);
        (q * u + v, u)
    }
}

/// Bezout's identity: `gcd(a, b)` is an integer combination of `a` and `b`.
pub proof fn lemma_bezout(a: nat, b: nat) -> (r: (int, int))
    ensures
        a * r.0 + b * r.1 == gcd(a, b),
    decreases b,
{
    if b == 0 {
        (1, 0)
    } else {
        let (x, y) = lemma_bezout(b, a % b);
        let q = (a / b) as int;
        let m = (a % b) as int;
        assert(a == q * b + m) by (nonlinear_arith)
            requires
                b > 0,
                q == a / b,
                m == a % b,
        ;
        assert(a * y + b * (x - q * y) == b * x + (a - q * b) * y) by (nonlinear_arith);
        (y, x - q * y)
    }
}

/// Dividing two numbers by their greatest common divisor leaves coprime
/// numbers.
pub proof fn lemma_gcd_reduced(a: nat, b: nat, u: nat, v: nat)
    requires
        gcd(a, b) > 0,
        a == gcd(a, b) * u,
        b == gcd(a, b) * v,
    ensures
        gcd(u, v) == 1,
{
    let g = gcd(a, b);
    let h = gcd(u, v);
    let (x, y) = lemma_bezout(a, b);
    let (s, t) = lemma_gcd_factors(u, v);
    assert(h * (s * x + t * y) == 1) by (nonlinear_arith)
        requires
            g > 0,
            a == g * u,
            b == g * v,
            a * x + b * y == g,
            u == h * s,
            v == h * t,
    ;
    assert(h == 1) by (nonlinear_arith)
        requires
            h * (s * x + t * y) == 1,
    ;
}

/// Among the fractions with a given value, the one in lowest terms has the
/// smallest numerator and denominator: every other is a multiple of it.
pub proof fn lemma_lowest_terms_minimal(n: nat, d: nat, p: nat, q: nat) -> (k: nat)
    requires
        gcd(n, d) == 1,
        d > 0,
        q > 0,
        p * d == n * q,
    ensures
        k >= 1,
        p == k * n,
        q == k * d,
{
    let (x, y) = lemma_bezout(n, d);
    let k = p * x + q * y;
    assert(q == k * d) by (nonlinear_arith)
        requires
            n * x + d * y == 1,
            p * d == n * q,
            k == p * x + q * y,
    ;
    assert(k >= 1) by (nonlinear_arith)
        requires
            q == k * d,
            q > 0,
            d > 0,
    ;
    assert(p == k * n) by (nonlinear_arith)
        requires
            q == k * d,
            p * d == n * q,
            d > 0,
    ;
    k as nat
}

/// Two fractions in lowest terms with the same value are the same fraction.
pub proof fn lemma_lowest_terms_unique(n: nat, d: nat, p: nat, q: nat)
    requires
        gcd(n, d) == 1,
        gcd(p, q) == 1,
        d > 0,
        q > 0,
        p * d == n * q,
    ensures
        p == n,
        q == d,
{
    let k = lemma_lowest_terms_minimal(n, d, p, q);
    assert(n * q == p * d);
    let j = lemma_lowest_terms_minimal(p, q, n, d);
    assert(k == 1) by (nonlinear_arith)
        requires
            q == k * d,
            d == j * q,
            k >= 1,
            j >= 1,
            q > 0,
    ;
    assert(p == n) by (nonlinear_arith)
        requires
            p == k * n,
            k == 1,
    ;
    assert(q == d) by (nonlinear_arith)
        requires
            q == k * d,
            k == 1,
    ;
}

/// Coprimality does not depend on the order of the two numbers.
pub proof fn lemma_coprime_symmetric(a: nat, b: nat)
    requires
        gcd(a, b) == 1,
    ensures
        gcd(b, a) == 1,
{
    let h = gcd(b, a);
    let (s, t) = lemma_gcd_factors(b, a);
    let (x, y) = lemma_bezout(a, b);
    assert(h * (t * x + s * y) == 1) by (nonlinear_arith)
        requires
            b == h * s,
            a == h * t,
            a * x + b * y == 1,
    ;
    assert(h == 1) by (nonlinear_arith)
        requires
            h * (t * x + s * y) == 1,
    ;
}

/// Computes the greatest common divisor of two machine integers.
pub fn gcd_u128(a: u128, b: u128) -> (g: u128)
    ensures
        g == gcd(a as nat, b as nat),
{
    let mut x: u128 = a;
    let mut y: u128 = b;
    while y != 0
        invariant
            gcd(x as nat, y as nat) == gcd(a as nat, b as nat),
        decreases y,
    {
        let r: u128 = x % y;
        x = y;
        y = r;
    }
    x
}

} // verus!
