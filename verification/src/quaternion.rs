//! Quaternions of exact scalars, as orientations in space.

use crate::reals::product;
use crate::scalar::{Extended, Scalar};
use vstd::prelude::*;

verus! {

/// The value of a quaternion.
pub struct QuatValue {
    pub x: Extended,
    pub y: Extended,
    pub z: Extended,
    pub w: Extended,
}

impl QuatValue {
    /// The conjugate, which for a quaternion of unit length is its inverse.
    pub open spec fn conjugate(self) -> QuatValue {
        QuatValue { x: self.x.negated(), y: self.y.negated(), z: self.z.negated(), w: self.w }
    }

    /// Whether the four components are finite.
    pub open spec fn is_finite(self) -> bool {
        self.x.is_finite() && self.y.is_finite() && self.z.is_finite() && self.w.is_finite()
    }

    /// The squared length, `((x * x + y * y) + z * z) + w * w`.
    pub open spec fn length_squared(self) -> Extended {
        self.x.times(self.x).plus(self.y.times(self.y)).plus(self.z.times(self.z)).plus(
            self.w.times(self.w),
        )
    }
}

impl QuatValue {
    /// A quaternion of squared length one has finite components, whose
    /// squares as real numbers add up to one.
    pub proof fn lemma_unit_exact(self)
        requires
            self.length_squared() == Extended::one(),
        ensures
            self.is_finite(),
            product(self.x.to_real(), self.x.to_real()) + product(self.y.to_real(), self.y.to_real())
                + product(self.z.to_real(), self.z.to_real()) + product(
                self.w.to_real(),
                self.w.to_real(),
            ) == 1 as real,
    {
        reveal(product);
        let px = self.x.times(self.x);
        let py = self.y.times(self.y);
        let pz = self.z.times(self.z);
        let pw = self.w.times(self.w);
        px.plus(py).plus(pz).lemma_plus_exact(pw);
        px.plus(py).lemma_plus_exact(pz);
        px.lemma_plus_exact(py);
        self.x.lemma_times_exact(self.x);
        self.y.lemma_times_exact(self.y);
        self.z.lemma_times_exact(self.z);
        self.w.lemma_times_exact(self.w);
    }
}

/// A quaternion `w + x i + y j + z k`.
#[derive(Clone, Copy, Debug, PartialEq, Eq, Structural)]
pub struct Quaternion {
    pub x: Scalar,
    pub y: Scalar,
    pub z: Scalar,
    pub w: Scalar,
}

impl View for Quaternion {
    type V = QuatValue;

    open spec fn view(&self) -> QuatValue {
        QuatValue { x: self.x@, y: self.y@, z: self.z@, w: self.w@ }
    }
}

impl Quaternion {
    /// The quaternion with the given components.
    pub fn new(x: Scalar, y: Scalar, z: Scalar, w: Scalar) -> (r: Quaternion)
        ensures
            r.x == x,
            r.y == y,
            r.z == z,
            r.w == w,
    {
        Quaternion { x, y, z, w }
    }

    /// The quaternion of the rotation that changes nothing.
    pub fn identity() -> (r: Quaternion)
        ensures
            r@ == (QuatValue {
                x: Extended::zero(),
                y: Extended::zero(),
                z: Extended::zero(),
                w: Extended::one(),
            }),
    {
        Quaternion { x: Scalar::zero(), y: Scalar::zero(), z: Scalar::zero(), w: Scalar::one() }
    }

    /// The conjugate.
    pub fn conjugate(&self) -> (r: Quaternion)
        ensures
            r@ == self@.conjugate(),
    {
        Quaternion { x: self.x.neg(), y: self.y.neg(), z: self.z.neg(), w: self.w }
    }

    /// The squared length.
    pub fn length_squared(&self) -> (r: Scalar)
        ensures
            r@ == self@.length_squared(),
    {
        self.x.mul(self.x).add(self.y.mul(self.y)).add(self.z.mul(self.z)).add(self.w.mul(self.w))
    }
}

} // verus!
