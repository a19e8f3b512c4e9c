//! Vectors of exact scalars, in the plane and in space.

use crate::reals::{product, RealVec3};
use crate::scalar::{Extended, Scalar};
use vstd::prelude::*;

verus! {

/// The value of a planar vector.
pub struct Vec2Value {
    pub x: Extended,
    pub y: Extended,
}

impl Vec2Value {
    /// The origin.
    pub open spec fn zero() -> Vec2Value {
        Vec2Value { x: Extended::zero(), y: Extended::zero() }
    }

    /// The squared Euclidean length, `x * x + y * y`.
    pub open spec fn length_squared(self) -> Extended {
        self.x.times(self.x).plus(self.y.times(self.y))
    }
}

/// A vector in the plane.
#[derive(Clone, Copy, Debug, PartialEq, Eq, Structural)]
pub struct Vector2 {
    pub x: Scalar,
    pub y: Scalar,
}

impl View for Vector2 {
    type V = Vec2Value;

    open spec fn view(&self) -> Vec2Value {
        Vec2Value { x: self.x@, y: self.y@ }
    }
}

impl Vector2 {
    /// The vector with the given components.
    pub fn new(x: Scalar, y: Scalar) -> (r: Vector2)
        ensures
            r.x == x,
            r.y == y,
    {
        Vector2 { x, y }
    }

    /// The origin.
    pub fn zero() -> (r: Vector2)
        ensures
            r@ == Vec2Value::zero(),
    {
        Vector2 { x: Scalar::zero(), y: Scalar::zero() }
    }

    /// The squared Euclidean length.
    pub fn length_squared(&self) -> (r: Scalar)
        ensures
            r@ == self@.length_squared(),
    {
        self.x.mul(self.x).add(self.y.mul(self.y))
    }
}

/// The value of a spatial vector.
pub struct Vec3Value {
    pub x: Extended,
    pub y: Extended,
    pub z: Extended,
}

impl Vec3Value {
    /// The origin.
    pub open spec fn zero() -> Vec3Value {
        Vec3Value { x: Extended::zero(), y: Extended::zero(), z: Extended::zero() }
    }

    /// Whether the three components are finite.
    pub open spec fn is_finite(self) -> bool {
        self.x.is_finite() && self.y.is_finite() && self.z.is_finite()
    }

    /// The dot product, `(x * x' + y * y') + z * z'`.
    pub open spec fn dot(self, rhs: Vec3Value) -> Extended {
        self.x.times(rhs.x).plus(self.y.times(rhs.y)).plus(self.z.times(rhs.z))
    }

    /// The squared Euclidean length.
    pub open spec fn length_squared(self) -> Extended {
        self.dot(self)
    }

    /// The cross product.
    pub open spec fn cross(self, rhs: Vec3Value) -> Vec3Value {
        Vec3Value {
            x: self.y.times(rhs.z).minus(rhs.y.times(self.z)),
            y: self.z.times(rhs.x).minus(rhs.z.times(self.x)),
            z: self.x.times(rhs.y).minus(rhs.x.times(self.y)),
        }
    }

    /// The vector with every component multiplied by `s`.
    pub open spec fn scaled(self, s: Extended) -> Vec3Value {
        Vec3Value { x: self.x.times(s), y: self.y.times(s), z: self.z.times(s) }
    }

    /// The componentwise sum.
    pub open spec fn plus(self, rhs: Vec3Value) -> Vec3Value {
        Vec3Value { x: self.x.plus(rhs.x), y: self.y.plus(rhs.y), z: self.z.plus(rhs.z) }
    }

    /// The real numbers that the components hold where they are finite.
    pub open spec fn to_reals(self) -> RealVec3 {
        RealVec3 { x: self.x.to_real(), y: self.y.to_real(), z: self.z.to_real() }
    }

    /// A finite cross product has finite factors and is their cross product
    /// as vectors of real numbers.
    pub proof fn lemma_cross_exact(self, rhs: Vec3Value)
        requires
            self.cross(rhs).is_finite(),
        ensures
            self.is_finite(),
            rhs.is_finite(),
            self.cross(rhs).to_reals() == self.to_reals().cross(rhs.to_reals()),
    {
        reveal(product);
        self.y.times(rhs.z).lemma_minus_exact(rhs.y.times(self.z));
        self.z.times(rhs.x).lemma_minus_exact(rhs.z.times(self.x));
        self.x.times(rhs.y).lemma_minus_exact(rhs.x.times(self.y));
        self.y.lemma_times_exact(rhs.z);
        rhs.y.lemma_times_exact(self.z);
        self.z.lemma_times_exact(rhs.x);
        rhs.z.lemma_times_exact(self.x);
        self.x.lemma_times_exact(rhs.y);
        rhs.x.lemma_times_exact(self.y);
    }

    /// A finite scaled vector has a finite vector and a finite factor and is
    /// the scaled vector of real numbers.
    pub proof fn lemma_scaled_exact(self, s: Extended)
        requires
            self.scaled(s).is_finite(),
        ensures
            self.is_finite(),
            s.is_finite(),
            self.scaled(s).to_reals() == self.to_reals().scaled(s.to_real()),
    {
        reveal(product);
        self.x.lemma_times_exact(s);
        self.y.lemma_times_exact(s);
        self.z.lemma_times_exact(s);
    }

    /// The dot product of finite vectors is finite or NaN.
    pub proof fn lemma_dot_not_infinite(self, rhs: Vec3Value)
        requires
            self.is_finite(),
            rhs.is_finite(),
        ensures
            self.dot(rhs) is Finite || self.dot(rhs) is Nan,
    {
    }

    /// A finite dot product has finite factors and is their dot product as
    /// vectors of real numbers.
    pub proof fn lemma_dot_exact(self, rhs: Vec3Value)
        requires
            self.dot(rhs).is_finite(),
        ensures
            self.is_finite(),
            rhs.is_finite(),
            self.dot(rhs).to_real() == self.to_reals().dot(rhs.to_reals()),
    {
        reveal(product);
        let px = self.x.times(rhs.x);
        let py = self.y.times(rhs.y);
        let pz = self.z.times(rhs.z);
        px.plus(py).lemma_plus_exact(pz);
        px.lemma_plus_exact(py);
        self.x.lemma_times_exact(rhs.x);
        self.y.lemma_times_exact(rhs.y);
        self.z.lemma_times_exact(rhs.z);
    }
}

/// A vector in space.
#[derive(Clone, Copy, Debug, PartialEq, Eq, Structural)]
pub struct Vector3 {
    pub x: Scalar,
    pub y: Scalar,
    pub z: Scalar,
}

impl View for Vector3 {
    type V = Vec3Value;

    open spec fn view(&self) -> Vec3Value {
        Vec3Value { x: self.x@, y: self.y@, z: self.z@ }
    }
}

impl Vector3 {
    /// Whether the three components are scalars in lowest terms, as every
    /// component that a program holds is.
    pub open spec fn wf(self) -> bool {
        self.x.wf() && self.y.wf() && self.z.wf()
    }

    /// The vector that holds the value `v`.
    pub open spec fn of_value(v: Vec3Value) -> Vector3 {
        Vector3 { x: Scalar::of_value(v.x), y: Scalar::of_value(v.y), z: Scalar::of_value(v.z) }
    }

    /// The vector that holds the value of a vector is that vector.
    pub proof fn lemma_of_value(self)
        requires
            self.wf(),
        ensures
            Vector3::of_value(self@) == self,
    {
        self.x.lemma_of_value();
        self.y.lemma_of_value();
        self.z.lemma_of_value();
    }

    /// A vector that a program holds has scalars in lowest terms as its
    /// components: calling this makes the fact known to a proof.
    pub(crate) fn assert_wf(&self)
        ensures
            self.wf(),
    {
        proof {
            use_type_invariant(&self.x);
            use_type_invariant(&self.y);
            use_type_invariant(&self.z);
        }
    }

    /// The vector with the given components.
    pub fn new(x: Scalar, y: Scalar, z: Scalar) -> (r: Vector3)
        ensures
            r.x == x,
            r.y == y,
            r.z == z,
    {
        Vector3 { x, y, z }
    }

    /// The origin.
    pub fn zero() -> (r: Vector3)
        ensures
            r@ == Vec3Value::zero(),
    {
        Vector3 { x: Scalar::zero(), y: Scalar::zero(), z: Scalar::zero() }
    }

    /// Whether the vector is the origin.
    pub fn is_zero(&self) -> (r: bool)
        ensures
            r == (self@ == Vec3Value::zero()),
    {
        self.x.is_zero() && self.y.is_zero() && self.z.is_zero()
    }

    /// The dot product.
    pub fn dot(&self, rhs: &Vector3) -> (r: Scalar)
        ensures
            r@ == self@.dot(rhs@),
    {
        self.x.mul(rhs.x).add(self.y.mul(rhs.y)).add(self.z.mul(rhs.z))
    }

    /// The squared Euclidean length.
    pub fn length_squared(&self) -> (r: Scalar)
        ensures
            r@ == self@.length_squared(),
    {
        self.dot(self)
    }

    /// The cross product.
    pub fn cross(&self, rhs: &Vector3) -> (r: Vector3)
        ensures
            r@ == self@.cross(rhs@),
    {
        Vector3 {
            x: self.y.mul(rhs.z).sub(rhs.y.mul(self.z)),
            y: self.z.mul(rhs.x).sub(rhs.z.mul(self.x)),
            z: self.x.mul(rhs.y).sub(rhs.x.mul(self.y)),
        }
    }

    /// The vector with every component multiplied by `s`.
    pub fn scaled(&self, s: Scalar) -> (r: Vector3)
        ensures
            r@ == self@.scaled(s@),
    {
        Vector3 { x: self.x.mul(s), y: self.y.mul(s), z: self.z.mul(s) }
    }

    /// The componentwise sum.
    pub fn plus(&self, rhs: &Vector3) -> (r: Vector3)
        ensures
            r@ == self@.plus(rhs@),
    {
        Vector3 { x: self.x.add(rhs.x), y: self.y.add(rhs.y), z: self.z.add(rhs.z) }
    }
}

} // verus!
