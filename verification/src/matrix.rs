//! Three-by-three matrices of exact scalars, stored by columns.

use crate::quaternion::{QuatValue, Quaternion};
use crate::reals::{lemma_adjugate_inverse, product, RealMat3};
use crate::scalar::{Extended, Scalar};
use crate::vector::{Vec3Value, Vector3};
use vstd::prelude::*;

verus! {

/// The value of a matrix, by its three columns.
pub struct Mat3Value {
    pub x_axis: Vec3Value,
    pub y_axis: Vec3Value,
    pub z_axis: Vec3Value,
}

impl Mat3Value {
    /// The matrix of zeros.
    pub open spec fn zero() -> Mat3Value {
        Mat3Value { x_axis: Vec3Value::zero(), y_axis: Vec3Value::zero(), z_axis: Vec3Value::zero() }
    }

    /// The matrix with `d` on the diagonal and zero elsewhere.
    pub open spec fn from_diagonal_element(d: Extended) -> Mat3Value {
        Mat3Value {
            x_axis: Vec3Value { x: d, y: Extended::zero(), z: Extended::zero() },
            y_axis: Vec3Value { x: Extended::zero(), y: d, z: Extended::zero() },
            z_axis: Vec3Value { x: Extended::zero(), y: Extended::zero(), z: d },
        }
    }

    /// The identity matrix.
    pub open spec fn identity() -> Mat3Value {
        Mat3Value::from_diagonal_element(Extended::one())
    }

    /// The outer product of `v` with itself: the entry in row `i` and column
    /// `j` is `v_i * v_j`.
    pub open spec fn outer_square(v: Vec3Value) -> Mat3Value {
        Mat3Value { x_axis: v.scaled(v.x), y_axis: v.scaled(v.y), z_axis: v.scaled(v.z) }
    }

    /// The rotation matrix of the orientation `q`.
    pub open spec fn from_quat(q: QuatValue) -> Mat3Value {
        let x2 = q.x.plus(q.x);
        let y2 = q.y.plus(q.y);
        let z2 = q.z.plus(q.z);
        let xx = q.x.times(x2);
        let xy = q.x.times(y2);
        let xz = q.x.times(z2);
        let yy = q.y.times(y2);
        let yz = q.y.times(z2);
        let zz = q.z.times(z2);
        let wx = q.w.times(x2);
        let wy = q.w.times(y2);
        let wz = q.w.times(z2);
        let one = Extended::one();
        Mat3Value {
            x_axis: Vec3Value { x: one.minus(yy.plus(zz)), y: xy.plus(wz), z: xz.minus(wy) },
            y_axis: Vec3Value { x: xy.minus(wz), y: one.minus(xx.plus(zz)), z: yz.plus(wx) },
            z_axis: Vec3Value { x: xz.plus(wy), y: yz.minus(wx), z: one.minus(xx.plus(yy)) },
        }
    }

    /// Whether the nine entries are finite.
    pub open spec fn is_finite(self) -> bool {
        self.x_axis.is_finite() && self.y_axis.is_finite() && self.z_axis.is_finite()
    }

    /// The first row.
    pub open spec fn row_x(self) -> Vec3Value {
        Vec3Value { x: self.x_axis.x, y: self.y_axis.x, z: self.z_axis.x }
    }

    /// The second row.
    pub open spec fn row_y(self) -> Vec3Value {
        Vec3Value { x: self.x_axis.y, y: self.y_axis.y, z: self.z_axis.y }
    }

    /// The third row.
    pub open spec fn row_z(self) -> Vec3Value {
        Vec3Value { x: self.x_axis.z, y: self.y_axis.z, z: self.z_axis.z }
    }

    /// The transpose.
    pub open spec fn transposed(self) -> Mat3Value {
        Mat3Value { x_axis: self.row_x(), y_axis: self.row_y(), z_axis: self.row_z() }
    }

    /// The product with a column vector: each entry is the dot product of a
    /// row with `v`.
    pub open spec fn times_vec(self, v: Vec3Value) -> Vec3Value {
        Vec3Value { x: self.row_x().dot(v), y: self.row_y().dot(v), z: self.row_z().dot(v) }
    }

    /// The matrix product `self * rhs`.
    pub open spec fn times(self, rhs: Mat3Value) -> Mat3Value {
        Mat3Value {
            x_axis: self.times_vec(rhs.x_axis),
            y_axis: self.times_vec(rhs.y_axis),
            z_axis: self.times_vec(rhs.z_axis),
        }
    }

    /// The entrywise sum.
    pub open spec fn plus(self, rhs: Mat3Value) -> Mat3Value {
        Mat3Value {
            x_axis: self.x_axis.plus(rhs.x_axis),
            y_axis: self.y_axis.plus(rhs.y_axis),
            z_axis: self.z_axis.plus(rhs.z_axis),
        }
    }

    /// The matrix with every entry multiplied by `s`.
    pub open spec fn scaled(self, s: Extended) -> Mat3Value {
        Mat3Value {
            x_axis: self.x_axis.scaled(s),
            y_axis: self.y_axis.scaled(s),
            z_axis: self.z_axis.scaled(s),
        }
    }

    /// The determinant, as the triple product `z_axis . (x_axis x y_axis)`.
    pub open spec fn determinant(self) -> Extended {
        self.z_axis.dot(self.x_axis.cross(self.y_axis))
    }

    /// The inverse, as the transposed matrix of cofactors times the
    /// reciprocal of the determinant.
    pub open spec fn inverse(self) -> Mat3Value {
        let inv_det = self.determinant().reciprocal();
        (Mat3Value {
            x_axis: self.y_axis.cross(self.z_axis).scaled(inv_det),
            y_axis: self.z_axis.cross(self.x_axis).scaled(inv_det),
            z_axis: self.x_axis.cross(self.y_axis).scaled(inv_det),
        }).transposed()
    }
}

impl Mat3Value {
    /// The real numbers that the entries hold where they are finite.
    pub open spec fn to_reals(self) -> RealMat3 {
        RealMat3 {
            x_axis: self.x_axis.to_reals(),
            y_axis: self.y_axis.to_reals(),
            z_axis: self.z_axis.to_reals(),
        }
    }

    /// A finite product of a matrix and a vector has finite factors and is
    /// their product over the real numbers.
    pub proof fn lemma_times_vec_exact(self, v: Vec3Value)
        requires
            self.times_vec(v).is_finite(),
        ensures
            self.is_finite(),
            v.is_finite(),
            self.times_vec(v).to_reals() == self.to_reals().times_vec(v.to_reals()),
    {
        self.row_x().lemma_dot_exact(v);
        self.row_y().lemma_dot_exact(v);
        self.row_z().lemma_dot_exact(v);
    }

    /// A finite product of two matrices has finite factors and is their
    /// product over the real numbers.
    pub proof fn lemma_times_exact(self, rhs: Mat3Value)
        requires
            self.times(rhs).is_finite(),
        ensures
            self.is_finite(),
            rhs.is_finite(),
            self.times(rhs).to_reals() == self.to_reals().times(rhs.to_reals()),
    {
        self.lemma_times_vec_exact(rhs.x_axis);
        self.lemma_times_vec_exact(rhs.y_axis);
        self.lemma_times_vec_exact(rhs.z_axis);
    }

    /// A finite inverse is the inverse over the real numbers: its product
    /// with the matrix is the identity. The inverse is finite only where the
    /// entries of the matrix are finite and its determinant is not zero.
    pub proof fn lemma_inverse_exact(self)
        requires
            self.inverse().is_finite(),
        ensures
            self.is_finite(),
            self.determinant().is_finite(),
            self.determinant() != Extended::zero(),
            self.inverse().to_reals().times(self.to_reals()) == RealMat3::identity(),
    {
        let (x, y, z) = (self.x_axis, self.y_axis, self.z_axis);
        let t0 = y.cross(z);
        let t1 = z.cross(x);
        let t2 = x.cross(y);
        let det = self.determinant();
        let k = det.reciprocal();
        t0.lemma_scaled_exact(k);
        t1.lemma_scaled_exact(k);
        t2.lemma_scaled_exact(k);
        y.lemma_cross_exact(z);
        z.lemma_cross_exact(x);
        x.lemma_cross_exact(y);
        z.lemma_dot_not_infinite(t2);
        z.lemma_dot_exact(t2);
        let d = det.to_real();
        let r = k.to_real();
        assert(product(d, r) == 1 as real) by {
            reveal(product);
            assert(d * (1 as real / d) == 1 as real) by (nonlinear_arith)
                requires
                    d != 0 as real,
            ;
        }
        assert(self.to_reals().determinant() == d);
        assert(self.inverse().to_reals() == self.to_reals().adjugate_scaled(r));
        lemma_adjugate_inverse(self.to_reals(), r);
    }

    /// A finite rotation matrix comes from a finite quaternion and is its
    /// rotation matrix over the real numbers.
    pub proof fn lemma_from_quat_exact(q: QuatValue)
        requires
            Mat3Value::from_quat(q).is_finite(),
        ensures
            q.is_finite(),
            Mat3Value::from_quat(q).to_reals() == RealMat3::from_quat(
                q.x.to_real(),
                q.y.to_real(),
                q.z.to_real(),
                q.w.to_real(),
            ),
    {
        reveal(product);
        let x2 = q.x.plus(q.x);
        let y2 = q.y.plus(q.y);
        let z2 = q.z.plus(q.z);
        let xx = q.x.times(x2);
        let xy = q.x.times(y2);
        let xz = q.x.times(z2);
        let yy = q.y.times(y2);
        let yz = q.y.times(z2);
        let zz = q.z.times(z2);
        let wx = q.w.times(x2);
        let wy = q.w.times(y2);
        let wz = q.w.times(z2);
        let one = Extended::one();
        one.lemma_minus_exact(yy.plus(zz));
        one.lemma_minus_exact(xx.plus(zz));
        one.lemma_minus_exact(xx.plus(yy));
        yy.lemma_plus_exact(zz);
        xx.lemma_plus_exact(zz);
        xx.lemma_plus_exact(yy);
        xy.lemma_plus_exact(wz);
        xz.lemma_minus_exact(wy);
        xy.lemma_minus_exact(wz);
        yz.lemma_plus_exact(wx);
        xz.lemma_plus_exact(wy);
        yz.lemma_minus_exact(wx);
        q.x.lemma_times_exact(x2);
        q.x.lemma_times_exact(y2);
        q.x.lemma_times_exact(z2);
        q.y.lemma_times_exact(y2);
        q.y.lemma_times_exact(z2);
        q.z.lemma_times_exact(z2);
        q.w.lemma_times_exact(x2);
        q.w.lemma_times_exact(y2);
        q.w.lemma_times_exact(z2);
        q.x.lemma_plus_exact(q.x);
        q.y.lemma_plus_exact(q.y);
        q.z.lemma_plus_exact(q.z);
    }
}

/// A three-by-three matrix, stored by columns.
#[derive(Clone, Copy, Debug, PartialEq, Eq, Structural)]
pub struct Matrix3 {
    pub x_axis: Vector3,
    pub y_axis: Vector3,
    pub z_axis: Vector3,
}

impl View for Matrix3 {
    type V = Mat3Value;

    open spec fn view(&self) -> Mat3Value {
        Mat3Value { x_axis: self.x_axis@, y_axis: self.y_axis@, z_axis: self.z_axis@ }
    }
}

impl Matrix3 {
    /// Whether the nine entries are scalars in lowest terms, as every entry
    /// that a program holds is.
    pub open spec fn wf(self) -> bool {
        self.x_axis.wf() && self.y_axis.wf() && self.z_axis.wf()
    }

    /// The matrix that holds the value `m`.
    pub open spec fn of_value(m: Mat3Value) -> Matrix3 {
        Matrix3 {
            x_axis: Vector3::of_value(m.x_axis),
            y_axis: Vector3::of_value(m.y_axis),
            z_axis: Vector3::of_value(m.z_axis),
        }
    }

    /// The matrix that holds the value of a matrix is that matrix.
    pub proof fn lemma_of_value(self)
        requires
            self.wf(),
        ensures
            Matrix3::of_value(self@) == self,
    {
        self.x_axis.lemma_of_value();
        self.y_axis.lemma_of_value();
        self.z_axis.lemma_of_value();
    }

    /// A matrix that a program holds has scalars in lowest terms as its
    /// entries: calling this makes the fact known to a proof.
    pub(crate) fn assert_wf(&self)
        ensures
            self.wf(),
    {
        self.x_axis.assert_wf();
        self.y_axis.assert_wf();
        self.z_axis.assert_wf();
    }

    /// The matrix with the given columns.
    pub fn from_cols(x_axis: Vector3, y_axis: Vector3, z_axis: Vector3) -> (r: Matrix3)
        ensures
            r.x_axis == x_axis,
            r.y_axis == y_axis,
            r.z_axis == z_axis,
    {
        Matrix3 { x_axis, y_axis, z_axis }
    }

    /// The matrix of zeros.
    pub fn zero() -> (r: Matrix3)
        ensures
            r@ == Mat3Value::zero(),
    {
        Matrix3 { x_axis: Vector3::zero(), y_axis: Vector3::zero(), z_axis: Vector3::zero() }
    }

    /// The matrix with `d` on the diagonal and zero elsewhere.
    pub fn from_diagonal_element(d: Scalar) -> (r: Matrix3)
        ensures
            r@ == Mat3Value::from_diagonal_element(d@),
    {
        let o = Scalar::zero();
        Matrix3 {
            x_axis: Vector3 { x: d, y: o, z: o },
            y_axis: Vector3 { x: o, y: d, z: o },
            z_axis: Vector3 { x: o, y: o, z: d },
        }
    }

    /// The identity matrix.
    pub fn identity() -> (r: Matrix3)
        ensures
            r@ == Mat3Value::identity(),
    {
        Matrix3::from_diagonal_element(Scalar::one())
    }

    /// The outer product of `v` with itself.
    pub fn outer_square(v: &Vector3) -> (r: Matrix3)
        ensures
            r@ == Mat3Value::outer_square(v@),
    {
        Matrix3 { x_axis: v.scaled(v.x), y_axis: v.scaled(v.y), z_axis: v.scaled(v.z) }
    }

    /// The rotation matrix of the orientation `q`.
    pub fn from_quat(q: &Quaternion) -> (r: Matrix3)
        ensures
            r@ == Mat3Value::from_quat(q@),
    {
        let x2 = q.x.add(q.x);
        let y2 = q.y.add(q.y);
        let z2 = q.z.add(q.z);
        let xx = q.x.mul(x2);
        let xy = q.x.mul(y2);
        let xz = q.x.mul(z2);
        let yy = q.y.mul(y2);
        let yz = q.y.mul(z2);
        let zz = q.z.mul(z2);
        let wx = q.w.mul(x2);
        let wy = q.w.mul(y2);
        let wz = q.w.mul(z2);
        let one = Scalar::one();
        Matrix3 {
            x_axis: Vector3 { x: one.sub(yy.add(zz)), y: xy.add(wz), z: xz.sub(wy) },
            y_axis: Vector3 { x: xy.sub(wz), y: one.sub(xx.add(zz)), z: yz.add(wx) },
            z_axis: Vector3 { x: xz.add(wy), y: yz.sub(wx), z: one.sub(xx.add(yy)) },
        }
    }

    /// Whether every entry is zero.
    pub fn is_zero(&self) -> (r: bool)
        ensures
            r == (self@ == Mat3Value::zero()),
    {
        self.x_axis.is_zero() && self.y_axis.is_zero() && self.z_axis.is_zero()
    }

    /// The transpose.
    pub fn transpose(&self) -> (r: Matrix3)
        ensures
            r@ == self@.transposed(),
    {
        Matrix3 {
            x_axis: Vector3 { x: self.x_axis.x, y: self.y_axis.x, z: self.z_axis.x },
            y_axis: Vector3 { x: self.x_axis.y, y: self.y_axis.y, z: self.z_axis.y },
            z_axis: Vector3 { x: self.x_axis.z, y: self.y_axis.z, z: self.z_axis.z },
        }
    }

    /// The product with a column vector.
    pub fn mul_vec3(&self, v: &Vector3) -> (r: Vector3)
        ensures
            r@ == self@.times_vec(v@),
    {
        let t = self.transpose();
        Vector3 { x: t.x_axis.dot(v), y: t.y_axis.dot(v), z: t.z_axis.dot(v) }
    }

    /// The matrix product `self * rhs`.
    pub fn mul_mat3(&self, rhs: &Matrix3) -> (r: Matrix3)
        ensures
            r@ == self@.times(rhs@),
    {
        Matrix3 {
            x_axis: self.mul_vec3(&rhs.x_axis),
            y_axis: self.mul_vec3(&rhs.y_axis),
            z_axis: self.mul_vec3(&rhs.z_axis),
        }
    }

    /// The entrywise sum.
    pub fn add_mat3(&self, rhs: &Matrix3) -> (r: Matrix3)
        ensures
            r@ == self@.plus(rhs@),
    {
        Matrix3 {
            x_axis: self.x_axis.plus(&rhs.x_axis),
            y_axis: self.y_axis.plus(&rhs.y_axis),
            z_axis: self.z_axis.plus(&rhs.z_axis),
        }
    }

    /// The matrix with every entry multiplied by `s`.
    pub fn mul_scalar(&self, s: Scalar) -> (r: Matrix3)
        ensures
            r@ == self@.scaled(s@),
    {
        Matrix3 {
            x_axis: self.x_axis.scaled(s),
            y_axis: self.y_axis.scaled(s),
            z_axis: self.z_axis.scaled(s),
        }
    }

    /// The determinant.
    pub fn determinant(&self) -> (r: Scalar)
        ensures
            r@ == self@.determinant(),
    {
        self.z_axis.dot(&self.x_axis.cross(&self.y_axis))
    }

    /// The inverse. Where the determinant is zero the entries of the result
    /// are infinities or NaN.
    pub fn inverse(&self) -> (r: Matrix3)
        ensures
            r@ == self@.inverse(),
    {
        let inv_det = self.determinant().recip();
        let cofactors = Matrix3 {
            x_axis: self.y_axis.cross(&self.z_axis).scaled(inv_det),
            y_axis: self.z_axis.cross(&self.x_axis).scaled(inv_det),
            z_axis: self.x_axis.cross(&self.y_axis).scaled(inv_det),
        };
        cofactors.transpose()
    }
}

} // verus!
