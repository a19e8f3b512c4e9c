//! Vectors and matrices of real numbers: what the exact vectors and matrices
//! stand for while every entry is finite.

use vstd::prelude::*;

verus! {

/// The product of two real numbers. Proofs about vectors and matrices take
/// it as a symbol and learn its properties from the lemmas below.
#[verifier::opaque]
pub open spec fn product(a: real, b: real) -> real {
    a * b
}

/// A vector of three real numbers.
pub struct RealVec3 {
    pub x: real,
    pub y: real,
    pub z: real,
}

impl RealVec3 {
    /// The dot product.
    pub open spec fn dot(self, rhs: RealVec3) -> real {
        product(self.x, rhs.x) + product(self.y, rhs.y) + product(self.z, rhs.z)
    }

    /// The cross product.
    pub open spec fn cross(self, rhs: RealVec3) -> RealVec3 {
        RealVec3 {
            x: product(self.y, rhs.z) - product(rhs.y, self.z),
            y: product(self.z, rhs.x) - product(rhs.z, self.x),
            z: product(self.x, rhs.y) - product(rhs.x, self.y),
        }
    }

    /// The vector with every component multiplied by `s`.
    pub open spec fn scaled(self, s: real) -> RealVec3 {
        RealVec3 { x: product(self.x, s), y: product(self.y, s), z: product(self.z, s) }
    }
}

/// A matrix of three by three real numbers, by its columns.
pub struct RealMat3 {
    pub x_axis: RealVec3,
    pub y_axis: RealVec3,
    pub z_axis: RealVec3,
}

impl RealMat3 {
    /// The identity matrix.
    pub open spec fn identity() -> RealMat3 {
        RealMat3 {
            x_axis: RealVec3 { x: 1 as real, y: 0 as real, z: 0 as real },
            y_axis: RealVec3 { x: 0 as real, y: 1 as real, z: 0 as real },
            z_axis: RealVec3 { x: 0 as real, y: 0 as real, z: 1 as real },
        }
    }

    /// The rotation matrix of the quaternion `w + x i + y j + z k`.
    pub open spec fn from_quat(x: real, y: real, z: real, w: real) -> RealMat3 {
        let x2 = x + x;
        let y2 = y + y;
        let z2 = z + z;
        let xx = product(x, x2);
        let xy = product(x, y2);
        let xz = product(x, z2);
        let yy = product(y, y2);
        let yz = product(y, z2);
        let zz = product(z, z2);
        let wx = product(w, x2);
        let wy = product(w, y2);
        let wz = product(w, z2);
        RealMat3 {
            x_axis: RealVec3 { x: 1 as real - (yy + zz), y: xy + wz, z: xz - wy },
            y_axis: RealVec3 { x: xy - wz, y: 1 as real - (xx + zz), z: yz + wx },
            z_axis: RealVec3 { x: xz + wy, y: yz - wx, z: 1 as real - (xx + yy) },
        }
    }

    /// The first row.
    pub open spec fn row_x(self) -> RealVec3 {
        RealVec3 { x: self.x_axis.x, y: self.y_axis.x, z: self.z_axis.x }
    }

    /// The second row.
    pub open spec fn row_y(self) -> RealVec3 {
        RealVec3 { x: self.x_axis.y, y: self.y_axis.y, z: self.z_axis.y }
    }

    /// The third row.
    pub open spec fn row_z(self) -> RealVec3 {
        RealVec3 { x: self.x_axis.z, y: self.y_axis.z, z: self.z_axis.z }
    }

    /// The transpose.
    pub open spec fn transposed(self) -> RealMat3 {
        RealMat3 { x_axis: self.row_x(), y_axis: self.row_y(), z_axis: self.row_z() }
    }

    /// The product with a column vector.
    pub open spec fn times_vec(self, v: RealVec3) -> RealVec3 {
        RealVec3 { x: self.row_x().dot(v), y: self.row_y().dot(v), z: self.row_z().dot(v) }
    }

    /// The matrix product `self * rhs`.
    pub open spec fn times(self, rhs: RealMat3) -> RealMat3 {
        RealMat3 {
            x_axis: self.times_vec(rhs.x_axis),
            y_axis: self.times_vec(rhs.y_axis),
            z_axis: self.times_vec(rhs.z_axis),
        }
    }

    /// The determinant, as the triple product `z_axis . (x_axis x y_axis)`.
    pub open spec fn determinant(self) -> real {
        self.z_axis.dot(self.x_axis.cross(self.y_axis))
    }

    /// The transposed matrix of cofactors, every entry multiplied by `k`.
    /// With `k` the reciprocal of the determinant this is the inverse.
    pub open spec fn adjugate_scaled(self, k: real) -> RealMat3 {
        (RealMat3 {
            x_axis: self.y_axis.cross(self.z_axis).scaled(k),
            y_axis: self.z_axis.cross(self.x_axis).scaled(k),
            z_axis: self.x_axis.cross(self.y_axis).scaled(k),
        }).transposed()
    }

    /// The row vector `a^T * self`: the dot products of `a` with the columns.
    pub open spec fn vec_times(self, a: RealVec3) -> RealVec3 {
        RealVec3 { x: a.dot(self.x_axis), y: a.dot(self.y_axis), z: a.dot(self.z_axis) }
    }
}

/// A product does not depend on the order of its factors.
proof fn lemma_commute(u: real, v: real)
    ensures
        product(u, v) == product(v, u),
{
    reveal(product);
    assert(u * v == v * u) by (nonlinear_arith);
}

/// The product with a doubled factor is the doubled product.
proof fn lemma_double(u: real, v: real)
    ensures
        product(u, v + v) == (2 as real) * product(u, v),
{
    reveal(product);
    assert(u * (v + v) == (2 as real) * (u * v)) by (nonlinear_arith);
}

/// A product with one is the other factor, and a product with zero is zero.
proof fn lemma_unit_product(p: real)
    ensures
        product(p, 1 as real) == p,
        product(1 as real, p) == p,
        product(p, 0 as real) == 0 as real,
        product(0 as real, p) == 0 as real,
{
    reveal(product);
    assert(p * (1 as real) == p && (1 as real) * p == p && p * (0 as real) == 0 as real && (
    0 as real) * p == 0 as real) by (nonlinear_arith);
}

/// The product is associative.
proof fn lemma_product_associative(a: real, b: real, c: real)
    ensures
        product(product(a, b), c) == product(a, product(b, c)),
{
    reveal(product);
    let p = product(a, b);
    let q = product(b, c);
    assert(p * c == a * q) by (nonlinear_arith)
        requires
            p == a * b,
            q == b * c,
    ;
}

/// Products of the linear forms that make up a rotation matrix.
proof fn lemma_products_of_forms(u: real, v: real)
    ensures
        product(1 as real - (2 as real) * u, 1 as real - (2 as real) * v) == 1 as real - (2 as real)
            * u - (2 as real) * v + (4 as real) * product(u, v),
        product(1 as real - (2 as real) * u, (2 as real) * v) == (2 as real) * v - (4 as real)
            * product(u, v),
        product((2 as real) * u, 1 as real - (2 as real) * v) == (2 as real) * u - (4 as real)
            * product(u, v),
        product((2 as real) * u, (2 as real) * v) == (4 as real) * product(u, v),
{
    reveal(product);
    assert((1 as real - (2 as real) * u) * (1 as real - (2 as real) * v) == 1 as real - (2 as real)
        * u - (2 as real) * v + (4 as real) * (u * v)) by (nonlinear_arith);
    assert((1 as real - (2 as real) * u) * ((2 as real) * v) == (2 as real) * v - (4 as real) * (u
        * v)) by (nonlinear_arith);
    assert(((2 as real) * u) * (1 as real - (2 as real) * v) == (2 as real) * u - (4 as real) * (u
        * v)) by (nonlinear_arith);
    assert(((2 as real) * u) * ((2 as real) * v) == (4 as real) * (u * v)) by (nonlinear_arith);
}

/// The product of two sums or differences of two terms.
proof fn lemma_bilinear(p: real, q: real, r: real, s: real)
    ensures
        product(p + q, r + s) == product(p, r) + product(p, s) + product(q, r) + product(q, s),
        product(p - q, r + s) == product(p, r) + product(p, s) - product(q, r) - product(q, s),
        product(p + q, r - s) == product(p, r) - product(p, s) + product(q, r) - product(q, s),
        product(p - q, r - s) == product(p, r) - product(p, s) - product(q, r) + product(q, s),
{
    reveal(product);
    assert((p + q) * (r + s) == p * r + p * s + q * r + q * s) by (nonlinear_arith);
    assert((p - q) * (r + s) == p * r + p * s - q * r - q * s) by (nonlinear_arith);
    assert((p + q) * (r - s) == p * r - p * s + q * r - q * s) by (nonlinear_arith);
    assert((p - q) * (r - s) == p * r - p * s - q * r + q * s) by (nonlinear_arith);
}

/// The product of a number and a sum of two terms.
proof fn lemma_distribute(p: real, a: real, b: real)
    ensures
        product(p, a + b) == product(p, a) + product(p, b),
        product(a + b, p) == product(a, p) + product(b, p),
{
    reveal(product);
    assert(p * (a + b) == p * a + p * b) by (nonlinear_arith);
    assert((a + b) * p == a * p + b * p) by (nonlinear_arith);
}

/// The product of a number and a sum of three terms.
proof fn lemma_distribute_three(p: real, a: real, b: real, c: real)
    ensures
        product(p, a + b + c) == product(p, a) + product(p, b) + product(p, c),
        product(a + b + c, p) == product(a, p) + product(b, p) + product(c, p),
{
    reveal(product);
    assert(p * (a + b + c) == p * a + p * b + p * c) by (nonlinear_arith);
    assert((a + b + c) * p == a * p + b * p + c * p) by (nonlinear_arith);
}

/// The product of a number and a sum of four terms.
proof fn lemma_distribute_four(p: real, a: real, b: real, c: real, d: real)
    ensures
        product(p, a + b + c + d) == product(p, a) + product(p, b) + product(p, c) + product(p, d),
{
    reveal(product);
    assert(p * (a + b + c + d) == p * a + p * b + p * c + p * d) by (nonlinear_arith);
}

/// A product of four numbers does not depend on how they are paired.
proof fn lemma_pairing(a: real, b: real, c: real, d: real)
    ensures
        product(product(a, b), product(c, d)) == product(product(a, c), product(b, d)),
        product(product(a, b), product(c, d)) == product(product(a, d), product(c, b)),
        product(product(a, b), product(c, d)) == product(product(c, d), product(a, b)),
{
    reveal(product);
    let ab = product(a, b);
    let cd = product(c, d);
    let ac = product(a, c);
    let bd = product(b, d);
    let ad = product(a, d);
    let cb = product(c, b);
    assert(ab * cd == ac * bd) by (nonlinear_arith)
        requires
            ab == a * b,
            cd == c * d,
            ac == a * c,
            bd == b * d,
    ;
    assert(ab * cd == ad * cb) by (nonlinear_arith)
        requires
            ab == a * b,
            cd == c * d,
            ad == a * d,
            cb == c * b,
    ;
    assert(ab * cd == cd * ab) by (nonlinear_arith);
}

/// The squared length of the first column of a rotation matrix, over the
/// products of two components of the quaternion.
proof fn lemma_atoms_diagonal(
    a: real,
    b: real,
    c: real,
    d: real,
    xy: real,
    wz: real,
    xz: real,
    wy: real,
)
    requires
        product(xy, xy) == product(b, a),
        product(wz, wz) == product(c, d),
        product(xz, xz) == product(c, a),
        product(wy, wy) == product(b, d),
        product(xy, wz) == product(xz, wy),
    ensures
        ({
            let m0 = 1 as real - (2 as real) * (b + c);
            let m1 = (2 as real) * (xy + wz);
            let m2 = (2 as real) * (xz - wy);
            product(m0, m0) + product(m1, m1) + product(m2, m2) == 1 as real - (4 as real) * (b
                + c) + (4 as real) * product(b + c, a + b + c + d)
        }),
{
    let u = b + c;
    lemma_products_of_forms(u, u);
    lemma_products_of_forms(xy + wz, xy + wz);
    lemma_products_of_forms(xz - wy, xz - wy);
    lemma_bilinear(xy, wz, xy, wz);
    lemma_bilinear(xz, wy, xz, wy);
    lemma_commute(xy, wz);
    lemma_commute(xz, wy);
    lemma_distribute_four(u, a, b, c, d);
    lemma_distribute(u, b, c);
    lemma_distribute(a, b, c);
    lemma_distribute(d, b, c);
}

/// The dot product of the first two columns of a rotation matrix, over the
/// products of two components of the quaternion.
proof fn lemma_atoms_off_diagonal(
    a: real,
    b: real,
    c: real,
    d: real,
    xy: real,
    wz: real,
    xz: real,
    wy: real,
    yz: real,
    wx: real,
)
    requires
        product(b, xy) == product(xy, b),
        product(b, wz) == product(wy, yz),
        product(c, xy) == product(xz, yz),
        product(c, wz) == product(wz, c),
        product(wz, a) == product(xz, wx),
        product(wy, wx) == product(xy, d),
    ensures
        ({
            let m0 = 1 as real - (2 as real) * (b + c);
            let m1 = (2 as real) * (xy + wz);
            let m2 = (2 as real) * (xz - wy);
            let n0 = (2 as real) * (xy - wz);
            let n1 = 1 as real - (2 as real) * (a + c);
            let n2 = (2 as real) * (yz + wx);
            product(m0, n0) + product(m1, n1) + product(m2, n2) == (4 as real) * xy - (4 as real)
                * product(xy, a + b + c + d)
        }),
{
    lemma_products_of_forms(b + c, xy - wz);
    lemma_products_of_forms(xy + wz, a + c);
    lemma_products_of_forms(xz - wy, yz + wx);
    lemma_bilinear(b, c, xy, wz);
    lemma_bilinear(xy, wz, a, c);
    lemma_bilinear(xz, wy, yz, wx);
    lemma_distribute_four(xy, a, b, c, d);
}

/// The dot products of the columns of a rotation matrix, for a quaternion of
/// unit length.
proof fn lemma_columns(x: real, y: real, z: real, w: real)
    requires
        product(x, x) + product(y, y) + product(z, z) + product(w, w) == 1 as real,
    ensures
        ({
            let m0 = 1 as real - (2 as real) * (product(y, y) + product(z, z));
            let m1 = (2 as real) * (product(x, y) + product(w, z));
            let m2 = (2 as real) * (product(x, z) - product(w, y));
            let n0 = (2 as real) * (product(x, y) - product(w, z));
            let n1 = 1 as real - (2 as real) * (product(x, x) + product(z, z));
            let n2 = (2 as real) * (product(y, z) + product(w, x));
            &&& product(m0, m0) + product(m1, m1) + product(m2, m2) == 1 as real
            &&& product(m0, n0) + product(m1, n1) + product(m2, n2) == 0 as real
            &&& product(n0, m0) + product(n1, m1) + product(n2, m2) == 0 as real
        }),
{
    let a = product(x, x);
    let b = product(y, y);
    let c = product(z, z);
    let d = product(w, w);
    let xy = product(x, y);
    let wz = product(w, z);
    let xz = product(x, z);
    let wy = product(w, y);
    let yz = product(y, z);
    let wx = product(w, x);
    lemma_pairing(x, y, x, y);
    lemma_commute(a, b);
    lemma_pairing(w, z, w, z);
    lemma_commute(d, c);
    lemma_pairing(x, z, x, z);
    lemma_commute(a, c);
    lemma_pairing(w, y, w, y);
    lemma_commute(d, b);
    lemma_pairing(x, y, w, z);
    lemma_atoms_diagonal(a, b, c, d, xy, wz, xz, wy);
    lemma_commute(b, xy);
    lemma_pairing(y, y, w, z);
    lemma_commute(yz, wy);
    lemma_pairing(z, z, x, y);
    lemma_commute(z, y);
    lemma_commute(yz, xz);
    lemma_commute(c, wz);
    lemma_pairing(w, z, x, x);
    lemma_commute(wx, xz);
    lemma_pairing(w, y, w, x);
    lemma_commute(y, x);
    lemma_commute(d, xy);
    lemma_atoms_off_diagonal(a, b, c, d, xy, wz, xz, wy, yz, wx);
    lemma_unit_product(b + c);
    lemma_unit_product(xy);
    lemma_commute(1 as real - (2 as real) * (b + c), (2 as real) * (xy - wz));
    lemma_commute((2 as real) * (xy + wz), 1 as real - (2 as real) * (a + c));
    lemma_commute((2 as real) * (xz - wy), (2 as real) * (yz + wx));
}

/// The entries of the rotation matrix of a quaternion, over the products of
/// two components.
proof fn lemma_from_quat_entries(x: real, y: real, z: real, w: real)
    ensures
        ({
            let m = RealMat3::from_quat(x, y, z, w);
            &&& m.x_axis.x == 1 as real - (2 as real) * (product(y, y) + product(z, z))
            &&& m.x_axis.y == (2 as real) * (product(x, y) + product(w, z))
            &&& m.x_axis.z == (2 as real) * (product(x, z) - product(w, y))
            &&& m.y_axis.x == (2 as real) * (product(x, y) - product(w, z))
            &&& m.y_axis.y == 1 as real - (2 as real) * (product(x, x) + product(z, z))
            &&& m.y_axis.z == (2 as real) * (product(y, z) + product(w, x))
            &&& m.z_axis.x == (2 as real) * (product(x, z) + product(w, y))
            &&& m.z_axis.y == (2 as real) * (product(y, z) - product(w, x))
            &&& m.z_axis.z == 1 as real - (2 as real) * (product(x, x) + product(y, y))
        }),
{
    lemma_double(x, x);
    lemma_double(x, y);
    lemma_double(x, z);
    lemma_double(y, y);
    lemma_double(y, z);
    lemma_double(z, z);
    lemma_double(w, x);
    lemma_double(w, y);
    lemma_double(w, z);
}

/// The first column of the rotation matrix of a unit quaternion has unit
/// length and is orthogonal to the second.
proof fn lemma_columns_first(x: real, y: real, z: real, w: real)
    requires
        product(x, x) + product(y, y) + product(z, z) + product(w, w) == 1 as real,
    ensures
        ({
            let m = RealMat3::from_quat(x, y, z, w);
            &&& m.x_axis.dot(m.x_axis) == 1 as real
            &&& m.x_axis.dot(m.y_axis) == 0 as real
            &&& m.y_axis.dot(m.x_axis) == 0 as real
        }),
{
    lemma_from_quat_entries(x, y, z, w);
    lemma_columns(x, y, z, w);
}

/// The second column of the rotation matrix of a unit quaternion has unit
/// length and is orthogonal to the third.
proof fn lemma_columns_second(x: real, y: real, z: real, w: real)
    requires
        product(x, x) + product(y, y) + product(z, z) + product(w, w) == 1 as real,
    ensures
        ({
            let m = RealMat3::from_quat(x, y, z, w);
            &&& m.y_axis.dot(m.y_axis) == 1 as real
            &&& m.y_axis.dot(m.z_axis) == 0 as real
            &&& m.z_axis.dot(m.y_axis) == 0 as real
        }),
{
    lemma_from_quat_entries(x, y, z, w);
    lemma_columns(y, z, x, w);
    lemma_commute(y, x);
    lemma_commute(z, x);
}

/// The third column of the rotation matrix of a unit quaternion has unit
/// length and is orthogonal to the first.
proof fn lemma_columns_third(x: real, y: real, z: real, w: real)
    requires
        product(x, x) + product(y, y) + product(z, z) + product(w, w) == 1 as real,
    ensures
        ({
            let m = RealMat3::from_quat(x, y, z, w);
            &&& m.z_axis.dot(m.z_axis) == 1 as real
            &&& m.z_axis.dot(m.x_axis) == 0 as real
            &&& m.x_axis.dot(m.z_axis) == 0 as real
        }),
{
    lemma_from_quat_entries(x, y, z, w);
    lemma_columns(z, x, y, w);
    lemma_commute(z, x);
    lemma_commute(z, y);
}

/// The rotation matrix of a quaternion of unit length is orthogonal: its
/// transpose is its inverse.
pub proof fn lemma_from_quat_orthogonal(x: real, y: real, z: real, w: real)
    requires
        product(x, x) + product(y, y) + product(z, z) + product(w, w) == 1 as real,
    ensures
        RealMat3::from_quat(x, y, z, w).transposed().times(RealMat3::from_quat(x, y, z, w))
            == RealMat3::identity(),
{
    lemma_columns_first(x, y, z, w);
    lemma_columns_second(x, y, z, w);
    lemma_columns_third(x, y, z, w);
}

/// The rotation matrix of the conjugate quaternion is the transpose.
pub proof fn lemma_from_quat_conjugate(x: real, y: real, z: real, w: real)
    ensures
        RealMat3::from_quat(-x, -y, -z, w) == RealMat3::from_quat(x, y, z, w).transposed(),
{
    lemma_from_quat_entries(x, y, z, w);
    lemma_from_quat_entries(-x, -y, -z, w);
    lemma_negated_factors(x, x);
    lemma_negated_factors(x, y);
    lemma_negated_factors(x, z);
    lemma_negated_factors(y, y);
    lemma_negated_factors(y, z);
    lemma_negated_factors(z, z);
    lemma_negated_factors(w, x);
    lemma_negated_factors(w, y);
    lemma_negated_factors(w, z);
}

/// The product of two negated factors is the product, and negating one
/// factor negates the product.
proof fn lemma_negated_factors(u: real, v: real)
    ensures
        product(-u, -v) == product(u, v),
        product(u, -v) == -product(u, v),
{
    reveal(product);
    assert((-u) * (-v) == u * v && u * (-v) == -(u * v)) by (nonlinear_arith);
}

/// `(a^T * B) . c == a . (B * c)`.
pub proof fn lemma_dot_associative(a: RealVec3, b: RealMat3, c: RealVec3)
    ensures
        b.vec_times(a).dot(c) == a.dot(b.times_vec(c)),
{
    lemma_distribute_three(c.x, product(a.x, b.x_axis.x), product(a.y, b.x_axis.y), product(a.z, b.x_axis.z));
    lemma_distribute_three(c.y, product(a.x, b.y_axis.x), product(a.y, b.y_axis.y), product(a.z, b.y_axis.z));
    lemma_distribute_three(c.z, product(a.x, b.z_axis.x), product(a.y, b.z_axis.y), product(a.z, b.z_axis.z));
    lemma_distribute_three(a.x, product(b.x_axis.x, c.x), product(b.y_axis.x, c.y), product(b.z_axis.x, c.z));
    lemma_distribute_three(a.y, product(b.x_axis.y, c.x), product(b.y_axis.y, c.y), product(b.z_axis.y, c.z));
    lemma_distribute_three(a.z, product(b.x_axis.z, c.x), product(b.y_axis.z, c.y), product(b.z_axis.z, c.z));
    lemma_product_associative(a.x, b.x_axis.x, c.x);
    lemma_product_associative(a.y, b.x_axis.y, c.x);
    lemma_product_associative(a.z, b.x_axis.z, c.x);
    lemma_product_associative(a.x, b.y_axis.x, c.y);
    lemma_product_associative(a.y, b.y_axis.y, c.y);
    lemma_product_associative(a.z, b.y_axis.z, c.y);
    lemma_product_associative(a.x, b.z_axis.x, c.z);
    lemma_product_associative(a.y, b.z_axis.y, c.z);
    lemma_product_associative(a.z, b.z_axis.z, c.z);
}

/// The matrix product is associative.
pub proof fn lemma_times_associative(a: RealMat3, b: RealMat3, c: RealMat3)
    ensures
        a.times(b).times(c) == a.times(b.times(c)),
{
    lemma_dot_associative(a.row_x(), b, c.x_axis);
    lemma_dot_associative(a.row_y(), b, c.x_axis);
    lemma_dot_associative(a.row_z(), b, c.x_axis);
    lemma_dot_associative(a.row_x(), b, c.y_axis);
    lemma_dot_associative(a.row_y(), b, c.y_axis);
    lemma_dot_associative(a.row_z(), b, c.y_axis);
    lemma_dot_associative(a.row_x(), b, c.z_axis);
    lemma_dot_associative(a.row_y(), b, c.z_axis);
    lemma_dot_associative(a.row_z(), b, c.z_axis);
}

/// The identity matrix is the neutral element of the product.
pub proof fn lemma_times_identity(a: RealMat3)
    ensures
        a.times(RealMat3::identity()) == a,
        RealMat3::identity().times(a) == a,
{
    lemma_unit_product(a.x_axis.x);
    lemma_unit_product(a.x_axis.y);
    lemma_unit_product(a.x_axis.z);
    lemma_unit_product(a.y_axis.x);
    lemma_unit_product(a.y_axis.y);
    lemma_unit_product(a.y_axis.z);
    lemma_unit_product(a.z_axis.x);
    lemma_unit_product(a.z_axis.y);
    lemma_unit_product(a.z_axis.z);
}

/// A product of three numbers does not depend on where it starts.
proof fn lemma_triple(p: real, q: real, r: real)
    ensures
        product(product(p, q), r) == product(product(q, r), p),
        product(product(p, q), r) == product(product(r, p), q),
        product(product(p, q), r) == product(q, product(p, r)),
{
    reveal(product);
    let pq = product(p, q);
    let qr = product(q, r);
    let rp = product(r, p);
    let pr = product(p, r);
    assert(pq * r == qr * p) by (nonlinear_arith)
        requires
            pq == p * q,
            qr == q * r,
    ;
    assert(pq * r == rp * q) by (nonlinear_arith)
        requires
            pq == p * q,
            rp == r * p,
    ;
    assert(pq * r == q * pr) by (nonlinear_arith)
        requires
            pq == p * q,
            pr == p * r,
    ;
}

/// The product of a difference and a number.
proof fn lemma_difference(p: real, q: real, r: real)
    ensures
        product(p - q, r) == product(p, r) - product(q, r),
{
    reveal(product);
    assert((p - q) * r == p * r - q * r) by (nonlinear_arith);
}

/// The cross product of two vectors is orthogonal to the first of them.
proof fn lemma_cross_orthogonal_first(a: RealVec3, b: RealVec3)
    ensures
        a.cross(b).dot(a) == 0 as real,
{
    lemma_difference(product(a.y, b.z), product(b.y, a.z), a.x);
    lemma_difference(product(a.z, b.x), product(b.z, a.x), a.y);
    lemma_difference(product(a.x, b.y), product(b.x, a.y), a.z);
    lemma_triple(a.y, b.z, a.x);
    lemma_triple(b.y, a.z, a.x);
    lemma_triple(a.z, b.x, a.y);
}

/// The cross product of two vectors is orthogonal to the second of them.
proof fn lemma_cross_orthogonal_second(a: RealVec3, b: RealVec3)
    ensures
        a.cross(b).dot(b) == 0 as real,
{
    lemma_difference(product(a.y, b.z), product(b.y, a.z), b.x);
    lemma_difference(product(a.z, b.x), product(b.z, a.x), b.y);
    lemma_difference(product(a.x, b.y), product(b.x, a.y), b.z);
    lemma_triple(a.y, b.z, b.x);
    lemma_triple(b.y, a.z, b.x);
    lemma_triple(b.z, a.x, b.y);
}

/// The triple product does not change when its vectors are rotated.
proof fn lemma_triple_product_cyclic(a: RealVec3, b: RealVec3, c: RealVec3)
    ensures
        a.cross(b).dot(c) == b.cross(c).dot(a),
{
    lemma_difference(product(a.y, b.z), product(b.y, a.z), c.x);
    lemma_difference(product(a.z, b.x), product(b.z, a.x), c.y);
    lemma_difference(product(a.x, b.y), product(b.x, a.y), c.z);
    lemma_difference(product(b.y, c.z), product(c.y, b.z), a.x);
    lemma_difference(product(b.z, c.x), product(c.z, b.x), a.y);
    lemma_difference(product(b.x, c.y), product(c.x, b.y), a.z);
    lemma_triple(a.y, b.z, c.x);
    lemma_triple(b.y, a.z, c.x);
    lemma_triple(a.z, b.x, c.y);
    lemma_triple(b.z, a.x, c.y);
    lemma_triple(a.x, b.y, c.z);
    lemma_triple(b.x, a.y, c.z);
}

/// The dot product with a scaled vector is the scaled dot product.
proof fn lemma_scaled_dot(t: RealVec3, k: real, c: RealVec3)
    ensures
        t.scaled(k).dot(c) == product(k, t.dot(c)),
{
    lemma_triple(t.x, k, c.x);
    lemma_triple(t.y, k, c.y);
    lemma_triple(t.z, k, c.z);
    lemma_distribute_three(k, product(t.x, c.x), product(t.y, c.y), product(t.z, c.z));
}

/// The transposed matrix of cofactors, multiplied by the reciprocal of the
/// determinant, is an inverse of the matrix.
pub proof fn lemma_adjugate_inverse(m: RealMat3, k: real)
    requires
        product(m.determinant(), k) == 1 as real,
    ensures
        m.adjugate_scaled(k).times(m) == RealMat3::identity(),
{
    let (x, y, z) = (m.x_axis, m.y_axis, m.z_axis);
    let t0 = y.cross(z);
    let t1 = z.cross(x);
    let t2 = x.cross(y);
    let det = m.determinant();
    lemma_commute(z.x, t2.x);
    lemma_commute(z.y, t2.y);
    lemma_commute(z.z, t2.z);
    assert(t2.dot(z) == det);
    lemma_triple_product_cyclic(x, y, z);
    lemma_triple_product_cyclic(y, z, x);
    assert(t0.dot(x) == det);
    assert(t1.dot(y) == det);
    lemma_cross_orthogonal_first(y, z);
    lemma_cross_orthogonal_second(y, z);
    lemma_cross_orthogonal_first(z, x);
    lemma_cross_orthogonal_second(z, x);
    lemma_cross_orthogonal_first(x, y);
    lemma_cross_orthogonal_second(x, y);
    lemma_scaled_dot(t0, k, x);
    lemma_scaled_dot(t0, k, y);
    lemma_scaled_dot(t0, k, z);
    lemma_scaled_dot(t1, k, x);
    lemma_scaled_dot(t1, k, y);
    lemma_scaled_dot(t1, k, z);
    lemma_scaled_dot(t2, k, x);
    lemma_scaled_dot(t2, k, y);
    lemma_scaled_dot(t2, k, z);
    lemma_commute(k, det);
    lemma_unit_product(k);
}

} // verus!
