//! Mass properties for spatial simulation, where the rotational inertia is a
//! symmetric three-by-three tensor.

use crate::mass::{InverseMass, Mass};
use crate::matrix::{Mat3Value, Matrix3};
use crate::quaternion::{QuatValue, Quaternion};
use crate::reals::{
    lemma_from_quat_conjugate, lemma_from_quat_orthogonal, lemma_times_associative,
    lemma_times_identity, RealMat3,
};
use crate::scalar::{Extended, Scalar};
use crate::vector::{Vec3Value, Vector3};
use vstd::prelude::*;

verus! {

/// An orientation in space, as a quaternion of unit length.
#[derive(Clone, Copy, Debug, PartialEq, Eq, Structural)]
pub struct Rotation(pub Quaternion);

impl View for Rotation {
    type V = QuatValue;

    open spec fn view(&self) -> QuatValue {
        self.0@
    }
}

impl Rotation {
    /// The rotation that undoes this one.
    pub fn inverse(&self) -> (r: Rotation)
        ensures
            r@ == self@.conjugate(),
    {
        Rotation(self.0.conjugate())
    }
}

/// A local tensor in world space: `R * tensor * R^T`, with `R` the rotation
/// matrix of the orientation.
pub open spec fn rotated_value(tensor: Mat3Value, rot: QuatValue) -> Mat3Value {
    let r = Mat3Value::from_quat(rot);
    r.times(tensor).times(r.transposed())
}

/// The inverse of a tensor. The zero tensor has the zero tensor as its
/// inverse; every other tensor has its matrix inverse.
pub open spec fn inverse_value(tensor: Mat3Value) -> Mat3Value {
    if tensor == Mat3Value::zero() {
        Mat3Value::zero()
    } else {
        tensor.inverse()
    }
}

/// The inertia about a point displaced by `offset` from the center of mass:
/// `inertia + (|offset|^2 * Id + offset * offset^T) * mass`. A mass that is
/// not positive and finite leaves the inertia as it is.
pub open spec fn shifted_value(inertia: Mat3Value, mass: Extended, offset: Vec3Value) -> Mat3Value {
    if mass.is_positive() && mass.is_finite() {
        inertia.plus(
            Mat3Value::from_diagonal_element(offset.length_squared()).plus(
                Mat3Value::outer_square(offset),
            ).scaled(mass),
        )
    } else {
        inertia
    }
}

/// Rotating an inertia into world space and back by the inverse rotation
/// gives the inertia back, for a rotation of unit length and as long as the
/// result is finite, that is, as long as the scalars could hold every number
/// on the way. The same holds of an inverse inertia, which is rotated in the
/// same way.
pub proof fn lemma_rotated_round_trip(inertia: Inertia, rot: Rotation)
    requires
        rot@.length_squared() == Extended::one(),
        rotated_value(rotated_value(inertia@, rot@), rot@.conjugate()).is_finite(),
    ensures
        rotated_value(rotated_value(inertia@, rot@), rot@.conjugate()) == inertia@,
{
    lemma_rotated_value_round_trip(inertia@, rot@);
}

/// Rotating a tensor by a quaternion of unit length and then by its conjugate
/// gives the tensor back, as long as the result is finite.
pub proof fn lemma_rotated_value_round_trip(tensor: Mat3Value, rot: QuatValue)
    requires
        rot.length_squared() == Extended::one(),
        rotated_value(rotated_value(tensor, rot), rot.conjugate()).is_finite(),
    ensures
        rotated_value(rotated_value(tensor, rot), rot.conjugate()) == tensor,
{
    let r = Mat3Value::from_quat(rot);
    let rc = Mat3Value::from_quat(rot.conjugate());
    let a = r.times(tensor);
    let b = a.times(r.transposed());
    let c = rc.times(b);
    let t = c.times(rc.transposed());
    assert(t == rotated_value(rotated_value(tensor, rot), rot.conjugate()));
    c.lemma_times_exact(rc.transposed());
    rc.lemma_times_exact(b);
    a.lemma_times_exact(r.transposed());
    r.lemma_times_exact(tensor);
    rot.lemma_unit_exact();
    Mat3Value::lemma_from_quat_exact(rot);
    Mat3Value::lemma_from_quat_exact(rot.conjugate());
    let (x, y, z, w) = (rot.x.to_real(), rot.y.to_real(), rot.z.to_real(), rot.w.to_real());
    let i = tensor.to_reals();
    let rr = RealMat3::from_quat(x, y, z, w);
    let m = rr.transposed();
    lemma_from_quat_conjugate(x, y, z, w);
    lemma_from_quat_orthogonal(x, y, z, w);
    assert(rc.to_reals() == m);
    assert(r.transposed().to_reals() == m);
    assert(rc.transposed().to_reals() == rr);
    assert(t.to_reals() == m.times(rr.times(i).times(m)).times(rr));
    lemma_times_associative(m, rr.times(i).times(m), rr);
    lemma_times_associative(rr.times(i), m, rr);
    lemma_times_identity(rr.times(i));
    lemma_times_associative(m, rr, i);
    lemma_times_identity(i);
    assert(t.to_reals() == i);
}

/// The inverse of a zero inertia is the zero inverse inertia, not a tensor of
/// infinities.
pub proof fn lemma_inverse_of_zero(inertia: Inertia)
    requires
        inertia@ == Mat3Value::zero(),
    ensures
        inverse_value(inertia@) == Mat3Value::zero(),
        inertia.inverse()@ == Mat3Value::zero(),
        inertia.inverse().inverse() == Inertia(Matrix3::of_value(Mat3Value::zero())),
{
    Scalar::lemma_zero_is_scalar();
    Scalar::lemma_of_value_view(Extended::zero());
}

/// The inverse of an inertia that is not zero is its inverse as a matrix of
/// real numbers: their product is the identity. This holds as long as the
/// inverse is finite, that is, as long as the determinant is not zero and the
/// scalars could hold every number on the way.
pub proof fn lemma_inverse_is_matrix_inverse(inertia: Inertia)
    requires
        inertia@ != Mat3Value::zero(),
        inverse_value(inertia@).is_finite(),
    ensures
        inverse_value(inertia@).to_reals().times(inertia@.to_reals()) == RealMat3::identity(),
{
    inertia@.lemma_inverse_exact();
}

/// A mass that is not positive and finite leaves every inertia unshifted.
pub proof fn lemma_shifted_guard(inertia: Inertia, mass: Scalar, offset: Vector3)
    requires
        !mass@.is_positive() || !mass@.is_finite(),
    ensures
        shifted_value(inertia@, mass@, offset@) == inertia@,
{
}

/// A collider of density zero adds nothing to the mass and to the inertia of
/// a body, whatever its shape.
pub proof fn lemma_zero_density_adds_nothing(shape: ShapeMassProperties, mass: Mass, inertia: Inertia)
    requires
        mass.0.wf(),
        inertia.0.wf(),
    ensures
        mass@.plus(MassPropertiesValue::derived(shape, Extended::zero()).mass) == mass@,
        inertia@.plus(MassPropertiesValue::derived(shape, Extended::zero()).inertia) == inertia@,
{
    mass.0.lemma_view_is_scalar();
    mass@.lemma_plus_zero();
    let m = inertia.0;
    m.x_axis.x.lemma_view_is_scalar();
    m.x_axis.y.lemma_view_is_scalar();
    m.x_axis.z.lemma_view_is_scalar();
    m.y_axis.x.lemma_view_is_scalar();
    m.y_axis.y.lemma_view_is_scalar();
    m.y_axis.z.lemma_view_is_scalar();
    m.z_axis.x.lemma_view_is_scalar();
    m.z_axis.y.lemma_view_is_scalar();
    m.z_axis.z.lemma_view_is_scalar();
    m.x_axis.x@.lemma_plus_zero();
    m.x_axis.y@.lemma_plus_zero();
    m.x_axis.z@.lemma_plus_zero();
    m.y_axis.x@.lemma_plus_zero();
    m.y_axis.y@.lemma_plus_zero();
    m.y_axis.z@.lemma_plus_zero();
    m.z_axis.x@.lemma_plus_zero();
    m.z_axis.y@.lemma_plus_zero();
    m.z_axis.z@.lemma_plus_zero();
}

/// Brings a local tensor into world space.
pub fn rotated_tensor(tensor: &Matrix3, rot: &Quaternion) -> (r: Matrix3)
    ensures
        r@ == rotated_value(tensor@, rot@),
{
    let rot_mat3 = Matrix3::from_quat(rot);
    rot_mat3.mul_mat3(tensor).mul_mat3(&rot_mat3.transpose())
}

/// Inverts a tensor, with the zero tensor as the inverse of the zero tensor.
pub fn inverted_tensor(tensor: &Matrix3) -> (r: Matrix3)
    ensures
        r@ == inverse_value(tensor@),
        r == Matrix3::of_value(inverse_value(tensor@)),
{
    let r = if tensor.is_zero() {
        Matrix3::zero()
    } else {
        tensor.inverse()
    };
    r.assert_wf();
    proof {
        r.lemma_of_value();
    }
    r
}

/// The local moment of inertia of a body as a tensor: the torque needed for a
/// desired angular acceleration about each axis. It does not take the
/// orientation of the body into account; `rotated` does.
#[derive(Clone, Copy, Debug, PartialEq, Eq, Structural)]
pub struct Inertia(pub Matrix3);

impl View for Inertia {
    type V = Mat3Value;

    open spec fn view(&self) -> Mat3Value {
        self.0@
    }
}

impl Inertia {
    /// Zero angular inertia.
    pub fn zero() -> (r: Inertia)
        ensures
            r@ == Mat3Value::zero(),
    {
        Inertia(Matrix3::zero())
    }

    /// The inertia tensor in world space, for a body of the given
    /// orientation.
    pub fn rotated(&self, rot: &Rotation) -> (r: Inertia)
        ensures
            r@ == rotated_value(self@, rot@),
    {
        Inertia(rotated_tensor(&self.0, &rot.0))
    }

    /// The inverted inertia tensor as a value of the specification.
    pub open spec fn spec_inverse(&self) -> InverseInertia {
        InverseInertia(Matrix3::of_value(inverse_value(self@)))
    }

    /// The inverted inertia tensor. A zero inertia has a zero inverse.
    #[verifier::when_used_as_spec(spec_inverse)]
    pub fn inverse(&self) -> (r: InverseInertia)
        ensures
            r@ == inverse_value(self@),
            r == self.spec_inverse(),
            self@ == Mat3Value::zero() ==> r@ == Mat3Value::zero(),
    {
        InverseInertia(inverted_tensor(&self.0))
    }

    /// The inertia tensor of a body of the given mass about a point
    /// displaced by `offset` from its center of mass.
    pub fn shifted(&self, mass: Scalar, offset: Vector3) -> (r: Matrix3)
        ensures
            r@ == shifted_value(self@, mass@, offset@),
            !(mass@.is_positive() && mass@.is_finite()) ==> r == self.0,
    {
        if mass.is_positive() && mass.is_finite() {
            let diagonal_el = offset.length_squared();
            let diagonal_mat = Matrix3::from_diagonal_element(diagonal_el);
            let outer = Matrix3::outer_square(&offset);
            self.0.add_mat3(&diagonal_mat.add_mat3(&outer).mul_scalar(mass))
        } else {
            self.0
        }
    }
}

impl Default for Inertia {
    /// Zero angular inertia.
    fn default() -> (r: Inertia)
        ensures
            r@ == Mat3Value::zero(),
    {
        Inertia::zero()
    }
}

/// The local inverse moment of inertia of a body as a tensor. It does not
/// take the orientation of the body into account; `rotated` does.
#[derive(Clone, Copy, Debug, PartialEq, Eq, Structural)]
pub struct InverseInertia(pub Matrix3);

impl View for InverseInertia {
    type V = Mat3Value;

    open spec fn view(&self) -> Mat3Value {
        self.0@
    }
}

impl InverseInertia {
    /// Zero inverse angular inertia.
    pub fn zero() -> (r: InverseInertia)
        ensures
            r@ == Mat3Value::zero(),
    {
        InverseInertia(Matrix3::zero())
    }

    /// The inverse inertia tensor in world space, for a body of the given
    /// orientation.
    pub fn rotated(&self, rot: &Rotation) -> (r: InverseInertia)
        ensures
            r@ == rotated_value(self@, rot@),
    {
        InverseInertia(rotated_tensor(&self.0, &rot.0))
    }

    /// The inertia tensor that has this inverse, as a value of the specification.
    pub open spec fn spec_inverse(&self) -> Inertia {
        Inertia(Matrix3::of_value(inverse_value(self@)))
    }

    /// The inertia tensor that has this inverse. A zero inverse inertia has a zero
    /// inverse.
    #[verifier::when_used_as_spec(spec_inverse)]
    pub fn inverse(&self) -> (r: Inertia)
        ensures
            r@ == inverse_value(self@),
            r == self.spec_inverse(),
            self@ == Mat3Value::zero() ==> r@ == Mat3Value::zero(),
    {
        Inertia(inverted_tensor(&self.0))
    }
}

impl Default for InverseInertia {
    /// Zero inverse angular inertia.
    fn default() -> (r: InverseInertia)
        ensures
            r@ == Mat3Value::zero(),
    {
        InverseInertia::zero()
    }
}

impl From<Inertia> for InverseInertia {
    /// The inverse of the inertia.
    fn from(inertia: Inertia) -> (r: InverseInertia) {
        inertia.inverse()
    }
}

impl vstd::std_specs::convert::FromSpecImpl<Inertia> for InverseInertia {
    open spec fn obeys_from_spec() -> bool {
        true
    }

    open spec fn from_spec(inertia: Inertia) -> InverseInertia {
        inertia.spec_inverse()
    }
}

impl From<InverseInertia> for Inertia {
    /// The inertia that has the given inverse.
    fn from(inverse: InverseInertia) -> (r: Inertia) {
        inverse.inverse()
    }
}

impl vstd::std_specs::convert::FromSpecImpl<InverseInertia> for Inertia {
    open spec fn obeys_from_spec() -> bool {
        true
    }

    open spec fn from_spec(inverse: InverseInertia) -> Inertia {
        inverse.spec_inverse()
    }
}

/// The local center of mass of a body.
#[derive(Clone, Copy, Debug, PartialEq, Eq, Structural)]
pub struct CenterOfMass(pub Vector3);

impl View for CenterOfMass {
    type V = Vec3Value;

    open spec fn view(&self) -> Vec3Value {
        self.0@
    }
}

impl CenterOfMass {
    /// A center of mass at the local origin.
    pub fn zero() -> (r: CenterOfMass)
        ensures
            r@ == Vec3Value::zero(),
    {
        CenterOfMass(Vector3::zero())
    }
}

impl Default for CenterOfMass {
    /// A center of mass at the local origin.
    fn default() -> (r: CenterOfMass)
        ensures
            r@ == Vec3Value::zero(),
    {
        CenterOfMass::zero()
    }
}

/// What the geometry of a shape yields at a given density: its mass and
/// inverse mass, its inertia tensor and the inverse of that tensor, and its
/// centroid.
#[derive(Clone, Copy, Debug, PartialEq, Eq, Structural)]
pub struct ShapeMassProperties {
    pub mass: Scalar,
    pub inverse_mass: Scalar,
    pub inertia: Matrix3,
    pub inverse_inertia: Matrix3,
    pub local_center_of_mass: Vector3,
}

/// The value of a set of mass properties.
pub struct MassPropertiesValue {
    pub mass: Extended,
    pub inverse_mass: Extended,
    pub inertia: Mat3Value,
    pub inverse_inertia: Mat3Value,
    pub center_of_mass: Vec3Value,
}

impl MassPropertiesValue {
    /// The mass properties of a collider without mass: no mass, an infinite
    /// inverse mass, no inertia, no inverse inertia, centered at the origin.
    pub open spec fn zero() -> MassPropertiesValue {
        MassPropertiesValue {
            mass: Extended::zero(),
            inverse_mass: Extended::PosInfinity,
            inertia: Mat3Value::zero(),
            inverse_inertia: Mat3Value::zero(),
            center_of_mass: Vec3Value::zero(),
        }
    }

    /// The mass properties of a collider whose shape yields `shape` at the
    /// given density: what the geometry yields, unchanged. At density zero
    /// the collider has no mass, whatever its shape.
    pub open spec fn derived(shape: ShapeMassProperties, density: Extended) -> MassPropertiesValue {
        if density == Extended::zero() {
            MassPropertiesValue::zero()
        } else {
            MassPropertiesValue {
                mass: shape.mass@,
                inverse_mass: shape.inverse_mass@,
                inertia: shape.inertia@,
                inverse_inertia: shape.inverse_inertia@,
                center_of_mass: shape.local_center_of_mass@,
            }
        }
    }
}

/// The mass properties that a collider contributes to its body. They are
/// derived from the collider's shape and density and cannot be set
/// otherwise.
#[derive(Clone, Copy, Debug, PartialEq, Eq, Structural)]
pub struct ColliderMassProperties {
    mass: Mass,
    inverse_mass: InverseMass,
    inertia: Inertia,
    inverse_inertia: InverseInertia,
    center_of_mass: CenterOfMass,
}

impl View for ColliderMassProperties {
    type V = MassPropertiesValue;

    closed spec fn view(&self) -> MassPropertiesValue {
        MassPropertiesValue {
            mass: self.mass@,
            inverse_mass: self.inverse_mass@,
            inertia: self.inertia@,
            inverse_inertia: self.inverse_inertia@,
            center_of_mass: self.center_of_mass@,
        }
    }
}

impl ColliderMassProperties {
    /// The mass properties of a collider without mass.
    pub fn zero() -> (r: ColliderMassProperties)
        ensures
            r@ == MassPropertiesValue::zero(),
    {
        ColliderMassProperties {
            mass: Mass::zero(),
            inverse_mass: InverseMass(Scalar::infinity()),
            inertia: Inertia::zero(),
            inverse_inertia: InverseInertia::zero(),
            center_of_mass: CenterOfMass::zero(),
        }
    }

    /// The mass properties of a collider, from what the geometry of its shape
    /// yields at the given density.
    pub fn new(shape: &ShapeMassProperties, density: Scalar) -> (r: ColliderMassProperties)
        ensures
            r@ == MassPropertiesValue::derived(*shape, density@),
            density@ == Extended::zero() ==> r@ == MassPropertiesValue::zero(),
    {
        if density.is_zero() {
            ColliderMassProperties::zero()
        } else {
            ColliderMassProperties {
                mass: Mass(shape.mass),
                inverse_mass: InverseMass(shape.inverse_mass),
                inertia: Inertia(shape.inertia),
                inverse_inertia: InverseInertia(shape.inverse_inertia),
                center_of_mass: CenterOfMass(shape.local_center_of_mass),
            }
        }
    }

    /// The mass of the collider.
    pub fn mass(&self) -> (r: Scalar)
        ensures
            r@ == self@.mass,
    {
        self.mass.0
    }

    /// The inverse mass of the collider.
    pub fn inverse_mass(&self) -> (r: Scalar)
        ensures
            r@ == self@.inverse_mass,
    {
        self.inverse_mass.0
    }

    /// The inertia tensor of the collider.
    pub fn inertia(&self) -> (r: Matrix3)
        ensures
            r@ == self@.inertia,
    {
        self.inertia.0
    }

    /// The inverse inertia tensor of the collider.
    pub fn inverse_inertia(&self) -> (r: Matrix3)
        ensures
            r@ == self@.inverse_inertia,
    {
        self.inverse_inertia.0
    }

    /// The local center of mass of the collider.
    pub fn center_of_mass(&self) -> (r: Vector3)
        ensures
            r@ == self@.center_of_mass,
    {
        self.center_of_mass.0
    }
}

impl Default for ColliderMassProperties {
    /// The mass properties of a collider without mass.
    fn default() -> (r: ColliderMassProperties)
        ensures
            r@ == MassPropertiesValue::zero(),
    {
        ColliderMassProperties::zero()
    }
}

/// The mass properties of a body.
#[derive(Clone, Copy, Debug, PartialEq, Eq, Structural)]
pub struct MassPropertiesBundle {
    pub mass: Mass,
    pub inverse_mass: InverseMass,
    pub inertia: Inertia,
    pub inverse_inertia: InverseInertia,
    pub center_of_mass: CenterOfMass,
}

impl View for MassPropertiesBundle {
    type V = MassPropertiesValue;

    open spec fn view(&self) -> MassPropertiesValue {
        MassPropertiesValue {
            mass: self.mass@,
            inverse_mass: self.inverse_mass@,
            inertia: self.inertia@,
            inverse_inertia: self.inverse_inertia@,
            center_of_mass: self.center_of_mass@,
        }
    }
}

impl MassPropertiesBundle {
    /// The mass properties of a body with one collider, from what the
    /// geometry of the collider's shape yields at the given density: those of
    /// `ColliderMassProperties::new`, field by field.
    pub fn new_computed(shape: &ShapeMassProperties, density: Scalar) -> (r: MassPropertiesBundle)
        ensures
            r@ == MassPropertiesValue::derived(*shape, density@),
    {
        let props = ColliderMassProperties::new(shape, density);
        MassPropertiesBundle {
            mass: Mass(props.mass()),
            inverse_mass: InverseMass(props.inverse_mass()),
            inertia: Inertia(props.inertia()),
            inverse_inertia: InverseInertia(props.inverse_inertia()),
            center_of_mass: CenterOfMass(props.center_of_mass()),
        }
    }
}

impl Default for MassPropertiesBundle {
    /// All mass properties zero.
    fn default() -> (r: MassPropertiesBundle)
        ensures
            r.mass@ == Extended::zero(),
            r.inverse_mass@ == Extended::zero(),
            r.inertia@ == Mat3Value::zero(),
            r.inverse_inertia@ == Mat3Value::zero(),
            r.center_of_mass@ == Vec3Value::zero(),
    {
        MassPropertiesBundle {
            mass: Mass::zero(),
            inverse_mass: InverseMass::zero(),
            inertia: Inertia::zero(),
            inverse_inertia: InverseInertia::zero(),
            center_of_mass: CenterOfMass::zero(),
        }
    }
}

} // verus!
