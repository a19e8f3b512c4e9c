//! Mass properties for planar simulation, where the rotational inertia is a
//! single scalar.

use crate::mass::{InverseMass, Mass};
use crate::scalar::{Extended, Scalar};
use crate::vector::{Vec2Value, Vector2};
use vstd::prelude::*;

verus! {

/// A rotation in the plane, by the cosine and the sine of its angle.
#[derive(Clone, Copy, Debug, PartialEq, Eq, Structural)]
pub struct Rotation {
    pub cos: Scalar,
    pub sin: Scalar,
}

/// The inertia about a point displaced by `offset` from the center of mass, by
/// the parallel-axis theorem: `inertia + |offset|^2 * mass`. A mass that is
/// not positive and finite leaves the inertia as it is.
pub open spec fn shifted_value(inertia: Extended, mass: Extended, offset: Vec2Value) -> Extended {
    if mass.is_positive() && mass.is_finite() {
        inertia.plus(offset.length_squared().times(mass))
    } else {
        inertia
    }
}

/// The moment of inertia of a body: the torque needed for a desired angular
/// acceleration.
#[derive(Clone, Copy, Debug, PartialEq, Eq, Structural)]
pub struct Inertia(pub Scalar);

impl View for Inertia {
    type V = Extended;

    open spec fn view(&self) -> Extended {
        self.0@
    }
}

impl Inertia {
    /// Zero angular inertia.
    pub fn zero() -> (r: Inertia)
        ensures
            r@ == Extended::zero(),
    {
        Inertia(Scalar::zero())
    }

    /// The inertia in world space. A rotation in the plane leaves the moment
    /// about the axis as it is.
    pub fn rotated(&self, _rot: &Rotation) -> (r: Inertia)
        ensures
            r == *self,
    {
        *self
    }

    /// The inverted moment of inertia as a value of the specification.
    pub open spec fn spec_inverse(&self) -> InverseInertia {
        InverseInertia(Scalar::of_value(self@.reciprocal()))
    }

    /// The inverted moment of inertia, `1 / inertia`. A zero inertia has the
    /// inverse `+inf`.
    #[verifier::when_used_as_spec(spec_inverse)]
    pub fn inverse(&self) -> (r: InverseInertia)
        ensures
            r@ == self@.reciprocal(),
            r == self.spec_inverse(),
    {
        let r = InverseInertia(self.0.recip());
        proof {
            use_type_invariant(&r.0);
            r.0.lemma_of_value();
        }
        r
    }

    /// The inertia of a body of the given mass about a point displaced by
    /// `offset` from its center of mass.
    pub fn shifted(&self, mass: Scalar, offset: Vector2) -> (r: Scalar)
        ensures
            r@ == shifted_value(self@, mass@, offset@),
            !(mass@.is_positive() && mass@.is_finite()) ==> r == self.0,
    {
        if mass.is_positive() && mass.is_finite() {
            self.0.add(offset.length_squared().mul(mass))
        } else {
            self.0
        }
    }
}

impl Default for Inertia {
    /// Zero angular inertia.
    fn default() -> (r: Inertia)
        ensures
            r@ == Extended::zero(),
    {
        Inertia::zero()
    }
}

/// The inverse moment of inertia of a body.
#[derive(Clone, Copy, Debug, PartialEq, Eq, Structural)]
pub struct InverseInertia(pub Scalar);

impl View for InverseInertia {
    type V = Extended;

    open spec fn view(&self) -> Extended {
        self.0@
    }
}

impl InverseInertia {
    /// Zero inverse angular inertia.
    pub fn zero() -> (r: InverseInertia)
        ensures
            r@ == Extended::zero(),
    {
        InverseInertia(Scalar::zero())
    }

    /// The inverse inertia in world space. A rotation in the plane leaves it
    /// as it is.
    pub fn rotated(&self, _rot: &Rotation) -> (r: InverseInertia)
        ensures
            r == *self,
    {
        *self
    }

    /// The moment of inertia that has this inverse, as a value of the specification.
    pub open spec fn spec_inverse(&self) -> Inertia {
        Inertia(Scalar::of_value(self@.reciprocal()))
    }

    /// The moment of inertia that has this inverse, `1 / inverse`.
    #[verifier::when_used_as_spec(spec_inverse)]
    pub fn inverse(&self) -> (r: Inertia)
        ensures
            r@ == self@.reciprocal(),
            r == self.spec_inverse(),
    {
        let r = Inertia(self.0.recip());
        proof {
            use_type_invariant(&r.0);
            r.0.lemma_of_value();
        }
        r
    }
}

impl Default for InverseInertia {
    /// Zero inverse angular inertia.
    fn default() -> (r: InverseInertia)
        ensures
            r@ == Extended::zero(),
    {
        InverseInertia::zero()
    }
}

impl From<Inertia> for InverseInertia {
    /// The inverse of the inertia.
    fn from(inertia: Inertia) -> (r: InverseInertia) {
        inertia.inverse()
    }
}

impl vstd::std_specs::convert::FromSpecImpl<Inertia> for InverseInertia {
    open spec fn obeys_from_spec() -> bool {
        true
    }

    open spec fn from_spec(inertia: Inertia) -> InverseInertia {
        inertia.spec_inverse()
    }
}

impl From<InverseInertia> for Inertia {
    /// The inertia that has the given inverse.
    fn from(inverse: InverseInertia) -> (r: Inertia) {
        inverse.inverse()
    }
}

impl vstd::std_specs::convert::FromSpecImpl<InverseInertia> for Inertia {
    open spec fn obeys_from_spec() -> bool {
        true
    }

    open spec fn from_spec(inverse: InverseInertia) -> Inertia {
        inverse.spec_inverse()
    }
}

/// Inverting a finite inertia twice gives the inertia back. For a zero
/// inertia the way leads over the inverse `+inf`.
pub proof fn lemma_inverse_round_trip(inertia: Inertia)
    requires
        inertia.0.wf(),
        inertia@.is_finite(),
    ensures
        inertia@.reciprocal().reciprocal() == inertia@,
        inertia.inverse().inverse() == inertia,
{
    inertia.0.lemma_view_is_scalar();
    inertia@.lemma_reciprocal_is_scalar();
    Scalar::lemma_of_value_view(inertia@.reciprocal());
    inertia@.lemma_reciprocal_round_trip();
    inertia.0.lemma_of_value();
}

/// By the parallel-axis theorem, a zero inertia shifted by `offset` for a
/// positive finite mass is `mass * |offset|^2`.
pub proof fn lemma_shifted_from_zero(mass: Scalar, offset: Vector2)
    requires
        mass@.is_positive(),
        mass@.is_finite(),
    ensures
        shifted_value(Extended::zero(), mass@, offset@) == mass@.times(offset@.length_squared()),
{
    let length_squared = offset@.length_squared();
    length_squared.lemma_times_commutative(mass@);
    length_squared.lemma_results_are_scalars(mass@);
    mass@.times(length_squared).lemma_plus_zero();
}

/// A mass that is not positive and finite leaves every inertia unshifted.
pub proof fn lemma_shifted_guard(inertia: Inertia, mass: Scalar, offset: Vector2)
    requires
        !mass@.is_positive() || !mass@.is_finite(),
    ensures
        shifted_value(inertia@, mass@, offset@) == inertia@,
{
}

/// A collider of density zero adds nothing to the mass and to the inertia of
/// a body, whatever its shape.
pub proof fn lemma_zero_density_adds_nothing(shape: ShapeMassProperties, mass: Mass, inertia: Inertia)
    requires
        mass.0.wf(),
        inertia.0.wf(),
    ensures
        mass@.plus(MassPropertiesValue::derived(shape, Extended::zero()).mass) == mass@,
        inertia@.plus(MassPropertiesValue::derived(shape, Extended::zero()).inertia) == inertia@,
{
    mass.0.lemma_view_is_scalar();
    inertia.0.lemma_view_is_scalar();
    mass@.lemma_plus_zero();
    inertia@.lemma_plus_zero();
}

/// The local center of mass of a body.
#[derive(Clone, Copy, Debug, PartialEq, Eq, Structural)]
pub struct CenterOfMass(pub Vector2);

impl View for CenterOfMass {
    type V = Vec2Value;

    open spec fn view(&self) -> Vec2Value {
        self.0@
    }
}

impl CenterOfMass {
    /// A center of mass at the local origin.
    pub fn zero() -> (r: CenterOfMass)
        ensures
            r@ == Vec2Value::zero(),
    {
        CenterOfMass(Vector2::zero())
    }
}

impl Default for CenterOfMass {
    /// A center of mass at the local origin.
    fn default() -> (r: CenterOfMass)
        ensures
            r@ == Vec2Value::zero(),
    {
        CenterOfMass::zero()
    }
}

/// What the geometry of a shape yields at a given density: its mass and
/// inverse mass, its principal moment of inertia and its centroid.
#[derive(Clone, Copy, Debug, PartialEq, Eq, Structural)]
pub struct ShapeMassProperties {
    pub mass: Scalar,
    pub inverse_mass: Scalar,
    pub principal_inertia: Scalar,
    pub local_center_of_mass: Vector2,
}

/// The value of a set of mass properties.
pub struct MassPropertiesValue {
    pub mass: Extended,
    pub inverse_mass: Extended,
    pub inertia: Extended,
    pub inverse_inertia: Extended,
    pub center_of_mass: Vec2Value,
}

impl MassPropertiesValue {
    /// The mass properties of a collider without mass: no mass, an infinite
    /// inverse mass, no inertia, no inverse inertia, centered at the origin.
    pub open spec fn zero() -> MassPropertiesValue {
        MassPropertiesValue {
            mass: Extended::zero(),
            inverse_mass: Extended::PosInfinity,
            inertia: Extended::zero(),
            inverse_inertia: Extended::zero(),
            center_of_mass: Vec2Value::zero(),
        }
    }

    /// The mass properties of a collider whose shape yields `shape` at the
    /// given density. The inverse mass is the one that the geometry yields;
    /// the inverse inertia is `1 / principal_inertia`. At density zero the
    /// collider has no mass, whatever its shape.
    pub open spec fn derived(shape: ShapeMassProperties, density: Extended) -> MassPropertiesValue {
        if density == Extended::zero() {
            MassPropertiesValue::zero()
        } else {
            MassPropertiesValue {
                mass: shape.mass@,
                inverse_mass: shape.inverse_mass@,
                inertia: shape.principal_inertia@,
                inverse_inertia: shape.principal_inertia@.reciprocal(),
                center_of_mass: shape.local_center_of_mass@,
            }
        }
    }
}

/// The mass properties that a collider contributes to its body. They are
/// derived from the collider's shape and density and cannot be set
/// otherwise.
#[derive(Clone, Copy, Debug, PartialEq, Eq, Structural)]
pub struct ColliderMassProperties {
    mass: Mass,
    inverse_mass: InverseMass,
    inertia: Inertia,
    inverse_inertia: InverseInertia,
    center_of_mass: CenterOfMass,
}

impl View for ColliderMassProperties {
    type V = MassPropertiesValue;

    closed spec fn view(&self) -> MassPropertiesValue {
        MassPropertiesValue {
            mass: self.mass@,
            inverse_mass: self.inverse_mass@,
            inertia: self.inertia@,
            inverse_inertia: self.inverse_inertia@,
            center_of_mass: self.center_of_mass@,
        }
    }
}

impl ColliderMassProperties {
    /// The mass properties of a collider without mass.
    pub fn zero() -> (r: ColliderMassProperties)
        ensures
            r@ == MassPropertiesValue::zero(),
    {
        ColliderMassProperties {
            mass: Mass::zero(),
            inverse_mass: InverseMass(Scalar::infinity()),
            inertia: Inertia::zero(),
            inverse_inertia: InverseInertia::zero(),
            center_of_mass: CenterOfMass::zero(),
        }
    }

    /// The mass properties of a collider, from what the geometry of its shape
    /// yields at the given density.
    pub fn new(shape: &ShapeMassProperties, density: Scalar) -> (r: ColliderMassProperties)
        ensures
            r@ == MassPropertiesValue::derived(*shape, density@),
            density@ == Extended::zero() ==> r@ == MassPropertiesValue::zero(),
    {
        if density.is_zero() {
            ColliderMassProperties::zero()
        } else {
            let inertia = Inertia(shape.principal_inertia);
            ColliderMassProperties {
                mass: Mass(shape.mass),
                inverse_mass: InverseMass(shape.inverse_mass),
                inertia,
                inverse_inertia: inertia.inverse(),
                center_of_mass: CenterOfMass(shape.local_center_of_mass),
            }
        }
    }

    /// The mass of the collider.
    pub fn mass(&self) -> (r: Scalar)
        ensures
            r@ == self@.mass,
    {
        self.mass.0
    }

    /// The inverse mass of the collider.
    pub fn inverse_mass(&self) -> (r: Scalar)
        ensures
            r@ == self@.inverse_mass,
    {
        self.inverse_mass.0
    }

    /// The moment of inertia of the collider.
    pub fn inertia(&self) -> (r: Scalar)
        ensures
            r@ == self@.inertia,
    {
        self.inertia.0
    }

    /// The inverse moment of inertia of the collider.
    pub fn inverse_inertia(&self) -> (r: Scalar)
        ensures
            r@ == self@.inverse_inertia,
    {
        self.inverse_inertia.0
    }

    /// The local center of mass of the collider.
    pub fn center_of_mass(&self) -> (r: Vector2)
        ensures
            r@ == self@.center_of_mass,
    {
        self.center_of_mass.0
    }
}

impl Default for ColliderMassProperties {
    /// The mass properties of a collider without mass.
    fn default() -> (r: ColliderMassProperties)
        ensures
            r@ == MassPropertiesValue::zero(),
    {
        ColliderMassProperties::zero()
    }
}

/// The mass properties of a body.
#[derive(Clone, Copy, Debug, PartialEq, Eq, Structural)]
pub struct MassPropertiesBundle {
    pub mass: Mass,
    pub inverse_mass: InverseMass,
    pub inertia: Inertia,
    pub inverse_inertia: InverseInertia,
    pub center_of_mass: CenterOfMass,
}

impl View for MassPropertiesBundle {
    type V = MassPropertiesValue;

    open spec fn view(&self) -> MassPropertiesValue {
        MassPropertiesValue {
            mass: self.mass@,
            inverse_mass: self.inverse_mass@,
            inertia: self.inertia@,
            inverse_inertia: self.inverse_inertia@,
            center_of_mass: self.center_of_mass@,
        }
    }
}

impl MassPropertiesBundle {
    /// The mass properties of a body with one collider, from what the
    /// geometry of the collider's shape yields at the given density: those of
    /// `ColliderMassProperties::new`, field by field.
    pub fn new_computed(shape: &ShapeMassProperties, density: Scalar) -> (r: MassPropertiesBundle)
        ensures
            r@ == MassPropertiesValue::derived(*shape, density@),
    {
        let props = ColliderMassProperties::new(shape, density);
        MassPropertiesBundle {
            mass: Mass(props.mass()),
            inverse_mass: InverseMass(props.inverse_mass()),
            inertia: Inertia(props.inertia()),
            inverse_inertia: InverseInertia(props.inverse_inertia()),
            center_of_mass: CenterOfMass(props.center_of_mass()),
        }
    }
}

impl Default for MassPropertiesBundle {
    /// All mass properties zero.
    fn default() -> (r: MassPropertiesBundle)
        ensures
            r.mass@ == Extended::zero(),
            r.inverse_mass@ == Extended::zero(),
            r.inertia@ == Extended::zero(),
            r.inverse_inertia@ == Extended::zero(),
            r.center_of_mass@ == Vec2Value::zero(),
    {
        MassPropertiesBundle {
            mass: Mass::zero(),
            inverse_mass: InverseMass::zero(),
            inertia: Inertia::zero(),
            inverse_inertia: InverseInertia::zero(),
            center_of_mass: CenterOfMass::zero(),
        }
    }
}

} // verus!
