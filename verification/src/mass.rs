//! The mass of a body, its inverse, and the density of a collider.

use crate::scalar::{Extended, Scalar};
use vstd::prelude::*;

verus! {

/// The mass of a body.
#[derive(Clone, Copy, Debug, PartialEq, Eq, Structural)]
pub struct Mass(pub Scalar);

impl View for Mass {
    type V = Extended;

    open spec fn view(&self) -> Extended {
        self.0@
    }
}

impl Mass {
    /// Zero mass.
    pub fn zero() -> (r: Mass)
        ensures
            r@ == Extended::zero(),
    {
        Mass(Scalar::zero())
    }
}

impl Default for Mass {
    /// Zero mass.
    fn default() -> (r: Mass)
        ensures
            r@ == Extended::zero(),
    {
        Mass::zero()
    }
}

/// The inverse mass of a body.
#[derive(Clone, Copy, Debug, PartialEq, Eq, Structural)]
pub struct InverseMass(pub Scalar);

impl View for InverseMass {
    type V = Extended;

    open spec fn view(&self) -> Extended {
        self.0@
    }
}

impl InverseMass {
    /// Zero inverse mass.
    pub fn zero() -> (r: InverseMass)
        ensures
            r@ == Extended::zero(),
    {
        InverseMass(Scalar::zero())
    }
}

impl Default for InverseMass {
    /// Zero inverse mass.
    fn default() -> (r: InverseMass)
        ensures
            r@ == Extended::zero(),
    {
        InverseMass::zero()
    }
}

/// The density of a collider, from which its mass properties are derived.
/// The default is one.
#[derive(Clone, Copy, Debug, PartialEq, Eq, Structural)]
pub struct ColliderDensity(pub Scalar);

impl View for ColliderDensity {
    type V = Extended;

    open spec fn view(&self) -> Extended {
        self.0@
    }
}

impl ColliderDensity {
    /// The density of a collider without mass.
    pub fn zero() -> (r: ColliderDensity)
        ensures
            r@ == Extended::zero(),
    {
        ColliderDensity(Scalar::zero())
    }
}

impl Default for ColliderDensity {
    /// A density of one.
    fn default() -> (r: ColliderDensity)
        ensures
            r@ == Extended::one(),
    {
        ColliderDensity(Scalar::one())
    }
}

} // verus!
