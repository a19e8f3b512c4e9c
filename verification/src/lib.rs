//! Mass properties of rigid bodies over exact arithmetic.
//!
//! The crate describes how much a body resists linear and angular
//! acceleration: its mass, its rotational inertia, their inverses and its
//! center of mass, for planar and for spatial simulation. It inverts an
//! inertia, shifts it by the parallel-axis theorem, rotates it into world
//! space, and derives the mass properties of a collider from what the
//! geometry of its shape yields at a given density.
//!
//! All quantities are exact: a [`scalar::Scalar`] is a rational number in
//! lowest terms, an infinity or NaN, and every contract is a statement about
//! real numbers. The special values follow the conventions of IEEE 754, so
//! that a body without mass has an infinite inverse mass; a result that no
//! scalar can hold is NaN.
//!
//! - [`gcd`]: greatest common divisors and fractions in lowest terms
//! - [`scalar`]: the scalars, their values and their arithmetic
//! - [`single`]: scalars from single-precision numbers
//! - [`vector`], [`matrix`], [`quaternion`]: the linear algebra of the tensors
//! - [`reals`]: vectors and matrices of real numbers, for the laws
//! - [`mass`]: mass, inverse mass and collider density
//! - [`planar`]: inertia and mass properties in the plane
//! - [`spatial`]: inertia and mass properties in space

pub mod gcd;
pub mod mass;
pub mod matrix;
pub mod planar;
pub mod quaternion;
pub mod reals;
pub mod scalar;
pub mod single;
pub mod spatial;
pub mod vector;
