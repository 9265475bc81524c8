//! A small Newtonian gravity simulation core: point masses on a plane,
//! pairwise gravitational fields, and velocity-Verlet integration in
//! fixed time steps.
//!
//! All kinematic quantities are IEEE-754 double-precision values carried
//! as their 64-bit patterns, so that the contracts can speak of them as
//! plain integers; the arithmetic itself is done by nalgebra behind a
//! small set of trusted wrappers.

use vstd::prelude::*;

pub mod celestial_body;
pub mod universe;
pub mod vec2;

verus! {

/// The errors the simulation core reports to its callers.
#[derive(Clone, Copy, Debug, PartialEq, Eq, Structural)]
pub enum SimError {
    /// A body was constructed with a non-positive mass.
    InvalidMass,
    /// A field was requested at a point coincident with the source body.
    DegenerateDistance,
    /// A body with the same identity is already in the universe.
    DuplicateIdentity,
}

} // verus!
