//! Kinds used by the physics components.
use vstd::prelude::*;

verus! {

/// The algorithms by which collisions can be checked.
#[derive(Clone, Copy, Debug, PartialEq, Eq, Structural)]
pub enum CollisionAlgorithm {
    Aabb,
    Sat,
}

impl Default for CollisionAlgorithm {
    fn default() -> (r: Self)
        ensures
            r == CollisionAlgorithm::Aabb,
    {
        CollisionAlgorithm::Aabb
    }
}

/// The types of bodies in the physics system.
#[derive(Clone, Copy, Debug, PartialEq, Eq, Structural)]
pub enum BodyType {
    /// Never moves.
    Static,
    /// Affected by forces.
    Dynamic,
    /// Moved only by hand, and can collide.
    Kinematic,
}

impl Default for BodyType {
    fn default() -> (r: Self)
        ensures
            r == BodyType::Kinematic,
    {
        BodyType::Kinematic
    }
}

/// How positions are given.
#[derive(Clone, Copy, Debug, PartialEq, Eq, Structural)]
pub enum Strategy {
    /// Coordinates between -1.0 and 1.0, with the center of the screen at 0.0.
    Normalized,
    /// Coordinates in pixels of the current window, with the top left corner at 0.0.
    Pixelated,
}

impl Default for Strategy {
    fn default() -> (r: Self)
        ensures
            r == Strategy::Normalized,
    {
        Strategy::Normalized
    }
}

} // verus!
