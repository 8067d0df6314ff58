//! Whether an entity is drawn.
use vstd::prelude::*;

verus! {

/// The visibility of an entity in the world.
#[derive(Clone, Copy, Debug, PartialEq, Eq, Structural)]
pub struct Visibility(pub bool);

impl Visibility {
    /// Creates a visibility with the given value.
    pub fn new(value: bool) -> (r: Self)
        ensures
            r.0 == value,
    {
        Visibility(value)
    }
}

impl Default for Visibility {
    fn default() -> (r: Self)
        ensures
            r.0,
    {
        Visibility(true)
    }
}

} // verus!
