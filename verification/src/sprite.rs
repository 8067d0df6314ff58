//! Sprites: textured squares.
use vstd::prelude::*;

verus! {

/// A sprite, drawn as a square textured with the image at `path`.
#[derive(Clone, Debug)]
pub struct Sprite {
    pub path: String,
}

impl Sprite {
    /// Creates a sprite for the image at `path`.
    pub fn new(path: String) -> (r: Self)
        ensures
            r.path@ == path@,
    {
        Sprite { path }
    }
}

} // verus!
