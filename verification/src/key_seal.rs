//! The key types a cache accepts: only those the library compares itself.
use vstd::prelude::*;

verus! {

pub trait Sealed {}

impl Sealed for String {}

impl Sealed for (String, String) {}

} // verus!
