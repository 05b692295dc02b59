//! The seal that keeps the set of request stages closed.

use vstd::prelude::*;

verus! {

/// Implemented only by the stages of this crate.
pub trait Sealed {}

} // verus!
