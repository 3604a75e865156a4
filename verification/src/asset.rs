//! Asset loading: static image textures and animated multi-frame textures
//! with their timing state machine.

use vstd::prelude::*;

pub mod animated;
pub mod damage;
pub mod image;

verus! {

/// An asset that can report which part of the surface it invalidates.
pub trait Asset {
    /// The region the asset invalidated since it was last drawn.
    fn damage(&self) -> damage::Damage;
}

} // verus!
