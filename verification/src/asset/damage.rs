//! Coarse damage tracking: which part of a surface must be recomposited.

use vstd::prelude::*;

verus! {

/// An axis-aligned rectangle in surface coordinates.
pub struct Rect {
    pub x: i32,
    pub y: i32,
    pub width: u32,
    pub height: u32,
}

/// The region of a surface that must be recomposited.
pub enum Damage {
    /// The whole surface changed.
    Full,
    /// Nothing changed.
    Empty,
    /// Only the given rectangle changed.
    Rect(Rect),
}

} // verus!
