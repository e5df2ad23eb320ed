//! Integer 2D vectors: positions, half-extents and velocities of the
//! simulated entities, in whole world units.

use vstd::prelude::*;

verus! {

/// A 2D vector with integer components.
#[derive(Clone, Copy, Debug, PartialEq, Eq, Structural)]
pub struct Vec2I {
    pub x: i64,
    pub y: i64,
}

} // verus!
