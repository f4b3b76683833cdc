//! Vectors in whole game units.

use vstd::prelude::*;

verus! {

/// A point or a rate in game units, one whole number per axis.
#[derive(Clone, Copy, Debug, PartialEq, Eq, Structural)]
pub struct Vector3 {
    pub x: i32,
    pub y: i32,
    pub z: i32,
}

impl Vector3 {
    /// The vector with the given components.
    pub fn new(x: i32, y: i32, z: i32) -> (v: Vector3)
        ensures
            v == (Vector3 { x, y, z }),
    {
        Vector3 { x, y, z }
    }

    /// The vector along the vertical axis with the given height.
    pub open spec fn vertical(y: int) -> Vector3
        recommends
            i32::MIN <= y <= i32::MAX,
    {
        Vector3 { x: 0, y: y as i32, z: 0 }
    }

    /// The origin.
    pub open spec fn origin() -> Vector3 {
        Vector3 { x: 0, y: 0, z: 0 }
    }
}

} // verus!
