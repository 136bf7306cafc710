use vstd::prelude::*;

verus! {

/// Number of fixed-point steps in one unit: every scalar is in hundredths.
pub const UNIT: i64 = 100;

/// A point, direction or colour, each component in hundredths of a unit.
#[derive(Clone, Copy, Debug, PartialEq, Eq, Structural)]
pub struct Vec3 {
    pub x: i64,
    pub y: i64,
    pub z: i64,
}

impl Vec3 {
    /// The vector with the given components (in hundredths).
    pub fn new(x: i64, y: i64, z: i64) -> (r: Vec3)
        ensures
            r.x == x,
            r.y == y,
            r.z == z,
    {
        Vec3 { x, y, z }
    }

    /// The zero vector (black, or the origin).
    pub fn zero() -> (r: Vec3)
        ensures
            r.x == 0,
            r.y == 0,
            r.z == 0,
    {
        Vec3 { x: 0, y: 0, z: 0 }
    }
}

} // verus!
