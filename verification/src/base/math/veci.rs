//! A plain triple of integer coordinates.

use vstd::prelude::*;

verus! {

/// Three integer coordinates.
pub struct Veci {
    x: i32,
    y: i32,
    z: i32,
}

impl View for Veci {
    type V = (int, int, int);

    closed spec fn view(&self) -> (int, int, int) {
        (self.x as int, self.y as int, self.z as int)
    }
}

impl Veci {
    /// The origin.
    pub fn zero() -> (v: Veci)
        ensures
            v@ == (0int, 0int, 0int),
    {
        Veci { x: 0, y: 0, z: 0 }
    }

    /// The triple with the given coordinates.
    pub fn new(_x: i32, _y: i32, _z: i32) -> (v: Veci)
        ensures
            v@ == (_x as int, _y as int, _z as int),
    {
        Veci { x: _x, y: _y, z: _z }
    }

    /// The first coordinate.
    pub fn x(&self) -> (x: i32)
        ensures
            x == self@.0,
    {
        self.x
    }

    /// The second coordinate.
    pub fn y(&self) -> (y: i32)
        ensures
            y == self@.1,
    {
        self.y
    }

    /// The third coordinate.
    pub fn z(&self) -> (z: i32)
        ensures
            z == self@.2,
    {
        self.z
    }
}

} // verus!
