//! Plain coordinate values.

use vstd::prelude::*;

verus! {

/// A pair of coordinates in whole logical units of the window, used for sizes
/// and for positions alike.
#[derive(Clone, Copy, Debug, PartialEq, Eq)]
pub struct Coord {
    pub x: i32,
    pub y: i32,
}

impl Coord {
    pub fn new(x: i32, y: i32) -> (coord: Self)
        ensures
            coord == (Coord { x, y }),
    {
        Coord { x, y }
    }
}

/// A point of the scene, in thousandths of a world unit.
#[derive(Clone, Copy, Debug, PartialEq, Eq)]
pub struct Point3 {
    pub x: i32,
    pub y: i32,
    pub z: i32,
}

impl Point3 {
    pub fn new(x: i32, y: i32, z: i32) -> (point: Self)
        ensures
            point == (Point3 { x, y, z }),
    {
        Point3 { x, y, z }
    }
}

} // verus!
