//! Coordinates on the playfield.

use vstd::prelude::*;

verus! {

/// A cell position: `x` counts columns from the left wall, `y` counts rows
/// from the floor.
#[derive(Clone, Copy, Debug, PartialEq, Eq, Structural)]
pub struct Point {
    pub x: i32,
    pub y: i32,
}

impl Point {
    /// The cell on column `x` of row `y`.
    pub fn new(x: i32, y: i32) -> (p: Point)
        ensures
            p.x == x,
            p.y == y,
    {
        Point { x, y }
    }
}

} // verus!
