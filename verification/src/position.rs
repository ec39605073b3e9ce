//! Cell coordinates: a pair of signed 32-bit integers identifying one cell
//! of the unbounded plane, with coordinate-wise addition that wraps around
//! at the ends of the `i32` range.

use vstd::prelude::*;

verus! {

/// A value `v` brought back into the range of `i32` by one wrap-around
/// step. It describes `i32` addition for any sum that lies at most one
/// full turn outside the range.
pub open spec fn wrap_i32(v: int) -> int {
    if v > i32::MAX {
        v - 0x1_0000_0000
    } else if v < i32::MIN {
        v + 0x1_0000_0000
    } else {
        v
    }
}

/// One cell of the unbounded plane. A pure value: equal coordinates are
/// interchangeable, and the grid copies positions rather than owning them.
#[derive(Debug, Copy, Clone, PartialEq, Eq, Structural, Hash)]
pub struct GridPosition {
    pub x: i32,
    pub y: i32,
}

impl GridPosition {
    /// Construct the position of the cell at `(x, y)`.
    pub fn new(x: i32, y: i32) -> (r: Self)
        ensures
            r == (GridPosition { x, y }),
    {
        GridPosition { x, y }
    }

    /// The cell displaced from `self` by `(dx, dy)`, coordinate-wise,
    /// wrapping around at the ends of the `i32` range.
    pub open spec fn spec_offset(self, dx: int, dy: int) -> GridPosition {
        GridPosition { x: wrap_i32(self.x + dx) as i32, y: wrap_i32(self.y + dy) as i32 }
    }

    /// The coordinate-wise sum of two positions, wrapping on overflow.
    pub open spec fn spec_add(self, rhs: GridPosition) -> GridPosition {
        self.spec_offset(rhs.x as int, rhs.y as int)
    }

    /// Coordinate-wise addition. Overflow wraps around: the sum is taken
    /// modulo one full turn of the `i32` range, never a panic.
    pub fn add(self, rhs: GridPosition) -> (r: Self)
        ensures
            r == self.spec_add(rhs),
    {
        GridPosition { x: self.x.wrapping_add(rhs.x), y: self.y.wrapping_add(rhs.y) }
    }
}

} // verus!
