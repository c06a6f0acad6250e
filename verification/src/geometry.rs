//! Grid geometry: cell coordinates, movement directions, and the bounds test.

use vstd::prelude::*;

verus! {

/// Width of the grid in cells; the columns 0 and `GRID_X_SIZE` and beyond are
/// outside the playable area.
pub const GRID_X_SIZE: i32 = 40;

/// Height of the grid in cells; the rows 0 and `GRID_Y_SIZE` and beyond are
/// outside the playable area.
pub const GRID_Y_SIZE: i32 = 30;

/// A grid cell, addressed by column (`.0`) and row (`.1`).
#[derive(Debug, Copy, Clone, PartialEq, Eq, Structural)]
pub struct Point(pub i32, pub i32);

impl Point {
    /// Component-wise addition, used to move a cell by a direction's unit
    /// vector.
    pub fn plus(self, other: Point) -> (r: Point)
        requires
            i32::MIN <= self.0 + other.0 <= i32::MAX,
            i32::MIN <= self.1 + other.1 <= i32::MAX,
        ensures
            r.0 == self.0 + other.0,
            r.1 == self.1 + other.1,
    {
        Point(self.0 + other.0, self.1 + other.1)
    }
}

/// One of the four movement directions.
#[derive(Debug, Copy, Clone, PartialEq, Eq, Structural)]
pub enum Direction {
    Up,
    Left,
    Right,
    Down,
}

/// The unit vector of a direction; the y axis grows downward.
pub open spec fn spec_unit(d: Direction) -> Point {
    match d {
        Direction::Up => Point(0, -1 as i32),
        Direction::Down => Point(0, 1),
        Direction::Left => Point(-1 as i32, 0),
        Direction::Right => Point(1, 0),
    }
}

/// The direction that points the opposite way.
pub open spec fn spec_opposite(d: Direction) -> Direction {
    match d {
        Direction::Up => Direction::Down,
        Direction::Down => Direction::Up,
        Direction::Left => Direction::Right,
        Direction::Right => Direction::Left,
    }
}

impl Direction {
    /// The unit vector of this direction as a cell delta.
    pub fn unit(&self) -> (p: Point)
        ensures
            p == spec_unit(*self),
    {
        match self {
            Direction::Up => Point(0, -1),
            Direction::Down => Point(0, 1),
            Direction::Left => Point(-1, 0),
            Direction::Right => Point(1, 0),
        }
    }

    /// The direction that points the opposite way.
    pub fn opposite(&self) -> (d: Direction)
        ensures
            d == spec_opposite(*self),
    {
        match self {
            Direction::Up => Direction::Down,
            Direction::Down => Direction::Up,
            Direction::Left => Direction::Right,
            Direction::Right => Direction::Left,
        }
    }
}

/// A cell is in bounds when both coordinates are strictly between 0 and the
/// grid size: the outermost ring of cells is a wall.
pub open spec fn spec_in_bounds(p: Point) -> bool {
    0 < p.0 < GRID_X_SIZE && 0 < p.1 < GRID_Y_SIZE
}

/// Whether a cell lies in the playable area of the grid.
pub fn in_bounds(point: &Point) -> (b: bool)
    ensures
        b == spec_in_bounds(*point),
{
    0 < point.0 && point.0 < GRID_X_SIZE && 0 < point.1 && point.1 < GRID_Y_SIZE
}

} // verus!
