//! Positions inside the terminal grid.

use vstd::prelude::*;

verus! {

/// A line of the grid.
///
/// Line zero is the topmost line of the screen; lines of the scrollback history have negative
/// numbers, the most recent of them being line `-1`.
#[derive(Debug, Clone, Copy, PartialEq, Eq, PartialOrd, Ord, Hash, Structural)]
pub struct Line(pub i32);

/// A column of the grid, counted from the left.
#[derive(Debug, Clone, Copy, PartialEq, Eq, PartialOrd, Ord, Hash, Structural)]
pub struct Column(pub usize);

/// A cell position in the grid.
#[derive(Debug, Clone, Copy, PartialEq, Eq, PartialOrd, Ord, Hash, Structural)]
pub struct Point {
    pub line: Line,
    pub column: Column,
}

/// Reading order: `a` lies before `b` if it is on an earlier line, or further left on the same
/// line.
pub open spec fn point_before(a: Point, b: Point) -> bool {
    a.line.0 < b.line.0 || (a.line.0 == b.line.0 && a.column.0 < b.column.0)
}

impl Point {
    pub fn new(line: Line, column: Column) -> (point: Point)
        ensures
            point == (Point { line, column }),
    {
        Point { line, column }
    }

    /// Whether this point comes before `other` in reading order.
    pub fn is_before(&self, other: &Point) -> (r: bool)
        ensures
            r == point_before(*self, *other),
    {
        self.line.0 < other.line.0 || (self.line.0 == other.line.0 && self.column.0
            < other.column.0)
    }
}

impl Default for Point {
    fn default() -> (point: Point)
        ensures
            point == (Point { line: Line(0), column: Column(0) }),
    {
        Point { line: Line(0), column: Column(0) }
    }
}

} // verus!
