//! Iteration over the cells of a grid.

use std::ops::Deref;

use vstd::prelude::*;

use crate::grid::view::GridView;
use crate::grid::{Dimensions, Grid};
use crate::index::{point_before, Column, Line, Point};

verus! {

/// A cell and where it is.
#[derive(Debug, Clone, Copy, PartialEq, Eq)]
pub struct Indexed<T> {
    pub point: Point,
    pub cell: T,
}

impl<T> Deref for Indexed<T> {
    type Target = T;

    fn deref(&self) -> (cell: &T)
        ensures
            *cell == self.cell,
    {
        &self.cell
    }
}

/// The point after `point` in reading order.
pub open spec fn point_after(point: Point, columns: nat) -> Point {
    if point.column.0 >= columns - 1 {
        Point { line: Line((point.line.0 + 1) as i32), column: Column(0) }
    } else {
        Point { line: point.line, column: Column((point.column.0 + 1) as usize) }
    }
}

/// The point preceding `point` in reading order.
pub open spec fn point_preceding(point: Point, columns: nat) -> Point {
    if point.column.0 == 0 {
        Point {
            line: Line((point.line.0 - 1) as i32),
            column: Column((columns - 1) as usize),
        }
    } else {
        Point { line: point.line, column: Column((point.column.0 - 1) as usize) }
    }
}

/// Number of points after `point`, up to and including `end`.
pub open spec fn points_left(point: Point, end: Point, columns: nat) -> int {
    if !point_before(point, end) {
        0
    } else if point.line == end.line {
        end.column.0 - point.column.0
    } else {
        let first = if columns >= point.column.0 + 1 {
            columns - (point.column.0 + 1)
        } else {
            0
        };
        first + (end.line.0 - point.line.0 - 1) * columns + end.column.0 + 1
    }
}

impl<T> GridView<T> {
    /// Whether `point` is a cell of hot history or screen.
    pub open spec fn has_point(self, point: Point) -> bool {
        self.has_line(point.line.0 as int) && point.column.0 < self.columns
    }

    /// The cell at `point`.
    pub open spec fn cell(self, point: Point) -> T {
        self.line(point.line.0 as int)[point.column.0 as int]
    }
}

/// Grid cell iterator.
pub struct GridIterator<'a, T> {
    /// Immutable grid reference.
    grid: &'a Grid<T>,
    /// Current position of the iterator within the grid.
    point: Point,
    /// Last cell included in the iterator.
    end: Point,
}

impl<'a, T> GridIterator<'a, T> {
    /// The grid whose cells are visited.
    pub closed spec fn spec_grid(&self) -> Grid<T> {
        *self.grid
    }

    /// The current position.
    pub closed spec fn spec_point(&self) -> Point {
        self.point
    }

    /// The last position.
    pub closed spec fn spec_end(&self) -> Point {
        self.end
    }

    pub open spec fn wf(&self) -> bool {
        self.spec_grid().wf() && self.spec_grid()@.columns >= 1
    }

    /// Whether the next cell, if there is one, is part of the grid.
    pub open spec fn can_advance(&self) -> bool {
        point_before(self.spec_point(), self.spec_end()) ==> {
            &&& self.spec_point().line.0 < i32::MAX
            &&& self.spec_grid()@.has_point(
                point_after(self.spec_point(), self.spec_grid()@.columns),
            )
        }
    }

    /// The first cell of the grid.
    pub open spec fn first_point(&self) -> Point {
        Point { line: Line((-self.spec_grid()@.history()) as i32), column: Column(0) }
    }

    /// Whether the preceding cell, if there is one, is part of the grid.
    pub open spec fn can_retreat(&self) -> bool {
        point_before(self.first_point(), self.spec_point()) ==> self.spec_grid()@.has_point(
            point_preceding(self.spec_point(), self.spec_grid()@.columns),
        )
    }

    /// Current iterator position.
    pub fn point(&self) -> (point: Point)
        ensures
            point == self.spec_point(),
    {
        self.point
    }

    /// Cell at the current iterator position.
    pub fn cell(&self) -> (cell: &'a T)
        requires
            self.wf(),
            self.spec_grid()@.has_point(self.spec_point()),
        ensures
            *cell == self.spec_grid()@.cell(self.spec_point()),
    {
        self.grid.raw.row(self.point.line).cell(self.point.column.0)
    }

    /// Advance to the next cell.
    pub fn next(&mut self) -> (item: Option<Indexed<&'a T>>)
        requires
            old(self).wf(),
            old(self).can_advance(),
        ensures
            final(self).wf(),
            final(self).spec_grid() == old(self).spec_grid(),
            final(self).spec_end() == old(self).spec_end(),
            point_before(old(self).spec_point(), old(self).spec_end()) ==> {
                &&& final(self).spec_point() == point_after(
                    old(self).spec_point(),
                    old(self).spec_grid()@.columns,
                )
                &&& item matches Some(indexed) && indexed.point == final(self).spec_point()
                    && *indexed.cell == old(self).spec_grid()@.cell(indexed.point)
            },
            !point_before(old(self).spec_point(), old(self).spec_end()) ==> {
                &&& item is None
                &&& final(self).spec_point() == old(self).spec_point()
            },
    {
        // Stop once we've reached the end of the grid.
        if !self.point.is_before(&self.end) {
            return None;
        }
        if self.point.column.0 >= self.grid.last_column().0 {
            self.point.column = Column(0);
            self.point.line = Line(self.point.line.0 + 1);
        } else {
            self.point.column = Column(self.point.column.0 + 1);
        }
        Some(Indexed { cell: self.cell(), point: self.point })
    }

    /// Number of cells that are left.
    pub fn size_hint(&self) -> (size: (usize, Option<usize>))
        requires
            self.wf(),
            points_left(self.spec_point(), self.spec_end(), self.spec_grid()@.columns)
                <= usize::MAX,
        ensures
            size.0 == points_left(self.spec_point(), self.spec_end(), self.spec_grid()@.columns),
            size.1 == Some(size.0),
    {
        if !self.point.is_before(&self.end) {
            return (0, Some(0));
        }
        let size: usize = if self.point.line == self.end.line {
            self.end.column.0 - self.point.column.0
        } else {
            let ghost middle = self.end.line.0 - self.point.line.0 - 1;
            let ghost columns = self.grid@.columns;
            assert(middle * columns >= 0) by (nonlinear_arith)
                requires
                    middle >= 0,
            ;
            let cols_on_first_line: usize = if self.point.column.0 < self.grid.columns {
                self.grid.columns - (self.point.column.0 + 1)
            } else {
                0
            };
            let middle_lines: usize = (self.end.line.0 as i64 - self.point.line.0 as i64
                - 1) as usize;
            let cols_on_last_line: usize = self.end.column.0 + 1;

            cols_on_first_line + middle_lines * self.grid.columns + cols_on_last_line
        };

        (size, Some(size))
    }
}

/// Bidirectional iterator.
pub trait BidirectionalIterator: Sized {
    type Item;

    /// Whether the iterator can step back, or knows that there is nothing to step back to.
    spec fn prev_requires(&self) -> bool;

    /// What stepping back gives.
    spec fn prev_ensures(before: Self, after: Self, item: Option<Self::Item>) -> bool;

    /// Step back to the preceding item.
    fn prev(&mut self) -> (item: Option<Self::Item>)
        requires
            old(self).prev_requires(),
        ensures
            Self::prev_ensures(*old(self), *final(self), item),
    ;
}

impl<'a, T> BidirectionalIterator for GridIterator<'a, T> {
    type Item = Indexed<&'a T>;

    open spec fn prev_requires(&self) -> bool {
        self.wf() && self.can_retreat()
    }

    open spec fn prev_ensures(
        before: Self,
        after: Self,
        item: Option<Indexed<&'a T>>,
    ) -> bool {
        &&& after.wf()
        &&& after.spec_grid() == before.spec_grid()
        &&& after.spec_end() == before.spec_end()
        &&& point_before(before.first_point(), before.spec_point()) ==> {
            &&& after.spec_point() == point_preceding(
                before.spec_point(),
                before.spec_grid()@.columns,
            )
            &&& item matches Some(indexed) && indexed.point == after.spec_point()
                && *indexed.cell == before.spec_grid()@.cell(indexed.point)
        }
        &&& !point_before(before.first_point(), before.spec_point()) ==> {
            &&& item is None
            &&& after.spec_point() == before.spec_point()
        }
    }

    fn prev(&mut self) -> (item: Option<Indexed<&'a T>>) {
        let topmost_line: Line = self.grid.topmost_line();
        let last_column: Column = self.grid.last_column();

        // Stop once we've reached the end of the grid.
        if !Point::new(topmost_line, Column(0)).is_before(&self.point) {
            return None;
        }
        if self.point.column.0 == 0 {
            self.point.column = last_column;
            self.point.line = Line(self.point.line.0 - 1);
        } else {
            self.point.column = Column(self.point.column.0 - 1);
        }
        Some(Indexed { cell: self.cell(), point: self.point })
    }
}

impl<T> Grid<T> {
    /// Iterate over all cells in the grid starting at a specific point.
    pub fn iter_from(&self, point: Point) -> (iter: GridIterator<'_, T>)
        requires
            self.wf(),
            self@.columns >= 1,
        ensures
            iter.wf(),
            iter.spec_grid() == *self,
            iter.spec_point() == point,
            iter.spec_end() == (Point {
                line: Line((self@.lines - 1) as i32),
                column: Column((self@.columns - 1) as usize),
            }),
    {
        let end = Point::new(self.bottommost_line(), self.last_column());
        GridIterator { grid: self, point, end }
    }

    /// Iterate over all visible cells.
    pub fn display_iter(&self) -> (iter: GridIterator<'_, T>)
        requires
            self.wf(),
            self@.columns >= 1,
        ensures
            iter.wf(),
            iter.spec_grid() == *self,
            iter.spec_point() == (Point {
                line: Line((-self@.display_offset - 1) as i32),
                column: Column((self@.columns - 1) as usize),
            }),
            iter.spec_end() == (Point {
                line: Line((-self@.display_offset - 1 + self@.lines) as i32),
                column: Column((self@.columns - 1) as usize),
            }),
    {
        let last_column: Column = self.last_column();
        let start = Point::new(Line(-(self.display_offset() as i32) - 1), last_column);
        let shown_end: i32 = start.line.0 + self.screen_lines() as i32;
        let bottommost: Line = self.bottommost_line();
        let end_line: Line = if shown_end <= bottommost.0 {
            Line(shown_end)
        } else {
            bottommost
        };
        let end = Point::new(end_line, last_column);

        GridIterator { grid: self, point: start, end }
    }

    pub fn display_offset(&self) -> (offset: usize)
        ensures
            offset == self@.display_offset,
    {
        self.display_offset
    }
}

impl<T> Dimensions for Grid<T> {
    open spec fn spec_total_lines(&self) -> nat {
        self@.rows.len()
    }

    open spec fn spec_screen_lines(&self) -> nat {
        self@.lines
    }

    open spec fn spec_columns(&self) -> nat {
        self@.columns
    }

    fn total_lines(&self) -> (n: usize) {
        self.raw.len()
    }

    fn screen_lines(&self) -> (n: usize) {
        self.lines
    }

    fn columns(&self) -> (n: usize) {
        self.columns
    }
}

} // verus!
