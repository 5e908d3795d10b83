//! Clearing of lines, and access to them.

use std::ops::{Index, Range};

use vstd::prelude::*;

use crate::grid::cursor::fresh_cursor;
use crate::grid::iter::BidirectionalIterator;
use crate::grid::row::{default_row, Row};
use crate::grid::view::{cleared_rows, GridView};
use crate::grid::{Cursor, Dimensions, Grid, GridCell};
use crate::index::{Column, Line, Point};

verus! {

/// One end of a range of lines.
#[derive(Debug, Clone, Copy, PartialEq, Eq, Structural)]
pub enum LineBound {
    /// The range contains this line.
    Included(Line),
    /// The range stops short of this line.
    Excluded(Line),
    /// The range goes as far as the screen.
    Unbounded,
}

impl LineBound {
    /// The first line of a range that starts here.
    pub open spec fn first(self) -> int {
        match self {
            LineBound::Included(line) => line.0 as int,
            LineBound::Excluded(line) => line.0 + 1,
            LineBound::Unbounded => 0,
        }
    }

    /// The line after a range of lines that ends here, on a screen of `lines` lines.
    pub open spec fn past(self, lines: nat) -> int {
        match self {
            LineBound::Included(line) => line.0 + 1,
            LineBound::Excluded(line) => line.0 as int,
            LineBound::Unbounded => lines as int,
        }
    }
}

/// A range of lines.
pub trait LineRange {
    /// Where the range starts.
    spec fn spec_start(&self) -> LineBound;

    /// Where the range ends.
    spec fn spec_end(&self) -> LineBound;

    fn start_bound(&self) -> (bound: LineBound)
        ensures
            bound == self.spec_start(),
    ;

    fn end_bound(&self) -> (bound: LineBound)
        ensures
            bound == self.spec_end(),
    ;
}

/// The lines from `start` up to, but without, `end`.
impl LineRange for Range<Line> {
    open spec fn spec_start(&self) -> LineBound {
        LineBound::Included(self.start)
    }

    open spec fn spec_end(&self) -> LineBound {
        LineBound::Excluded(self.end)
    }

    fn start_bound(&self) -> (bound: LineBound) {
        LineBound::Included(self.start)
    }

    fn end_bound(&self) -> (bound: LineBound) {
        LineBound::Excluded(self.end)
    }
}

/// The lines between two bounds.
impl LineRange for (LineBound, LineBound) {
    open spec fn spec_start(&self) -> LineBound {
        self.0
    }

    open spec fn spec_end(&self) -> LineBound {
        self.1
    }

    fn start_bound(&self) -> (bound: LineBound) {
        self.0
    }

    fn end_bound(&self) -> (bound: LineBound) {
        self.1
    }
}

impl<T: GridCell> GridView<T> {
    /// Whether every cell of a line is empty.
    pub open spec fn line_blank(self, line: int) -> bool {
        forall|c: int| 0 <= c < self.columns ==> (#[trigger] self.line(line)[c]).blank()
    }

    /// Number of lines among the first `count` down to the last one that is not blank.
    pub open spec fn used_among(self, count: int) -> int
        decreases count,
    {
        if count <= 0 {
            0
        } else if !self.line_blank(count - 1) {
            count
        } else {
            self.used_among(count - 1)
        }
    }

    /// Number of lines to scroll up by so that everything on the screen goes to the history.
    ///
    /// If the whole screen is blank, nothing has to be scrolled; without any history it is one
    /// line all the same.
    pub open spec fn viewport_used(self) -> int {
        let used = self.used_among(self.lines as int);
        if used == 0 && self.lines > 0 && self.history() == 0 {
            1
        } else {
            used
        }
    }

    /// Blank lines at the bottom do not count.
    pub proof fn lemma_used_among(self, count: int, more: int)
        requires
            0 <= count <= more,
            forall|line: int| count <= line < more ==> #[trigger] self.line_blank(line),
        ensures
            self.used_among(more) == self.used_among(count),
            0 <= self.used_among(count) <= count,
        decreases more,
    {
        if count < more {
            self.lemma_used_among(count, more - 1);
        } else if count > 0 {
            self.lemma_used_among(count - 1, count - 1);
        }
    }

    /// The grid after the used part of the screen, `count` lines, has gone to the history.
    pub open spec fn viewport_cleared(self, count: int) -> GridView<T> {
        let h = self.history();
        let dropped = h + count - self.history_after_scroll(count);
        GridView {
            rows: self.rows.subrange(dropped, h + count) + cleared_rows(
                self.cursor.template,
                self.columns,
                self.lines,
            ),
            ..self.scrolled_up(0, self.lines as int, count)
        }
    }
}

impl<T: GridCell + Default + PartialEq> Grid<T> {
    /// Number of lines from the top of the screen down to the last one with content.
    fn used_lines(&self) -> (count: usize)
        requires
            self.wf(),
            self@.columns >= 1,
        ensures
            count == self@.viewport_used(),
            count <= self@.lines,
    {
        let end = Point::new(Line(self.lines as i32 - 1), Column(self.columns()));
        let mut iter = self.iter_from(end);
        let ghost v = self@;
        loop
            invariant_except_break
                iter.wf(),
                iter.spec_point().line.0 >= 0 || iter.spec_point().column.0 == v.columns,
                iter.spec_point().line.0 < 0 ==> v.lines == 0,
                iter.spec_point().column.0 <= v.columns,
                forall|line: int|
                    iter.spec_point().line.0 < line < v.lines ==> #[trigger] v.line_blank(line),
                iter.spec_point().line.0 >= 0 ==> forall|c: int|
                    iter.spec_point().column.0 <= c < v.columns ==> (#[trigger] v.line(
                        iter.spec_point().line.0 as int,
                    )[c]).blank(),
            invariant
                iter.spec_grid() == *self,
                v == self@,
                v.wf(),
                v.columns >= 1,
                -1 <= iter.spec_point().line.0 < v.lines,
            ensures
                iter.spec_point().line.0 + 1 == v.viewport_used(),
            decreases iter.spec_point().line.0, iter.spec_point().column.0,
        {
            let ghost at = iter.spec_point();
            match iter.prev() {
                Some(indexed) => {
                    if !indexed.cell.is_empty() || indexed.point.line.0 < 0 {
                        proof {
                            if indexed.point.line.0 >= 0 {
                                assert(!v.line(indexed.point.line.0 as int)[indexed.point.column.0 as int].blank());
                                v.lemma_used_among(indexed.point.line.0 + 1, v.lines as int);
                            } else {
                                if at.line.0 >= 0 {
                                    assert(v.line_blank(0));
                                }
                                v.lemma_used_among(0, v.lines as int);
                            }
                        }
                        break ;
                    }
                },
                None => {
                    proof {
                        if at.line.0 >= 0 {
                            assert(v.line_blank(0));
                        }
                        v.lemma_used_among(0, v.lines as int);
                    }
                    break ;
                },
            }
        }
        (iter.point().line.0 + 1) as usize
    }

    /// Move everything on the screen to the history.
    pub fn clear_viewport(&mut self)
        requires
            old(self).wf(),
            old(self)@.columns >= 1,
            old(self)@.can_scroll_up(0, old(self)@.lines as int, old(self)@.viewport_used()),
        ensures
            final(self).wf(),
            final(self)@ == old(self)@.viewport_cleared(old(self)@.viewport_used()),
    {
        // Determine how many lines to scroll up by.
        let positions: usize = self.used_lines();
        let region = Line(0)..Line(self.lines as i32);

        // Clear the viewport.
        self.scroll_up(&region, positions);
        let ghost scrolled = self@;

        // Reset rotated lines.
        self.raw.reset_lines(0, (self.lines - positions) as i32, &self.cursor.template);
        proof {
            self.raw.lemma_wf(self.columns as nat);
            assert(self@ =~= old(self)@.viewport_cleared(positions as int));
        }
    }

    /// Completely reset the grid state.
    pub fn reset(&mut self)
        requires
            old(self).wf(),
        ensures
            final(self).wf(),
            fresh_cursor(final(self)@.cursor),
            fresh_cursor(final(self)@.saved_cursor),
            final(self)@ == (GridView {
                rows: cleared_rows(
                    final(self)@.cursor.template,
                    old(self)@.columns,
                    old(self)@.lines,
                ),
                cursor: final(self)@.cursor,
                saved_cursor: final(self)@.saved_cursor,
                ..old(self)@.without_history()
            }),
    {
        self.clear_history();

        self.saved_cursor = Cursor::default();
        self.cursor = Cursor::default();
        self.display_offset = 0;

        // Reset all visible lines.
        let start: Line = self.topmost_line();
        let end: i32 = self.screen_lines() as i32;
        self.raw.reset_lines(start.0, end, &self.cursor.template);
        proof {
            self.raw.lemma_wf(self.columns as nat);
            assert(self@.rows =~= cleared_rows(
                self@.cursor.template,
                old(self)@.columns,
                old(self)@.lines,
            ));
        }
    }
}

impl<T> Grid<T> {
    /// Reset a visible region within the grid.
    pub fn reset_region<R: LineRange>(&mut self, bounds: R) where T: GridCell + Default
        requires
            old(self).wf(),
            bounds.spec_start().first() < old(self)@.lines,
            bounds.spec_end().past(old(self)@.lines) <= old(self)@.lines,
            bounds.spec_start().first() < bounds.spec_end().past(old(self)@.lines) ==> old(
                self,
            )@.has_line(bounds.spec_start().first()),
        ensures
            final(self).wf(),
            final(self)@ == old(self)@.lines_cleared(
                bounds.spec_start().first(),
                bounds.spec_end().past(old(self)@.lines),
            ),
    {
        let start: i32 = match bounds.start_bound() {
            LineBound::Included(line) => line.0,
            LineBound::Excluded(line) => line.0 + 1,
            LineBound::Unbounded => 0,
        };
        let end: i32 = match bounds.end_bound() {
            LineBound::Included(line) => line.0 + 1,
            LineBound::Excluded(line) => line.0,
            LineBound::Unbounded => self.screen_lines() as i32,
        };
        self.raw.reset_lines(start, end, &self.cursor.template);
        proof {
            self.raw.lemma_wf(self.columns as nat);
            assert(self@ =~= old(self)@.lines_cleared(start as int, end as int));
        }
    }

    pub fn clear_history(&mut self)
        requires
            old(self).wf(),
        ensures
            final(self).wf(),
            final(self)@ == old(self)@.without_history(),
    {
        // Explicitly purge all lines from history.
        let history: usize = self.history_size();
        self.raw.shrink_lines(history);

        // Also clear any compressed scrollback.
        self.compressed_history.clear();

        // Reset display offset.
        self.display_offset = 0;
        assert(self@ =~= old(self)@.without_history());
    }

    /// Fill the history with empty lines, up to its limit.
    ///
    /// The new lines precede the hot lines that are there. Compressed lines count too.
    pub fn initialize_all(&mut self) where T: GridCell + Default
        requires
            old(self).wf(),
            old(self)@.lines + old(self)@.max_scroll_limit <= i32::MAX,
        ensures
            final(self).wf(),
            final(self)@ == (GridView { rows: final(self)@.rows, ..old(self)@ }),
            ({
                let added = old(self)@.max_scroll_limit - old(self)@.total_history();
                &&& final(self)@.history() == old(self)@.history() + added
                &&& final(self)@.rows.skip(added) == old(self)@.rows
                &&& forall|k: int|
                    0 <= k < added ==> default_row(
                        #[trigger] final(self)@.rows[k],
                        old(self)@.columns,
                    )
            }),
    {
        // Remove all cached lines to clear them of any content.
        self.truncate();

        // Initialize everything with empty new lines.
        let total: usize = self.history_size() + self.compressed_history.len();
        let count: usize = self.max_scroll_limit - total;
        self.raw.initialize(count, self.columns);
        proof {
            self.raw.lemma_wf(self.columns as nat);
        }
    }

    /// Number of rows that are kept in memory without being part of the grid.
    pub closed spec fn cached_rows(&self) -> int {
        self.raw.ring_len() - self.raw.rows().len()
    }

    /// Free the rows that are kept in memory without being part of the grid.
    pub fn truncate(&mut self)
        requires
            old(self).wf(),
        ensures
            final(self).wf(),
            final(self)@ == old(self)@,
            final(self).cached_rows() == 0,
    {
        self.raw.truncate();
    }

    /// The cursor, to be moved.
    pub fn cursor_mut(&mut self) -> (cursor: &mut Cursor<T>)
        requires
            old(self).wf(),
        ensures
            *cursor == old(self)@.cursor,
            final(self).wf(),
            final(self)@ == (GridView { cursor: *final(cursor), ..old(self)@ }),
    {
        &mut self.cursor
    }

    /// The saved cursor, to be moved.
    pub fn saved_cursor_mut(&mut self) -> (cursor: &mut Cursor<T>)
        requires
            old(self).wf(),
        ensures
            *cursor == old(self)@.saved_cursor,
            final(self).wf(),
            final(self)@ == (GridView { saved_cursor: *final(cursor), ..old(self)@ }),
    {
        &mut self.saved_cursor
    }

    /// The cell under the cursor.
    pub fn cursor_cell(&mut self) -> (cell: &mut T)
        requires
            old(self).wf(),
            old(self)@.has_point(old(self)@.cursor.point),
        ensures
            *cell == old(self)@.cell(old(self)@.cursor.point),
            final(self).wf(),
            final(self)@ == old(self)@.with_cell(old(self)@.cursor.point, *final(cell)),
    {
        let point: Point = self.cursor.point;
        self.cell_mut(point)
    }

    /// The row of `line`, to be changed. The grid stays valid if the row keeps its width.
    pub fn row_mut(&mut self, line: Line) -> (row: &mut Row<T>)
        requires
            old(self).wf(),
            old(self)@.has_line(line.0 as int),
        ensures
            row@ == old(self)@.line(line.0 as int),
            final(row)@.len() == old(self)@.columns ==> final(self).wf(),
            final(self)@ == (GridView {
                rows: old(self)@.rows.update(line.0 + old(self)@.history(), final(row)@),
                ..old(self)@
            }),
    {
        self.raw.row_mut(line)
    }

    /// The cell at `point`, to be changed.
    pub fn cell_mut(&mut self, point: Point) -> (cell: &mut T)
        requires
            old(self).wf(),
            old(self)@.has_point(point),
        ensures
            *cell == old(self)@.cell(point),
            final(self).wf(),
            final(self)@ == old(self)@.with_cell(point, *final(cell)),
    {
        self.raw.row_mut(point.line).cell_mut(point.column.0)
    }
}

impl<T> GridView<T> {
    /// The grid with another cell at `point`.
    pub open spec fn with_cell(self, point: Point, cell: T) -> GridView<T> {
        let k = point.line.0 + self.history();
        GridView {
            rows: self.rows.update(k, self.rows[k].update(point.column.0 as int, cell)),
            ..self
        }
    }
}

impl<T> vstd::std_specs::core::IndexSpecImpl<Line> for Grid<T> {
    open spec fn index_req(&self, index: &Line) -> bool {
        self.wf() && self@.has_line(index.0 as int)
    }
}

impl<T> Index<Line> for Grid<T> {
    type Output = Row<T>;

    fn index(&self, index: Line) -> (row: &Row<T>)
        ensures
            row@ == self@.line(index.0 as int),
    {
        self.raw.row(index)
    }
}

impl<T> vstd::std_specs::core::IndexSpecImpl<Point> for Grid<T> {
    open spec fn index_req(&self, index: &Point) -> bool {
        self.wf() && self@.has_point(*index)
    }
}

impl<T> Index<Point> for Grid<T> {
    type Output = T;

    fn index(&self, index: Point) -> (cell: &T)
        ensures
            *cell == self@.cell(index),
    {
        self.raw.row(index.line).cell(index.column.0)
    }
}

} // verus!
