//! Taking grids apart, and putting them together.

use vstd::prelude::*;

use crate::grid::compact::CompactRow;
use crate::grid::cursor::{default_charsets, Charsets, Cursor};
use crate::grid::row::Row;
use crate::grid::stats::{no_activity, ScrollbackStats};
use crate::grid::storage::Storage;
use crate::grid::view::GridView;
use crate::grid::Grid;

verus! {

/// Everything that makes up a grid, for those who store grids or change their shape.
#[derive(Debug)]
pub struct GridParts<T> {
    pub cursor: Cursor<T>,
    pub saved_cursor: Cursor<T>,
    /// The rows of hot history and screen, from the oldest downward.
    pub rows: Vec<Row<T>>,
    /// The compressed rows of history, oldest first.
    pub compressed_history: Vec<CompactRow>,
    /// Number of columns.
    pub columns: usize,
    /// Number of lines on the screen.
    pub lines: usize,
    /// Number of lines that the display is scrolled up by.
    pub display_offset: usize,
    /// Maximum number of lines in history.
    pub max_scroll_limit: usize,
}

impl<T> View for GridParts<T> {
    type V = GridView<T>;

    open spec fn view(&self) -> GridView<T> {
        GridView {
            rows: Seq::new(self.rows@.len(), |k: int| self.rows@[k]@),
            compressed: Seq::new(
                self.compressed_history@.len(),
                |k: int| self.compressed_history@[k].cells(),
            ),
            lines: self.lines as nat,
            columns: self.columns as nat,
            display_offset: self.display_offset as nat,
            max_scroll_limit: self.max_scroll_limit as nat,
            cursor: self.cursor,
            saved_cursor: self.saved_cursor,
            stats: no_activity(),
        }
    }
}

impl<T> GridParts<T> {
    /// Whether these are the parts of a grid.
    pub fn is_grid(&self) -> (r: bool)
        ensures
            r == self@.wf(),
    {
        let max: usize = i32::MAX as usize;
        if self.lines > self.rows.len() || self.rows.len() > max || self.compressed_history.len()
            > max - self.rows.len() || self.display_offset > max || self.rows.len() - self.lines
            + self.compressed_history.len() > self.max_scroll_limit {
            return false;
        }
        let mut k: usize = 0;
        while k < self.rows.len()
            invariant
                k <= self.rows@.len(),
                forall|j: int| 0 <= j < k ==> (#[trigger] self@.rows[j]).len() == self.columns,
            decreases self.rows@.len() - k,
        {
            if self.rows[k].len() != self.columns {
                assert(self@.rows[k as int].len() != self.columns);
                return false;
            }
            k += 1;
        }
        true
    }
}

impl<T> Grid<T> {
    /// Put a grid together, if the parts fit.
    pub fn from_parts(parts: GridParts<T>) -> (grid: Option<Grid<T>>)
        ensures
            grid is Some <==> parts@.wf(),
            grid matches Some(grid) ==> grid.wf() && grid@ == parts@,
    {
        if !parts.is_grid() {
            return None;
        }
        let ghost whole = parts@;
        let GridParts {
            cursor,
            saved_cursor,
            rows,
            compressed_history,
            columns,
            lines,
            display_offset,
            max_scroll_limit,
        } = parts;
        let ghost rows_view = rows@;
        let raw = Storage::from_rows(rows, lines);
        let grid = Grid {
            cursor,
            saved_cursor,
            raw,
            columns,
            lines,
            display_offset,
            max_scroll_limit,
            compressed_history,
            scrollback_stats: ScrollbackStats::default(),
        };
        proof {
            assert forall|k: int| 0 <= k < rows_view.len() implies (
            #[trigger] rows_view[k])@.len() == columns by {
                assert(whole.rows[k].len() == columns);
            }
            assert(grid@ =~= whole);
        }
        Some(grid)
    }

    /// Take the grid apart. The counts of compression activity are lost.
    pub fn into_parts(self) -> (parts: GridParts<T>)
        requires
            self.wf(),
        ensures
            parts@ == (GridView { stats: no_activity(), ..self@ }),
    {
        let ghost before = self@;
        let Grid {
            cursor,
            saved_cursor,
            raw,
            columns,
            lines,
            display_offset,
            max_scroll_limit,
            compressed_history,
            scrollback_stats: _,
        } = self;
        let rows = raw.into_rows();
        let parts = GridParts {
            cursor,
            saved_cursor,
            rows,
            compressed_history,
            columns,
            lines,
            display_offset,
            max_scroll_limit,
        };
        assert(parts@ =~= (GridView { stats: no_activity(), ..before }));
        parts
    }

    /// Take the grid apart for storing it. The compressed rows, the character sets and the counts
    /// of compression activity are lost.
    pub fn into_stored(self) -> (parts: GridParts<T>)
        requires
            self.wf(),
        ensures
            stored(self@, parts@),
    {
        let mut parts = self.into_parts();
        parts.compressed_history = Vec::new();
        parts.cursor.charsets = Charsets::default();
        parts.saved_cursor.charsets = Charsets::default();
        assert(parts@.rows =~= self@.rows);
        assert(parts@.compressed =~= Seq::empty());
        parts
    }
}

/// Whether `after` is the cursor `before` with the default character sets.
pub open spec fn stored_cursor<T>(before: Cursor<T>, after: Cursor<T>) -> bool {
    &&& after == (Cursor { charsets: after.charsets, ..before })
    &&& after.charsets@ == default_charsets()
}

/// Whether `after` is what storing a grid keeps of `before`.
pub open spec fn stored<T>(before: GridView<T>, after: GridView<T>) -> bool {
    &&& after == (GridView {
        compressed: Seq::empty(),
        cursor: after.cursor,
        saved_cursor: after.saved_cursor,
        stats: no_activity(),
        ..before
    })
    &&& stored_cursor(before.cursor, after.cursor)
    &&& stored_cursor(before.saved_cursor, after.saved_cursor)
}

} // verus!
