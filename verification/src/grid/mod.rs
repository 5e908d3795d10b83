//! A specialized 2D grid for use in a terminal.

use vstd::prelude::*;
use vstd::std_specs::cmp::PartialEqSpec;

use crate::cell::{Cell, Flags};
use crate::grid::cursor::{cloned_cursor, fresh_cursor};
use crate::grid::row::{cloned_rows, default_row, same_rows};
use crate::grid::stats::{no_activity, ScrollbackStats};
use crate::grid::storage::Storage;
use crate::grid::view::{larger, smaller, GridView};

pub mod clear;
pub mod compact;
pub mod cursor;
pub mod dimensions;
pub mod effects;
pub mod iter;
pub mod laws;
pub mod parts;
pub mod row;
mod scroll;
pub mod scrollback;
pub mod stats;
mod storage;
pub mod view;

pub use self::compact::CompactRow;
pub use self::cursor::{Charsets, Cursor};
pub use self::dimensions::Dimensions;
pub use self::iter::{BidirectionalIterator, GridIterator, Indexed};
pub use self::parts::GridParts;
pub use self::row::Row;
pub use self::stats::{set_scrollback_logging, ScrollbackLogging};

verus! {

/// A cell that a grid can hold.
pub trait GridCell: Sized {
    /// Whether the cell shows nothing.
    spec fn blank(&self) -> bool;

    /// What a cell holds after a reset from `template`, whatever it held before.
    spec fn cleared(template: Self) -> Self;

    /// The attributes of the cell.
    spec fn spec_flags(&self) -> Flags;

    /// The cell with other attributes.
    spec fn with_flags(self, flags: Flags) -> Self;

    /// Check if the cell contains any content.
    fn is_empty(&self) -> (r: bool)
        ensures
            r == self.blank(),
    ;

    /// Perform an opinionated cell reset based on a template cell.
    fn reset(&mut self, template: &Self)
        ensures
            *final(self) == Self::cleared(*template),
    ;

    fn flags(&self) -> (flags: &Flags)
        ensures
            *flags == self.spec_flags(),
    ;

    fn flags_mut(&mut self) -> (flags: &mut Flags)
        ensures
            *flags == old(self).spec_flags(),
            *final(self) == old(self).with_flags(*final(flags)),
    ;
}

/// How to move the display over the scrollback.
#[derive(Debug, Clone, Copy)]
pub enum Scroll {
    Delta(i32),
    PageUp,
    PageDown,
    Top,
    Bottom,
}

/// Grid based terminal content storage.
///
/// ```notrust
/// +-------------------------+  <-- max_scroll_limit + lines
/// |                         |
/// |      UNINITIALIZED      |
/// |                         |
/// +-------------------------+  <-- self.raw.inner.len()
/// |                         |
/// |      RESIZE BUFFER      |
/// |                         |
/// +-------------------------+  <-- self.history_size() + lines
/// |                         |
/// |     SCROLLUP REGION     |
/// |                         |
/// +-------------------------+v lines
/// |                         ||
/// |     VISIBLE  REGION     ||
/// |                         ||
/// +-------------------------+^ <-- display_offset
/// |                         |
/// |    SCROLLDOWN REGION    |
/// |                         |
/// +-------------------------+  <-- zero
///                           ^
///                        columns
/// ```
#[derive(Debug)]
pub struct Grid<T> {
    /// Current cursor for writing data.
    pub cursor: Cursor<T>,
    /// Last saved cursor.
    pub saved_cursor: Cursor<T>,
    /// Lines in the grid. Each row holds a list of cells corresponding to the
    /// columns in that row.
    raw: Storage<T>,
    /// Number of columns.
    columns: usize,
    /// Number of visible lines.
    lines: usize,
    /// Offset of displayed area.
    ///
    /// If the displayed region isn't at the bottom of the screen, it stays
    /// stationary while more text is emitted. The scrolling implementation
    /// updates this offset accordingly.
    display_offset: usize,
    /// Maximum number of lines in history.
    max_scroll_limit: usize,
    /// Compressed scrollback rows, ordered oldest-first.
    ///
    /// When scrollback exceeds a threshold, old history rows are compressed
    /// into this vec to reduce memory usage. They are decompressed back into
    /// the ring buffer on demand (e.g. when the user scrolls up).
    compressed_history: Vec<CompactRow>,
    /// Counts of scrollback compression activity.
    scrollback_stats: ScrollbackStats,
}

impl<T> View for Grid<T> {
    type V = GridView<T>;

    closed spec fn view(&self) -> GridView<T> {
        GridView {
            rows: self.raw.rows(),
            compressed: Seq::new(
                self.compressed_history@.len(),
                |k: int| self.compressed_history@[k].cells(),
            ),
            lines: self.lines as nat,
            columns: self.columns as nat,
            display_offset: self.display_offset as nat,
            max_scroll_limit: self.max_scroll_limit as nat,
            cursor: self.cursor,
            saved_cursor: self.saved_cursor,
            stats: self.scrollback_stats,
        }
    }
}

impl<T> Grid<T> {
    /// The representation is consistent.
    pub closed spec fn inv(&self) -> bool {
        &&& self.raw.wf()
        &&& self.raw.has_width(self.columns as nat)
        &&& self.raw.visible() == self.lines
    }

    pub open spec fn wf(&self) -> bool {
        self.inv() && self@.wf()
    }
}

/// Whether `copy` is a clone of `grid`.
pub open spec fn cloned_grid<T: Clone>(grid: GridView<T>, copy: GridView<T>) -> bool {
    &&& copy == (GridView {
        rows: copy.rows,
        cursor: copy.cursor,
        saved_cursor: copy.saved_cursor,
        ..grid
    })
    &&& cloned_rows(grid.rows, copy.rows)
    &&& cloned_cursor(grid.cursor, copy.cursor)
    &&& cloned_cursor(grid.saved_cursor, copy.saved_cursor)
}

impl<T: Clone> Clone for Grid<T> {
    fn clone(&self) -> (copy: Grid<T>)
        ensures
            self.wf() ==> copy.wf() && cloned_grid(self@, copy@),
    {
        let compressed_history = self.compressed_history.clone();
        let copy = Grid {
            cursor: self.cursor.clone(),
            saved_cursor: self.saved_cursor.clone(),
            raw: self.raw.duplicate(),
            columns: self.columns,
            lines: self.lines,
            display_offset: self.display_offset,
            max_scroll_limit: self.max_scroll_limit,
            compressed_history,
            scrollback_stats: self.scrollback_stats,
        };
        proof {
            assert forall|k: int| 0 <= k < compressed_history@.len() implies (
            #[trigger] compressed_history@[k]).cells() == self.compressed_history@[k].cells() by {
                assert(cloned(self.compressed_history@[k], compressed_history@[k]));
            }
            assert(copy@.compressed =~= self@.compressed);
            if self.wf() {
                assert(copy.raw.has_width(copy.columns as nat));
                copy.raw.lemma_wf(copy.columns as nat);
            }
        }
        copy
    }
}

impl<T: GridCell + Default + PartialEq> Grid<T> {
    pub fn new(lines: usize, columns: usize, max_scroll_limit: usize) -> (grid: Grid<T>)
        requires
            lines <= i32::MAX,
        ensures
            grid.wf(),
            grid@.lines == lines,
            grid@.columns == columns,
            grid@.max_scroll_limit == max_scroll_limit,
            grid@.display_offset == 0,
            grid@.compressed == Seq::<Seq<Cell>>::empty(),
            grid@.rows.len() == lines,
            forall|k: int|
                0 <= k < lines ==> default_row(#[trigger] grid@.rows[k], columns as nat),
            fresh_cursor(grid@.cursor),
            fresh_cursor(grid@.saved_cursor),
            grid@.stats == no_activity(),
    {
        let grid = Grid {
            raw: Storage::with_capacity(lines, columns),
            max_scroll_limit,
            display_offset: 0,
            saved_cursor: Cursor::default(),
            cursor: Cursor::default(),
            scrollback_stats: ScrollbackStats::default(),
            lines,
            columns,
            compressed_history: Vec::new(),
        };
        proof {
            grid.raw.lemma_wf(columns as nat);
        }
        grid
    }

    /// Update the size of the scrollback history.
    pub fn update_history(&mut self, history_size: usize)
        requires
            old(self).wf(),
        ensures
            final(self).wf(),
            final(self)@ == old(self)@.with_history_limit(history_size as nat),
    {
        let current_history_size: usize = self.history_size();
        if current_history_size > history_size {
            self.raw.shrink_lines(current_history_size - history_size);
        }
        let hot: usize = min_usize(current_history_size, history_size);
        self.trim_compressed(history_size - hot);
        if self.display_offset > history_size {
            self.display_offset = history_size;
        }
        self.max_scroll_limit = history_size;
        assert(self@ =~= old(self)@.with_history_limit(history_size as nat));
    }

    pub fn scroll_display(&mut self, scroll: Scroll)
        requires
            old(self).wf(),
            old(self)@.can_scroll_display(scroll),
        ensures
            final(self).wf(),
            final(self)@ == old(self)@.display_scrolled(scroll),
    {
        let history: usize = self.history_size();
        self.display_offset = match scroll {
            Scroll::Delta(count) => {
                let offset: i32 = self.display_offset as i32 + count;
                let offset: usize = if offset > 0 {
                    offset as usize
                } else {
                    0
                };
                min_usize(offset, history)
            },
            Scroll::PageUp => min_usize(self.display_offset + self.lines, history),
            Scroll::PageDown => self.display_offset.saturating_sub(self.lines),
            Scroll::Top => history,
            Scroll::Bottom => 0,
        };
        assert(self@ =~= old(self)@.display_scrolled(scroll));
    }

    /// Drop the oldest compressed lines, so that at most `count` are left.
    fn trim_compressed(&mut self, count: usize)
        requires
            old(self).wf(),
        ensures
            final(self).wf(),
            final(self)@ == (GridView {
                compressed: old(self)@.compressed_within(count as int, 0),
                ..old(self)@
            }),
    {
        let len: usize = self.compressed_history.len();
        if len > count {
            let kept: Vec<CompactRow> = self.compressed_history.split_off(len - count);
            self.compressed_history = kept;
        }
        assert(self@.compressed =~= old(self)@.compressed_within(count as int, 0));
    }

    /// Make room for `count` more lines of hot history, or as many as the limit leaves. The oldest
    /// compressed lines are dropped where both kinds together are more than the limit allows.
    fn increase_scroll_limit(&mut self, count: usize)
        requires
            old(self).wf(),
            old(self)@.lines + old(self)@.history_after_scroll(count as int) + old(
                self,
            )@.compressed_after_scroll(count as int).len() <= i32::MAX,
        ensures
            final(self).wf(),
            final(self)@ == (GridView {
                rows: final(self)@.rows,
                compressed: old(self)@.compressed_after_scroll(count as int),
                ..old(self)@
            }),
            final(self)@.history() == old(self)@.history_after_scroll(count as int),
            final(self)@.rows.skip(final(self)@.history() - old(self)@.history())
                == old(self)@.rows,
    {
        let room: usize = self.max_scroll_limit - self.history_size();
        let count: usize = min_usize(count, room);
        self.trim_compressed(room - count);
        if count != 0 {
            self.raw.initialize(count, self.columns);
            proof {
                self.raw.lemma_wf(self.columns as nat);
            }
        } else {
            assert(self@.rows.skip(0) =~= old(self)@.rows);
        }
    }

    /// Drop the oldest `count` lines of hot history, or as many as there are.
    pub fn decrease_scroll_limit(&mut self, count: usize)
        requires
            old(self).wf(),
        ensures
            final(self).wf(),
            final(self)@ == (GridView {
                rows: old(self)@.rows.skip(smaller(count as int, old(self)@.history())),
                display_offset: if smaller(count as int, old(self)@.history()) != 0 {
                    smaller(
                        old(self)@.display_offset as int,
                        old(self)@.history() - smaller(count as int, old(self)@.history()),
                    ) as nat
                } else {
                    old(self)@.display_offset
                },
                ..old(self)@
            }),
    {
        let count: usize = min_usize(count, self.history_size());
        if count != 0 {
            let shrinkage: usize = min_usize(count, self.history_size());
            self.raw.shrink_lines(shrinkage);
            self.display_offset = min_usize(self.display_offset, self.history_size());
        }
        assert(self@.rows =~= old(self)@.rows.skip(smaller(count as int, old(self)@.history())));
    }
}

impl<T: PartialEq> Grid<T> {
    /// The rows of both grids are stored consistently.
    pub closed spec fn comparable(&self, other: &Grid<T>) -> bool {
        self.raw.wf() && other.raw.wf() && self.raw.visible() == other.raw.visible()
    }

    /// Whether two grids hold the same: rows that compare equal, equal compressed rows, and the
    /// same dimensions and display offset.
    pub open spec fn same_contents(&self, other: &Grid<T>) -> bool {
        &&& self.comparable(other)
        &&& same_rows(self@.rows, other@.rows)
        &&& self@.columns == other@.columns
        &&& self@.lines == other@.lines
        &&& self@.display_offset == other@.display_offset
        &&& self@.compressed == other@.compressed
    }

    /// Grids of one height can be compared.
    pub proof fn lemma_comparable(&self, other: &Grid<T>)
        requires
            self.wf(),
            other.wf(),
            self@.lines == other@.lines,
        ensures
            self.comparable(other),
    {
    }
}

impl<T: PartialEq> vstd::std_specs::cmp::PartialEqSpecImpl for Grid<T> {
    open spec fn obeys_eq_spec() -> bool {
        T::obeys_eq_spec()
    }

    open spec fn eq_spec(&self, other: &Grid<T>) -> bool {
        self.same_contents(other)
    }
}

impl<T: PartialEq> PartialEq for Grid<T> {
    fn eq(&self, other: &Grid<T>) -> (r: bool) {
        assert(self@.compressed.len() == self.compressed_history@.len());
        assert(other@.compressed.len() == other.compressed_history@.len());
        // Compare struct fields and check result of grid comparison.
        if !self.raw.same_as(&other.raw) || self.columns != other.columns || self.lines != other.lines
            || self.display_offset != other.display_offset || self.compressed_history.len()
            != other.compressed_history.len() {
            return false;
        }
        let mut k: usize = 0;
        while k < self.compressed_history.len()
            invariant
                k <= self.compressed_history@.len() == other.compressed_history@.len(),
                forall|j: int|
                    0 <= j < k ==> (#[trigger] self.compressed_history@[j]).cells()
                        == other.compressed_history@[j].cells(),
            decreases self.compressed_history@.len() - k,
        {
            if self.compressed_history[k] != other.compressed_history[k] {
                assert(self@.compressed[k as int] != other@.compressed[k as int]);
                return false;
            }
            k += 1;
        }
        assert(self@.compressed =~= other@.compressed);
        true
    }
}

/// The larger of two numbers.
fn max_usize(a: usize, b: usize) -> (r: usize)
    ensures
        r == larger(a as int, b as int),
{
    if a >= b {
        a
    } else {
        b
    }
}

/// The smaller of two numbers.
fn min_usize(a: usize, b: usize) -> (r: usize)
    ensures
        r == smaller(a as int, b as int),
{
    if a <= b {
        a
    } else {
        b
    }
}

} // verus!
