//! What a grid holds, as mathematical values.

use vstd::prelude::*;

use crate::cell::Cell;
use crate::grid::cursor::Cursor;
use crate::grid::row::cleared_row;
use crate::grid::stats::ScrollbackStats;
use crate::grid::{GridCell, Scroll};

verus! {

/// The smaller of two numbers.
pub open spec fn smaller(a: int, b: int) -> int {
    if a <= b {
        a
    } else {
        b
    }
}

/// The larger of two numbers.
pub open spec fn larger(a: int, b: int) -> int {
    if a >= b {
        a
    } else {
        b
    }
}

/// `count` rows of `columns` cells, all of them reset from `template`.
pub open spec fn cleared_rows<T: GridCell>(template: T, columns: nat, count: nat) -> Seq<Seq<T>> {
    Seq::new(count, |k: int| cleared_row(template, columns))
}

/// `rows` with the rows from `start` up to `end` reset from `template`.
pub open spec fn with_cleared<T: GridCell>(
    rows: Seq<Seq<T>>,
    start: int,
    end: int,
    template: T,
) -> Seq<Seq<T>> {
    Seq::new(
        rows.len(),
        |k: int|
            if start <= k < end {
                cleared_row(template, rows[k].len())
            } else {
                rows[k]
            },
    )
}

/// The contents of a grid.
#[verifier::ext_equal]
pub struct GridView<T> {
    /// The rows of hot history and screen, from the oldest downward.
    pub rows: Seq<Seq<T>>,
    /// The compressed rows of history, from the oldest on. They precede `rows`.
    pub compressed: Seq<Seq<Cell>>,
    /// Number of lines on the screen.
    pub lines: nat,
    /// Number of columns.
    pub columns: nat,
    /// Number of lines that the display is scrolled up by.
    pub display_offset: nat,
    /// Maximum number of lines in history, compressed ones included.
    pub max_scroll_limit: nat,
    pub cursor: Cursor<T>,
    pub saved_cursor: Cursor<T>,
    /// Counts of compression activity.
    pub stats: ScrollbackStats,
}

impl<T> GridView<T> {
    pub open spec fn wf(self) -> bool {
        &&& self.lines <= self.rows.len()
        &&& self.columns <= usize::MAX
        &&& self.rows.len() + self.compressed.len() <= i32::MAX
        &&& self.within_limit()
        &&& self.display_offset <= i32::MAX
        &&& forall|k: int| 0 <= k < self.rows.len() ==> (#[trigger] self.rows[k]).len()
            == self.columns
    }

    /// Number of hot lines of scrollback history.
    pub open spec fn history(self) -> int {
        self.rows.len() - self.lines
    }

    /// Number of lines of scrollback history.
    pub open spec fn total_history(self) -> int {
        self.history() + self.compressed.len()
    }

    /// Whether there are no more lines of history than there may be.
    pub open spec fn within_limit(self) -> bool {
        self.total_history() <= self.max_scroll_limit
    }

    /// The newest compressed lines, as many as a limit of `limit` lines of history leaves beside
    /// `hot` hot ones.
    pub open spec fn compressed_within(self, limit: int, hot: int) -> Seq<Seq<Cell>> {
        let kept = smaller(self.compressed.len() as int, larger(limit - hot, 0));
        self.compressed.skip(self.compressed.len() - kept)
    }

    /// Whether `line` is a line of hot history or screen.
    pub open spec fn has_line(self, line: int) -> bool {
        -self.history() <= line < self.lines
    }

    /// The cells of a line.
    pub open spec fn line(self, line: int) -> Seq<T> {
        self.rows[line + self.history()]
    }

    /// Whether the display shows lines that exist.
    pub open spec fn display_in_history(self) -> bool {
        self.display_offset <= self.history()
    }

    /// Where a scroll moves the display if `history` lines of history are there.
    pub open spec fn scroll_target(self, scroll: Scroll, history: int) -> int {
        match scroll {
            Scroll::Delta(count) => smaller(larger(self.display_offset + count, 0), history),
            Scroll::PageUp => smaller((self.display_offset + self.lines) as int, history),
            Scroll::PageDown => larger(self.display_offset - self.lines, 0),
            Scroll::Top => history,
            Scroll::Bottom => 0,
        }
    }

    /// Whether a scroll stays within the numbers that a line can have.
    pub open spec fn can_scroll_display(self, scroll: Scroll) -> bool {
        scroll matches Scroll::Delta(count) ==> self.display_offset + count <= i32::MAX
    }

    /// The grid with its display moved by `scroll`.
    pub open spec fn display_scrolled(self, scroll: Scroll) -> GridView<T> {
        GridView {
            display_offset: self.scroll_target(scroll, self.history()) as nat,
            ..self
        }
    }

    /// The grid with room for `history_size` lines of history. The oldest lines beyond that are
    /// dropped.
    pub open spec fn with_history_limit(self, history_size: nat) -> GridView<T> {
        GridView {
            rows: self.rows.skip(larger(self.history() - history_size, 0)),
            compressed: self.compressed_within(
                history_size as int,
                smaller(self.history(), history_size as int),
            ),
            display_offset: smaller(self.display_offset as int, history_size as int) as nat,
            max_scroll_limit: history_size,
            ..self
        }
    }

    /// The grid without any scrollback.
    pub open spec fn without_history(self) -> GridView<T> {
        GridView {
            rows: self.rows.skip(self.history()),
            compressed: Seq::empty(),
            display_offset: 0,
            ..self
        }
    }
}

impl<T: GridCell> GridView<T> {
    /// The grid with the lines from `start` up to `end` reset from the cursor's template.
    pub open spec fn lines_cleared(self, start: int, end: int) -> GridView<T> {
        GridView {
            rows: with_cleared(
                self.rows,
                start + self.history(),
                end + self.history(),
                self.cursor.template,
            ),
            ..self
        }
    }

    /// Number of hot history lines after the region at the top has been scrolled up.
    pub open spec fn history_after_scroll(self, positions: int) -> int {
        smaller(self.history() + positions, self.max_scroll_limit as int)
    }

    /// The compressed lines after the region at the top has been scrolled up: the oldest lines of
    /// history are dropped where there are more than the limit allows.
    pub open spec fn compressed_after_scroll(self, positions: int) -> Seq<Seq<Cell>> {
        self.compressed_within(
            self.max_scroll_limit as int,
            self.history_after_scroll(positions),
        )
    }

    /// Whether `scroll_up` finds every line that it touches.
    pub open spec fn can_scroll_up(self, start: int, end: int, positions: int) -> bool {
        if end - start <= positions && start != 0 {
            start < end ==> self.has_line(start) && end <= self.lines
        } else {
            &&& end <= self.lines
            &&& self.display_offset == 0 || start != 0 || smaller(
                self.display_offset + positions,
                self.max_scroll_limit as int,
            ) <= i32::MAX
            &&& if start == 0 {
                &&& -self.history_after_scroll(positions) <= end - positions
                &&& self.lines + self.history_after_scroll(positions)
                    + self.compressed_after_scroll(positions).len() <= i32::MAX
            } else {
                self.has_line(start)
            }
        }
    }

    /// The grid after the lines from `start` up to `end` have moved up by `positions`.
    pub open spec fn scrolled_up(self, start: int, end: int, positions: int) -> GridView<T> {
        let h = self.history();
        let cleared = cleared_rows(self.cursor.template, self.columns, positions as nat);
        if end - start <= positions && start != 0 {
            self.lines_cleared(start, end)
        } else {
            GridView {
                rows: if start == 0 {
                    let dropped = h + positions - self.history_after_scroll(positions);
                    self.rows.subrange(dropped, h + end) + cleared + self.rows.skip(h + end)
                } else {
                    self.rows.take(h + start) + self.rows.subrange(h + start + positions, h + end)
                        + cleared + self.rows.skip(h + end)
                },
                compressed: if start == 0 {
                    self.compressed_after_scroll(positions)
                } else {
                    self.compressed
                },
                display_offset: if self.display_offset == 0 || start != 0 {
                    self.display_offset
                } else {
                    smaller(
                        self.display_offset + positions,
                        self.max_scroll_limit as int,
                    ) as nat
                },
                ..self
            }
        }
    }

    /// Whether `scroll_down` finds every line that it touches.
    pub open spec fn can_scroll_down(self, start: int, end: int, positions: int) -> bool {
        if end - start <= positions {
            start < end ==> self.has_line(start) && end <= self.lines
        } else {
            &&& self.has_line(start)
            &&& end <= self.lines
        }
    }

    /// The grid after the lines from `start` up to `end` have moved down by `positions`.
    pub open spec fn scrolled_down(self, start: int, end: int, positions: int) -> GridView<T> {
        let h = self.history();
        if end - start <= positions {
            self.lines_cleared(start, end)
        } else {
            GridView {
                rows: self.rows.take(h + start) + cleared_rows(
                    self.cursor.template,
                    self.columns,
                    positions as nat,
                ) + self.rows.subrange(h + start, h + end - positions) + self.rows.skip(h + end),
                ..self
            }
        }
    }
}

} // verus!
