//! What each operation on a grid does, cell by cell and number by number.

use std::ops::Range;

use vstd::layout::size_of;
use vstd::prelude::*;
use vstd::std_specs::cmp::PartialEqSpec;

use crate::cell::{default_cell, Cell, Color, Flags, NamedColor};
use crate::grid::clear::{LineBound, LineRange};
use crate::grid::compact::{compact_size, style_of, style_runs, used_len, CompactRow, StyleRun};
use crate::grid::cursor::{
    cloned_cursor, fresh_cursor, CharsetIndex, Cursor, StandardCharset,
};
use crate::grid::dimensions::{history_lines, Dimensions};
use crate::grid::iter::{
    point_after, point_preceding, BidirectionalIterator, GridIterator, Indexed,
};
use crate::grid::parts::{stored, GridParts};
use crate::grid::row::{cleared_row, cloned_cells, default_row, Row};
use crate::grid::scrollback::{last_misfit, misfits, total_size};
use crate::grid::stats::{
    clamped, no_activity, Activity, ScrollbackLogging, ScrollbackStats,
};
use crate::grid::view::{larger, smaller, GridView};
use crate::grid::{Grid, GridCell, Scroll};
use crate::index::{point_before, Line, Point};

verus! {

// The display.

/// Scrolling by `count` lines moves the display by exactly that many, up or down, but not beyond
/// the ends of the history; nothing else changes.
pub proof fn law_delta_moves_by_count<T>(v: GridView<T>, count: i32)
    requires
        v.wf(),
    ensures
        ({
            let after = v.display_scrolled(Scroll::Delta(count));
            let history = v.rows.len() - v.lines;
            let there = v.display_offset + count;
            &&& there < 0 ==> after.display_offset == 0
            &&& 0 <= there <= history ==> after.display_offset == there
            &&& there > history ==> after.display_offset == history
            &&& after.rows == v.rows
            &&& after.compressed == v.compressed
            &&& after.lines == v.lines
            &&& after.columns == v.columns
            &&& after.max_scroll_limit == v.max_scroll_limit
            &&& after.cursor == v.cursor
            &&& after.saved_cursor == v.saved_cursor
            &&& after.stats == v.stats
        }),
{
}

/// Scrolling there and back by the same number of lines changes nothing, if there is history
/// enough.
pub proof fn law_delta_and_back<T>(v: GridView<T>, count: i32, back: i32)
    requires
        v.wf(),
        v.display_offset <= v.rows.len() - v.lines,
        back == -count,
        0 <= v.display_offset + count <= v.rows.len() - v.lines,
    ensures
        v.display_scrolled(Scroll::Delta(count)).display_scrolled(Scroll::Delta(back)) == v,
{
}

/// Two scrolls by lines add up, if neither runs into an end of the history.
pub proof fn law_deltas_add_up<T>(v: GridView<T>, first: i32, second: i32, both: i32)
    requires
        v.wf(),
        both == first + second,
        0 <= v.display_offset + first <= v.rows.len() - v.lines,
    ensures
        v.display_scrolled(Scroll::Delta(first)).display_scrolled(Scroll::Delta(second))
            == v.display_scrolled(Scroll::Delta(both)),
{
}

/// A page is as many lines as the screen has. The top is where all of the history is scrolled to,
/// the bottom where none is. Nothing but the place of the display changes.
pub proof fn law_pages_and_ends<T>(v: GridView<T>)
    requires
        v.wf(),
    ensures
        ({
            let history = v.rows.len() - v.lines;
            let up = v.display_scrolled(Scroll::PageUp);
            let down = v.display_scrolled(Scroll::PageDown);
            let top = v.display_scrolled(Scroll::Top);
            let bottom = v.display_scrolled(Scroll::Bottom);
            &&& v.display_offset + v.lines <= history ==> up.display_offset == v.display_offset
                + v.lines
            &&& v.display_offset + v.lines > history ==> up.display_offset == history
            &&& v.display_offset >= v.lines ==> down.display_offset == v.display_offset - v.lines
            &&& v.display_offset < v.lines ==> down.display_offset == 0
            &&& top.display_offset == history
            &&& bottom.display_offset == 0
            &&& up == (GridView { display_offset: up.display_offset, ..v })
            &&& down == (GridView { display_offset: down.display_offset, ..v })
            &&& top == (GridView { display_offset: top.display_offset, ..v })
            &&& bottom == (GridView { display_offset: bottom.display_offset, ..v })
        }),
{
}

/// Every scroll by lines that a line number can hold is possible, and so is every other scroll.
pub proof fn law_display_can_scroll<T>(v: GridView<T>, scroll: Scroll)
    requires
        v.wf(),
    ensures
        scroll matches Scroll::Delta(count) && v.display_offset + count > i32::MAX || (
        v.can_scroll_display(scroll)),
{
}

/// What scrolling with thawing does to the lines: those that the display now shows, and all newer
/// ones, are hot; they hold what they held, and no others are thawed.
pub open spec fn thawed_down_to(v: GridView<Cell>, after: GridView<Cell>) -> bool {
    let history = v.rows.len() - v.lines;
    let woken = after.display_offset - history;
    &&& after.lines == v.lines
    &&& after.columns == v.columns
    &&& after.max_scroll_limit == v.max_scroll_limit
    &&& after.cursor == v.cursor
    &&& after.saved_cursor == v.saved_cursor
    &&& woken <= 0 ==> {
        &&& after.rows == v.rows
        &&& after.compressed == v.compressed
        &&& after.stats == v.stats
    }
    &&& woken > 0 ==> {
        &&& after.rows.len() == v.rows.len() + woken
        &&& after.compressed.len() == v.compressed.len() - woken
        &&& forall|k: int|
            0 <= k < v.rows.len() ==> #[trigger] after.rows[k + woken] == v.rows[k]
        &&& forall|k: int|
            0 <= k < after.compressed.len() ==> #[trigger] after.compressed[k] == v.compressed[k]
        &&& forall|k: int, c: int|
            0 <= k < woken && 0 <= c < v.columns ==> #[trigger] after.rows[k][c] == (if c
                < v.compressed[after.compressed.len() + k].len() {
                v.compressed[after.compressed.len() + k][c]
            } else {
                default_cell()
            })
    }
}

/// Scrolling with thawing by `count` lines moves the display by exactly that many, but not beyond
/// the ends of the whole history, compressed or not. The lines that come into view are thawed.
pub proof fn law_delta_with_thaw(v: GridView<Cell>, count: i32)
    requires
        v.wf(),
    ensures
        ({
            let after = v.display_scrolled_with_thaw(Scroll::Delta(count));
            let history = v.rows.len() - v.lines + v.compressed.len();
            let there = v.display_offset + count;
            &&& there < 0 ==> after.display_offset == 0
            &&& 0 <= there <= history ==> after.display_offset == there
            &&& there > history ==> after.display_offset == history
            &&& thawed_down_to(v, after)
        }),
{
}

/// The same for pages and for the ends of the history.
pub proof fn law_pages_with_thaw(v: GridView<Cell>)
    requires
        v.wf(),
    ensures
        ({
            let history = v.rows.len() - v.lines + v.compressed.len();
            let up = v.display_scrolled_with_thaw(Scroll::PageUp);
            let top = v.display_scrolled_with_thaw(Scroll::Top);
            let bottom = v.display_scrolled_with_thaw(Scroll::Bottom);
            &&& v.display_offset + v.lines <= history ==> up.display_offset == v.display_offset
                + v.lines
            &&& v.display_offset + v.lines > history ==> up.display_offset == history
            &&& top.display_offset == history
            &&& bottom == (GridView { display_offset: 0, ..v })
            &&& thawed_down_to(v, up)
            &&& thawed_down_to(v, top)
        }),
{
}

/// A page down moves the display down by a screen. It thaws nothing if the display is on hot lines.
pub proof fn law_page_down_with_thaw(v: GridView<Cell>)
    requires
        v.wf(),
    ensures
        ({
            let down = v.display_scrolled_with_thaw(Scroll::PageDown);
            let history = v.rows.len() - v.lines;
            &&& v.display_offset >= v.lines ==> down.display_offset == v.display_offset - v.lines
            &&& v.display_offset < v.lines ==> down.display_offset == 0
            &&& v.display_offset <= history ==> down == (GridView {
                display_offset: down.display_offset,
                ..v
            })
            &&& v.display_offset <= history + v.compressed.len() ==> thawed_down_to(v, down)
        }),
{
}

// Compression.

/// Thawing wakes the newest compressed lines, as many as are asked for or as there are. Each of
/// them has the width of the grid: in every column that it had it shows the cell that it had, the
/// columns that it lacked are untouched cells, those beyond the width are gone. All other lines
/// stay as they are and where they are, compressed or not.
pub proof fn law_thawed_cells(v: GridView<Cell>, count: nat, k: int, c: int)
    requires
        v.wf(),
    ensures
        ({
            let after = v.thawed(count as int);
            let n = if count <= v.compressed.len() {
                count as int
            } else {
                v.compressed.len() as int
            };
            let left = v.compressed.len() - n;
            &&& after.rows.len() == v.rows.len() + n
            &&& after.compressed.len() == left
            &&& 0 <= k < n ==> after.rows[k].len() == v.columns
            &&& 0 <= k < n && 0 <= c < v.columns && c < v.compressed[left + k].len()
                ==> after.rows[k][c] == v.compressed[left + k][c]
            &&& 0 <= k < n && v.compressed[left + k].len() <= c < v.columns ==> {
                &&& after.rows[k][c].c == ' '
                &&& after.rows[k][c].fg == Color::Named(NamedColor::Foreground)
                &&& after.rows[k][c].bg == Color::Named(NamedColor::Background)
                &&& after.rows[k][c].flags.bits == 0
            }
            &&& n <= k < after.rows.len() ==> after.rows[k] == v.rows[k - n]
            &&& 0 <= k < left ==> after.compressed[k] == v.compressed[k]
            &&& after.lines == v.lines
            &&& after.columns == v.columns
            &&& after.display_offset == v.display_offset
            &&& after.max_scroll_limit == v.max_scroll_limit
            &&& after.cursor == v.cursor
            &&& after.saved_cursor == v.saved_cursor
        }),
{
}

/// Compression takes the oldest hot lines, all but `keep_hot` of the history, and puts them behind
/// the lines that are compressed already, cell by cell as they were. All other lines stay hot. The
/// display moves only if it was on a line that is no longer hot.
pub proof fn law_compressed_cells(v: GridView<Cell>, keep_hot: nat, k: int)
    requires
        v.wf(),
    ensures
        ({
            let after = v.compacted(keep_hot as int);
            let n = if v.rows.len() - v.lines > keep_hot {
                v.rows.len() - v.lines - keep_hot
            } else {
                0
            };
            &&& after.rows.len() == v.rows.len() - n
            &&& after.compressed.len() == v.compressed.len() + n
            &&& 0 <= k < after.rows.len() ==> after.rows[k] == v.rows[k + n]
            &&& 0 <= k < v.compressed.len() ==> after.compressed[k] == v.compressed[k]
            &&& v.compressed.len() <= k < after.compressed.len() ==> after.compressed[k]
                == v.rows[k - v.compressed.len()]
            &&& after.display_offset == if n > 0 && v.display_offset > keep_hot {
                keep_hot
            } else {
                v.display_offset
            }
            &&& after.lines == v.lines
            &&& after.columns == v.columns
            &&& after.max_scroll_limit == v.max_scroll_limit
            &&& after.cursor == v.cursor
            &&& after.saved_cursor == v.saved_cursor
            &&& n == 0 ==> after == v
        }),
{
}

/// Compaction leaves two screens of history hot, or down to one screen above the display if that
/// is more, and compresses the oldest of all lines beyond, but not more than 500 at once.
pub proof fn law_compaction_by_numbers(v: GridView<Cell>, k: int)
    requires
        v.wf(),
    ensures
        ({
            let after = v.compacted_if_needed();
            let history = v.rows.len() - v.lines;
            let keep = if v.display_offset > v.lines {
                v.display_offset + v.lines
            } else {
                v.lines + v.lines
            };
            let n = if history <= keep {
                0
            } else if history - keep > 500 {
                500
            } else {
                history - keep
            };
            &&& after.rows.len() == v.rows.len() - n
            &&& after.compressed.len() == v.compressed.len() + n
            &&& 0 <= k < after.rows.len() ==> after.rows[k] == v.rows[k + n]
            &&& 0 <= k < v.compressed.len() ==> after.compressed[k] == v.compressed[k]
            &&& v.compressed.len() <= k < after.compressed.len() ==> after.compressed[k]
                == v.rows[k - v.compressed.len()]
            &&& after.display_offset == v.display_offset
            &&& after.lines == v.lines
            &&& after.columns == v.columns
            &&& after.max_scroll_limit == v.max_scroll_limit
            &&& after.cursor == v.cursor
            &&& after.saved_cursor == v.saved_cursor
            &&& n == 0 ==> after == v
        }),
{
}

/// A new limit keeps the newest lines of history, as many as it allows: first come the hot ones,
/// then as many of the newest compressed ones as are left over. The screen stays as it is.
pub proof fn law_new_limit_by_numbers<T>(v: GridView<T>, limit: nat, k: int)
    requires
        v.wf(),
    ensures
        ({
            let after = v.with_history_limit(limit);
            let history = v.rows.len() - v.lines;
            let hot = if history <= limit {
                history
            } else {
                limit as int
            };
            let cold = if v.compressed.len() <= limit - hot {
                v.compressed.len() as int
            } else {
                limit - hot
            };
            &&& after.rows.len() == v.lines + hot
            &&& 0 <= k < after.rows.len() ==> after.rows[k] == v.rows[k + history - hot]
            &&& after.compressed.len() == cold
            &&& 0 <= k < cold ==> after.compressed[k] == v.compressed[k + v.compressed.len() - cold]
            &&& after.display_offset == if v.display_offset > limit {
                limit
            } else {
                v.display_offset
            }
            &&& after.max_scroll_limit == limit
            &&& after.lines == v.lines
            &&& after.columns == v.columns
            &&& after.cursor == v.cursor
            &&& after.saved_cursor == v.saved_cursor
            &&& after.stats == v.stats
        }),
{
}

/// Clearing the history drops all of it, compressed or not, and shows the screen, which stays as
/// it is.
pub proof fn law_cleared_history<T>(v: GridView<T>, k: int)
    requires
        v.wf(),
    ensures
        ({
            let after = v.without_history();
            &&& after.rows.len() == v.lines
            &&& 0 <= k < v.lines ==> after.rows[k] == v.rows[v.rows.len() - v.lines + k]
            &&& after.compressed.len() == 0
            &&& after.display_offset == 0
            &&& after.lines == v.lines
            &&& after.columns == v.columns
            &&& after.max_scroll_limit == v.max_scroll_limit
            &&& after.cursor == v.cursor
            &&& after.saved_cursor == v.saved_cursor
            &&& after.stats == v.stats
        }),
{
}

// Scrolling of regions.

/// Resetting lines clears every cell of them with the template of the cursor, and changes no other
/// cell.
pub proof fn law_cleared_cells<T: GridCell>(v: GridView<T>, start: int, end: int, k: int, c: int)
    requires
        v.wf(),
        0 <= k < v.rows.len(),
        0 <= c < v.columns,
    ensures
        ({
            let after = v.lines_cleared(start, end);
            let line = k - (v.rows.len() - v.lines);
            &&& after.rows.len() == v.rows.len()
            &&& after.rows[k].len() == v.columns
            &&& start <= line < end ==> after.rows[k][c] == T::cleared(v.cursor.template)
            &&& !(start <= line < end) ==> after.rows[k][c] == v.rows[k][c]
            &&& after == (GridView { rows: after.rows, ..v })
        }),
{
}

/// Scrolling a region up, cell by cell. With `line` counted from the top of the screen:
///
/// - A region that starts at the top takes the whole history along: each line shows what was
///   `positions` lines below it. The hot history grows by `positions` lines, up to the limit.
/// - Any other region keeps its lines to itself.
/// - The lowest `positions` lines of the region, or all of them if it has no more, are cleared with
///   the template of the cursor. Lines below the region, and lines above one that does not start
///   at the top, stay as they are.
pub proof fn law_scroll_up_cells<T: GridCell>(
    v: GridView<T>,
    start: int,
    end: int,
    positions: nat,
    line: int,
    c: int,
)
    requires
        v.wf(),
        v.can_scroll_up(start, end, positions as int),
        0 <= c < v.columns,
    ensures
        ({
            let after = v.scrolled_up(start, end, positions as int);
            let history = v.rows.len() - v.lines;
            let hot = if start != 0 {
                history
            } else if history + positions <= v.max_scroll_limit {
                history + positions
            } else {
                v.max_scroll_limit as int
            };
            &&& after.rows.len() == v.lines + hot
            &&& -hot <= line < v.lines ==> after.rows[line + hot].len() == v.columns
            &&& -hot <= line < v.lines ==> after.rows[line + hot][c] == (if line >= end || (start != 0
                && line < start) {
                v.rows[line + history][c]
            } else if line < end - positions {
                v.rows[line + positions + history][c]
            } else {
                T::cleared(v.cursor.template)
            })
        }),
{
    if end - start <= positions && start != 0 && v.has_line(line) {
        law_cleared_cells(v, start, end, line + v.history(), c);
    }
}

/// What scrolling a region up does besides moving lines. Only a region that starts at the top
/// drops compressed lines, the oldest first and just as many as the limit demands, and moves a
/// display that is scrolled back: up with its lines, but not beyond the limit.
pub proof fn law_scroll_up_by_numbers<T: GridCell>(
    v: GridView<T>,
    start: int,
    end: int,
    positions: nat,
    k: int,
)
    requires
        v.wf(),
        v.can_scroll_up(start, end, positions as int),
    ensures
        ({
            let after = v.scrolled_up(start, end, positions as int);
            let excess = v.rows.len() - v.lines + v.compressed.len() + positions
                - v.max_scroll_limit;
            let dropped = if start != 0 || excess <= 0 {
                0
            } else if excess <= v.compressed.len() {
                excess
            } else {
                v.compressed.len() as int
            };
            &&& after.compressed.len() == v.compressed.len() - dropped
            &&& 0 <= k < after.compressed.len() ==> after.compressed[k] == v.compressed[k + dropped]
            &&& after.display_offset == if start != 0 || v.display_offset == 0 {
                v.display_offset as int
            } else if v.display_offset + positions <= v.max_scroll_limit {
                (v.display_offset + positions) as int
            } else {
                v.max_scroll_limit as int
            }
            &&& after.lines == v.lines
            &&& after.columns == v.columns
            &&& after.max_scroll_limit == v.max_scroll_limit
            &&& after.cursor == v.cursor
            &&& after.saved_cursor == v.saved_cursor
            &&& after.stats == v.stats
        }),
{
}

/// Scrolling a region down, cell by cell: each line of it shows what was `positions` lines above,
/// and the topmost `positions` lines, or all of them if there are no more, are cleared with the
/// template of the cursor. Nothing else changes.
pub proof fn law_scroll_down_cells<T: GridCell>(
    v: GridView<T>,
    start: int,
    end: int,
    positions: nat,
    line: int,
    c: int,
)
    requires
        v.wf(),
        v.can_scroll_down(start, end, positions as int),
        v.lines - v.rows.len() <= line < v.lines,
        0 <= c < v.columns,
    ensures
        ({
            let after = v.scrolled_down(start, end, positions as int);
            let history = v.rows.len() - v.lines;
            &&& after.rows.len() == v.rows.len()
            &&& after.rows[line + history].len() == v.columns
            &&& after.rows[line + history][c] == (if line < start || line >= end {
                v.rows[line + history][c]
            } else if line < start + positions {
                T::cleared(v.cursor.template)
            } else {
                v.rows[line - positions + history][c]
            })
            &&& after == (GridView { rows: after.rows, ..v })
        }),
{
    if end - start <= positions {
        law_cleared_cells(v, start, end, line + v.history(), c);
    }
}

/// A region of the screen can be scrolled by any number of lines, as long as line numbers suffice
/// for the history; down by any number whatever.
pub proof fn law_screen_can_scroll<T: GridCell>(
    v: GridView<T>,
    start: int,
    end: int,
    positions: nat,
)
    requires
        v.wf(),
        0 <= start < end <= v.lines,
    ensures
        v.can_scroll_down(start, end, positions as int),
        start > 0 ==> v.can_scroll_up(start, end, positions as int),
        positions <= end && v.lines + v.max_scroll_limit <= i32::MAX ==> v.can_scroll_up(
            start,
            end,
            positions as int,
        ),
{
}

// The screen.

/// Lines of the screen count as used down to the last one with a cell that is not empty.
pub proof fn law_used_lines<T: GridCell>(v: GridView<T>, line: int, c: int)
    requires
        v.wf(),
        0 <= line < v.lines,
        0 <= c < v.columns,
        !v.rows[v.rows.len() - v.lines + line][c].blank(),
    ensures
        line < v.viewport_used() <= v.lines,
        exists|d: int|
            0 <= d < v.columns && !(#[trigger] v.rows[v.rows.len() - v.lines + v.viewport_used()
                - 1][d]).blank(),
{
    assert(!v.line_blank(line)) by {
        assert(!v.line(line)[c].blank());
    }
    lemma_last_used(v, v.lines as int, line);
    let last = v.viewport_used() - 1;
    assert(!v.line_blank(last));
    let d = choose|d: int| 0 <= d < v.columns && !(#[trigger] v.line(last)[d]).blank();
    assert(!v.rows[v.rows.len() - v.lines + v.viewport_used() - 1][d].blank());
}

/// A screen of empty cells has no used lines, or one if there is no hot history.
pub proof fn law_blank_screen_is_unused<T: GridCell>(v: GridView<T>)
    requires
        v.wf(),
        forall|line: int, c: int|
            0 <= line < v.lines && 0 <= c < v.columns ==> (#[trigger] v.rows[v.rows.len() - v.lines
                + line][c]).blank(),
    ensures
        v.rows.len() > v.lines || v.lines == 0 ==> v.viewport_used() == 0,
        v.rows.len() == v.lines && v.lines > 0 ==> v.viewport_used() == 1,
{
    assert forall|line: int| 0 <= line < v.lines implies #[trigger] v.line_blank(line) by {
        assert forall|c: int| 0 <= c < v.columns implies (#[trigger] v.line(line)[c]).blank() by {
            assert(v.rows[v.rows.len() - v.lines + line][c].blank());
        }
    }
    v.lemma_used_among(0, v.lines as int);
}

proof fn lemma_last_used<T: GridCell>(v: GridView<T>, count: int, line: int)
    requires
        0 <= line < count,
        !v.line_blank(line),
    ensures
        line < v.used_among(count) <= count,
        !v.line_blank(v.used_among(count) - 1),
    decreases count,
{
    if v.line_blank(count - 1) {
        lemma_last_used(v, count - 1, line);
    }
}

/// Clearing the screen, cell by cell, however much room the history has. Every cell of the screen
/// is cleared with the template of the cursor. The newest lines of the hot history are the used
/// lines of the screen, preceded by the old hot lines, as far as the limit allows.
pub proof fn law_clear_viewport_cells<T: GridCell>(v: GridView<T>, line: int, c: int)
    requires
        v.wf(),
        v.can_scroll_up(0, v.lines as int, v.viewport_used()),
        0 <= c < v.columns,
    ensures
        ({
            let used = v.viewport_used();
            let after = v.viewport_cleared(used);
            let history = v.rows.len() - v.lines;
            let hot = if history + used <= v.max_scroll_limit {
                history + used
            } else {
                v.max_scroll_limit as int
            };
            &&& 0 <= used <= v.lines
            &&& after.rows.len() == v.lines + hot
            &&& 0 <= line < v.lines ==> after.rows[line + hot].len() == v.columns
            &&& 0 <= line < v.lines ==> after.rows[line + hot][c] == T::cleared(v.cursor.template)
            &&& -hot <= line < 0 ==> after.rows[line + hot] == v.rows[line + used + history]
        }),
{
    v.lemma_used_among(v.lines as int, v.lines as int);
}

/// What clearing the screen does besides: the oldest compressed lines are dropped as the limit
/// demands, and a display that is scrolled back moves up with its lines.
pub proof fn law_clear_viewport_by_numbers<T: GridCell>(v: GridView<T>, k: int)
    requires
        v.wf(),
        v.can_scroll_up(0, v.lines as int, v.viewport_used()),
    ensures
        ({
            let used = v.viewport_used();
            let after = v.viewport_cleared(used);
            let excess = v.rows.len() - v.lines + v.compressed.len() + used - v.max_scroll_limit;
            let dropped = if excess <= 0 {
                0
            } else if excess <= v.compressed.len() {
                excess
            } else {
                v.compressed.len() as int
            };
            &&& after.compressed.len() == v.compressed.len() - dropped
            &&& 0 <= k < after.compressed.len() ==> after.compressed[k] == v.compressed[k + dropped]
            &&& after.display_offset == if v.display_offset == 0 {
                0
            } else if v.display_offset + used <= v.max_scroll_limit {
                v.display_offset + used
            } else {
                v.max_scroll_limit as int
            }
            &&& after.lines == v.lines
            &&& after.columns == v.columns
            &&& after.max_scroll_limit == v.max_scroll_limit
            &&& after.cursor == v.cursor
            &&& after.saved_cursor == v.saved_cursor
            &&& after.stats == v.stats
        }),
{
    v.lemma_used_among(v.lines as int, v.lines as int);
}

/// The screen can be cleared, as long as line numbers suffice for the history.
pub proof fn law_screen_can_be_cleared<T: GridCell>(v: GridView<T>)
    requires
        v.wf(),
        v.lines + v.max_scroll_limit <= i32::MAX,
    ensures
        v.can_scroll_up(0, v.lines as int, v.viewport_used()),
{
    v.lemma_used_among(v.lines as int, v.lines as int);
}

/// Writing a cell changes that cell and nothing else.
pub proof fn law_written_cell<T>(v: GridView<T>, point: Point, cell: T, k: int, c: int)
    requires
        v.wf(),
        v.has_point(point),
        0 <= k < v.rows.len(),
        0 <= c < v.columns,
    ensures
        ({
            let after = v.with_cell(point, cell);
            let here = k == point.line.0 + v.rows.len() - v.lines && c == point.column.0;
            &&& after.rows.len() == v.rows.len()
            &&& after.rows[k].len() == v.columns
            &&& here ==> after.rows[k][c] == cell && v.cell(point) == v.rows[k][c]
            &&& !here ==> after.rows[k][c] == v.rows[k][c]
            &&& after == (GridView { rows: after.rows, ..v })
        }),
{
}

/// The points of a grid are those on its hot lines and within its columns.
pub proof fn law_points_of_grid<T>(v: GridView<T>, point: Point)
    ensures
        v.has_point(point) <==> {
            &&& point.line.0 < v.lines
            &&& point.line.0 + v.rows.len() >= v.lines
            &&& point.column.0 < v.columns
        },
        v.has_line(point.line.0 as int) <==> {
            &&& point.line.0 < v.lines
            &&& point.line.0 + v.rows.len() >= v.lines
        },
{
}

// Cells and cursors.

/// An untouched cell is a space in the default colors, without attributes.
pub proof fn law_untouched_cell()
    ensures
        default_cell().c == ' ',
        default_cell().fg == Color::Named(NamedColor::Foreground),
        default_cell().bg == Color::Named(NamedColor::Background),
        default_cell().flags.bits == 0,
{
}

/// A cell that is reset is a space on the background of the template, and has nothing else of it.
pub proof fn law_reset_cell(template: Cell)
    ensures
        <Cell as GridCell>::cleared(template).c == ' ',
        <Cell as GridCell>::cleared(template).fg == Color::Named(NamedColor::Foreground),
        <Cell as GridCell>::cleared(template).bg == template.bg,
        <Cell as GridCell>::cleared(template).flags.bits == 0,
{
}

/// A cell is empty if it holds a space or a tab in the default colors and has no attribute that
/// shows.
pub proof fn law_empty_cell(cell: Cell)
    ensures
        cell.blank() <==> {
            &&& cell.c == ' ' || cell.c == '\t'
            &&& cell.fg == Color::Named(NamedColor::Foreground)
            &&& cell.bg == Color::Named(NamedColor::Background)
            &&& cell.flags.bits & Flags::INVERSE == 0
            &&& cell.flags.bits & Flags::UNDERLINE == 0
            &&& cell.flags.bits & Flags::STRIKEOUT == 0
            &&& cell.flags.bits & Flags::WRAPLINE == 0
            &&& cell.flags.bits & Flags::WIDE_CHAR_SPACER == 0
            &&& cell.flags.bits & Flags::LEADING_WIDE_CHAR_SPACER == 0
        },
{
    let bits = cell.flags.bits;
    assert((bits & (1u16 | 8 | 16 | 64 | 512 | 1024) == 0) <==> (bits & 1 == 0 && bits & 8 == 0
        && bits & 512 == 0 && bits & 16 == 0 && bits & 64 == 0 && bits & 1024 == 0))
        by (bit_vector);
}

/// Other attributes change nothing else about a cell.
pub proof fn law_cell_attributes(cell: Cell, flags: Flags)
    ensures
        cell.spec_flags() == cell.flags,
        cell.with_flags(flags).flags == flags,
        cell.with_flags(flags).c == cell.c,
        cell.with_flags(flags).fg == cell.fg,
        cell.with_flags(flags).bg == cell.bg,
{
}

/// A new cursor is at the top left, writes untouched cells and has the ASCII character set under
/// each identifier.
pub proof fn law_new_cursor(cursor: Cursor<Cell>, index: CharsetIndex)
    requires
        fresh_cursor(cursor),
    ensures
        cursor.point.line.0 == 0,
        cursor.point.column.0 == 0,
        cursor.template == default_cell(),
        !cursor.input_needs_wrap,
        cursor.charsets@.len() == 4,
        cursor.charsets@[index.place()] == StandardCharset::Ascii,
{
}

/// Each identifier has a character set of its own.
pub proof fn law_charset_places(a: CharsetIndex, b: CharsetIndex)
    ensures
        0 <= a.place() < 4,
        a.place() == b.place() <==> a == b,
{
}

// Iteration.

/// Points come one before the other line by line, and on a line from the left.
pub proof fn law_reading_order(a: Point, b: Point)
    ensures
        a.line.0 < b.line.0 ==> point_before(a, b) && !point_before(b, a),
        a.line == b.line ==> (point_before(a, b) <==> a.column.0 < b.column.0),
        !point_before(a, b) && !point_before(b, a) <==> a == b,
{
}

/// The next point is one column further, or at the start of the next line.
pub proof fn law_next_point(point: Point, columns: nat)
    requires
        1 <= columns <= usize::MAX,
        point.line.0 < i32::MAX,
    ensures
        ({
            let next = point_after(point, columns);
            &&& point.column.0 + 1 < columns ==> next.line == point.line && next.column.0
                == point.column.0 + 1
            &&& point.column.0 + 1 >= columns ==> next.line.0 == point.line.0 + 1
                && next.column.0 == 0
        }),
{
}

/// The preceding point is one column less far, or at the end of the preceding line.
pub proof fn law_preceding_point(point: Point, columns: nat)
    requires
        1 <= columns <= usize::MAX,
        point.line.0 > i32::MIN,
    ensures
        ({
            let next = point_preceding(point, columns);
            &&& point.column.0 > 0 ==> next.line == point.line && next.column.0 == point.column.0
                - 1
            &&& point.column.0 == 0 ==> next.line.0 == point.line.0 - 1 && next.column.0 == columns
                - 1
        }),
{
}

/// Stepping back gives the preceding cell of the grid, unless the iterator is at its first cell.
pub proof fn law_step_back<'a, T>(
    before: GridIterator<'a, T>,
    after: GridIterator<'a, T>,
    item: Option<Indexed<&'a T>>,
)
    requires
        before.wf(),
        before.spec_point().line.0 > i32::MIN,
        GridIterator::prev_ensures(before, after, item),
    ensures
        ({
            let v = before.spec_grid()@;
            let (here, there) = (before.spec_point(), after.spec_point());
            let first = v.lines - v.rows.len();
            let at_start = here.line.0 < first || (here.line.0 == first && here.column.0 == 0);
            &&& after.spec_grid() == before.spec_grid()
            &&& after.spec_end() == before.spec_end()
            &&& at_start ==> item is None && there == here
            &&& !at_start ==> {
                &&& item matches Some(indexed)
                &&& indexed.point == there
                &&& *indexed.cell == v.rows[there.line.0 - first][there.column.0 as int]
                &&& here.column.0 > 0 ==> there.line == here.line && there.column.0
                    == here.column.0 - 1
                &&& here.column.0 == 0 ==> there.line.0 == here.line.0 - 1 && there.column.0
                    == v.columns - 1
            }
        }),
{
}

/// An iterator at a cell of the grid can step either way.
pub proof fn law_iterators_can_step<'a, T>(iter: GridIterator<'a, T>)
    requires
        iter.wf(),
        iter.spec_grid()@.has_point(iter.spec_point()),
        iter.spec_end().line.0 < iter.spec_grid()@.lines,
        iter.spec_end().column.0 < iter.spec_grid()@.columns,
    ensures
        iter.can_advance(),
        iter.can_retreat(),
{
}

/// An iterator over the display can step to its first cell.
pub proof fn law_display_can_be_visited<'a, T>(iter: GridIterator<'a, T>)
    requires
        iter.wf(),
        iter.spec_grid()@.display_offset <= iter.spec_grid()@.rows.len()
            - iter.spec_grid()@.lines,
        iter.spec_grid()@.lines >= 1,
        iter.spec_point().line.0 == -iter.spec_grid()@.display_offset - 1,
        iter.spec_point().column.0 == iter.spec_grid()@.columns - 1,
    ensures
        iter.can_advance(),
{
}

// Ranges and sizes.

/// What the ends of a range of lines stand for.
pub proof fn law_line_bounds(line: Line, lines: nat)
    ensures
        LineBound::Included(line).first() == line.0,
        LineBound::Excluded(line).first() == line.0 + 1,
        LineBound::Unbounded.first() == 0,
        LineBound::Included(line).past(lines) == line.0 + 1,
        LineBound::Excluded(line).past(lines) == line.0,
        LineBound::Unbounded.past(lines) == lines,
{
}

/// A range of lines holds its start and not its end.
pub proof fn law_line_ranges(range: Range<Line>, bounds: (LineBound, LineBound), lines: nat)
    ensures
        range.spec_start().first() == range.start.0,
        range.spec_end().past(lines) == range.end.0,
        bounds.spec_start() == bounds.0,
        bounds.spec_end() == bounds.1,
{
}

/// The history is what is not on the screen.
pub proof fn law_history_size(total: nat, screen: nat, size: (usize, usize))
    ensures
        total >= screen ==> history_lines(total, screen) + screen == total,
        total < screen ==> history_lines(total, screen) == 0,
        size.spec_total_lines() == size.0,
        size.spec_screen_lines() == size.0,
        size.spec_columns() == size.1,
{
}

// Accounting.

/// Compressed and thawed rows are counted one by one, up to the largest number.
pub proof fn law_rows_are_counted(
    stats: ScrollbackStats,
    count: nat,
    resized: nat,
    from: usize,
    to: usize,
)
    ensures
        ({
            let packed = stats.compressed(count as int);
            &&& stats.rows_compressed + count <= usize::MAX ==> packed.rows_compressed
                == stats.rows_compressed + count
            &&& stats.rows_compressed + count > usize::MAX ==> packed.rows_compressed == usize::MAX
            &&& packed == (ScrollbackStats { rows_compressed: packed.rows_compressed, ..stats })
        }),
        ({
            let woken = stats.thawed(count as int, resized as int, from, to);
            &&& woken.rows_compressed == stats.rows_compressed
            &&& stats.rows_thawed + count <= usize::MAX ==> woken.rows_thawed == stats.rows_thawed
                + count
            &&& stats.rows_thawed + count > usize::MAX ==> woken.rows_thawed == usize::MAX
            &&& stats.rows_resized_on_thaw + resized <= usize::MAX ==> woken.rows_resized_on_thaw
                == stats.rows_resized_on_thaw + resized
            &&& stats.rows_resized_on_thaw + resized > usize::MAX ==> woken.rows_resized_on_thaw
                == usize::MAX
            &&& resized > 0 ==> woken.resize_from_cols == from && woken.resize_to_cols == to
            &&& resized == 0 ==> woken.resize_from_cols == stats.resize_from_cols
                && woken.resize_to_cols == stats.resize_to_cols
        }),
{
}

/// What compression and thawing count: the rows that they move. Rows are resized if they have
/// another width than the grid.
pub proof fn law_moved_rows_are_counted(v: GridView<Cell>, count: nat)
    requires
        v.wf(),
    ensures
        v.rows.len() - v.lines > count ==> v.compacted(count as int).stats == v.stats.compressed(
            v.rows.len() - v.lines - count,
        ),
        0 < count <= v.compressed.len() ==> ({
            let woken = v.compressed.skip(v.compressed.len() - count);
            v.thawed(count as int).stats == v.stats.thawed(
                count as int,
                misfits(woken, v.columns) as int,
                last_misfit(woken, v.columns) as usize,
                v.columns as usize,
            )
        }),
        count > v.compressed.len() > 0 ==> v.thawed(count as int).stats == v.thawed(
            v.compressed.len() as int,
        ).stats,
{
}

/// Compaction and scrolling with thawing count the rows that they move, too.
pub proof fn law_all_moved_rows_are_counted(v: GridView<Cell>, scroll: Scroll)
    requires
        v.wf(),
    ensures
        ({
            let after = v.compacted_if_needed();
            let n = after.compressed.len() - v.compressed.len();
            &&& n > 0 ==> after.stats == v.stats.compressed(n)
            &&& n <= 0 ==> after.stats == v.stats
        }),
        ({
            let after = v.display_scrolled_with_thaw(scroll);
            let n = v.compressed.len() - after.compressed.len();
            &&& n > 0 ==> after.stats == v.thawed(n).stats
            &&& n <= 0 ==> after.stats == v.stats
        }),
{
}

/// How many of some rows do not have the width, and how wide the last of them is.
pub proof fn law_misfits(rows: Seq<Seq<Cell>>, row: Seq<Cell>, columns: nat)
    ensures
        misfits(Seq::<Seq<Cell>>::empty(), columns) == 0,
        row.len() == columns ==> misfits(rows.push(row), columns) == misfits(rows, columns),
        row.len() != columns ==> misfits(rows.push(row), columns) == misfits(rows, columns) + 1,
        row.len() == columns ==> last_misfit(rows.push(row), columns) == last_misfit(rows, columns),
        row.len() != columns ==> last_misfit(rows.push(row), columns) == row.len(),
{
    assert(rows.push(row).drop_last() =~= rows);
}

/// A report is due after a second if there was activity and reports are enabled.
pub proof fn law_reports_are_due(stats: ScrollbackStats, logging: ScrollbackLogging, seconds: u64)
    ensures
        stats.due(logging, seconds) <==> {
            &&& logging.enabled
            &&& seconds > 0
            &&& stats.rows_compressed > 0 || stats.rows_thawed > 0
        },
{
}

/// The figures of a report: 24 bytes for each cell of a row that is not compressed, and what
/// compression saves of that.
pub proof fn law_report_figures(
    stats: ScrollbackStats,
    hot: usize,
    compressed: usize,
    columns: usize,
    bytes: usize,
)
    requires
        hot + compressed <= usize::MAX,
        hot * columns * 24 <= u128::MAX,
        compressed * columns * 24 <= u128::MAX,
    ensures
        ({
            let report = stats.report(hot, compressed, columns, bytes);
            &&& report.stats == stats
            &&& report.hot == hot
            &&& report.compressed == compressed
            &&& report.total == hot + compressed
            &&& report.compressed_bytes == bytes
            &&& report.hot_bytes == hot * columns * 24
            &&& report.expanded_bytes == compressed * columns * 24
            &&& compressed * columns * 24 >= bytes ==> report.saved_bytes + bytes == compressed
                * columns * 24
            &&& compressed * columns * 24 < bytes ==> report.saved_bytes == 0
            &&& report.activity == Activity::Both <==> stats.rows_compressed > 0
                && stats.rows_thawed > 0
            &&& report.activity == Activity::Compressed <==> stats.rows_compressed > 0
                && stats.rows_thawed == 0
        }),
{
    assert(0 <= hot * columns && 0 <= compressed * columns) by (nonlinear_arith);
}

/// A compressed row owns four bytes for each character up to the last cell that was touched, and
/// what each run of equal attributes takes up. Rows add up, each with what it takes up itself.
pub proof fn law_memory_in_use(rows: Seq<Seq<Cell>>, cells: Seq<Cell>)
    ensures
        compact_size(cells) == used_len(cells) * size_of::<char>() + style_runs(
            cells.take(used_len(cells) as int),
        ).len() * size_of::<StyleRun>(),
        total_size(Seq::<Seq<Cell>>::empty()) == 0,
        total_size(rows.push(cells)) == total_size(rows) + compact_size(cells) + size_of::<
            CompactRow,
        >(),
{
    assert(rows.push(cells).drop_last() =~= rows);
}

/// The attributes of a cell are all that it has but its character.
pub proof fn law_styles(a: Cell, b: Cell)
    ensures
        style_of(a) == style_of(b) && a.c == b.c <==> a == b,
{
}

// Parts.

/// The parts of a grid say what they hold.
pub proof fn law_parts_of_grid<T>(parts: GridParts<T>, k: int)
    ensures
        parts@.rows.len() == parts.rows@.len(),
        0 <= k < parts.rows@.len() ==> parts@.rows[k] == parts.rows@[k]@,
        parts@.compressed.len() == parts.compressed_history@.len(),
        0 <= k < parts.compressed_history@.len() ==> parts@.compressed[k]
            == parts.compressed_history@[k].cells(),
        parts@.lines == parts.lines,
        parts@.columns == parts.columns,
        parts@.display_offset == parts.display_offset,
        parts@.max_scroll_limit == parts.max_scroll_limit,
        parts@.cursor == parts.cursor,
        parts@.saved_cursor == parts.saved_cursor,
{
}

/// Storing keeps every hot line, the sizes, the place of the display and the cursors, but for
/// their character sets. Compressed lines are left out.
pub proof fn law_stored_grid<T>(before: GridView<T>, after: GridView<T>, index: CharsetIndex)
    requires
        stored(before, after),
    ensures
        after.rows == before.rows,
        after.compressed.len() == 0,
        after.lines == before.lines,
        after.columns == before.columns,
        after.display_offset == before.display_offset,
        after.max_scroll_limit == before.max_scroll_limit,
        after.cursor.point == before.cursor.point,
        after.cursor.template == before.cursor.template,
        after.cursor.input_needs_wrap == before.cursor.input_needs_wrap,
        after.cursor.charsets@[index.place()] == StandardCharset::Ascii,
        after.saved_cursor.point == before.saved_cursor.point,
        after.saved_cursor.template == before.saved_cursor.template,
        after.saved_cursor.input_needs_wrap == before.saved_cursor.input_needs_wrap,
        after.saved_cursor.charsets@[index.place()] == StandardCharset::Ascii,
{
}

// Counts and copies.

/// A grid has no more history than its limit allows, all hot lines have its width, and line numbers
/// reach all lines, compressed or not.
pub proof fn law_what_a_grid_is<T>(v: GridView<T>)
    ensures
        v.wf() <==> {
            &&& v.lines <= v.rows.len()
            &&& v.rows.len() - v.lines + v.compressed.len() <= v.max_scroll_limit
            &&& v.rows.len() + v.compressed.len() <= 0x7fff_ffff
            &&& v.display_offset <= 0x7fff_ffff
            &&& v.columns <= usize::MAX
            &&& forall|k: int| 0 <= k < v.rows.len() ==> (#[trigger] v.rows[k]).len() == v.columns
        },
{
}

/// The hot history is what is not on the screen; all of the history has the compressed lines too.
/// Lines are counted from the top of the screen.
pub proof fn law_history_is_counted<T>(v: GridView<T>, line: int)
    ensures
        v.history() == v.rows.len() - v.lines,
        v.total_history() == v.rows.len() - v.lines + v.compressed.len(),
        v.line(line) == v.rows[line + v.rows.len() - v.lines],
        v.display_in_history() <==> v.display_offset + v.lines <= v.rows.len(),
{
}

/// The sizes of a grid are those of what it holds.
pub proof fn law_grid_sizes<T>(grid: Grid<T>)
    requires
        grid.wf(),
    ensures
        grid.spec_total_lines() == grid@.rows.len(),
        grid.spec_screen_lines() == grid@.lines,
        grid.spec_columns() == grid@.columns,
        history_lines(grid.spec_total_lines(), grid.spec_screen_lines()) + grid@.lines
            == grid@.rows.len(),
{
}

/// The smaller and the larger of two numbers are these two numbers, in order.
pub proof fn law_smaller_and_larger(a: int, b: int)
    ensures
        smaller(a, b) <= a,
        smaller(a, b) <= b,
        larger(a, b) >= a,
        larger(a, b) >= b,
        smaller(a, b) + larger(a, b) == a + b,
        smaller(a, b) == a || smaller(a, b) == b,
{
}

/// Without activity all counts are zero, and counts stop at the largest machine word.
pub proof fn law_counts(n: nat)
    ensures
        no_activity().rows_compressed == 0,
        no_activity().rows_thawed == 0,
        no_activity().rows_resized_on_thaw == 0,
        no_activity().resize_from_cols == 0,
        no_activity().resize_to_cols == 0,
        n <= usize::MAX ==> clamped(n as int) == n,
        n > usize::MAX ==> clamped(n as int) == usize::MAX,
{
}

/// A new row consists of untouched cells, and a row that is reset of reset ones.
pub proof fn law_new_and_reset_rows(row: Seq<Cell>, template: Cell, columns: nat, c: int)
    ensures
        default_row(row, columns) ==> row.len() == columns,
        default_row(row, columns) && 0 <= c < columns ==> row[c] == default_cell(),
        cleared_row(template, columns).len() == columns,
        0 <= c < columns ==> cleared_row(template, columns)[c].bg == template.bg,
        0 <= c < columns ==> cleared_row(template, columns)[c].c == ' ',
{
}

/// Copies of rows and cursors of terminal cells are equal to them.
pub proof fn law_copied_rows(row: Seq<Cell>, copy: Seq<Cell>, a: Cursor<Cell>, b: Cursor<Cell>)
    ensures
        cloned_cells(row, copy) ==> copy == row,
        cloned_cursor(a, b) ==> b == a,
{
    if cloned_cells(row, copy) {
        assert(copy =~= row);
    }
}

/// Cells, and rows of them, compare equal if and only if they are equal.
pub proof fn law_equal_rows(a: Cell, b: Cell, row: Row<Cell>, other: Row<Cell>)
    ensures
        a.eq_spec(&b) <==> a.c == b.c && a.fg == b.fg && a.bg == b.bg && a.flags == b.flags,
        row.eq_spec(&other) <==> row@ == other@,
{
    if row.eq_spec(&other) {
        assert(row@ =~= other@);
    }
}

/// Compressed rows compare equal if and only if they stand for the same cells.
pub proof fn law_equal_compressed_rows(a: CompactRow, b: CompactRow)
    ensures
        a.eq_spec(&b) <==> a.cells() == b.cells(),
{
}

/// A run of attributes goes on as long as cells have the same, and another cell starts a new one.
pub proof fn law_style_runs(cells: Seq<Cell>, cell: Cell)
    requires
        cells.len() < usize::MAX,
    ensures
        style_runs(Seq::<Cell>::empty()).len() == 0,
        style_runs(seq![cell]).len() == 1,
        cells.len() > 0 && style_of(cells.last()) == style_of(cell) ==> style_runs(
            cells.push(cell),
        ).len() == style_runs(cells).len(),
        cells.len() > 0 && style_of(cells.last()) != style_of(cell) ==> style_runs(
            cells.push(cell),
        ).len() == style_runs(cells).len() + 1,
{
    assert(cells.push(cell).drop_last() =~= cells);
    assert(seq![cell].drop_last() =~= Seq::empty());
    assert(style_runs(Seq::<Cell>::empty()).len() == 0);
    if cells.len() > 0 {
        assert(style_runs(cells).last().style == style_of(cells.last()));
    }
}

/// The used cells of a row go up to the last one that was touched.
pub proof fn law_used_cells(cells: Seq<Cell>, n: int)
    requires
        0 <= n <= cells.len(),
        n > 0 ==> cells[n - 1] != default_cell(),
        forall|i: int| n <= i < cells.len() ==> cells[i] == default_cell(),
    ensures
        used_len(cells) == n,
    decreases cells.len(),
{
    if cells.len() > n {
        law_used_cells(cells.drop_last(), n);
    }
}

} // verus!
