//! What holds of grids as a whole.

use vstd::arithmetic::div_mod::{
    lemma_fundamental_div_mod, lemma_fundamental_div_mod_converse, lemma_mod_bound,
};
use vstd::layout::size_of;
use vstd::prelude::*;
use vstd::std_specs::cmp::PartialEqSpec;

use crate::cell::{default_cell, Cell};
use crate::grid::clear::LineBound;
use crate::grid::compact::{
    compact_size, lemma_one_run, lemma_style_runs, lemma_used_len, style_of, style_runs, used_cells,
    used_len, StyleRun,
};
use crate::grid::iter::{point_after, point_preceding, points_left};
use crate::grid::parts::stored;
use crate::grid::row::{cleared_row, cloned_cells, same_cells};
use crate::grid::scrollback::{all_fitted, fitted, MAX_ROWS_PER_COMPACTION};
use crate::grid::view::{cleared_rows, larger, smaller, GridView};
use crate::grid::{cloned_grid, Grid, GridCell, Scroll};
use crate::index::{point_before, Column, Line, Point};

verus! {

// Compression of history.

/// Compression keeps every row and its place: read from the oldest row of the compressed history
/// down to the bottom of the screen, nothing changes. The size of the whole history stays the
/// same, and `keep_hot` lines of it stay hot.
pub proof fn law_compression_keeps_rows(v: GridView<Cell>, keep_hot: nat)
    requires
        v.wf(),
    ensures
        v.compacted(keep_hot as int).all_rows() == v.all_rows(),
        v.compacted(keep_hot as int).total_history() == v.total_history(),
        v.compacted(keep_hot as int).history() == smaller(v.history(), keep_hot as int),
{
    assert(v.compacted(keep_hot as int).all_rows() =~= v.all_rows());
}

/// Thawing keeps the size of the whole history, and all of its rows: those that were compressed
/// when the grid had another width are cut off or filled up, all others stay as they are.
pub proof fn law_thawing_keeps_rows(v: GridView<Cell>, count: nat)
    requires
        v.wf(),
    ensures
        v.thawed(count as int).total_history() == v.total_history(),
        v.thawed(count as int).history() == v.history() + smaller(
            count as int,
            v.compressed.len() as int,
        ),
        all_fitted(v.thawed(count as int).all_rows(), v.columns) == all_fitted(
            v.all_rows(),
            v.columns,
        ),
        (forall|k: int| 0 <= k < v.compressed.len() ==> (#[trigger] v.compressed[k]).len()
            == v.columns) ==> v.thawed(count as int).all_rows() == v.all_rows(),
{
    let t = v.thawed(count as int);
    let kept = v.compressed.len() - smaller(count as int, v.compressed.len() as int);
    assert forall|k: int| 0 <= k < v.all_rows().len() implies #[trigger] fitted(
        t.all_rows()[k],
        v.columns,
    ) == fitted(v.all_rows()[k], v.columns) by {
        if kept <= k < v.compressed.len() {
            assert(t.all_rows()[k] == fitted(v.compressed[k], v.columns));
            assert(fitted(t.all_rows()[k], v.columns) =~= fitted(v.all_rows()[k], v.columns));
        }
    }
    assert(all_fitted(t.all_rows(), v.columns) =~= all_fitted(v.all_rows(), v.columns));
    if forall|k: int| 0 <= k < v.compressed.len() ==> (#[trigger] v.compressed[k]).len()
        == v.columns {
        assert forall|k: int| 0 <= k < v.all_rows().len() implies #[trigger] t.all_rows()[k]
            == v.all_rows()[k] by {
            if kept <= k < v.compressed.len() {
                assert(t.all_rows()[k] =~= v.compressed[k]);
            }
        }
        assert(t.all_rows() =~= v.all_rows());
    }
}

/// After thawing, every hot row is as wide as the grid, however wide it was when it was
/// compressed.
pub proof fn law_thawed_rows_fit(v: GridView<Cell>, count: nat, k: int)
    requires
        v.wf(),
        0 <= k < v.thawed(count as int).rows.len(),
    ensures
        v.thawed(count as int).wf(),
        v.thawed(count as int).rows[k].len() == v.columns,
{
    let t = v.thawed(count as int);
    assert forall|j: int| 0 <= j < t.rows.len() implies (#[trigger] t.rows[j]).len()
        == v.columns by {
        let n = smaller(count as int, v.compressed.len() as int);
        if n > 0 && j >= n {
            assert(t.rows[j] == v.rows[j - n]);
        }
    }
}

/// Thawing as many rows as were compressed gives back both histories.
pub proof fn law_thawing_undoes_compression(v: GridView<Cell>, keep_hot: nat)
    requires
        v.wf(),
    ensures
        ({
            let count = larger(v.history() - keep_hot, 0);
            let there = v.compacted(keep_hot as int).thawed(count);
            there.rows == v.rows && there.compressed == v.compressed
        }),
{
    let count = larger(v.history() - keep_hot, 0);
    let c = v.compacted(keep_hot as int);
    let there = c.thawed(count);
    if count > 0 {
        assert(c.compressed.skip(c.compressed.len() - count) =~= v.rows.take(count));
        assert forall|k: int| 0 <= k < count implies #[trigger] fitted(v.rows[k], v.columns)
            == v.rows[k] by {
            assert(fitted(v.rows[k], v.columns) =~= v.rows[k]);
        }
        assert(there.rows =~= v.rows);
        assert(there.compressed =~= v.compressed);
    }
}

/// Compaction never touches what is displayed: the display stays where it is, and at least two
/// screens of history, and all that the display shows, stay hot.
pub proof fn law_compaction_spares_display(v: GridView<Cell>)
    requires
        v.wf(),
    ensures
        v.compacted_if_needed().display_offset == v.display_offset,
        v.compacted_if_needed().history() >= smaller(v.history(), (2 * v.lines) as int),
        v.compacted_if_needed().history() >= smaller(
            v.history(),
            (v.display_offset + v.lines) as int,
        ),
        v.compacted_if_needed().all_rows() == v.all_rows(),
{
    if v.history() > v.kept_hot() {
        let keep = v.history() - smaller(v.history() - v.kept_hot(), MAX_ROWS_PER_COMPACTION as int);
        law_compression_keeps_rows(v, keep as nat);
    }
}

/// Compaction leaves a grid alone if and only if its hot history is within the threshold, and
/// otherwise brings it closer by up to a full batch of rows.
pub proof fn law_compaction_progress(v: GridView<Cell>)
    requires
        v.wf(),
    ensures
        v.history() <= v.kept_hot() ==> v.compacted_if_needed() == v,
        v.history() > v.kept_hot() ==> v.compacted_if_needed().history() == larger(
            v.kept_hot(),
            v.history() - MAX_ROWS_PER_COMPACTION,
        ),
{
}

/// A compressed row takes up memory only for its used cells: none if no cell was touched, never
/// more than a character and a run for each of them, and a single run if they have one style.
pub proof fn law_compressed_size(cells: Seq<Cell>)
    requires
        cells.len() <= usize::MAX,
    ensures
        used_len(cells) <= cells.len(),
        used_len(cells) == 0 ==> compact_size(cells) == 0,
        compact_size(cells) <= used_len(cells) * (size_of::<char>() + size_of::<StyleRun>()),
        (forall|i: int|
            0 <= i < used_len(cells) ==> style_of(#[trigger] cells[i]) == style_of(cells[0]))
            ==> compact_size(cells) <= used_len(cells) * size_of::<char>() + size_of::<StyleRun>(),
{
    let used = used_cells(cells);
    let n = used_len(cells) as int;
    let runs = style_runs(used).len() as int;
    let (c, r) = (size_of::<char>() as int, size_of::<StyleRun>() as int);
    lemma_used_len(cells);
    lemma_style_runs(used);
    assert(n * c + runs * r <= n * (c + r)) by (nonlinear_arith)
        requires
            0 <= runs <= n,
            r >= 0,
    ;
    assert(n == 0 && runs == 0 ==> n * c + runs * r == 0) by (nonlinear_arith);
    if forall|i: int|
        0 <= i < used_len(cells) ==> style_of(#[trigger] cells[i]) == style_of(cells[0]) {
        assert forall|i: int| 0 <= i < used.len() implies style_of(#[trigger] used[i]) == style_of(
            used[0],
        ) by {
            assert(used[i] == cells[i]);
        }
        lemma_one_run(used);
        assert(runs * r <= r) by (nonlinear_arith)
            requires
                0 <= runs <= 1,
                r >= 0,
        ;
    }
}

// The display.

/// Scrolling with thawing reaches every line of the history, as if none were compressed: the
/// display ends up where it would in a grid whose whole history is hot, and on lines that exist.
pub proof fn law_scroll_reaches_whole_history(v: GridView<Cell>, scroll: Scroll)
    requires
        v.wf(),
        v.can_scroll_display(scroll),
    ensures
        v.display_scrolled_with_thaw(scroll).display_offset == v.scroll_target(
            scroll,
            v.total_history(),
        ),
        v.display_scrolled_with_thaw(scroll).total_history() == v.total_history(),
        scroll != Scroll::PageDown || v.display_in_history() ==> v.display_scrolled_with_thaw(
            scroll,
        ).display_in_history(),
{
    let target = v.scroll_target(scroll, v.total_history());
    if target > v.history() {
        law_thawing_keeps_rows(v, (target - v.history()) as nat);
    }
}

/// Scrolling to the top with thawing leaves nothing compressed.
pub proof fn law_scroll_to_top_thaws_all(v: GridView<Cell>)
    requires
        v.wf(),
    ensures
        v.display_scrolled_with_thaw(Scroll::Top).compressed.len() == 0,
        v.display_scrolled_with_thaw(Scroll::Top).display_offset == v.total_history(),
        v.display_scrolled_with_thaw(Scroll::Top).history() == v.total_history(),
{
}

/// The display keeps showing lines that exist, whatever happens to the grid.
pub proof fn law_display_stays_in_history<T: GridCell>(
    v: GridView<T>,
    scroll: Scroll,
    history_size: nat,
    start: int,
    end: int,
    positions: nat,
)
    requires
        v.wf(),
        v.display_in_history(),
        start < end,
    ensures
        v.display_scrolled(scroll).display_in_history(),
        v.with_history_limit(history_size).display_in_history(),
        v.without_history().display_in_history(),
        v.lines_cleared(start, end).display_in_history(),
        v.can_scroll_down(start, end, positions as int) ==> v.scrolled_down(
            start,
            end,
            positions as int,
        ).display_in_history(),
        v.can_scroll_up(start, end, positions as int) ==> v.scrolled_up(
            start,
            end,
            positions as int,
        ).display_in_history(),
        v.can_scroll_up(0, v.lines as int, v.viewport_used()) ==> v.viewport_cleared(
            v.viewport_used(),
        ).display_in_history(),
{
    v.lemma_used_among(v.lines as int, v.lines as int);
}

/// The same holds of compression and thawing; compression even brings the display back onto lines
/// that exist.
pub proof fn law_compression_keeps_display_in_history(v: GridView<Cell>, count: nat)
    requires
        v.wf(),
    ensures
        v.history() > count ==> v.compacted(count as int).display_in_history(),
        v.display_in_history() ==> v.compacted(count as int).display_in_history(),
        v.display_in_history() ==> v.compacted_if_needed().display_in_history(),
        v.display_in_history() ==> v.thawed(count as int).display_in_history(),
{
    if v.history() > v.kept_hot() {
        law_compaction_spares_display(v);
    }
    law_thawing_keeps_rows(v, count);
}

/// While the display is scrolled back it shows the same rows after new lines have come in, as
/// long as the history has room for the distance.
pub proof fn law_scrolled_back_display_is_stationary<T: GridCell>(
    v: GridView<T>,
    positions: nat,
    shown: int,
)
    requires
        v.wf(),
        v.display_in_history(),
        v.display_offset > 0,
        v.display_offset + positions <= v.max_scroll_limit,
        v.can_scroll_up(0, v.lines as int, positions as int),
        0 <= shown < v.lines,
    ensures
        ({
            let up = v.scrolled_up(0, v.lines as int, positions as int);
            up.line(shown - up.display_offset) == v.line(shown - v.display_offset)
        }),
{
}

// Limits.

/// There are never more lines of history than the limit allows, hot and compressed ones together,
/// whatever happens to the grid. A new grid has none at all.
pub proof fn law_history_stays_within_limit<T: GridCell>(
    v: GridView<T>,
    scroll: Scroll,
    start: int,
    end: int,
    positions: nat,
)
    requires
        v.wf(),
    ensures
        v.display_scrolled(scroll).within_limit(),
        v.without_history().within_limit(),
        v.lines_cleared(start, end).within_limit(),
        v.can_scroll_down(start, end, positions as int) ==> v.scrolled_down(
            start,
            end,
            positions as int,
        ).within_limit(),
        v.can_scroll_up(start, end, positions as int) ==> v.scrolled_up(
            start,
            end,
            positions as int,
        ).within_limit(),
        v.can_scroll_up(0, v.lines as int, v.viewport_used()) ==> v.viewport_cleared(
            v.viewport_used(),
        ).within_limit(),
{
    v.lemma_used_among(v.lines as int, v.lines as int);
}

/// The same holds of compression, thawing and scrolling with thawing.
pub proof fn law_compression_stays_within_limit(v: GridView<Cell>, scroll: Scroll, count: nat)
    requires
        v.wf(),
    ensures
        v.compacted(count as int).within_limit(),
        v.compacted_if_needed().within_limit(),
        v.thawed(count as int).within_limit(),
        v.can_scroll_display(scroll) ==> v.display_scrolled_with_thaw(scroll).within_limit(),
{
    law_compression_keeps_rows(v, count);
    law_compaction_spares_display(v);
    law_thawing_keeps_rows(v, count);
    if v.can_scroll_display(scroll) {
        law_scroll_reaches_whole_history(v, scroll);
    }
}

/// Setting a limit brings the history within it, however much there was.
pub proof fn law_new_limit_is_kept<T>(v: GridView<T>, history_size: nat)
    requires
        v.wf(),
    ensures
        v.with_history_limit(history_size).within_limit(),
        v.with_history_limit(history_size).max_scroll_limit == history_size,
{
}

/// When the screen scrolls up and the history is full, its oldest lines are dropped, compressed or
/// not, and no others.
pub proof fn law_oldest_lines_go_first(v: GridView<Cell>, positions: nat)
    requires
        v.wf(),
        v.can_scroll_up(0, v.lines as int, positions as int),
    ensures
        ({
            let excess = larger(v.total_history() + positions - v.max_scroll_limit, 0);
            v.scrolled_up(0, v.lines as int, positions as int).all_rows() == (v.all_rows()
                + cleared_rows(v.cursor.template, v.columns, positions)).skip(excess)
        }),
{
    let excess = larger(v.total_history() + positions - v.max_scroll_limit, 0);
    assert(v.scrolled_up(0, v.lines as int, positions as int).all_rows() =~= (v.all_rows()
        + cleared_rows(v.cursor.template, v.columns, positions)).skip(excess));
}

/// A new limit drops the oldest lines of history first, compressed or not, and no others.
pub proof fn law_new_limit_drops_the_oldest(v: GridView<Cell>, history_size: nat)
    requires
        v.wf(),
    ensures
        v.with_history_limit(history_size).all_rows() == v.all_rows().skip(
            larger(v.total_history() - history_size, 0),
        ),
{
    assert(v.with_history_limit(history_size).all_rows() =~= v.all_rows().skip(
        larger(v.total_history() - history_size, 0),
    ));
}

// Scrolling of regions.

/// Scrolling a region up moves its lines and clears those at its bottom with the template of the
/// cursor. Lines above a region that starts below the top of the screen, and lines below any
/// region, stay as they are; lines that leave the screen become the newest lines of the history.
pub proof fn law_scroll_up_moves_lines<T: GridCell>(
    v: GridView<T>,
    start: int,
    end: int,
    positions: nat,
    line: int,
)
    requires
        v.wf(),
        0 <= start < end,
        positions < end - start || start == 0,
        v.can_scroll_up(start, end, positions as int),
        v.scrolled_up(start, end, positions as int).has_line(line),
    ensures
        ({
            let up = v.scrolled_up(start, end, positions as int);
            up.line(line) == if line < start && start > 0 || line >= end {
                v.line(line)
            } else if line < end - positions {
                v.line(line + positions)
            } else {
                cleared_row(v.cursor.template, v.columns)
            }
        }),
{
}

/// Scrolling a region down moves its lines and clears those at its top with the template of the
/// cursor. All other lines stay as they are.
pub proof fn law_scroll_down_moves_lines<T: GridCell>(
    v: GridView<T>,
    start: int,
    end: int,
    positions: nat,
    line: int,
)
    requires
        v.wf(),
        start < end,
        positions < end - start,
        v.can_scroll_down(start, end, positions as int),
        v.has_line(line),
    ensures
        ({
            let down = v.scrolled_down(start, end, positions as int);
            down.line(line) == if line < start || line >= end {
                v.line(line)
            } else if line < start + positions {
                cleared_row(v.cursor.template, v.columns)
            } else {
                v.line(line - positions)
            }
        }),
{
}

/// Scrolling a region down and up again gives back its lines, but for the bottommost ones, which
/// are cleared. Lines outside of the region stay as they are.
pub proof fn law_scroll_up_undoes_scroll_down<T: GridCell>(
    v: GridView<T>,
    start: int,
    end: int,
    positions: nat,
    line: int,
)
    requires
        v.wf(),
        0 < start < end <= v.lines,
        positions < end - start,
        v.has_line(line),
        line < end - positions || end <= line,
    ensures
        v.scrolled_down(start, end, positions as int).scrolled_up(
            start,
            end,
            positions as int,
        ).line(line) == v.line(line),
{
}

/// Clearing the screen moves what was on it to the history, if that has room: the used lines of
/// the screen become its newest lines, and every line of the screen is cleared.
pub proof fn law_clear_viewport_keeps_content<T: GridCell>(v: GridView<T>, line: int)
    requires
        v.wf(),
        v.can_scroll_up(0, v.lines as int, v.viewport_used()),
        v.history() + v.viewport_used() <= v.max_scroll_limit,
        0 <= line < v.lines,
    ensures
        ({
            let cleared = v.viewport_cleared(v.viewport_used());
            &&& line < v.viewport_used() ==> cleared.line(line - v.viewport_used()) == v.line(line)
            &&& line >= v.viewport_used() ==> v.line_blank(line)
            &&& cleared.line(line) == cleared_row(v.cursor.template, v.columns)
        }),
{
    lemma_unused_lines_blank(v, v.lines as int, line);
}

/// Lines below the used ones are blank.
proof fn lemma_unused_lines_blank<T: GridCell>(v: GridView<T>, count: int, line: int)
    requires
        0 <= line < count,
    ensures
        0 <= v.used_among(count) <= count,
        line >= v.used_among(count) ==> v.line_blank(line),
    decreases count,
{
    if line < count - 1 {
        lemma_unused_lines_blank(v, count - 1, line);
    } else {
        v.lemma_used_among(count, count);
    }
}

/// A region of the whole screen can be given by its bounds or by none.
pub proof fn law_unbounded_region_is_screen<T: GridCell>(v: GridView<T>)
    requires
        v.wf(),
    ensures
        v.lines_cleared(LineBound::Unbounded.first(), LineBound::Unbounded.past(v.lines))
            == v.lines_cleared(0, v.lines as int),
{
}

/// A cell that is reset from an untouched cell is untouched.
pub proof fn law_reset_gives_untouched_cells()
    ensures
        <Cell as GridCell>::cleared(default_cell()) == default_cell(),
        default_cell().blank(),
{
    assert(0u16 & crate::cell::VISIBLE_FLAGS == 0) by (bit_vector);
}

// Iteration.

/// Stepping to the next cell and back again leads to where it started.
pub proof fn law_stepping_back_undoes_stepping(point: Point, columns: nat)
    requires
        1 <= columns <= usize::MAX,
        point.column.0 < columns,
        point.line.0 < i32::MAX,
    ensures
        point_preceding(point_after(point, columns), columns) == point,
{
}

/// Each step leaves one cell less.
pub proof fn law_step_leaves_one_less(point: Point, end: Point, columns: nat)
    requires
        1 <= columns <= usize::MAX,
        end.column.0 < columns,
        point_before(point, end),
    ensures
        points_left(point, end, columns) >= 1,
        points_left(point_after(point, columns), end, columns) == points_left(point, end, columns)
            - 1,
{
    let lines = end.line.0 - point.line.0;
    let next = point_after(point, columns);
    if lines > 0 {
        assert((lines - 1) * columns == (lines - 2) * columns + columns) by (nonlinear_arith);
        assert(lines >= 2 ==> (lines - 2) * columns >= 0) by (nonlinear_arith);
        assert(lines == 1 ==> (lines - 1) * columns == 0) by (nonlinear_arith);
        assert(next.line == point.line || next.line.0 == point.line.0 + 1);
        if next.line != point.line {
            assert(end.line.0 - next.line.0 - 1 == lines - 2);
        }
    }
}

/// The point that `steps` steps lead to.
pub open spec fn point_after_steps(start: Point, columns: nat, steps: nat) -> Point
    decreases steps,
{
    if steps == 0 {
        start
    } else {
        point_after(point_after_steps(start, columns, (steps - 1) as nat), columns)
    }
}

/// The number of cells that are left is how often one can step on: that many steps succeed, each
/// leaves one cell less, and the next one fails.
pub proof fn law_cells_left_are_steps(point: Point, end: Point, columns: nat, steps: nat)
    requires
        1 <= columns <= usize::MAX,
        end.column.0 < columns,
        steps <= points_left(point, end, columns),
    ensures
        ({
            let there = point_after_steps(point, columns, steps);
            &&& points_left(there, end, columns) == points_left(point, end, columns) - steps
            &&& point_before(there, end) <==> steps < points_left(point, end, columns)
        }),
    decreases steps,
{
    if steps > 0 {
        let before = point_after_steps(point, columns, (steps - 1) as nat);
        law_cells_left_are_steps(point, end, columns, (steps - 1) as nat);
        law_step_leaves_one_less(before, end, columns);
    }
    let there = point_after_steps(point, columns, steps);
    if point_before(there, end) {
        law_step_leaves_one_less(there, end, columns);
    }
}

/// Where iteration over the display starts, one step before the first cell shown.
pub open spec fn display_start<T>(v: GridView<T>) -> Point {
    Point {
        line: Line((-v.display_offset - 1) as i32),
        column: Column((v.columns - 1) as usize),
    }
}

/// Where iteration over the display ends.
pub open spec fn display_end<T>(v: GridView<T>) -> Point {
    Point {
        line: Line((-v.display_offset - 1 + v.lines) as i32),
        column: Column((v.columns - 1) as usize),
    }
}

/// Iteration over the display visits the lines shown from the top, and each of them from the left:
/// step `k + 1` leads to column `k % columns` of line `k / columns` of the display. All of these
/// are cells of the grid, and the iteration ends after the last of them.
pub proof fn law_display_iteration_order<T>(v: GridView<T>, k: nat)
    requires
        v.wf(),
        v.columns >= 1,
        v.display_in_history(),
        k < v.lines * v.columns,
    ensures
        ({
            let point = point_after_steps(display_start(v), v.columns, k + 1);
            &&& point.line.0 == k as int / v.columns as int - v.display_offset
            &&& point.column.0 == k as int % v.columns as int
            &&& v.has_point(point)
            &&& point_before(
                point_after_steps(display_start(v), v.columns, k),
                display_end(v),
            )
            &&& points_left(
                point_after_steps(display_start(v), v.columns, k),
                display_end(v),
                v.columns,
            ) == v.lines * v.columns - k
            &&& k + 1 == v.lines * v.columns ==> !point_before(point, display_end(v))
        }),
    decreases k,
{
    let n = v.columns as int;
    let q = k as int / n;
    let r = k as int % n;
    lemma_fundamental_div_mod(k as int, n);
    lemma_mod_bound(k as int, n);
    assert(0 <= q < v.lines) by (nonlinear_arith)
        requires
            k == n * q + r,
            0 <= r < n,
            0 <= k < v.lines * n,
    ;
    let before = point_after_steps(display_start(v), v.columns, k);
    let point = point_after_steps(display_start(v), v.columns, k + 1);
    if k == 0 {
        assert(q == 0) by (nonlinear_arith)
            requires
                0 == n * q + r,
                0 <= r < n,
                q >= 0,
        ;
    } else {
        law_display_iteration_order(v, (k - 1) as nat);
        if r > 0 {
            lemma_fundamental_div_mod_converse(k - 1, n, q, r - 1);
        } else {
            assert(k - 1 == (q - 1) * n + (n - 1)) by (nonlinear_arith)
                requires
                    k == n * q,
            ;
            lemma_fundamental_div_mod_converse(k - 1, n, q - 1, n - 1);
        }
    }
    // `before` is on line `bq` and column `br` of the display.
    let bq = before.line.0 + v.display_offset;
    let br = before.column.0 as int;
    assert(bq * n + br == k - 1) by (nonlinear_arith)
        requires
            k == n * q + r,
            (r == 0 && bq == q - 1 && br == n - 1) || (r > 0 && bq == q && br == r - 1),
    ;
    let left = v.lines - 1 - bq;
    assert((left - 1) * n + n == v.lines * n - n - bq * n) by (nonlinear_arith)
        requires
            left == v.lines - 1 - bq,
    ;
    if left == 0 {
        assert(bq * n == v.lines * n - n) by (nonlinear_arith)
            requires
                bq == v.lines - 1,
        ;
    }
    if k + 1 == v.lines * v.columns {
        assert(q == v.lines - 1 && r == n - 1) by (nonlinear_arith)
            requires
                k == n * q + r,
                0 <= r < n,
                k + 1 == v.lines * n,
                0 <= q < v.lines,
        ;
    }
}

// Copies.

/// The clone of a grid of terminal cells holds what the grid holds.
pub proof fn law_clones_hold_the_same(grid: GridView<Cell>, copy: GridView<Cell>)
    requires
        cloned_grid(grid, copy),
    ensures
        copy == grid,
{
    assert forall|k: int| 0 <= k < grid.rows.len() implies #[trigger] copy.rows[k]
        == grid.rows[k] by {
        assert(cloned_cells(grid.rows[k], copy.rows[k]));
        assert(copy.rows[k] =~= grid.rows[k]);
    }
    assert(copy.rows =~= grid.rows);
}

/// The clone of a grid of terminal cells compares equal to the grid.
pub proof fn law_clones_compare_equal(grid: Grid<Cell>, copy: Grid<Cell>)
    requires
        grid.wf(),
        copy.wf(),
        cloned_grid(grid@, copy@),
    ensures
        grid.eq_spec(&copy),
{
    law_clones_hold_the_same(grid@, copy@);
    grid.lemma_comparable(&copy);
}

/// Whether two grids hold the same lines, compressed or not, and display the same.
pub open spec fn same_shown(v: GridView<Cell>, w: GridView<Cell>) -> bool {
    &&& v.rows == w.rows
    &&& v.compressed == w.compressed
    &&& v.columns == w.columns
    &&& v.lines == w.lines
    &&& v.display_offset == w.display_offset
}

/// Grids of terminal cells compare equal if and only if they hold the same lines and display the
/// same.
pub proof fn law_equality_is_by_contents(grid: Grid<Cell>, other: Grid<Cell>)
    requires
        grid.wf(),
        other.wf(),
    ensures
        grid.eq_spec(&other) <==> same_shown(grid@, other@),
{
    if same_shown(grid@, other@) {
        grid.lemma_comparable(&other);
    }
    if grid.eq_spec(&other) {
        assert forall|k: int| 0 <= k < grid@.rows.len() implies #[trigger] grid@.rows[k]
            == other@.rows[k] by {
            assert(same_cells(grid@.rows[k], other@.rows[k]));
            assert(grid@.rows[k] =~= other@.rows[k]);
        }
        assert(grid@.rows =~= other@.rows);
    }
}

/// Grids that compare equal still do after the same compression or thawing.
pub proof fn law_equal_grids_stay_equal(v: GridView<Cell>, w: GridView<Cell>, count: nat)
    requires
        same_shown(v, w),
    ensures
        same_shown(v.compacted(count as int), w.compacted(count as int)),
        same_shown(v.compacted_if_needed(), w.compacted_if_needed()),
        same_shown(v.thawed(count as int), w.thawed(count as int)),
{
}

/// A stored grid shows a part of the history that is stored too, if the grid did.
pub proof fn law_stored_display_stays_in_history<T>(before: GridView<T>, after: GridView<T>)
    requires
        before.wf(),
        before.display_in_history(),
        stored(before, after),
    ensures
        after.wf(),
        after.display_in_history(),
        after.total_history() == before.history(),
{
}

} // verus!
