//! Grids of cells.

use alacritty_terminal::cell::{Cell, Color, Flags, NamedColor};
use alacritty_terminal::grid::clear::LineBound;
use alacritty_terminal::grid::stats::Activity;
use alacritty_terminal::grid::{
    set_scrollback_logging, BidirectionalIterator, CompactRow, Dimensions, Grid, GridCell, Row,
    Scroll, ScrollbackLogging,
};
use alacritty_terminal::index::{Column, Line, Point};

fn cell(c: char) -> Cell {
    Cell { c, ..Cell::default() }
}

/// A grid of one column whose screen shows `text`, one character per line.
fn column(text: &str, history: usize) -> Grid<Cell> {
    let mut grid = Grid::new(text.len(), 1, history);
    for (i, c) in text.chars().enumerate() {
        *grid.cell_mut(Point::new(Line(i as i32), Column(0))) = cell(c);
    }
    grid
}

/// The first characters of all hot lines, from the oldest down.
fn shown(grid: &Grid<Cell>) -> String {
    (grid.topmost_line().0..grid.screen_lines() as i32)
        .map(|line| grid[Line(line)][Column(0)].c)
        .collect()
}

/// A grid of `lines` lines after `n` numbered lines have passed through it.
fn scrolled(lines: usize, columns: usize, limit: usize, n: usize) -> Grid<Cell> {
    let mut grid = Grid::new(lines, columns, limit);
    for k in 0..n {
        let point = Point::new(Line(lines as i32 - 1), Column(0));
        *grid.cell_mut(point) = cell((b'a' + (k % 26) as u8) as char);
        grid.scroll_up(&(Line(0)..Line(lines as i32)), 1);
    }
    grid
}

#[test]
fn new_grid_is_untouched() {
    let grid: Grid<Cell> = Grid::new(3, 4, 10);
    assert_eq!((grid.screen_lines(), grid.columns(), grid.total_lines()), (3, 4, 3));
    assert_eq!(grid.history_size(), 0);
    assert_eq!(grid.topmost_line(), Line(0));
    assert_eq!(grid.bottommost_line(), Line(2));
    assert_eq!(grid.last_column(), Column(3));
    assert!((0..3).all(|line| (0..4).all(|c| grid[Line(line)][Column(c)] == Cell::default())));
}

#[test]
fn scroll_up_moves_lines_to_history() {
    let mut grid = column("abcd", 10);
    grid.scroll_up(&(Line(0)..Line(4)), 2);
    assert_eq!(shown(&grid), "abcd  ");
    assert_eq!(grid.history_size(), 2);
}

#[test]
fn scroll_up_keeps_lines_below_the_region() {
    let mut grid = column("abcdef", 10);
    grid.scroll_up(&(Line(0)..Line(4)), 1);
    assert_eq!(shown(&grid), "abcd ef");
}

#[test]
fn scroll_up_in_the_middle_leaves_history_alone() {
    let mut grid = column("abcdef", 10);
    grid.scroll_up(&(Line(1)..Line(5)), 2);
    assert_eq!(shown(&grid), "ade  f");
    assert_eq!(grid.history_size(), 0);
}

#[test]
fn scroll_up_by_a_whole_region_clears_it() {
    let mut grid = column("abcdef", 10);
    grid.scroll_up(&(Line(2)..Line(4)), 7);
    assert_eq!(shown(&grid), "ab  ef");
}

#[test]
fn scroll_up_clears_with_the_cursor_background() {
    let mut grid = column("ab", 10);
    grid.cursor.template.bg = Color::Indexed(7);
    grid.scroll_up(&(Line(0)..Line(2)), 1);
    assert_eq!(grid[Line(1)][Column(0)].bg, Color::Indexed(7));
    assert_eq!(grid[Line(1)][Column(0)].c, ' ');
}

#[test]
fn history_is_limited() {
    let grid = scrolled(2, 1, 3, 10);
    assert_eq!(grid.history_size(), 3);
}

#[test]
fn compressed_lines_count_toward_the_limit() {
    let mut grid = scrolled(2, 1, 2, 2);
    grid.compress_old_scrollback(0);
    assert_eq!((grid.history_size(), grid.compressed_history_len()), (0, 2));
    grid.scroll_up(&(Line(0)..Line(2)), 1);
    assert_eq!((grid.history_size(), grid.compressed_history_len()), (1, 1));
    grid.scroll_up(&(Line(0)..Line(2)), 1);
    assert_eq!((grid.history_size(), grid.compressed_history_len()), (2, 0));
    assert_eq!(grid.total_history_size(), 2);

    // Once everything is thawed, scrolling goes on.
    let mut grid = scrolled(2, 1, 2, 2);
    grid.compress_old_scrollback(0);
    grid.scroll_up(&(Line(0)..Line(2)), 1);
    grid.scroll_display_with_thaw(Scroll::Top);
    assert_eq!((grid.display_offset(), grid.history_size()), (2, 2));
    grid.scroll_up(&(Line(0)..Line(2)), 1);
    assert_eq!((grid.display_offset(), grid.total_history_size()), (2, 2));
}

#[test]
fn history_is_limited_under_regular_compaction() {
    let mut grid: Grid<Cell> = Grid::new(3, 1, 20);
    for _ in 0..100 {
        grid.scroll_up(&(Line(0)..Line(3)), 1);
        grid.compact_scrollback_if_needed();
        assert!(grid.total_history_size() <= 20);
    }
    assert_eq!(grid.total_history_size(), 20);
    assert_eq!(grid.history_size(), 6);
}

#[test]
fn the_oldest_lines_are_dropped_first() {
    let mut grid = scrolled(1, 1, 4, 4);
    let all = shown(&grid);
    grid.compress_old_scrollback(1);
    *grid.cell_mut(Point::new(Line(0), Column(0))) = cell('X');
    grid.scroll_up(&(Line(0)..Line(1)), 1);
    grid.scroll_display_with_thaw(Scroll::Top);
    let expected: String = all.chars().skip(1).take(3).chain("X ".chars()).collect();
    assert_eq!(shown(&grid), expected);
}

#[test]
fn update_history_drops_compressed_lines_too() {
    let mut grid = scrolled(2, 1, 100, 10);
    grid.compress_old_scrollback(3);
    grid.update_history(5);
    assert_eq!((grid.history_size(), grid.compressed_history_len()), (3, 2));
    grid.update_history(2);
    assert_eq!((grid.history_size(), grid.compressed_history_len()), (2, 0));
}

#[test]
fn scroll_up_below_the_top_leaves_the_display_alone() {
    let mut grid: Grid<Cell> = Grid::new(3, 1, 10);
    grid.scroll_up(&(Line(0)..Line(3)), 1);
    grid.scroll_up(&(Line(0)..Line(3)), 1);
    grid.scroll_display(Scroll::Top);
    assert_eq!((grid.display_offset(), grid.history_size()), (2, 2));
    grid.scroll_up(&(Line(1)..Line(3)), 1);
    assert_eq!((grid.display_offset(), grid.history_size()), (2, 2));
    let mut iter = grid.display_iter();
    assert_eq!(iter.next().unwrap().point, Point::new(Line(-2), Column(0)));
}

#[test]
fn scroll_down_moves_lines_down() {
    let mut grid = column("abcdef", 10);
    grid.scroll_down(&(Line(1)..Line(5)), 2);
    assert_eq!(shown(&grid), "a  bcf");
    let mut grid = column("abcdef", 0);
    grid.scroll_down(&(Line(1)..Line(5)), 2);
    assert_eq!(shown(&grid), "a  bcf");
    grid.scroll_down(&(Line(0)..Line(6)), 6);
    assert_eq!(shown(&grid), "      ");
}

#[test]
fn scroll_up_undoes_scroll_down() {
    let mut grid = column("abcdef", 10);
    grid.scroll_down(&(Line(1)..Line(5)), 1);
    assert_eq!(shown(&grid), "a bcdf");
    grid.scroll_up(&(Line(1)..Line(5)), 1);
    assert_eq!(shown(&grid), "abcd f");
}

#[test]
fn display_stays_on_the_same_lines() {
    let mut grid = scrolled(2, 1, 100, 10);
    grid.scroll_display(Scroll::Delta(3));
    let first = *grid.display_iter().next().unwrap().cell;
    grid.scroll_up(&(Line(0)..Line(2)), 2);
    assert_eq!(grid.display_offset(), 5);
    assert_eq!(*grid.display_iter().next().unwrap().cell, first);
}

#[test]
fn display_scrolls_within_history() {
    let mut grid = scrolled(4, 1, 100, 10);
    assert_eq!(grid.history_size(), 10);
    grid.scroll_display(Scroll::Delta(-5));
    assert_eq!(grid.display_offset(), 0);
    grid.scroll_display(Scroll::PageUp);
    assert_eq!(grid.display_offset(), 4);
    grid.scroll_display(Scroll::Delta(100));
    assert_eq!(grid.display_offset(), 10);
    grid.scroll_display(Scroll::PageDown);
    assert_eq!(grid.display_offset(), 6);
    grid.scroll_display(Scroll::Top);
    assert_eq!(grid.display_offset(), 10);
    grid.scroll_display(Scroll::Bottom);
    assert_eq!(grid.display_offset(), 0);
}

#[test]
fn update_history_drops_the_oldest() {
    let mut grid = scrolled(2, 1, 100, 6);
    let kept: String = shown(&grid).chars().skip(4).collect();
    grid.scroll_display(Scroll::Top);
    grid.update_history(2);
    assert_eq!(shown(&grid), kept);
    assert_eq!(grid.display_offset(), 2);
}

#[test]
fn decrease_scroll_limit_drops_the_oldest() {
    let mut grid = scrolled(2, 1, 100, 6);
    let kept: String = shown(&grid).chars().skip(4).collect();
    grid.decrease_scroll_limit(4);
    assert_eq!(shown(&grid), kept);
    grid.decrease_scroll_limit(100);
    assert_eq!(grid.history_size(), 0);
}

#[test]
fn clear_viewport_saves_used_lines() {
    let mut grid = column("ab  ", 10);
    grid.clear_viewport();
    assert_eq!(shown(&grid), "ab    ");
    assert_eq!(grid.history_size(), 2);

    // A blank screen goes nowhere once there is history.
    grid.clear_viewport();
    assert_eq!(grid.history_size(), 2);

    // Without any, one line of it goes.
    let mut grid = column("    ", 10);
    grid.clear_viewport();
    assert_eq!(grid.history_size(), 1);
}

#[test]
fn reset_forgets_everything() {
    let mut grid = scrolled(3, 2, 100, 10);
    grid.cursor.point = Point::new(Line(1), Column(1));
    grid.cursor.template.bg = Color::Named(NamedColor::Red);
    grid.reset();
    assert_eq!(shown(&grid), "   ");
    assert_eq!(grid.cursor.point, Point::default());
    assert_eq!(grid[Line(2)][Column(1)], Cell::default());
}

#[test]
fn reset_region_clears_lines() {
    let mut grid = column("abcdef", 10);
    grid.reset_region(Line(1)..Line(3));
    assert_eq!(shown(&grid), "a  def");
    grid.reset_region((LineBound::Excluded(Line(3)), LineBound::Included(Line(4))));
    assert_eq!(shown(&grid), "a  d f");
    grid.reset_region((LineBound::Unbounded, LineBound::Unbounded));
    assert_eq!(shown(&grid), "      ");
}

#[test]
fn clear_history_keeps_the_screen() {
    let mut grid = scrolled(3, 1, 1000, 300);
    grid.compact_scrollback_if_needed();
    assert!(grid.compressed_history_len() > 0);
    let screen: String = shown(&grid).chars().rev().take(3).collect();
    grid.clear_history();
    assert_eq!(grid.total_history_size(), 0);
    assert_eq!(shown(&grid).chars().rev().collect::<String>(), screen);
}

#[test]
fn initialize_all_fills_history() {
    let mut grid = column("ab", 4);
    grid.initialize_all();
    assert_eq!(shown(&grid), "    ab");
    grid.compress_old_scrollback(1);
    grid.initialize_all();
    assert_eq!((grid.history_size(), grid.compressed_history_len()), (1, 3));
    grid.thaw_compressed_history(3);
    grid.truncate();
    assert_eq!(shown(&grid), "    ab");
}

#[test]
fn cursor_cell_is_written() {
    let mut grid: Grid<Cell> = Grid::new(2, 3, 0);
    grid.cursor.point = Point::new(Line(1), Column(2));
    grid.cursor_cell().c = 'x';
    assert_eq!(grid[Point::new(Line(1), Column(2))].c, 'x');
    assert_eq!(grid[Line(1)][Column(2)].c, 'x');
    grid.cursor_mut().point = Point::new(Line(0), Column(1));
    grid.saved_cursor_mut().point = Point::new(Line(1), Column(0));
    grid.cursor_cell().c = 'z';
    assert_eq!(grid[Line(0)][Column(1)].c, 'z');
    assert_eq!(grid.saved_cursor.point, Point::new(Line(1), Column(0)));
    *grid.row_mut(Line(1)).cell_mut(0) = cell('y');
    assert_eq!(grid[Line(1)].cell(0).c, 'y');
}

#[test]
fn iteration_goes_both_ways() {
    let mut grid: Grid<Cell> = Grid::new(2, 2, 0);
    for (i, c) in "abcd".chars().enumerate() {
        *grid.cell_mut(Point::new(Line(i as i32 / 2), Column(i % 2))) = cell(c);
    }
    let mut iter = grid.iter_from(Point::new(Line(0), Column(0)));
    assert_eq!(iter.cell().c, 'a');
    assert_eq!(iter.size_hint(), (3, Some(3)));
    assert!(iter.prev().is_none());
    assert_eq!(iter.next().unwrap().cell.c, 'b');
    let third = iter.next().unwrap();
    assert_eq!((third.c, third.point), ('c', Point::new(Line(1), Column(0))));
    assert_eq!(iter.prev().unwrap().cell.c, 'b');
    assert_eq!(iter.point(), Point::new(Line(0), Column(1)));
    assert_eq!(iter.next().unwrap().cell.c, 'c');
    assert_eq!(iter.next().unwrap().cell.c, 'd');
    assert!(iter.next().is_none());
}

#[test]
fn display_iteration_shows_the_scrolled_screen() {
    let mut grid = scrolled(3, 2, 100, 6);
    grid.scroll_display(Scroll::Delta(2));
    let mut iter = grid.display_iter();
    assert_eq!(iter.size_hint(), (6, Some(6)));
    let mut points = Vec::new();
    while let Some(indexed) = iter.next() {
        points.push((indexed.point.line.0, indexed.point.column.0));
    }
    assert_eq!(points, vec![(-2, 0), (-2, 1), (-1, 0), (-1, 1), (0, 0), (0, 1)]);
}

#[test]
fn compression_keeps_every_row() {
    let mut grid = scrolled(4, 2, 1000, 100);
    let before = shown(&grid);
    assert_eq!(grid.history_size(), 100);
    grid.compress_old_scrollback(10);
    assert_eq!(grid.history_size(), 10);
    assert_eq!(grid.compressed_history_len(), 90);
    assert_eq!(grid.total_history_size(), 100);
    assert_eq!(grid.total_topmost_line(), Line(-100));
    assert!(grid.compressed_history_bytes() > 0);

    // Thawing brings the newest of them back first.
    grid.thaw_compressed_history(20);
    assert_eq!(grid.history_size(), 30);
    assert_eq!(shown(&grid), before.chars().skip(70).collect::<String>());
    grid.thaw_compressed_history(usize::MAX);
    assert_eq!(shown(&grid), before);
    assert_eq!(grid.compressed_history_len(), 0);
}

#[test]
fn compaction_keeps_two_screens_and_the_display() {
    let mut grid = scrolled(4, 1, 1000, 100);
    grid.scroll_display(Scroll::Delta(30));
    grid.compact_scrollback_if_needed();
    assert_eq!(grid.history_size(), 34);
    assert_eq!(grid.display_offset(), 30);
    grid.scroll_display(Scroll::Bottom);
    grid.compact_scrollback_if_needed();
    assert_eq!(grid.history_size(), 8);
    grid.compact_scrollback_if_needed();
    assert_eq!(grid.history_size(), 8);
}

#[test]
fn compaction_works_in_rounds() {
    let mut grid = scrolled(4, 1, 1000, 600);
    grid.compact_scrollback_if_needed();
    assert_eq!(grid.compressed_history_len(), 500);
    grid.compact_scrollback_if_needed();
    assert_eq!(grid.compressed_history_len(), 592);
}

#[test]
fn compression_clamps_the_display() {
    let mut grid = scrolled(4, 1, 1000, 100);
    grid.scroll_display(Scroll::Top);
    grid.compress_old_scrollback(10);
    assert_eq!(grid.display_offset(), 10);
}

#[test]
fn scrolling_thaws_what_is_needed() {
    let mut grid = scrolled(4, 1, 1000, 100);
    let before = shown(&grid);
    grid.compress_old_scrollback(10);
    grid.scroll_display_with_thaw(Scroll::Delta(5));
    assert_eq!(grid.compressed_history_len(), 90);
    grid.scroll_display_with_thaw(Scroll::Delta(10));
    assert_eq!((grid.display_offset(), grid.compressed_history_len()), (15, 85));
    grid.scroll_display_with_thaw(Scroll::PageUp);
    assert_eq!((grid.display_offset(), grid.compressed_history_len()), (19, 81));
    grid.scroll_display_with_thaw(Scroll::Top);
    assert_eq!((grid.display_offset(), grid.compressed_history_len()), (100, 0));
    assert_eq!(shown(&grid), before);
    grid.scroll_display_with_thaw(Scroll::PageDown);
    assert_eq!(grid.display_offset(), 96);
    grid.scroll_display_with_thaw(Scroll::Bottom);
    assert_eq!(grid.display_offset(), 0);
}

#[test]
fn compact_rows_give_back_their_cells() {
    let mut cells = vec![cell('a'), cell('b'), Cell::default(), cell('c')];
    cells[1].fg = Color::Spec { r: 1, g: 2, b: 3 };
    cells[1].flags.bits |= Flags::BOLD;
    cells.extend(vec![Cell::default(); 60]);
    let compact = CompactRow::compress(&Row::from_cells(cells.clone()));
    let row = compact.decompress();
    assert_eq!(row.len(), 64);
    assert!((0..64).all(|i| *row.cell(i) == cells[i]));
    assert!(compact.heap_bytes() < 64 * std::mem::size_of::<Cell>());
}

#[test]
fn compressed_rows_have_one_form() {
    let mut cells = vec![cell('a'), cell('b'), cell('c'), Cell::default()];
    cells[2].flags.bits |= Flags::BOLD;
    let compact = CompactRow::compress(&Row::from_cells(cells.clone()));
    assert!(compact == compact.clone());
    assert!(compact == CompactRow::compress(&compact.decompress()));

    // Three characters and two runs.
    let run = std::mem::size_of::<alacritty_terminal::grid::compact::StyleRun>();
    assert_eq!(compact.heap_bytes(), 3 * 4 + 2 * run);
    let blank = CompactRow::compress(&Row::new(80));
    assert_eq!(blank.heap_bytes(), 0);

    // Rows of other widths or cells differ.
    assert!(blank != CompactRow::compress(&Row::new(81)));
    cells[0].c = 'x';
    assert!(compact != CompactRow::compress(&Row::from_cells(cells)));
}

#[test]
fn equal_grids_stay_equal_after_compression() {
    let mut grid = scrolled(4, 2, 1000, 100);
    let mut other = scrolled(4, 2, 1000, 100);
    grid.compress_old_scrollback(10);
    other.compress_old_scrollback(50);
    other.compress_old_scrollback(10);
    assert!(grid == other);
    assert_eq!(grid.compressed_history_bytes(), other.compressed_history_bytes());
}

#[test]
fn grids_compare_by_content() {
    let grid = scrolled(4, 2, 1000, 100);
    let mut other = grid.clone();
    assert!(grid == other);
    other.cursor.point = Point::new(Line(1), Column(1));
    assert!(grid == other, "cursors do not count");
    other.scroll_display(Scroll::Delta(1));
    assert!(grid != other);
    other.scroll_display(Scroll::Bottom);
    other.compress_old_scrollback(10);
    assert!(grid != other);
    other.thaw_compressed_history(90);
    assert!(grid == other);
    *other.cell_mut(Point::new(Line(-5), Column(1))) = cell('!');
    assert!(grid != other);
}

#[test]
fn activity_is_reported_once() {
    let mut logging = ScrollbackLogging::default();
    let mut grid = scrolled(4, 2, 1000, 100);
    assert_eq!(grid.scrollback_report(&logging, 5, 0), None);

    grid.compress_old_scrollback(10);
    assert_eq!(grid.scrollback_report(&logging, 0, 0), None);
    set_scrollback_logging(&mut logging, false);
    assert_eq!(grid.scrollback_report(&logging, 5, 0), None);
    set_scrollback_logging(&mut logging, true);

    // An operation that moves no rows gives no report.
    grid.compress_old_scrollback(10);
    assert_eq!(grid.scrollback_report(&logging, 5, 90), None);

    let report = grid.scrollback_report(&logging, 1, 0).unwrap();
    assert_eq!(report.activity, Activity::Compressed);
    assert_eq!(report.stats.rows_compressed, 90);
    assert_eq!((report.hot, report.compressed, report.total), (10, 90, 100));
    assert_eq!(report.hot_bytes, 10 * 2 * 24);
    assert_eq!(report.expanded_bytes, 90 * 2 * 24);
    assert_eq!(report.compressed_bytes, grid.compressed_history_bytes());
    assert_eq!(
        report.saved_bytes,
        report.expanded_bytes.saturating_sub(report.compressed_bytes as u128),
    );
    assert_eq!(grid.scrollback_report(&logging, 5, 0), None);

    grid.thaw_compressed_history(3);
    let report = grid.scrollback_report(&logging, 2, 90).unwrap();
    assert_eq!(report.activity, Activity::Thawed);
    assert_eq!((report.stats.rows_thawed, report.stats.rows_resized_on_thaw), (3, 0));

    grid.thaw_compressed_history(3);
    grid.compress_old_scrollback(10);
    assert_eq!(grid.scrollback_report(&logging, 2, 84).unwrap().activity, Activity::Both);
}

#[test]
fn resized_rows_are_counted() {
    let mut grid = scrolled(4, 2, 1000, 100);
    grid.compress_old_scrollback(10);
    let mut parts = grid.into_parts();
    for row in parts.rows.iter_mut() {
        row.grow(5);
    }
    parts.columns = 5;
    let mut grid = Grid::from_parts(parts).unwrap();
    grid.thaw_compressed_history(7);
    let report = grid.scrollback_report(&ScrollbackLogging::default(), 1, 90).unwrap();
    assert_eq!(report.stats.rows_thawed, 7);
    assert_eq!(report.stats.rows_resized_on_thaw, 7);
    assert_eq!((report.stats.resize_from_cols, report.stats.resize_to_cols), (2, 5));
    assert_eq!(grid[grid.topmost_line()].len(), 5);
}

#[test]
fn parts_have_to_fit() {
    let mut parts = scrolled(4, 2, 1000, 10).into_parts();
    assert!(parts.is_grid());
    parts.rows[3].grow(3);
    assert!(Grid::from_parts(parts).is_none());

    // There may not be more history than the limit allows.
    let mut grid = scrolled(4, 2, 1000, 10);
    grid.compress_old_scrollback(6);
    let mut parts = grid.into_parts();
    parts.max_scroll_limit = 10;
    assert!(parts.is_grid());
    parts.max_scroll_limit = 9;
    assert!(!parts.is_grid());
}

#[test]
fn cells_know_whether_they_are_empty() {
    assert!(Cell::default().is_empty());
    assert!(cell('\t').is_empty());
    assert!(!cell('x').is_empty());
    let mut underlined = Cell::default();
    underlined.flags_mut().bits |= Flags::UNDERLINE;
    assert!(!underlined.is_empty());
    assert!(underlined.flags().contains(Flags::UNDERLINE));
    let template = Cell { bg: Color::Indexed(3), ..cell('t') };
    underlined.reset(&template);
    assert_eq!(underlined, Cell { bg: Color::Indexed(3), ..Cell::default() });
}

#[test]
fn sizes_are_dimensions() {
    let size: (usize, usize) = (24, 80);
    assert_eq!((size.screen_lines(), size.columns(), size.history_size()), (24, 80, 0));
    assert_eq!((size.topmost_line(), size.bottommost_line()), (Line(0), Line(23)));
}
