//! Snapshots of terminals, and what becomes of them.

use std::ops::Range;

use alacritty_terminal::cell::{Cell, Color, Flags, NamedColor};
use alacritty_terminal::grid::clear::LineBound;
use alacritty_terminal::grid::{Cursor, Dimensions, Grid, GridParts, Scroll};
use alacritty_terminal::index::{Column, Line, Point};
use alacritty_terminal::term::{TermMode, TermState};

const HISTORY: usize = 10_000;

/// A small terminal on top of the grid.
struct Term {
    grid: Grid<Cell>,
    inactive_grid: Grid<Cell>,
    mode: TermMode,
    scroll_region: Range<Line>,
}

impl Term {
    fn new(cols: usize, rows: usize) -> Term {
        Term {
            grid: Grid::new(rows, cols, HISTORY),
            inactive_grid: Grid::new(rows, cols, 0),
            mode: TermMode { bits: TermMode::SHOW_CURSOR | TermMode::LINE_WRAP },
            scroll_region: Line(0)..Line(rows as i32),
        }
    }

    fn grid(&self) -> &Grid<Cell> {
        &self.grid
    }

    fn grid_mut(&mut self) -> &mut Grid<Cell> {
        &mut self.grid
    }

    fn mode(&self) -> &TermMode {
        &self.mode
    }

    fn scroll_display(&mut self, scroll: Scroll) {
        self.grid.scroll_display(scroll);
    }

    fn snapshot(&self) -> TermState {
        TermState::new(
            self.grid.clone(),
            self.inactive_grid.clone(),
            self.mode,
            self.scroll_region.clone(),
        )
    }

    fn restore(&mut self, state: TermState) {
        self.mode = state.mode();
        self.grid = state.grid;
        self.inactive_grid = state.inactive_grid;
        self.scroll_region = state.scroll_region;
    }

    fn linefeed(&mut self) {
        let next = self.grid.cursor.point.line.0 + 1;
        if next == self.scroll_region.end.0 {
            let region = self.scroll_region.clone();
            self.grid.scroll_up(&region, 1);
        } else if next < self.grid.screen_lines() as i32 {
            self.grid.cursor.point.line = Line(next);
        }
    }

    fn input(&mut self, c: char) {
        if self.grid.cursor.input_needs_wrap {
            self.grid.cursor_cell().flags.bits |= Flags::WRAPLINE;
            self.linefeed();
            self.grid.cursor.point.column = Column(0);
            self.grid.cursor.input_needs_wrap = false;
        }
        let cell = Cell { c, ..self.grid.cursor.template };
        *self.grid.cursor_cell() = cell;
        if self.grid.cursor.point.column.0 + 1 < self.grid.columns() {
            self.grid.cursor.point.column.0 += 1;
        } else {
            self.grid.cursor.input_needs_wrap = true;
        }
    }

    fn goto(&mut self, line: i32, column: usize) {
        self.grid.cursor.point = Point::new(Line(line), Column(column));
        self.grid.cursor.input_needs_wrap = false;
    }

    fn enter_alt_screen(&mut self) {
        self.inactive_grid.cursor = self.grid.cursor.clone();
        self.inactive_grid.reset_region((LineBound::Unbounded, LineBound::Unbounded));
        std::mem::swap(&mut self.grid, &mut self.inactive_grid);
        self.mode.bits |= TermMode::ALT_SCREEN;
    }

    fn control(&mut self, private: bool, params: &[usize], action: char) {
        let param = |i: usize| params.get(i).copied().unwrap_or(0);
        match (private, action) {
            (true, 'h') => match param(0) {
                1000 => self.mode.bits |= TermMode::MOUSE_REPORT_CLICK,
                1049 => self.enter_alt_screen(),
                2004 => self.mode.bits |= TermMode::BRACKETED_PASTE,
                other => panic!("mode {other}"),
            },
            (false, 'H') => self.goto(param(0).max(1) as i32 - 1, param(1).max(1) - 1),
            (false, 'K') => {
                let line = self.grid.cursor.point.line;
                let template = self.grid.cursor.template;
                self.grid.row_mut(line).reset(&template);
            },
            (false, 'm') => {
                for &param in params {
                    let template = &mut self.grid.cursor.template;
                    match param {
                        0 => *template = Cell::default(),
                        1 => template.flags.bits |= Flags::BOLD,
                        31 => template.fg = Color::Named(NamedColor::Red),
                        other => panic!("attribute {other}"),
                    }
                }
            },
            (false, 'r') => {
                self.scroll_region = Line(param(0) as i32 - 1)..Line(param(1) as i32);
                self.goto(0, 0);
            },
            (_, other) => panic!("control {other}"),
        }
    }

    fn advance(&mut self, bytes: &[u8]) {
        let text: Vec<char> = String::from_utf8(bytes.to_vec()).unwrap().chars().collect();
        let mut i = 0;
        while i < text.len() {
            match text[i] {
                '\r' => {
                    self.grid.cursor.point.column = Column(0);
                    self.grid.cursor.input_needs_wrap = false;
                },
                '\n' => self.linefeed(),
                '\x1b' => {
                    assert_eq!(text[i + 1], '[');
                    i += 2;
                    let private = text[i] == '?';
                    if private {
                        i += 1;
                    }
                    let start = i;
                    while !text[i].is_ascii_alphabetic() {
                        i += 1;
                    }
                    let params: String = text[start..i].iter().collect();
                    let params: Vec<usize> =
                        params.split(';').map(|param| param.parse().unwrap_or(0)).collect();
                    self.control(private, &params, text[i]);
                },
                c => self.input(c),
            }
            i += 1;
        }
    }

    /// Change the number of columns, without moving text to other lines.
    fn resize(&mut self, cols: usize) {
        let empty = Grid::new(0, cols, 0);
        let mut parts = std::mem::replace(&mut self.grid, empty).into_parts();
        for row in parts.rows.iter_mut() {
            row.grow(cols);
            row.shrink(cols);
        }
        parts.columns = cols;
        if parts.cursor.point.column.0 >= cols {
            parts.cursor.point.column = Column(cols - 1);
        }
        self.grid = Grid::from_parts(parts).unwrap();
    }

    /// Visit every cell that is displayed, and the cell of the cursor.
    fn render(&self) -> usize {
        let mut iter = self.grid.display_iter();
        let expected = iter.size_hint().0;
        let mut count = 0;
        while iter.next().is_some() {
            count += 1;
        }
        assert_eq!(count, expected);
        let _cursor_char = self.grid[self.grid.cursor.point].c;
        count
    }
}

/// Helper: create a term, push bytes through the parser, return the term.
fn term_with(cols: usize, rows: usize, input: &[u8]) -> Term {
    let mut term = Term::new(cols, rows);
    term.advance(input);
    term
}

/// Helper: extract visible text (screen only, no scrollback) trimmed.
fn visible_text(term: &Term) -> String {
    let grid = term.grid();
    let mut lines = Vec::new();
    for row_idx in 0..grid.screen_lines() {
        let line = Line(row_idx as i32);
        let mut s = String::new();
        for col_idx in 0..grid.columns() {
            let col = Column(col_idx);
            let cell = &grid[line][col];
            if cell.flags.contains(Flags::WIDE_CHAR_SPACER) {
                continue;
            }
            s.push(cell.c);
        }
        lines.push(s.trim_end().to_string());
    }
    while lines.last().is_some_and(|l| l.is_empty()) {
        lines.pop();
    }
    lines.join("\n")
}

/// Helper: compare per-cell attributes for the visible screen area.
fn assert_cells_equal(a: &Term, b: &Term) {
    assert_grids_equal(a.grid(), b.grid());
}

fn assert_grids_equal(ga: &Grid<Cell>, gb: &Grid<Cell>) {
    assert_eq!(ga.screen_lines(), gb.screen_lines());
    assert_eq!(ga.columns(), gb.columns());

    for row_idx in 0..ga.screen_lines() {
        let line = Line(row_idx as i32);
        for col_idx in 0..ga.columns() {
            let col = Column(col_idx);
            let ca = &ga[line][col];
            let cb = &gb[line][col];
            assert_eq!(ca.c, cb.c, "char mismatch at ({row_idx}, {col_idx})");
            assert_eq!(ca.fg, cb.fg, "fg mismatch at ({row_idx}, {col_idx})");
            assert_eq!(ca.bg, cb.bg, "bg mismatch at ({row_idx}, {col_idx})");
            assert_eq!(ca.flags, cb.flags, "flags mismatch at ({row_idx}, {col_idx})");
        }
    }
}

/// Store a grid, and load it again.
fn stored(grid: &Grid<Cell>) -> Grid<Cell> {
    let parts: GridParts<Cell> = grid.clone().into_stored();
    Grid::from_parts(parts).unwrap()
}

/// Store a snapshot, and load it again.
fn stored_state(state: &TermState) -> TermState {
    let bits: u32 = state.mode_bits;
    TermState::new(
        stored(&state.grid),
        stored(&state.inactive_grid),
        TermMode { bits },
        state.scroll_region.clone(),
    )
}

/// Build a Term with real scrollback by pushing lines through the parser.
fn term_with_scrollback(cols: usize, rows: usize, scrollback_lines: usize) -> Term {
    let mut term = Term::new(cols, rows);
    for n in 0..(rows + scrollback_lines) {
        let line = format!("line {n:>6}\r\n");
        term.advance(line.as_bytes());
    }
    term
}

/// Take a snapshot, store and load it, and restore it in a new terminal.
fn reconnect(snapshot_term: &Term, window_cols: usize, window_rows: usize) -> Term {
    let state = stored_state(&snapshot_term.snapshot());
    let mut restored = Term::new(window_cols, window_rows);
    restored.restore(state);
    restored
}

const EIGHT_LINES: &[u8] =
    b"line1\r\nline2\r\nline3\r\nline4\r\nline5\r\nline6\r\nline7\r\nline8";

#[test]
fn grid_serde_round_trip() {
    let term = term_with(40, 10, b"\x1b[1;31mhello\x1b[0m world\r\nline two");
    let grid = term.grid();
    let grid2 = stored(grid);

    assert_eq!(grid.columns(), grid2.columns());
    assert_eq!(grid.screen_lines(), grid2.screen_lines());
    assert_eq!(grid.topmost_line(), grid2.topmost_line());
    assert_grids_equal(grid, &grid2);
    assert_eq!(grid[Line(0)][Column(0)].c, 'h');
    assert!(*grid == grid2);
}

#[test]
fn grid_serde_preserves_scrollback() {
    let term = term_with(40, 4, EIGHT_LINES);
    let grid = term.grid();
    assert!(grid.topmost_line().0 < 0, "expected scrollback");

    let grid2 = stored(grid);
    assert_eq!(grid.topmost_line(), grid2.topmost_line());

    for line_idx in grid.topmost_line().0..0 {
        let line = Line(line_idx);
        for col_idx in 0..grid.columns() {
            let col = Column(col_idx);
            assert_eq!(
                grid[line][col].c,
                grid2[line][col].c,
                "scrollback mismatch at ({line_idx}, {col_idx})",
            );
        }
    }
}

#[test]
fn grid_serde_preserves_wrapline() {
    let term = term_with(10, 4, b"abcdefghijklmno");
    let grid = term.grid();

    assert!(
        grid[Line(0)][Column(9)].flags.contains(Flags::WRAPLINE),
        "expected WRAPLINE on first row",
    );

    let grid2 = stored(grid);
    assert!(
        grid2[Line(0)][Column(9)].flags.contains(Flags::WRAPLINE),
        "WRAPLINE lost after storing",
    );
}

#[test]
fn grid_serde_cursor_survives() {
    let term = term_with(40, 10, b"\x1b[1;31m\x1b[5;20Hhere");
    let grid = term.grid();
    assert_ne!(grid.cursor.point, Default::default());

    let grid2 = stored(grid);
    assert_eq!(grid.cursor.point, grid2.cursor.point);
    assert_eq!(grid.cursor.template.fg, grid2.cursor.template.fg);
    assert_eq!(grid.cursor.template.bg, grid2.cursor.template.bg);
    assert_eq!(grid.cursor.template.flags, grid2.cursor.template.flags);
    assert_eq!(grid.cursor.input_needs_wrap, grid2.cursor.input_needs_wrap);
}

#[test]
fn snapshot_restore_preserves_content_and_cursor() {
    let term1 = term_with(40, 10, b"\x1b[1;31mhello\x1b[0m world\r\n\x1b[5;20Hcursor here");
    let state = term1.snapshot();

    let mut term2 = Term::new(40, 10);
    term2.restore(state);

    assert_eq!(visible_text(&term1), visible_text(&term2));
    assert_eq!(term1.grid().cursor.point, term2.grid().cursor.point);
    assert_cells_equal(&term1, &term2);
    assert_eq!(visible_text(&term2).lines().next(), Some("hello world"));
}

#[test]
fn snapshot_restore_preserves_modes() {
    let term1 = term_with(40, 10, b"\x1b[?2004h\x1b[?1000hsome text");
    assert!(term1.mode().contains(TermMode::BRACKETED_PASTE));
    assert!(term1.mode().contains(TermMode::MOUSE_REPORT_CLICK));

    let state = term1.snapshot();
    let mut term2 = Term::new(40, 10);
    term2.restore(state);

    assert_eq!(*term1.mode(), *term2.mode());
}

#[test]
fn snapshot_restore_preserves_alternate_screen() {
    let mut input = Vec::new();
    input.extend_from_slice(b"primary line 1\r\nprimary line 2\r\n");
    input.extend_from_slice(b"\x1b[?1049h");
    input.extend_from_slice(b"alt screen content");

    let term1 = term_with(40, 10, &input);
    assert!(term1.mode().contains(TermMode::ALT_SCREEN));

    let state = term1.snapshot();
    let mut term2 = Term::new(40, 10);
    term2.restore(state);

    assert!(term2.mode().contains(TermMode::ALT_SCREEN));
    assert_eq!(visible_text(&term1), visible_text(&term2));
    assert_grids_equal(&term1.inactive_grid, &term2.inactive_grid);
}

#[test]
fn snapshot_restore_preserves_scroll_region() {
    let term1 = term_with(40, 10, b"\x1b[3;8rtext after region set");
    let state1 = term1.snapshot();
    let scroll_region = state1.scroll_region.clone();
    assert_ne!(scroll_region, Line(0)..Line(10));

    let mut term2 = Term::new(40, 10);
    term2.restore(state1);

    let state2 = term2.snapshot();
    assert_eq!(state2.scroll_region, scroll_region);
}

#[test]
fn snapshot_restore_preserves_scrollback() {
    let term1 = term_with(40, 4, EIGHT_LINES);
    assert!(term1.grid().topmost_line().0 < 0, "expected scrollback");

    let state = term1.snapshot();
    let mut term2 = Term::new(40, 4);
    term2.restore(state);

    assert_eq!(term1.grid().topmost_line(), term2.grid().topmost_line());
    assert_eq!(visible_text(&term1), visible_text(&term2));

    for line_idx in term1.grid().topmost_line().0..0 {
        let line = Line(line_idx);
        for col_idx in 0..term1.grid().columns() {
            let col = Column(col_idx);
            assert_eq!(
                term1.grid()[line][col].c,
                term2.grid()[line][col].c,
                "scrollback mismatch at ({line_idx}, {col_idx})",
            );
        }
    }
}

#[test]
fn stored_state_keeps_what_counts() {
    let term = term_with(40, 10, b"\x1b[?2004h\x1b[1;31mhello\x1b[0m\x1b[5;20H");
    let state = term.snapshot();
    let state2 = stored_state(&state);

    assert_eq!(state.grid.cursor.point, state2.grid.cursor.point);
    assert_eq!(state.mode(), state2.mode());
    assert_eq!(state.scroll_region, state2.scroll_region);
    assert_eq!(state.grid.columns(), state2.grid.columns());
    assert_eq!(state.grid.screen_lines(), state2.grid.screen_lines());
}

#[test]
fn unknown_mode_bits_are_dropped() {
    let state = TermState::new(
        Grid::new(1, 1, 0),
        Grid::new(1, 1, 0),
        TermMode { bits: u32::MAX },
        Line(0)..Line(1),
    );
    assert_eq!(state.mode().bits, TermMode::ALL);
    assert!(state.mode().contains(TermMode::VI | TermMode::INSERT));
    assert_eq!(state.clone().mode(), state.mode());
}

#[test]
fn serde_drops_compressed_history() {
    let mut term = term_with_scrollback(80, 24, 200);
    assert!(term.grid().history_size() >= 200);

    term.grid_mut().compact_scrollback_if_needed();
    let compressed_before = term.grid().compressed_history_len();
    assert!(compressed_before > 0, "expected some compressed rows");
    let hot_before = term.grid().history_size();

    let restored = reconnect(&term, 80, 24);

    assert_eq!(restored.grid().compressed_history_len(), 0);
    assert_eq!(restored.grid().history_size(), hot_before);
}

#[test]
fn restore_then_compact_clamps_display_offset() {
    let mut term = term_with_scrollback(80, 24, 200);

    // Scroll partway up.
    term.scroll_display(Scroll::Delta(50));
    assert_eq!(term.grid().display_offset(), 50);

    // Compact to create compressed history.
    term.grid_mut().compact_scrollback_if_needed();

    // Restore (compressed history dropped, but hot rows + display_offset kept).
    let mut restored = reconnect(&term, 80, 24);
    restored.grid_mut().compact_scrollback_if_needed();

    assert!(
        restored.grid().display_offset() <= restored.grid().history_size(),
        "display_offset ({}) > history_size ({}) after restore + compact",
        restored.grid().display_offset(),
        restored.grid().history_size(),
    );
    assert_eq!(restored.render(), 80 * 24);
}

#[test]
fn restore_same_dimensions_then_input() {
    let cols = 142;
    let rows = 24;
    let mut term = term_with_scrollback(cols, rows, 200);

    // Fill line to set input_needs_wrap.
    let fill: String = (0..cols).map(|i| (b'A' + (i % 26) as u8) as char).collect();
    term.advance(format!("\r{fill}").as_bytes());
    assert!(term.grid().cursor.input_needs_wrap);

    // Compact to create compressed history.
    term.grid_mut().compact_scrollback_if_needed();
    assert!(term.grid().compressed_history_len() > 0);

    // Restore into same-size term (no resize will be triggered).
    let mut restored = reconnect(&term, cols, rows);

    // Cursor must be valid.
    assert!(
        restored.grid().cursor.point.column.0 < cols,
        "cursor column ({}) >= grid columns ({cols})",
        restored.grid().cursor.point.column.0,
    );

    restored.advance(b"\r\n$ ");
    assert_eq!(restored.render(), cols * rows);
}

#[test]
fn restore_different_dimensions_then_input() {
    let snapshot_cols = 143;
    let window_cols = 142;
    let rows = 24;
    let mut term = term_with_scrollback(snapshot_cols, rows, 200);

    // Place cursor at last column of 143-col grid.
    let fill: String = (0..snapshot_cols).map(|i| (b'A' + (i % 26) as u8) as char).collect();
    term.advance(format!("\r{fill}").as_bytes());
    assert!(term.grid().cursor.input_needs_wrap);
    assert_eq!(term.grid().cursor.point.column, Column(snapshot_cols - 1));

    term.grid_mut().compact_scrollback_if_needed();

    let mut restored = reconnect(&term, window_cols, rows);

    // Grid has snapshot's column count after restore.
    assert_eq!(restored.grid().columns(), snapshot_cols);

    // Data arrives before the resize.
    restored.advance(b"\r\n$ ");

    restored.resize(window_cols);
    restored.grid_mut().compact_scrollback_if_needed();

    assert!(
        restored.grid().cursor.point.column.0 < window_cols,
        "cursor column ({}) >= grid columns ({window_cols}) after resize",
        restored.grid().cursor.point.column.0,
    );
    assert_eq!(restored.render(), window_cols * rows);
}

#[test]
fn restore_with_compressed_history_then_compact_reduces_below_offset() {
    let cols = 146;
    let rows = 24;
    let mut term = term_with_scrollback(cols, rows, 500);

    // Compact aggressively.
    term.grid_mut().compact_scrollback_if_needed();
    let hot = term.grid().history_size();
    let compressed = term.grid().compressed_history_len();
    assert!(compressed > 0);

    // Scroll up to near the edge of hot history.
    term.scroll_display(Scroll::Delta(hot as i32 - 1));
    let offset_before = term.grid().display_offset();
    assert!(offset_before > 0);

    // Restore: compressed rows are lost.
    let mut restored = reconnect(&term, cols, rows);
    assert_eq!(restored.grid().compressed_history_len(), 0);

    // display_offset should not exceed available history.
    assert!(restored.grid().display_offset() <= restored.grid().history_size());

    restored.grid_mut().compact_scrollback_if_needed();
    assert!(restored.grid().display_offset() <= restored.grid().history_size());
    assert_eq!(restored.render(), cols * rows);
}

#[test]
fn restore_idle_terminal_then_keypress() {
    let cols = 142;
    let rows = 24;
    let mut term = term_with_scrollback(cols, rows, 300);

    // Compaction runs every frame while idle.
    for _ in 0..10 {
        term.grid_mut().compact_scrollback_if_needed();
    }
    assert!(term.grid().compressed_history_len() > 0);

    let mut restored = reconnect(&term, cols, rows);
    for _ in 0..5 {
        restored.grid_mut().compact_scrollback_if_needed();
        restored.render();
    }

    // User presses Enter.
    restored.advance(b"\r\n$ ");
    assert_eq!(restored.render(), cols * rows);
}

#[test]
fn compressed_rows_not_resized_during_column_change() {
    // Compressed rows keep their column count when the grid's changes. When they are thawed, they
    // have to get the new one.
    let original_cols = 146;
    let rows = 24;
    let mut term = term_with_scrollback(original_cols, rows, 200);

    // Compact: oldest history rows are compressed with 146 columns.
    term.grid_mut().compact_scrollback_if_needed();
    let compressed = term.grid().compressed_history_len();
    assert!(compressed > 0, "need compressed rows for this test");

    // Grow columns to 171.
    let new_cols = 171;
    term.resize(new_cols);
    assert_eq!(term.grid().columns(), new_cols);

    // Compressed rows still exist with the OLD column count.
    assert!(term.grid().compressed_history_len() > 0);

    // Thaw the compressed rows by scrolling to the top.
    term.grid_mut().scroll_display_with_thaw(Scroll::Top);

    // Verify ALL rows now have the correct column count.
    let grid = term.grid();
    for line_idx in grid.topmost_line().0..grid.screen_lines() as i32 {
        let line = Line(line_idx);
        let row_len = grid[line].len();
        assert_eq!(
            row_len, new_cols,
            "row at line {line_idx} has {row_len} columns, expected {new_cols} \
             (was a compressed row with old width)"
        );
    }

    // 1. Clearing a line covers all columns.
    term.grid_mut().scroll_display(Scroll::Bottom);
    // CSI 2 K = clear entire line
    term.advance(b"\x1b[2K");

    // 2. All visible cells are there.
    term.render();

    // 3. The cell of the cursor is there during input.
    term.advance(b"hello");
}

#[test]
fn compressed_rows_not_resized_during_column_shrink() {
    // Same in reverse: compressed at 171 columns, then the grid shrinks to 146.
    let original_cols = 171;
    let rows = 24;
    let mut term = term_with_scrollback(original_cols, rows, 200);

    term.grid_mut().compact_scrollback_if_needed();
    assert!(term.grid().compressed_history_len() > 0);

    // Shrink columns.
    let new_cols = 146;
    term.resize(new_cols);
    assert_eq!(term.grid().columns(), new_cols);

    // Thaw compressed rows (still have 171 columns).
    term.grid_mut().scroll_display_with_thaw(Scroll::Top);

    let grid = term.grid();
    for line_idx in grid.topmost_line().0..grid.screen_lines() as i32 {
        let line = Line(line_idx);
        let row_len = grid[line].len();
        assert_eq!(
            row_len, new_cols,
            "row at line {line_idx} has {row_len} columns, expected {new_cols}"
        );
    }
}

#[test]
fn serde_restore_with_mismatched_compressed_row_widths() {
    let rows = 24;
    let mut term = term_with_scrollback(146, rows, 200);

    // Compress at 146 columns.
    term.grid_mut().compact_scrollback_if_needed();
    assert!(term.grid().compressed_history_len() > 0);

    // Resize to 171 columns (compressed rows still have 146).
    term.resize(171);

    // Snapshot and restore (compressed rows are dropped).
    let restored = reconnect(&term, 171, rows);
    assert_eq!(restored.grid().columns(), 171);

    // Thaw on the original term, THEN take the snapshot.
    term.grid_mut().scroll_display_with_thaw(Scroll::Top);
    let mut restored2 = reconnect(&term, 171, rows);
    restored2.grid_mut().scroll_display(Scroll::Top);

    // Verify row widths.
    let grid = restored2.grid();
    for line_idx in grid.topmost_line().0..grid.screen_lines() as i32 {
        let line = Line(line_idx);
        let row_len = grid[line].len();
        assert_eq!(row_len, 171, "row at line {line_idx} has {row_len} columns, expected 171");
    }

    restored2.grid_mut().scroll_display(Scroll::Bottom);
    restored2.advance(b"\x1b[2K");
    restored2.advance(b"test input");
}

#[test]
fn restore_scrolled_to_top_of_total_history() {
    let cols = 80;
    let rows = 24;
    let mut term = term_with_scrollback(cols, rows, 200);

    term.grid_mut().compact_scrollback_if_needed();
    assert!(term.grid().compressed_history_len() > 0);

    // Scroll to absolute top: thaws everything.
    term.grid_mut().scroll_display_with_thaw(Scroll::Top);
    assert_eq!(term.grid().compressed_history_len(), 0);
    let offset = term.grid().display_offset();
    assert!(offset > 0);

    let mut restored = reconnect(&term, cols, rows);

    // Everything was thawed before the snapshot, so all rows are in the ring buffer.
    assert!(restored.grid().display_offset() <= restored.grid().history_size());

    restored.grid_mut().compact_scrollback_if_needed();
    restored.render();
    restored.advance(b"hello");
}

#[test]
fn storing_drops_character_sets() {
    let mut grid: Grid<Cell> = Grid::new(2, 2, 10);
    grid.cursor.charsets[alacritty_terminal::grid::cursor::CharsetIndex::G1] =
        alacritty_terminal::grid::cursor::StandardCharset::SpecialCharacterAndLineDrawing;
    let fresh: Cursor<Cell> = Cursor::default();
    assert_ne!(grid.cursor.charsets, fresh.charsets);
    assert_eq!(stored(&grid).cursor.charsets, fresh.charsets);
    assert_ne!(grid.clone().cursor.charsets, fresh.charsets);
}
