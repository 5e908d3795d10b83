//! Compression of old scrollback.

use vstd::layout::size_of;
use vstd::prelude::*;

use crate::cell::{default_cell, Cell};
use crate::grid::compact::{compact_size, CompactRow};
use crate::grid::row::Row;
use crate::grid::stats::{clamped, no_activity, ScrollbackLogging, ScrollbackReport};
use crate::grid::view::{larger, smaller, GridView};
use crate::grid::{max_usize, min_usize, Dimensions, Grid, Scroll};
use crate::index::Line;

verus! {

/// Number of rows that one round of compaction compresses at most.
pub const MAX_ROWS_PER_COMPACTION: usize = 500;

/// `cells` cut off or filled up with untouched cells, so that there are `columns` of them.
pub open spec fn fitted(cells: Seq<Cell>, columns: nat) -> Seq<Cell> {
    Seq::new(
        columns,
        |i: int|
            if i < cells.len() {
                cells[i]
            } else {
                default_cell()
            },
    )
}

/// Each of the rows fitted to `columns` columns.
pub open spec fn all_fitted(rows: Seq<Seq<Cell>>, columns: nat) -> Seq<Seq<Cell>> {
    Seq::new(rows.len(), |k: int| fitted(rows[k], columns))
}

/// Number of rows that do not have `columns` columns.
pub open spec fn misfits(rows: Seq<Seq<Cell>>, columns: nat) -> nat
    decreases rows.len(),
{
    if rows.len() == 0 {
        0
    } else {
        misfits(rows.drop_last(), columns) + if rows.last().len() != columns {
            1nat
        } else {
            0
        }
    }
}

/// Length of the last row that does not have `columns` columns, zero if there is none.
pub open spec fn last_misfit(rows: Seq<Seq<Cell>>, columns: nat) -> nat
    decreases rows.len(),
{
    if rows.len() == 0 {
        0
    } else if rows.last().len() != columns {
        rows.last().len()
    } else {
        last_misfit(rows.drop_last(), columns)
    }
}

impl GridView<Cell> {
    /// All of the history and the screen, from the oldest row on.
    pub open spec fn all_rows(self) -> Seq<Seq<Cell>> {
        self.compressed + self.rows
    }

    /// The grid with all but `keep_hot` lines of its history compressed.
    pub open spec fn compacted(self, keep_hot: int) -> GridView<Cell> {
        let count = self.history() - keep_hot;
        if count <= 0 {
            self
        } else {
            GridView {
                rows: self.rows.skip(count),
                compressed: self.compressed + self.rows.take(count),
                display_offset: smaller(self.display_offset as int, keep_hot) as nat,
                stats: self.stats.compressed(count),
                ..self
            }
        }
    }

    /// The grid with its newest `count` compressed lines, or as many as there are, made hot again.
    pub open spec fn thawed(self, count: int) -> GridView<Cell> {
        let n = smaller(count, self.compressed.len() as int);
        let kept = self.compressed.len() - n;
        let woken = self.compressed.skip(kept);
        if n == 0 {
            self
        } else {
            GridView {
                rows: all_fitted(woken, self.columns) + self.rows,
                compressed: self.compressed.take(kept),
                stats: self.stats.thawed(
                    n,
                    misfits(woken, self.columns) as int,
                    last_misfit(woken, self.columns) as usize,
                    self.columns as usize,
                ),
                ..self
            }
        }
    }

    /// Number of history lines that compaction leaves alone: two screens, and what is displayed.
    pub open spec fn kept_hot(self) -> int {
        larger((self.lines * 2) as int, (self.display_offset + self.lines) as int)
    }

    /// The grid after one round of compaction.
    pub open spec fn compacted_if_needed(self) -> GridView<Cell> {
        if self.history() > self.kept_hot() {
            self.compacted(
                self.history() - smaller(
                    self.history() - self.kept_hot(),
                    MAX_ROWS_PER_COMPACTION as int,
                ),
            )
        } else {
            self
        }
    }

    /// The grid with its display moved by `scroll` over all of the history.
    pub open spec fn display_scrolled_with_thaw(self, scroll: Scroll) -> GridView<Cell> {
        let target = self.scroll_target(scroll, self.total_history());
        if target > self.history() {
            self.thawed(target - self.history()).display_scrolled(scroll)
        } else {
            self.display_scrolled(scroll)
        }
    }
}

/// Memory that the rows use when they are compressed, in bytes.
pub open spec fn total_size(rows: Seq<Seq<Cell>>) -> nat
    decreases rows.len(),
{
    if rows.len() == 0 {
        0
    } else {
        total_size(rows.drop_last()) + compact_size(rows.last()) + size_of::<CompactRow>()
    }
}

impl Grid<Cell> {
    /// Compress old scrollback rows to reduce memory usage.
    ///
    /// Rows beyond `keep_hot` lines from the visible area are compressed into
    /// `CompactRow` form and removed from the ring buffer.
    ///
    /// After compression, `history_size()` (hot rows only) decreases, but
    /// `total_history_size()` stays the same.
    pub fn compress_old_scrollback(&mut self, keep_hot: usize)
        requires
            old(self).wf(),
        ensures
            final(self).wf(),
            final(self)@ == old(self)@.compacted(keep_hot as int),
    {
        let hot_history: usize = self.history_size();
        if hot_history <= keep_hot {
            return ;
        }
        let to_compress: usize = hot_history - keep_hot;
        let ghost before = self@;

        // Compress the oldest rows first (farthest from visible area).
        let mut i: usize = 0;
        while i < to_compress
            invariant
                self.inv(),
                before.wf(),
                i <= to_compress <= hot_history == before.history(),
                self@ =~= (GridView {
                    compressed: before.compressed + before.rows.take(i as int),
                    ..before
                }),
            decreases to_compress - i,
        {
            let line = Line(-((hot_history - i) as i32));
            let compact = CompactRow::compress(self.raw.row(line));
            let ghost current = self@;
            self.compressed_history.push(compact);
            assert(self@.compressed =~= current.compressed.push(before.rows[i as int]));
            i += 1;
        }

        // Remove compressed rows from the ring buffer.
        self.raw.shrink_lines(to_compress);
        proof {
            self.raw.lemma_wf(self.columns as nat);
        }
        self.display_offset = min_usize(self.display_offset, self.history_size());

        self.scrollback_stats.record_compress(to_compress);
        assert(self@ =~= before.compacted(keep_hot as int));
    }

    /// Decompress the newest N compressed history rows back into the ring
    /// buffer so they become accessible via normal `Line` indexing.
    pub fn thaw_compressed_history(&mut self, count: usize)
        requires
            old(self).wf(),
        ensures
            final(self).wf(),
            final(self)@ == old(self)@.thawed(count as int),
    {
        let count: usize = min_usize(count, self.compressed_history.len());
        if count == 0 {
            return ;
        }
        let ghost before = self@;
        let ghost kept = before.compressed.len() - count;
        let ghost woken = before.compressed.skip(kept);

        // Make room in the ring buffer for the decompressed rows.
        self.raw.initialize(count, self.columns);
        let mut resized: usize = 0;
        let mut last_old_cols: usize = 0;

        // The new oldest slots are at the far end of history.
        let new_history: usize = self.history_size();
        let mut i: usize = 0;
        assert(self@.rows.skip(count as int) == before.rows);
        while i < count
            invariant
                self.inv(),
                self@ == (GridView { rows: self@.rows, ..before }),
                before.wf(),
                i <= count <= before.compressed.len(),
                kept == before.compressed.len() - count,
                woken == before.compressed.skip(kept),
                self@.rows.len() == before.rows.len() + count,
                new_history == self@.history(),
                self@.rows.skip(count as int) == before.rows,
                forall|k: int|
                    0 <= k < i ==> #[trigger] self@.rows[k] == fitted(woken[k], before.columns),
                resized <= i,
                resized == misfits(woken.take(i as int), before.columns),
                last_old_cols == last_misfit(woken.take(i as int), before.columns),
            decreases count - i,
        {
            let compressed_idx: usize = self.compressed_history.len() - count + i;
            let mut decompressed: Row<Cell> = self.compressed_history[compressed_idx].decompress();
            assert(decompressed@ == woken[i as int]);

            // Compressed rows may predate a column resize, so reconcile widths.
            let old_cols: usize = decompressed.len();
            if decompressed.len() < self.columns {
                decompressed.grow(self.columns);
                resized += 1;
                last_old_cols = old_cols;
            } else if decompressed.len() > self.columns {
                decompressed.shrink(self.columns);
                resized += 1;
                last_old_cols = old_cols;
            }
            proof {
                assert(woken.take(i + 1).drop_last() =~= woken.take(i as int));
                let cells = woken[i as int];
                if cells.len() < self.columns {
                    assert forall|c: int| 0 <= c < self.columns implies #[trigger] decompressed@[c]
                        == fitted(cells, before.columns)[c] by {
                        if c < cells.len() {
                            assert(decompressed@.take(cells.len() as int)[c] == cells[c]);
                        } else {
                            assert(decompressed@.skip(cells.len() as int)[c - cells.len()]
                                == decompressed@[c]);
                        }
                    }
                }
                assert(decompressed@ =~= fitted(cells, before.columns));
            }

            let line = Line(-((new_history - i) as i32));
            let ghost current = self@.rows;
            *self.raw.row_mut(line) = decompressed;
            assert(self@.rows.skip(count as int) =~= current.skip(count as int));
            i += 1;
        }

        // Remove from compressed storage.
        let left: usize = self.compressed_history.len() - count;
        self.compressed_history.truncate(left);

        self.scrollback_stats.record_thaw(count, resized, last_old_cols, self.columns);
        proof {
            self.raw.lemma_wf(self.columns as nat);
            assert(woken.take(count as int) =~= woken);
            assert(self@.rows =~= all_fitted(woken, before.columns) + before.rows) by {
                assert(self@.rows =~= self@.rows.take(count as int) + self@.rows.skip(
                    count as int,
                ));
            }
            assert(self@.compressed =~= before.compressed.take(kept));
            assert(self@ =~= before.thawed(count as int));
        }
    }

    /// Automatically compress old scrollback if hot history exceeds the threshold.
    /// Call this after operations that grow scrollback (e.g. scroll_up).
    /// The threshold is 2x the visible screen lines: recent history stays hot
    /// for fast scrolling, older history gets compressed.
    pub fn compact_scrollback_if_needed(&mut self)
        requires
            old(self).wf(),
        ensures
            final(self).wf(),
            final(self)@ == old(self)@.compacted_if_needed(),
    {
        let threshold: usize = self.lines * 2;
        let keep_hot: usize = max_usize(threshold, self.display_offset + self.lines);
        let history: usize = self.history_size();
        if history > keep_hot {
            let excess: usize = history - keep_hot;
            let batch: usize = min_usize(excess, MAX_ROWS_PER_COMPACTION);
            self.compress_old_scrollback(history - batch);
        }
    }

    /// Scroll the display, automatically thawing compressed rows if needed.
    /// This is the Cell-specific version that handles compressed history.
    pub fn scroll_display_with_thaw(&mut self, scroll: Scroll)
        requires
            old(self).wf(),
            old(self)@.can_scroll_display(scroll),
        ensures
            final(self).wf(),
            final(self)@ == old(self)@.display_scrolled_with_thaw(scroll),
    {
        let total_history: usize = self.total_history_size();
        let new_offset: usize = match scroll {
            Scroll::Delta(count) => {
                let offset: i32 = self.display_offset as i32 + count;
                let offset: usize = if offset > 0 {
                    offset as usize
                } else {
                    0
                };
                min_usize(offset, total_history)
            },
            Scroll::PageUp => min_usize(self.display_offset + self.lines, total_history),
            Scroll::PageDown => self.display_offset.saturating_sub(self.lines),
            Scroll::Top => total_history,
            Scroll::Bottom => 0,
        };

        let hot_history: usize = self.history_size();
        if new_offset > hot_history {
            let needed: usize = new_offset - hot_history;
            self.thaw_compressed_history(needed);
        }

        self.scroll_display(scroll);
    }

    /// Number of compressed history rows.
    pub fn compressed_history_len(&self) -> (n: usize)
        ensures
            n == self@.compressed.len(),
    {
        self.compressed_history.len()
    }

    /// Total history size including both hot and compressed rows.
    pub fn total_history_size(&self) -> (n: usize)
        requires
            self.wf(),
        ensures
            n == self@.total_history(),
    {
        self.history_size() + self.compressed_history.len()
    }

    /// Approximate heap memory used by compressed history, in bytes.
    pub fn compressed_history_bytes(&self) -> (bytes: usize)
        ensures
            bytes == clamped(total_size(self@.compressed) as int),
    {
        let mut bytes: usize = 0;
        let mut k: usize = 0;
        while k < self.compressed_history.len()
            invariant
                k <= self.compressed_history@.len(),
                bytes == clamped(total_size(self@.compressed.take(k as int)) as int),
            decreases self.compressed_history@.len() - k,
        {
            let row_bytes: usize = self.compressed_history[k].heap_bytes().saturating_add(
                std::mem::size_of::<CompactRow>(),
            );
            bytes = bytes.saturating_add(row_bytes);
            assert(self@.compressed.take(k + 1).drop_last() =~= self@.compressed.take(k as int));
            k += 1;
        }
        assert(self@.compressed.take(k as int) =~= self@.compressed);
        bytes
    }

    /// Line farthest up in the grid including compressed history.
    /// Use this instead of `topmost_line()` when the caller can thaw on demand.
    pub fn total_topmost_line(&self) -> (line: Line)
        requires
            self.wf(),
        ensures
            line.0 == -self@.total_history(),
    {
        Line(-(self.total_history_size() as i32))
    }

    /// Give a report on compression activity, and start counting anew, if reports are enabled,
    /// there was activity and the last report is at least 1 second old.
    ///
    /// To be called after each operation that can compress or thaw rows, with the number of rows
    /// that were compressed before it. There is no report if the operation moved no rows.
    pub fn scrollback_report(
        &mut self,
        logging: &ScrollbackLogging,
        elapsed_secs: u64,
        compressed_before: usize,
    ) -> (report: Option<ScrollbackReport>)
        requires
            old(self).wf(),
        ensures
            final(self).wf(),
            old(self)@.compressed.len() != compressed_before && old(self)@.stats.due(
                *logging,
                elapsed_secs,
            ) ==> {
                &&& report == Some(
                    old(self)@.stats.report(
                        old(self)@.history() as usize,
                        old(self)@.compressed.len() as usize,
                        old(self)@.columns as usize,
                        clamped(total_size(old(self)@.compressed) as int) as usize,
                    ),
                )
                &&& final(self)@ == (GridView {
                    stats: no_activity(),
                    ..old(self)@
                })
            },
            old(self)@.compressed.len() == compressed_before || !old(self)@.stats.due(
                *logging,
                elapsed_secs,
            ) ==> {
                &&& report is None
                &&& final(self)@ == old(self)@
            },
    {
        let hot: usize = self.history_size();
        let compressed: usize = self.compressed_history.len();
        if compressed == compressed_before {
            return None;
        }
        let compressed_bytes: usize = self.compressed_history_bytes();
        let columns: usize = self.columns;
        assert(hot * columns * 24 <= 0x7fff_ffff * 0xffff_ffff_ffff_ffff * 24 && compressed
            * columns * 24 <= 0x7fff_ffff * 0xffff_ffff_ffff_ffff * 24) by (nonlinear_arith)
            requires
                hot <= 0x7fff_ffff,
                compressed <= 0x7fff_ffff,
                columns <= 0xffff_ffff_ffff_ffff,
        ;
        self.scrollback_stats.maybe_log(
            logging,
            elapsed_secs,
            hot,
            compressed,
            columns,
            compressed_bytes,
        )
    }
}

} // verus!
