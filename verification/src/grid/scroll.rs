//! Scrolling of regions.

use std::ops::Range;

use vstd::prelude::*;

use crate::grid::view::{cleared_rows, GridView};
use crate::grid::{min_usize, Grid, GridCell};
use crate::index::Line;

verus! {

impl<T: GridCell + Default + PartialEq> Grid<T> {
    /// Move lines at the top toward the bottom.
    pub fn scroll_down(&mut self, region: &Range<Line>, positions: usize)
        requires
            old(self).wf(),
            old(self)@.can_scroll_down(region.start.0 as int, region.end.0 as int, positions as int),
        ensures
            final(self).wf(),
            final(self)@ == old(self)@.scrolled_down(
                region.start.0 as int,
                region.end.0 as int,
                positions as int,
            ),
    {
        let start: i32 = region.start.0;
        let end: i32 = region.end.0;
        let ghost before = self@;
        let ghost h = before.history();
        let ghost down = before.scrolled_down(start as int, end as int, positions as int);

        // When rotating the entire region, just reset everything.
        if end as i128 - start as i128 <= positions as i128 {
            self.raw.reset_lines(start, end, &self.cursor.template);
            proof {
                self.raw.lemma_wf(self.columns as nat);
                assert(self@ =~= down);
            }
            return ;
        }
        let distance: i32 = positions as i32;

        // Which implementation we can use depends on the existence of a scrollback history.
        //
        // Since a scrollback history prevents us from rotating the entire buffer downwards, we
        // instead have to rely on a slower, swap-based implementation.
        if self.max_scroll_limit == 0 {
            let screen_lines: i32 = self.lines as i32;
            assert(h == 0);

            // Swap the lines fixed at the bottom to their target positions after rotation.
            //
            // Since we've made sure that the rotation will never rotate away the entire region, we
            // know that the position of the fixed lines before the rotation must already be
            // visible.
            //
            // We need to start from the top, to make sure the fixed lines aren't swapped with each
            // other.
            let mut i: i32 = end;
            while i < screen_lines
                invariant
                    self.inv(),
                    self@ == (GridView { rows: self@.rows, ..before }),
                    before.wf(),
                    before.history() == 0,
                    self@.rows.len() == before.rows.len(),
                    screen_lines == before.lines,
                    0 <= start,
                    0 <= distance < end - start,
                    end <= i <= screen_lines,
                    forall|k: int| 0 <= k < end - distance ==> #[trigger] self@.rows[k] == before.rows[k],
                    forall|k: int|
                        end - distance <= k < i - distance ==> #[trigger] self@.rows[k]
                            == before.rows[k + distance],
                    forall|k: int|
                        i <= k < before.rows.len() ==> #[trigger] self@.rows[k] == before.rows[k],
                decreases screen_lines - i,
            {
                self.raw.swap(Line(i), Line(i - distance));
                i += 1;
            }
            let ghost swapped_down = self@.rows;

            // Rotate the entire line buffer downward.
            self.raw.rotate_down(positions);
            let ghost rotated = self@.rows;
            proof {
                assert forall|k: int| distance <= k < rotated.len() implies #[trigger] rotated[k]
                    == swapped_down[k - distance] by {
                    assert(rotated.skip(distance as int)[k - distance] == rotated[k]);
                }
            }

            // Ensure all new lines are fully cleared.
            self.raw.reset_lines(0, distance, &self.cursor.template);
            let ghost cleared = cleared_rows(before.cursor.template, before.columns, 1)[0];
            proof {
                self.raw.lemma_wf(self.columns as nat);
            }

            // Swap the fixed lines at the top back into position.
            let mut i: i32 = 0;
            while i < start
                invariant
                    self.inv(),
                    self@ == (GridView { rows: self@.rows, ..before }),
                    before.wf(),
                    before.history() == 0,
                    self@.rows.len() == before.rows.len(),
                    end <= before.lines,
                    0 <= distance < end - start,
                    0 <= i <= start,
                    forall|k: int| 0 <= k < i ==> #[trigger] self@.rows[k] == before.rows[k],
                    forall|k: int|
                        i <= k < i + distance ==> #[trigger] self@.rows[k] == cleared,
                    forall|k: int|
                        i + distance <= k < end ==> #[trigger] self@.rows[k]
                            == before.rows[k - distance],
                    forall|k: int|
                        end <= k < before.rows.len() ==> #[trigger] self@.rows[k] == before.rows[k],
                decreases start - i,
            {
                self.raw.swap(Line(i), Line(i + distance));
                i += 1;
            }
        } else {
            // Subregion rotation.
            let mut line: i32 = end;
            while line > start + distance
                invariant
                    self.inv(),
                    self@ == (GridView { rows: self@.rows, ..before }),
                    before.wf(),
                    h == before.history(),
                    self@.rows.len() == before.rows.len(),
                    end <= before.lines,
                    -h <= start,
                    0 <= distance < end - start,
                    start + distance <= line <= end,
                    forall|k: int|
                        0 <= k < h + line - distance ==> #[trigger] self@.rows[k] == before.rows[k],
                    forall|k: int|
                        h + line <= k < h + end ==> #[trigger] self@.rows[k] == before.rows[k
                            - distance],
                    forall|k: int|
                        h + end <= k < before.rows.len() ==> #[trigger] self@.rows[k] == before.rows[k],
                decreases line - start,
            {
                line -= 1;
                self.raw.swap(Line(line), Line(line - distance));
            }
            self.raw.reset_lines(start, start + distance, &self.cursor.template);
        }
        proof {
            self.raw.lemma_wf(self.columns as nat);
            assert(self@ =~= down);
        }
    }

    /// Move lines at the bottom toward the top.
    ///
    /// This is the performance-sensitive part of scrolling.
    pub fn scroll_up(&mut self, region: &Range<Line>, positions: usize)
        requires
            old(self).wf(),
            old(self)@.can_scroll_up(region.start.0 as int, region.end.0 as int, positions as int),
        ensures
            final(self).wf(),
            final(self)@ == old(self)@.scrolled_up(
                region.start.0 as int,
                region.end.0 as int,
                positions as int,
            ),
    {
        let start: i32 = region.start.0;
        let end: i32 = region.end.0;
        let ghost before = self@;
        let ghost h = before.history();
        let ghost up = before.scrolled_up(start as int, end as int, positions as int);

        // When rotating the entire region with fixed lines at the top, just reset everything.
        if end as i128 - start as i128 <= positions as i128 && start != 0 {
            self.raw.reset_lines(start, end, &self.cursor.template);
            proof {
                self.raw.lemma_wf(self.columns as nat);
                assert(self@ =~= up);
            }
            return ;
        }
        let distance: i32 = positions as i32;

        // Update display offset when not pinned to active area and lines go to the history.
        if self.display_offset != 0 && start == 0 {
            self.display_offset = min_usize(
                self.display_offset.saturating_add(positions),
                self.max_scroll_limit,
            );
        }
        let ghost pinned = GridView { display_offset: up.display_offset, ..before };
        assert(self@ =~= pinned);

        // Only rotate the entire history if the active region starts at the top.
        if start == 0 {
            // Create scrollback for the new lines.
            self.increase_scroll_limit(positions);
            let ghost grown = self@;
            let ghost base = GridView { compressed: up.compressed, ..pinned };
            let ghost h2 = grown.history();
            let ghost dropped = h + positions - h2;

            // Rotate the entire line buffer upward.
            self.raw.rotate_up(positions);
            proof {
                self.raw.lemma_wf(self.columns as nat);
                assert forall|k: int| 0 <= k < grown.rows.len() - positions implies #[trigger] self@.rows[k]
                    == before.rows[k + dropped] by {
                    assert(self@.rows.take(grown.rows.len() - positions)[k] == grown.rows.skip(
                        positions as int,
                    )[k]);
                    assert(grown.rows.skip(h2 - h)[k + dropped] == before.rows[k + dropped]);
                }
            }

            // Swap the fixed lines at the bottom back into position.
            let screen_lines: i32 = self.lines as i32;
            let mut i: i32 = screen_lines;
            while i > end
                invariant
                    self.inv(),
                    self@ == (GridView { rows: self@.rows, ..base }),
                    before.wf(),
                    base.wf(),
                    base.lines == before.lines,
                    h == before.history(),
                    h2 == self@.history(),
                    dropped == h + distance - h2,
                    0 <= h2 - h <= distance,
                    h2 <= i32::MAX,
                    screen_lines == before.lines,
                    -h2 <= end - distance,
                    0 <= distance,
                    end <= i <= screen_lines,
                    forall|k: int|
                        0 <= k < h2 + i - distance ==> #[trigger] self@.rows[k] == before.rows[k
                            + dropped],
                    forall|k: int|
                        h2 + i <= k < self@.rows.len() ==> #[trigger] self@.rows[k]
                            == before.rows[k - h2 + h],
                decreases i - end,
            {
                i -= 1;
                self.raw.swap(Line(i), Line(i - distance));
            }
        } else {
            // Rotate lines without moving anything into history.
            let mut i: i32 = start;
            while i < end - distance
                invariant
                    self.inv(),
                    self@ == (GridView { rows: self@.rows, ..pinned }),
                    before.wf(),
                    pinned.wf(),
                    pinned.lines == before.lines,
                    h == before.history(),
                    self@.rows.len() == before.rows.len(),
                    end <= before.lines,
                    -h <= start,
                    0 <= distance < end - start,
                    start <= i <= end - distance,
                    forall|k: int| 0 <= k < h + start ==> #[trigger] self@.rows[k] == before.rows[k],
                    forall|k: int|
                        h + start <= k < h + i ==> #[trigger] self@.rows[k] == before.rows[k
                            + distance],
                    forall|k: int|
                        h + i + distance <= k < before.rows.len() ==> #[trigger] self@.rows[k]
                            == before.rows[k],
                decreases end - i,
            {
                self.raw.swap(Line(i), Line(i + distance));
                i += 1;
            }
        }

        // Ensure all new lines are fully cleared.
        self.raw.reset_lines(end - distance, end, &self.cursor.template);
        proof {
            self.raw.lemma_wf(self.columns as nat);
            assert(self@ =~= up);
        }
    }
}

} // verus!
