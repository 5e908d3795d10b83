//! Accounting of scrollback compression.

use vstd::prelude::*;

verus! {

/// Bytes that a cell of an uncompressed row takes up, as far as the reports are concerned.
pub const BYTES_PER_CELL: u128 = 24;

/// Whether scrollback compression activity is reported.
#[derive(Debug, Clone, Copy, PartialEq, Eq, Structural)]
pub struct ScrollbackLogging {
    pub enabled: bool,
}

/// Activity is reported unless this was switched off.
impl Default for ScrollbackLogging {
    fn default() -> (logging: ScrollbackLogging)
        ensures
            logging.enabled,
    {
        ScrollbackLogging { enabled: true }
    }
}

/// Enable or disable scrollback compression debug logging at runtime.
pub fn set_scrollback_logging(logging: &mut ScrollbackLogging, enabled: bool)
    ensures
        final(logging).enabled == enabled,
{
    logging.enabled = enabled;
}

/// Tracks compression/decompression activity for periodic debug logging.
///
/// Accumulates counts between reports, then resets. Counts stay at their largest value once they
/// have reached it.
#[derive(Debug, Clone, Copy, PartialEq, Eq, Structural)]
pub struct ScrollbackStats {
    pub rows_compressed: usize,
    pub rows_thawed: usize,
    pub rows_resized_on_thaw: usize,
    pub resize_from_cols: usize,
    pub resize_to_cols: usize,
}

/// What a report is about.
#[derive(Debug, Clone, Copy, PartialEq, Eq, Structural)]
pub enum Activity {
    /// Rows were compressed and rows were thawed.
    Both,
    /// Rows were only compressed.
    Compressed,
    /// Rows were only thawed.
    Thawed,
}

/// Compression activity since the last report, and the memory that the scrollback takes up now.
#[derive(Debug, Clone, Copy, PartialEq, Eq, Structural)]
pub struct ScrollbackReport {
    pub activity: Activity,
    /// The counts since the last report.
    pub stats: ScrollbackStats,
    /// Number of uncompressed history rows.
    pub hot: usize,
    /// Number of compressed history rows.
    pub compressed: usize,
    /// Number of history rows.
    pub total: usize,
    /// Memory used by the compressed rows, in bytes.
    pub compressed_bytes: usize,
    /// Memory used by the uncompressed rows, in bytes.
    pub hot_bytes: u128,
    /// Memory that the compressed rows would use if they were not compressed, in bytes.
    pub expanded_bytes: u128,
    /// Memory that compression saves, in bytes.
    pub saved_bytes: u128,
}

/// The smaller of `n` and the largest machine word.
pub open spec fn clamped(n: int) -> int {
    if n <= usize::MAX {
        n
    } else {
        usize::MAX as int
    }
}

/// The counts of a grid without any activity.
pub open spec fn no_activity() -> ScrollbackStats {
    ScrollbackStats {
        rows_compressed: 0,
        rows_thawed: 0,
        rows_resized_on_thaw: 0,
        resize_from_cols: 0,
        resize_to_cols: 0,
    }
}

impl ScrollbackStats {
    /// The counts after `count` more rows were compressed.
    pub open spec fn compressed(self, count: int) -> ScrollbackStats {
        ScrollbackStats { rows_compressed: clamped(self.rows_compressed + count) as usize, ..self }
    }

    /// The counts after `count` more rows were thawed, `resized` of them with a new width.
    pub open spec fn thawed(
        self,
        count: int,
        resized: int,
        from_cols: usize,
        to_cols: usize,
    ) -> ScrollbackStats {
        ScrollbackStats {
            rows_compressed: self.rows_compressed,
            rows_thawed: clamped(self.rows_thawed + count) as usize,
            rows_resized_on_thaw: clamped(self.rows_resized_on_thaw + resized) as usize,
            resize_from_cols: if resized > 0 {
                from_cols
            } else {
                self.resize_from_cols
            },
            resize_to_cols: if resized > 0 {
                to_cols
            } else {
                self.resize_to_cols
            },
        }
    }

    /// Whether a report is due `elapsed_secs` seconds after the last one.
    pub open spec fn due(self, logging: ScrollbackLogging, elapsed_secs: u64) -> bool {
        &&& logging.enabled
        &&& self.rows_compressed != 0 || self.rows_thawed != 0
        &&& elapsed_secs >= 1
    }

    /// The report on these counts.
    pub open spec fn report(
        self,
        hot: usize,
        compressed: usize,
        columns: usize,
        compressed_bytes: usize,
    ) -> ScrollbackReport {
        let expanded = compressed * columns * BYTES_PER_CELL;
        ScrollbackReport {
            activity: if self.rows_compressed > 0 && self.rows_thawed > 0 {
                Activity::Both
            } else if self.rows_compressed > 0 {
                Activity::Compressed
            } else {
                Activity::Thawed
            },
            stats: self,
            hot,
            compressed,
            total: (hot + compressed) as usize,
            compressed_bytes,
            hot_bytes: (hot * columns * BYTES_PER_CELL) as u128,
            expanded_bytes: expanded as u128,
            saved_bytes: if expanded > compressed_bytes {
                (expanded - compressed_bytes) as u128
            } else {
                0
            },
        }
    }

    /// Record that rows were compressed.
    pub fn record_compress(&mut self, count: usize)
        ensures
            *final(self) == old(self).compressed(count as int),
    {
        self.rows_compressed = self.rows_compressed.saturating_add(count);
    }

    /// Record that rows were thawed, with optional resize info.
    pub fn record_thaw(&mut self, count: usize, resized: usize, from_cols: usize, to_cols: usize)
        ensures
            *final(self) == old(self).thawed(count as int, resized as int, from_cols, to_cols),
    {
        self.rows_thawed = self.rows_thawed.saturating_add(count);
        self.rows_resized_on_thaw = self.rows_resized_on_thaw.saturating_add(resized);
        if resized > 0 {
            self.resize_from_cols = from_cols;
            self.resize_to_cols = to_cols;
        }
    }

    /// Give a report, and start counting anew, if at least 1 second has elapsed since the last one
    /// and there's activity.
    pub fn maybe_log(
        &mut self,
        logging: &ScrollbackLogging,
        elapsed_secs: u64,
        hot: usize,
        compressed: usize,
        columns: usize,
        compressed_bytes: usize,
    ) -> (report: Option<ScrollbackReport>)
        requires
            hot + compressed <= usize::MAX,
            hot * columns * BYTES_PER_CELL <= u128::MAX,
            compressed * columns * BYTES_PER_CELL <= u128::MAX,
        ensures
            old(self).due(*logging, elapsed_secs) ==> {
                &&& report == Some(old(self).report(hot, compressed, columns, compressed_bytes))
                &&& *final(self) == no_activity()
            },
            !old(self).due(*logging, elapsed_secs) ==> report is None && *final(self) == *old(self),
    {
        if !logging.enabled {
            return None;
        }
        if self.rows_compressed == 0 && self.rows_thawed == 0 {
            return None;
        }
        if elapsed_secs < 1 {
            return None;
        }
        let total: usize = hot + compressed;
        assert(0 <= hot * columns && 0 <= compressed * columns) by (nonlinear_arith);
        let hot_bytes: u128 = hot as u128 * columns as u128 * BYTES_PER_CELL;
        let expanded_bytes: u128 = compressed as u128 * columns as u128 * BYTES_PER_CELL;
        let saved_bytes: u128 = expanded_bytes.saturating_sub(compressed_bytes as u128);
        let activity = if self.rows_compressed > 0 && self.rows_thawed > 0 {
            Activity::Both
        } else if self.rows_compressed > 0 {
            Activity::Compressed
        } else {
            Activity::Thawed
        };
        let report = ScrollbackReport {
            activity,
            stats: *self,
            hot,
            compressed,
            total,
            compressed_bytes,
            hot_bytes,
            expanded_bytes,
            saved_bytes,
        };
        *self = ScrollbackStats::default();
        Some(report)
    }
}

impl Default for ScrollbackStats {
    fn default() -> (stats: ScrollbackStats)
        ensures
            stats == no_activity(),
    {
        ScrollbackStats {
            rows_compressed: 0,
            rows_thawed: 0,
            rows_resized_on_thaw: 0,
            resize_from_cols: 0,
            resize_to_cols: 0,
        }
    }
}

} // verus!
