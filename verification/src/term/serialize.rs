//! Terminal state snapshots.
//!
//! Captures the full terminal state (both grid buffers, cursor, mode flags,
//! and scroll region) as a [`TermState`] struct that can be stored in any
//! format and later applied back to a terminal.

use std::ops::Range;

use vstd::prelude::*;

use crate::cell::Cell;
use crate::grid::laws::law_clones_hold_the_same;
use crate::grid::Grid;
use crate::index::Line;
use crate::term::TermMode;

verus! {

/// Complete terminal state.
///
/// Captures everything needed to restore a terminal session after reconnect:
/// both grid buffers (active and inactive, covering alternate screen), cursor
/// position and template, terminal mode flags, and scroll region.
///
/// # What is captured
///
/// | Field | Purpose |
/// |---|---|
/// | `grid` | Active grid with cursor, scrollback, cell content & attributes |
/// | `inactive_grid` | Inactive buffer (primary when alt screen is active, or vice versa) |
/// | `mode_bits` | `TermMode` bits: bracketed paste, mouse mode, alt screen, etc. |
/// | `scroll_region` | DECSTBM scroll region (top..bottom viewport lines) |
///
/// # What is NOT captured (defaults on restore)
///
/// - Character set mappings (`Charsets`), which are almost never non-default
/// - Tab stops, reconstructed as standard 8-column stops
/// - Window title / title stack
/// - Keyboard mode stack
/// - Terminal colour overrides (come from client config)
/// - Cursor style (comes from client config)
/// - Selection state (client-side UI)
/// - Vi mode cursor (client-side UI)
#[derive(Debug)]
pub struct TermState {
    /// Active grid (primary or alternate, depending on mode).
    pub grid: Grid<Cell>,
    /// Inactive grid (the other buffer).
    pub inactive_grid: Grid<Cell>,
    /// Terminal mode flags as raw `TermMode` bits.
    ///
    /// Use [`TermState::mode()`] to get the typed value.
    pub mode_bits: u32,
    /// Scroll region (top..bottom viewport lines).
    pub scroll_region: Range<Line>,
}

impl Clone for TermState {
    fn clone(&self) -> (copy: TermState)
        ensures
            self.grid.wf() ==> copy.grid.wf() && copy.grid@ == self.grid@,
            self.inactive_grid.wf() ==> copy.inactive_grid.wf() && copy.inactive_grid@
                == self.inactive_grid@,
            copy.mode_bits == self.mode_bits,
            copy.scroll_region == self.scroll_region,
    {
        let copy = TermState {
            grid: self.grid.clone(),
            inactive_grid: self.inactive_grid.clone(),
            mode_bits: self.mode_bits,
            scroll_region: self.scroll_region.start..self.scroll_region.end,
        };
        proof {
            if self.grid.wf() {
                law_clones_hold_the_same(self.grid@, copy.grid@);
            }
            if self.inactive_grid.wf() {
                law_clones_hold_the_same(self.inactive_grid@, copy.inactive_grid@);
            }
        }
        copy
    }
}

impl TermState {
    pub fn new(
        grid: Grid<Cell>,
        inactive_grid: Grid<Cell>,
        mode: TermMode,
        scroll_region: Range<Line>,
    ) -> (state: TermState)
        ensures
            state == (TermState { grid, inactive_grid, mode_bits: mode.bits, scroll_region }),
    {
        TermState { grid, inactive_grid, mode_bits: mode.bits, scroll_region }
    }

    /// Terminal mode flags.
    pub fn mode(&self) -> (mode: TermMode)
        ensures
            mode.bits == self.mode_bits & TermMode::ALL,
    {
        TermMode::from_bits_truncate(self.mode_bits)
    }
}

/// Modes survive being stored as bits: what was set is set, what was not is not.
pub proof fn law_modes_survive(bits: u32, mask: u32)
    requires
        mask & TermMode::ALL == mask,
    ensures
        (bits & TermMode::ALL) & mask == bits & mask,
        (bits & TermMode::ALL) & TermMode::ALL == bits & TermMode::ALL,
{
    let all = TermMode::ALL;
    assert((bits & all) & mask == bits & mask) by (bit_vector)
        requires
            mask & all == mask,
    ;
    assert((bits & all) & all == bits & all) by (bit_vector);
}

/// Each mode is a bit of its own, and there are no other modes: none of them is dropped when bits
/// are taken for modes.
pub proof fn law_every_mode_is_a_bit()
    ensures
        TermMode::ALL == TermMode::SHOW_CURSOR + TermMode::APP_CURSOR + TermMode::APP_KEYPAD
            + TermMode::MOUSE_REPORT_CLICK + TermMode::BRACKETED_PASTE + TermMode::SGR_MOUSE
            + TermMode::MOUSE_MOTION + TermMode::LINE_WRAP + TermMode::LINE_FEED_NEW_LINE
            + TermMode::ORIGIN + TermMode::INSERT + TermMode::FOCUS_IN_OUT + TermMode::ALT_SCREEN
            + TermMode::MOUSE_DRAG + TermMode::UTF8_MOUSE + TermMode::ALTERNATE_SCROLL
            + TermMode::VI + TermMode::URGENCY_HINTS + TermMode::DISAMBIGUATE_ESC_CODES
            + TermMode::REPORT_EVENT_TYPES + TermMode::REPORT_ALTERNATE_KEYS
            + TermMode::REPORT_ALL_KEYS_AS_ESC + TermMode::REPORT_ASSOCIATED_TEXT,
        forall|i: u32| i < 23 ==> #[trigger] (1u32 << i) & TermMode::ALL == 1u32 << i,
{
    assert(forall|i: u32| i < 23 ==> #[trigger] (1u32 << i) & 0x7f_ffff == 1u32 << i)
        by (bit_vector);
}

} // verus!
