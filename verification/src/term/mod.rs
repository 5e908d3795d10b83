//! State of the terminal.

use vstd::prelude::*;

pub mod serialize;

pub use self::serialize::TermState;

verus! {

/// Modes of the terminal.
#[derive(Debug, Clone, Copy, PartialEq, Eq, Hash, Structural)]
pub struct TermMode {
    pub bits: u32,
}

impl TermMode {
    pub const SHOW_CURSOR: u32 = 1;

    pub const APP_CURSOR: u32 = 2;

    pub const APP_KEYPAD: u32 = 4;

    pub const MOUSE_REPORT_CLICK: u32 = 8;

    pub const BRACKETED_PASTE: u32 = 0x10;

    pub const SGR_MOUSE: u32 = 0x20;

    pub const MOUSE_MOTION: u32 = 0x40;

    pub const LINE_WRAP: u32 = 0x80;

    pub const LINE_FEED_NEW_LINE: u32 = 0x100;

    pub const ORIGIN: u32 = 0x200;

    pub const INSERT: u32 = 0x400;

    pub const FOCUS_IN_OUT: u32 = 0x800;

    pub const ALT_SCREEN: u32 = 0x1000;

    pub const MOUSE_DRAG: u32 = 0x2000;

    pub const UTF8_MOUSE: u32 = 0x4000;

    pub const ALTERNATE_SCROLL: u32 = 0x8000;

    pub const VI: u32 = 0x1_0000;

    pub const URGENCY_HINTS: u32 = 0x2_0000;

    pub const DISAMBIGUATE_ESC_CODES: u32 = 0x4_0000;

    pub const REPORT_EVENT_TYPES: u32 = 0x8_0000;

    pub const REPORT_ALTERNATE_KEYS: u32 = 0x10_0000;

    pub const REPORT_ALL_KEYS_AS_ESC: u32 = 0x20_0000;

    pub const REPORT_ASSOCIATED_TEXT: u32 = 0x40_0000;

    /// Every mode.
    pub const ALL: u32 = 0x7f_ffff;

    /// The modes among `bits`; bits that stand for no mode are dropped.
    pub fn from_bits_truncate(bits: u32) -> (mode: TermMode)
        ensures
            mode.bits == bits & TermMode::ALL,
    {
        TermMode { bits: bits & TermMode::ALL }
    }

    /// Whether every mode of `mask` is set.
    pub fn contains(&self, mask: u32) -> (r: bool)
        ensures
            r == (self.bits & mask == mask),
    {
        self.bits & mask == mask
    }
}

} // verus!
