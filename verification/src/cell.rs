//! Terminal cells.

use vstd::prelude::*;

use crate::grid::GridCell;

verus! {

/// Attributes of a cell.
#[derive(Debug, Clone, Copy, PartialEq, Eq, Hash, Structural)]
pub struct Flags {
    pub bits: u16,
}

impl Flags {
    pub const INVERSE: u16 = 1;

    pub const BOLD: u16 = 2;

    pub const ITALIC: u16 = 4;

    pub const UNDERLINE: u16 = 8;

    pub const WRAPLINE: u16 = 16;

    pub const WIDE_CHAR: u16 = 32;

    pub const WIDE_CHAR_SPACER: u16 = 64;

    pub const DIM: u16 = 128;

    pub const HIDDEN: u16 = 256;

    pub const STRIKEOUT: u16 = 512;

    pub const LEADING_WIDE_CHAR_SPACER: u16 = 1024;

    /// Whether every bit of `mask` is set.
    pub fn contains(&self, mask: u16) -> (r: bool)
        ensures
            r == (self.bits & mask == mask),
    {
        self.bits & mask == mask
    }

    /// Whether any bit of `mask` is set.
    pub fn intersects(&self, mask: u16) -> (r: bool)
        ensures
            r == (self.bits & mask != 0),
    {
        self.bits & mask != 0
    }
}

/// Attributes that make a cell visible without any text in it.
pub const VISIBLE_FLAGS: u16 = 1 | 8 | 16 | 64 | 512 | 1024;

/// Colors with a name.
#[derive(Debug, Clone, Copy, PartialEq, Eq, Hash, Structural)]
pub enum NamedColor {
    Black,
    Red,
    Green,
    Yellow,
    Blue,
    Magenta,
    Cyan,
    White,
    Foreground,
    Background,
}

/// Color of a cell.
#[derive(Debug, Clone, Copy, PartialEq, Eq, Hash, Structural)]
pub enum Color {
    Named(NamedColor),
    Spec { r: u8, g: u8, b: u8 },
    Indexed(u8),
}

/// Content and attributes of a single cell in the terminal grid.
#[derive(Debug, Clone, Copy, Eq, Hash)]
pub struct Cell {
    pub c: char,
    pub fg: Color,
    pub bg: Color,
    pub flags: Flags,
}

impl vstd::std_specs::cmp::PartialEqSpecImpl for Cell {
    open spec fn obeys_eq_spec() -> bool {
        true
    }

    open spec fn eq_spec(&self, other: &Cell) -> bool {
        *self == *other
    }
}

impl PartialEq for Cell {
    fn eq(&self, other: &Cell) -> (r: bool) {
        self.c == other.c && self.fg == other.fg && self.bg == other.bg && self.flags
            == other.flags
    }
}

/// A space in the given background color.
pub open spec fn space_on(bg: Color) -> Cell {
    Cell { c: ' ', fg: Color::Named(NamedColor::Foreground), bg, flags: Flags { bits: 0 } }
}

/// The cell of an untouched grid.
pub open spec fn default_cell() -> Cell {
    space_on(Color::Named(NamedColor::Background))
}

impl Default for Cell {
    fn default() -> (cell: Cell)
        ensures
            cell == default_cell(),
    {
        Cell {
            c: ' ',
            fg: Color::Named(NamedColor::Foreground),
            bg: Color::Named(NamedColor::Background),
            flags: Flags { bits: 0 },
        }
    }
}

impl GridCell for Cell {
    open spec fn blank(&self) -> bool {
        &&& self.c == ' ' || self.c == '\t'
        &&& self.fg == Color::Named(NamedColor::Foreground)
        &&& self.bg == Color::Named(NamedColor::Background)
        &&& self.flags.bits & VISIBLE_FLAGS == 0
    }

    open spec fn cleared(template: Cell) -> Cell {
        space_on(template.bg)
    }

    open spec fn spec_flags(&self) -> Flags {
        self.flags
    }

    open spec fn with_flags(self, flags: Flags) -> Cell {
        Cell { flags, ..self }
    }

    fn is_empty(&self) -> (r: bool) {
        (self.c == ' ' || self.c == '\t') && self.fg == Color::Named(NamedColor::Foreground)
            && self.bg == Color::Named(NamedColor::Background) && !self.flags.intersects(
            VISIBLE_FLAGS,
        )
    }

    fn reset(&mut self, template: &Cell) {
        let mut cell = Cell::default();
        cell.bg = template.bg;
        *self = cell;
    }

    fn flags(&self) -> (flags: &Flags) {
        &self.flags
    }

    fn flags_mut(&mut self) -> (flags: &mut Flags) {
        &mut self.flags
    }
}

} // verus!
