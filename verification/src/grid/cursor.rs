//! Cursors of a grid.

use std::ops::{Index, IndexMut};

use vstd::prelude::*;

use crate::grid::row::is_default;
use crate::index::{Column, Line, Point};

verus! {

/// Standardized character sets.
#[derive(Debug, Clone, Copy, PartialEq, Eq, Hash, Structural)]
pub enum StandardCharset {
    Ascii,
    SpecialCharacterAndLineDrawing,
}

/// Identifiers which can be assigned to a graphic character set.
#[derive(Debug, Clone, Copy, PartialEq, Eq, Hash, Structural)]
pub enum CharsetIndex {
    G0,
    G1,
    G2,
    G3,
}

impl CharsetIndex {
    /// The place of the identifier among all of them.
    pub open spec fn place(self) -> int {
        match self {
            CharsetIndex::G0 => 0,
            CharsetIndex::G1 => 1,
            CharsetIndex::G2 => 2,
            CharsetIndex::G3 => 3,
        }
    }

    fn to_usize(self) -> (place: usize)
        ensures
            place == self.place(),
    {
        match self {
            CharsetIndex::G0 => 0,
            CharsetIndex::G1 => 1,
            CharsetIndex::G2 => 2,
            CharsetIndex::G3 => 3,
        }
    }
}

/// The character sets of a cursor, one for each identifier.
#[derive(Debug, Clone, Copy, PartialEq, Eq)]
pub struct Charsets([StandardCharset; 4]);

impl View for Charsets {
    type V = Seq<StandardCharset>;

    closed spec fn view(&self) -> Seq<StandardCharset> {
        self.0@
    }
}

/// The character sets of a new cursor.
pub open spec fn default_charsets() -> Seq<StandardCharset> {
    seq![
        StandardCharset::Ascii,
        StandardCharset::Ascii,
        StandardCharset::Ascii,
        StandardCharset::Ascii,
    ]
}

impl Default for Charsets {
    fn default() -> (charsets: Charsets)
        ensures
            charsets@ == default_charsets(),
    {
        Charsets(
            [
                StandardCharset::Ascii,
                StandardCharset::Ascii,
                StandardCharset::Ascii,
                StandardCharset::Ascii,
            ],
        )
    }
}

impl vstd::std_specs::core::IndexSpecImpl<CharsetIndex> for Charsets {
    open spec fn index_req(&self, index: &CharsetIndex) -> bool {
        true
    }
}

impl Index<CharsetIndex> for Charsets {
    type Output = StandardCharset;

    fn index(&self, index: CharsetIndex) -> (charset: &StandardCharset)
        ensures
            *charset == self@[index.place()],
    {
        &self.0[index.to_usize()]
    }
}

impl IndexMut<CharsetIndex> for Charsets {
    fn index_mut(&mut self, index: CharsetIndex) -> (charset: &mut StandardCharset)
        ensures
            *charset == old(self)@[index.place()],
            final(self)@ == old(self)@.update(index.place(), *final(charset)),
    {
        &mut self.0[index.to_usize()]
    }
}

/// A cursor of the grid.
#[derive(Debug, PartialEq, Eq)]
pub struct Cursor<T> {
    /// The location of this cursor.
    pub point: Point,
    /// Template cell when using this cursor.
    pub template: T,
    /// Currently configured graphic character sets.
    pub charsets: Charsets,
    /// Tracks if the next call to input will need to first handle wrapping.
    ///
    /// This is true after the last column is set with the input function. Any function that
    /// implicitly sets the line or column needs to set this to false to avoid wrapping twice.
    ///
    /// Tracking `input_needs_wrap` makes it possible to not store a cursor position that exceeds
    /// the number of columns, which would lead to index out of bounds when interacting with arrays
    /// without sanitization.
    pub input_needs_wrap: bool,
}

/// Whether `copy` is a clone of `cursor`.
pub open spec fn cloned_cursor<T: Clone>(cursor: Cursor<T>, copy: Cursor<T>) -> bool {
    &&& copy == (Cursor { template: copy.template, ..cursor })
    &&& cloned(cursor.template, copy.template)
}

impl<T: Clone> Clone for Cursor<T> {
    fn clone(&self) -> (copy: Cursor<T>)
        ensures
            cloned_cursor(*self, copy),
    {
        Cursor {
            point: self.point,
            template: self.template.clone(),
            charsets: self.charsets,
            input_needs_wrap: self.input_needs_wrap,
        }
    }
}

/// A cursor that was not used yet.
pub open spec fn fresh_cursor<T: Default>(cursor: Cursor<T>) -> bool {
    &&& cursor.point == (Point { line: Line(0), column: Column(0) })
    &&& is_default(cursor.template)
    &&& cursor.charsets@ == default_charsets()
    &&& !cursor.input_needs_wrap
}

impl<T: Default> Default for Cursor<T> {
    fn default() -> (cursor: Cursor<T>)
        ensures
            fresh_cursor(cursor),
    {
        Cursor {
            point: Point::default(),
            template: T::default(),
            charsets: Charsets::default(),
            input_needs_wrap: false,
        }
    }
}

} // verus!
