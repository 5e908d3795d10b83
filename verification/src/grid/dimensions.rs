//! Sizes of a grid.

use vstd::prelude::*;

use crate::index::{Column, Line};

verus! {

pub trait Dimensions {
    /// Number of lines in the buffer.
    spec fn spec_total_lines(&self) -> nat;

    /// Number of lines on the screen.
    spec fn spec_screen_lines(&self) -> nat;

    /// Number of columns.
    spec fn spec_columns(&self) -> nat;

    /// Total number of lines in the buffer, this includes scrollback and visible lines.
    fn total_lines(&self) -> (n: usize)
        ensures
            n == self.spec_total_lines(),
    ;

    /// Height of the viewport in lines.
    fn screen_lines(&self) -> (n: usize)
        ensures
            n == self.spec_screen_lines(),
    ;

    /// Width of the terminal in columns.
    fn columns(&self) -> (n: usize)
        ensures
            n == self.spec_columns(),
    ;

    /// Index for the last column.
    fn last_column(&self) -> (column: Column)
        requires
            self.spec_columns() >= 1,
        ensures
            column.0 == self.spec_columns() - 1,
    {
        Column(self.columns() - 1)
    }

    /// Line farthest up in the grid history.
    fn topmost_line(&self) -> (line: Line)
        requires
            self.spec_total_lines() - self.spec_screen_lines() <= i32::MAX,
        ensures
            line.0 == -history_lines(self.spec_total_lines(), self.spec_screen_lines()),
    {
        Line(-(self.history_size() as i32))
    }

    /// Line farthest down in the grid history.
    fn bottommost_line(&self) -> (line: Line)
        requires
            self.spec_screen_lines() <= i32::MAX,
        ensures
            line.0 == self.spec_screen_lines() - 1,
    {
        Line(self.screen_lines() as i32 - 1)
    }

    /// Number of invisible lines part of the scrollback history.
    fn history_size(&self) -> (n: usize)
        ensures
            n == history_lines(self.spec_total_lines(), self.spec_screen_lines()),
    {
        self.total_lines().saturating_sub(self.screen_lines())
    }
}

/// Number of lines that are not on the screen.
pub open spec fn history_lines(total: nat, screen: nat) -> int {
    if total >= screen {
        total - screen
    } else {
        0
    }
}

/// A screen of some lines and columns, without history.
impl Dimensions for (usize, usize) {
    open spec fn spec_total_lines(&self) -> nat {
        self.0 as nat
    }

    open spec fn spec_screen_lines(&self) -> nat {
        self.0 as nat
    }

    open spec fn spec_columns(&self) -> nat {
        self.1 as nat
    }

    fn total_lines(&self) -> (n: usize) {
        self.0
    }

    fn screen_lines(&self) -> (n: usize) {
        self.0
    }

    fn columns(&self) -> (n: usize) {
        self.1
    }
}

} // verus!
