//! One line of cells.

use std::ops::Index;

use vstd::prelude::*;
use vstd::std_specs::cmp::PartialEqSpec;

use crate::grid::GridCell;
use crate::index::Column;

verus! {

/// Whether `Default` may give `value`.
pub open spec fn is_default<T: Default>(value: T) -> bool {
    call_ensures(T::default, (), value)
}

/// A row of `columns` cells, each of which `Default` may give.
pub open spec fn default_row<T: Default>(row: Seq<T>, columns: nat) -> bool {
    row.len() == columns && forall|i: int| 0 <= i < columns ==> is_default(#[trigger] row[i])
}

/// A row of `columns` cells that were reset from `template`.
pub open spec fn cleared_row<T: GridCell>(template: T, columns: nat) -> Seq<T> {
    Seq::new(columns, |i: int| T::cleared(template))
}

/// Whether each cell of `copy` is a clone of the cell of `row` at its place.
pub open spec fn cloned_cells<T: Clone>(row: Seq<T>, copy: Seq<T>) -> bool {
    &&& copy.len() == row.len()
    &&& forall|i: int| 0 <= i < row.len() ==> cloned(#[trigger] row[i], copy[i])
}

/// Whether each row of `copy` is a clone of the row of `rows` at its place.
pub open spec fn cloned_rows<T: Clone>(rows: Seq<Seq<T>>, copy: Seq<Seq<T>>) -> bool {
    &&& copy.len() == rows.len()
    &&& forall|k: int| 0 <= k < rows.len() ==> cloned_cells(#[trigger] rows[k], copy[k])
}

/// A row in the grid.
#[derive(Debug)]
pub struct Row<T> {
    inner: Vec<T>,
}

impl<T> View for Row<T> {
    type V = Seq<T>;

    closed spec fn view(&self) -> Seq<T> {
        self.inner@
    }
}

impl<T: Clone> Clone for Row<T> {
    fn clone(&self) -> (copy: Row<T>)
        ensures
            cloned_cells(self@, copy@),
    {
        Row { inner: self.inner.clone() }
    }
}

impl<T> Row<T> {
    /// A row without any cells.
    pub(crate) fn empty() -> (row: Row<T>)
        ensures
            row@ == Seq::<T>::empty(),
    {
        Row { inner: Vec::new() }
    }

    /// The row of the given cells.
    pub fn from_cells(cells: Vec<T>) -> (row: Row<T>)
        ensures
            row@ == cells@,
    {
        Row { inner: cells }
    }

    /// Create a new terminal row.
    pub fn new(columns: usize) -> (row: Row<T>) where T: Default
        ensures
            default_row(row@, columns as nat),
    {
        let mut row = Row::empty();
        row.grow(columns);
        proof {
            assert(row@.skip(0) =~= row@);
        }
        row
    }

    /// Increase the number of columns in the row, to `columns` if it has fewer.
    pub fn grow(&mut self, columns: usize) where T: Default
        ensures
            columns <= old(self)@.len() ==> final(self)@ == old(self)@,
            columns > old(self)@.len() ==> {
                &&& final(self)@.len() == columns
                &&& final(self)@.take(old(self)@.len() as int) == old(self)@
                &&& default_row(
                    final(self)@.skip(old(self)@.len() as int),
                    (columns - old(self)@.len()) as nat,
                )
            },
    {
        let ghost before = self@;
        while self.inner.len() < columns
            invariant
                self.inner.len() <= columns || self@ == before,
                self@.len() >= before.len(),
                self@.take(before.len() as int) == before,
                forall|i: int| before.len() <= i < self@.len() ==> is_default(#[trigger] self@[i]),
            decreases columns - self.inner.len(),
        {
            self.inner.push(T::default());
        }
    }

    /// Reduce the number of columns in the row, to `columns` if it has more.
    pub fn shrink(&mut self, columns: usize)
        ensures
            columns <= old(self)@.len() ==> final(self)@ == old(self)@.take(columns as int),
            columns > old(self)@.len() ==> final(self)@ == old(self)@,
    {
        self.inner.truncate(columns);
    }

    /// Reset all cells in the row to the `template` cell.
    pub fn reset(&mut self, template: &T) where T: GridCell
        ensures
            final(self)@ == cleared_row(*template, old(self)@.len()),
    {
        let ghost before = self@;
        let mut i: usize = 0;
        while i < self.inner.len()
            invariant
                i <= self@.len(),
                self@.len() == before.len(),
                forall|j: int| 0 <= j < i ==> #[trigger] self@[j] == T::cleared(*template),
            decreases self@.len() - i,
        {
            self.inner[i].reset(template);
            i += 1;
        }
    }

    /// Number of cells in the row.
    pub fn len(&self) -> (len: usize)
        ensures
            len == self@.len(),
    {
        self.inner.len()
    }

    /// The cell in `column`.
    pub fn cell(&self, column: usize) -> (cell: &T)
        requires
            column < self@.len(),
        ensures
            *cell == self@[column as int],
    {
        &self.inner[column]
    }

    /// The cell in `column`, to be changed.
    pub fn cell_mut(&mut self, column: usize) -> (cell: &mut T)
        requires
            column < old(self)@.len(),
        ensures
            *cell == old(self)@[column as int],
            final(self)@ == old(self)@.update(column as int, *final(cell)),
    {
        &mut self.inner[column]
    }
}

impl<T> vstd::std_specs::core::IndexSpecImpl<Column> for Row<T> {
    open spec fn index_req(&self, index: &Column) -> bool {
        index.0 < self@.len()
    }
}

impl<T> Index<Column> for Row<T> {
    type Output = T;

    fn index(&self, index: Column) -> (cell: &T)
        ensures
            *cell == self@[index.0 as int],
    {
        self.cell(index.0)
    }
}

/// Whether two rows have cells that compare equal.
pub open spec fn same_cells<T: PartialEq>(a: Seq<T>, b: Seq<T>) -> bool {
    a.len() == b.len() && forall|i: int| 0 <= i < a.len() ==> (#[trigger] a[i]).eq_spec(&b[i])
}

/// Whether two lists of rows have cells that compare equal.
pub open spec fn same_rows<T: PartialEq>(a: Seq<Seq<T>>, b: Seq<Seq<T>>) -> bool {
    a.len() == b.len() && forall|j: int| 0 <= j < a.len() ==> same_cells(#[trigger] a[j], b[j])
}

impl<T: PartialEq> vstd::std_specs::cmp::PartialEqSpecImpl for Row<T> {
    open spec fn obeys_eq_spec() -> bool {
        T::obeys_eq_spec()
    }

    open spec fn eq_spec(&self, other: &Row<T>) -> bool {
        same_cells(self@, other@)
    }
}

impl<T: PartialEq> PartialEq for Row<T> {
    fn eq(&self, other: &Row<T>) -> (r: bool) {
        if self.inner.len() != other.inner.len() {
            return false;
        }
        let mut i: usize = 0;
        while i < self.inner.len()
            invariant
                i <= self@.len() == other@.len(),
                T::obeys_eq_spec() ==> forall|j: int|
                    0 <= j < i ==> (#[trigger] self@[j]).eq_spec(&other@[j]),
            decreases self@.len() - i,
        {
            if self.inner[i] != other.inner[i] {
                return false;
            }
            i += 1;
        }
        true
    }
}

} // verus!
