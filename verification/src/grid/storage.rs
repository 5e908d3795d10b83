//! Ring buffer of rows.

use vstd::prelude::*;
use vstd::std_specs::cmp::PartialEqSpec;

use crate::grid::row::{cloned_cells, cloned_rows, default_row, same_cells, same_rows, Row};
use crate::grid::view::with_cleared;
use crate::grid::GridCell;
use crate::index::Line;

verus! {

/// Maximum number of buffered lines outside of the grid for performance optimization.
const MAX_CACHE_SIZE: usize = 1_000;

/// The rows of a grid.
///
/// `inner` is a ring whose first element is at `zero`: that is the bottommost row of the screen,
/// and the rows above it follow one by one. Only the first `len` rows of the ring are in use, the
/// others are kept to be used again when the grid grows.
#[derive(Debug)]
pub(crate) struct Storage<T> {
    inner: Vec<Row<T>>,
    /// Index of the bottommost row.
    zero: usize,
    /// Number of rows on the screen.
    visible_lines: usize,
    /// Number of rows in use.
    len: usize,
}

/// The place in a ring of `size` elements that lies `offset` places after `zero`.
pub(crate) open spec fn ring_place(zero: int, offset: int, size: int) -> int {
    if zero + offset >= size {
        zero + offset - size
    } else {
        zero + offset
    }
}

/// `s` with the elements at `a` and `b` exchanged.
pub(crate) open spec fn swapped<A>(s: Seq<A>, a: int, b: int) -> Seq<A> {
    s.update(a, s[b]).update(b, s[a])
}

/// `list` back to front.
fn reversed<A>(list: Vec<A>) -> (result: Vec<A>)
    ensures
        result@ == list@.reverse(),
{
    let ghost all = list@;
    let mut list = list;
    let mut result: Vec<A> = Vec::with_capacity(list.len());
    loop
        invariant
            list@.len() + result@.len() == all.len(),
            list@ == all.take(list@.len() as int),
            forall|i: int| 0 <= i < result@.len() ==> #[trigger] result@[i] == all[all.len() - 1 - i],
        ensures
            list@.len() == 0,
        decreases list@.len(),
    {
        match list.pop() {
            Some(last) => {
                result.push(last);
            },
            None => {
                break ;
            },
        }
    }
    assert(result@ =~= all.reverse());
    result
}

impl<T: Clone> Storage<T> {
    /// The same rows once more.
    pub(crate) fn duplicate(&self) -> (copy: Storage<T>)
        ensures
            self.wf() ==> copy.wf(),
            forall|columns: nat| #[trigger] self.has_width(columns) ==> copy.has_width(columns),
            copy.visible() == self.visible(),
            self.wf() ==> cloned_rows(self.rows(), copy.rows()),
    {
        let inner = self.inner.clone();
        let copy = Storage {
            inner,
            zero: self.zero,
            visible_lines: self.visible_lines,
            len: self.len,
        };
        proof {
            assert forall|i: int| 0 <= i < inner@.len() implies cloned_cells(
                (#[trigger] self.inner@[i])@,
                inner@[i]@,
            ) by {
                assert(cloned(self.inner@[i], inner@[i]));
            }
        }
        copy
    }
}

impl<T> Storage<T> {
    /// Every row of the ring, from the bottommost upward.
    pub(crate) closed spec fn ring(&self) -> Seq<Seq<T>> {
        Seq::new(
            self.inner@.len(),
            |k: int| self.inner@[ring_place(self.zero as int, k, self.inner@.len() as int)]@,
        )
    }

    /// The rows in use, from the topmost downward.
    pub(crate) closed spec fn rows(&self) -> Seq<Seq<T>> {
        Seq::new(self.len as nat, |j: int| self.ring()[self.len - 1 - j])
    }

    /// Number of rows on the screen.
    pub(crate) closed spec fn visible(&self) -> nat {
        self.visible_lines as nat
    }

    /// Every row, in use or not, has `columns` cells.
    pub(crate) closed spec fn has_width(&self, columns: nat) -> bool {
        forall|i: int| 0 <= i < self.inner@.len() ==> (#[trigger] self.inner@[i])@.len() == columns
    }

    pub(crate) closed spec fn wf(&self) -> bool {
        &&& self.visible_lines <= self.len <= self.inner@.len()
        &&& self.len <= i32::MAX
        &&& self.zero < self.inner@.len() || (self.zero == 0 && self.inner@.len() == 0)
    }

    /// Number of rows in the ring.
    pub(crate) closed spec fn ring_len(&self) -> nat {
        self.inner@.len()
    }

    pub(crate) proof fn lemma_wf(&self, columns: nat)
        requires
            self.wf(),
        ensures
            self.rows().len() <= i32::MAX,
            self.visible() <= self.rows().len() <= self.ring_len(),
            self.has_width(columns) ==> forall|j: int|
                0 <= j < self.rows().len() ==> (#[trigger] self.rows()[j]).len() == columns,
    {
        if self.has_width(columns) {
            assert forall|j: int| 0 <= j < self.rows().len() implies (
            #[trigger] self.rows()[j]).len() == columns by {
                let k = ring_place(self.zero as int, self.len - 1 - j, self.inner@.len() as int);
                assert(self.inner@[k]@.len() == columns);
            }
        }
    }

    pub(crate) fn with_capacity(visible_lines: usize, columns: usize) -> (storage: Storage<
        T,
    >) where T: Default
        requires
            visible_lines <= i32::MAX,
        ensures
            storage.wf(),
            storage.has_width(columns as nat),
            storage.visible() == visible_lines,
            storage.rows().len() == visible_lines,
            forall|j: int|
                0 <= j < visible_lines ==> default_row(
                    #[trigger] storage.rows()[j],
                    columns as nat,
                ),
    {
        let mut inner: Vec<Row<T>> = Vec::with_capacity(visible_lines);
        while inner.len() < visible_lines
            invariant
                inner.len() <= visible_lines,
                forall|i: int|
                    0 <= i < inner@.len() ==> default_row(
                        (#[trigger] inner@[i])@,
                        columns as nat,
                    ),
            decreases visible_lines - inner.len(),
        {
            inner.push(Row::new(columns));
        }
        Storage { inner, zero: 0, visible_lines, len: visible_lines }
    }

    /// Number of rows in use.
    pub(crate) fn len(&self) -> (len: usize)
        ensures
            len == self.rows().len(),
    {
        self.len
    }

    /// Make the ring start at index zero of the buffer.
    fn rezero(&mut self)
        requires
            old(self).wf(),
        ensures
            final(self).wf(),
            final(self).zero == 0,
            final(self).inner@.len() == old(self).inner@.len(),
            final(self).len == old(self).len,
            final(self).visible_lines == old(self).visible_lines,
            final(self).ring() == old(self).ring(),
            forall|columns: nat|
                old(self).has_width(columns) ==> #[trigger] final(self).has_width(columns),
    {
        if self.zero == 0 {
            return ;
        }
        let ghost before = *self;
        let mut inner = self.inner.split_off(self.zero);
        inner.append(&mut self.inner);
        self.inner = inner;
        self.zero = 0;
        proof {
            assert(self.inner@ =~= before.inner@.skip(before.zero as int) + before.inner@.take(
                before.zero as int,
            ));
            assert(self.ring() =~= before.ring());
            assert forall|columns: nat| before.has_width(columns) implies #[trigger] self.has_width(
                columns,
            ) by {
                assert forall|i: int| 0 <= i < self.inner@.len() implies (
                #[trigger] self.inner@[i])@.len() == columns by {
                    let k = ring_place(before.zero as int, i, before.inner@.len() as int);
                    assert(self.inner@[i] == before.inner@[k]);
                }
            }
        }
    }

    /// Truncate the unused rows from the buffer.
    pub(crate) fn truncate(&mut self)
        requires
            old(self).wf(),
        ensures
            final(self).wf(),
            final(self).rows() == old(self).rows(),
            final(self).ring_len() == final(self).rows().len(),
            final(self).visible() == old(self).visible(),
            forall|columns: nat|
                old(self).has_width(columns) ==> #[trigger] final(self).has_width(columns),
    {
        self.rezero();
        let ghost zeroed = *self;
        self.inner.truncate(self.len);
        proof {
            assert(self.rows() =~= old(self).rows());
            assert forall|columns: nat| zeroed.has_width(columns) implies #[trigger] self.has_width(
                columns,
            ) by {
                assert forall|i: int| 0 <= i < self.inner@.len() implies (
                #[trigger] self.inner@[i])@.len() == columns by {
                    assert(self.inner@[i] == zeroed.inner@[i]);
                }
            }
        }
    }

    /// Drop the topmost `shrinkage` rows.
    pub(crate) fn shrink_lines(&mut self, shrinkage: usize)
        requires
            old(self).wf(),
            shrinkage <= old(self).rows().len() - old(self).visible(),
        ensures
            final(self).wf(),
            final(self).rows() == old(self).rows().skip(shrinkage as int),
            final(self).visible() == old(self).visible(),
            forall|columns: nat|
                old(self).has_width(columns) ==> #[trigger] final(self).has_width(columns),
    {
        self.len -= shrinkage;
        assert(self.rows() =~= old(self).rows().skip(shrinkage as int));
        assert(forall|columns: nat|
            old(self).has_width(columns) ==> #[trigger] self.has_width(columns));

        // Free memory.
        if self.inner.len() > self.len + MAX_CACHE_SIZE {
            self.truncate();
        }
    }

    /// Dynamically grow the storage buffer at runtime.
    ///
    /// The rows below keep their place. What the new rows at the top hold is only known where no
    /// unused row was there to be taken.
    pub(crate) fn initialize(&mut self, additional_rows: usize, columns: usize) where T: Default
        requires
            old(self).wf(),
            old(self).rows().len() + additional_rows <= i32::MAX,
            old(self).has_width(columns as nat),
        ensures
            final(self).wf(),
            final(self).has_width(columns as nat),
            final(self).visible() == old(self).visible(),
            final(self).rows().len() == old(self).rows().len() + additional_rows,
            final(self).rows().skip(additional_rows as int) == old(self).rows(),
            old(self).ring_len() == old(self).rows().len() ==> forall|j: int|
                0 <= j < additional_rows ==> default_row(
                    #[trigger] final(self).rows()[j],
                    columns as nat,
                ),
    {
        let ghost before = *self;
        if self.len + additional_rows > self.inner.len() {
            self.rezero();
            let growth: usize = if additional_rows > MAX_CACHE_SIZE {
                additional_rows
            } else {
                MAX_CACHE_SIZE
            };
            let realloc_size: usize = self.inner.len() + growth;
            let ghost zeroed = *self;
            while self.inner.len() < realloc_size
                invariant
                    zeroed.inner@.len() <= self.inner@.len() <= realloc_size,
                    self.inner@.take(zeroed.inner@.len() as int) == zeroed.inner@,
                    self.zero == 0,
                    self.len == zeroed.len,
                    self.visible_lines == zeroed.visible_lines,
                    forall|i: int|
                        zeroed.inner@.len() <= i < self.inner@.len() ==> default_row(
                            (#[trigger] self.inner@[i])@,
                            columns as nat,
                        ),
                decreases realloc_size - self.inner.len(),
            {
                self.inner.push(Row::new(columns));
                assert(self.inner@.take(zeroed.inner@.len() as int) =~= zeroed.inner@);
            }
            proof {
                assert(zeroed.has_width(columns as nat));
                assert forall|i: int| 0 <= i < self.inner@.len() implies (
                #[trigger] self.inner@[i])@.len() == columns by {
                    if i < zeroed.inner@.len() {
                        assert(self.inner@.take(zeroed.inner@.len() as int)[i]
                            == zeroed.inner@[i]);
                        assert(zeroed.inner@[i]@.len() == columns);
                    }
                }
                assert forall|i: int| 0 <= i < zeroed.inner@.len() implies #[trigger] self.ring()[i]
                    == before.ring()[i] by {
                    assert(self.inner@.take(zeroed.inner@.len() as int)[i] == zeroed.inner@[i]);
                    assert(zeroed.ring()[i] == before.ring()[i]);
                }
            }
        }
        self.len += additional_rows;
        proof {
            assert(self.rows().skip(additional_rows as int) =~= before.rows());
        }
    }

    /// Index of a line in the buffer.
    fn compute_index(&self, line: Line) -> (index: usize)
        requires
            self.wf(),
            -(self.rows().len() - self.visible()) <= line.0 < self.visible(),
        ensures
            index < self.inner@.len(),
            index == ring_place(
                self.zero as int,
                self.visible_lines - line.0 - 1,
                self.inner@.len() as int,
            ),
    {
        let positive: usize = (self.visible_lines as i32 - line.0 - 1) as usize;

        // Use if/else instead of remainder here to improve performance.
        if positive >= self.inner.len() - self.zero {
            positive - (self.inner.len() - self.zero)
        } else {
            self.zero + positive
        }
    }

    /// The row of `line`.
    pub(crate) fn row(&self, line: Line) -> (row: &Row<T>)
        requires
            self.wf(),
            -(self.rows().len() - self.visible()) <= line.0 < self.visible(),
        ensures
            row@ == self.rows()[line.0 + self.rows().len() - self.visible()],
    {
        let index: usize = self.compute_index(line);
        &self.inner[index]
    }

    /// The row of `line`, to be changed.
    pub(crate) fn row_mut(&mut self, line: Line) -> (row: &mut Row<T>)
        requires
            old(self).wf(),
            -(old(self).rows().len() - old(self).visible()) <= line.0 < old(self).visible(),
        ensures
            row@ == old(self).rows()[line.0 + old(self).rows().len() - old(self).visible()],
            final(self).wf(),
            final(self).visible() == old(self).visible(),
            final(self).rows() == old(self).rows().update(
                line.0 + old(self).rows().len() - old(self).visible(),
                final(row)@,
            ),
            forall|columns: nat|
                old(self).has_width(columns) && final(row)@.len() == columns
                    ==> #[trigger] final(self).has_width(columns),
    {
        let index: usize = self.compute_index(line);
        let row = &mut self.inner[index];
        row
    }

    /// Exchange the rows of two lines.
    pub(crate) fn swap(&mut self, a: Line, b: Line)
        requires
            old(self).wf(),
            -(old(self).rows().len() - old(self).visible()) <= a.0 < old(self).visible(),
            -(old(self).rows().len() - old(self).visible()) <= b.0 < old(self).visible(),
        ensures
            final(self).wf(),
            final(self).visible() == old(self).visible(),
            final(self).rows() == swapped(
                old(self).rows(),
                a.0 + old(self).rows().len() - old(self).visible(),
                b.0 + old(self).rows().len() - old(self).visible(),
            ),
            forall|columns: nat|
                old(self).has_width(columns) ==> #[trigger] final(self).has_width(columns),
    {
        let i: usize = self.compute_index(a);
        let j: usize = self.compute_index(b);
        if i == j {
            assert(self.rows() =~= swapped(
                old(self).rows(),
                a.0 + old(self).rows().len() - old(self).visible(),
                b.0 + old(self).rows().len() - old(self).visible(),
            ));
            return ;
        }
        let mut spare = Row::empty();
        std::mem::swap(&mut self.inner[i], &mut spare);
        std::mem::swap(&mut self.inner[j], &mut spare);
        std::mem::swap(&mut self.inner[i], &mut spare);
        proof {
            assert(self.rows() =~= swapped(
                old(self).rows(),
                a.0 + old(self).rows().len() - old(self).visible(),
                b.0 + old(self).rows().len() - old(self).visible(),
            ));
            assert forall|columns: nat| old(self).has_width(columns) implies #[trigger] self.has_width(
                columns,
            ) by {
                assert(old(self).inner@[i as int]@.len() == columns);
                assert(old(self).inner@[j as int]@.len() == columns);
                assert forall|k: int| 0 <= k < self.inner@.len() implies (
                #[trigger] self.inner@[k])@.len() == columns by {
                    assert(old(self).inner@[k]@.len() == columns);
                }
            }
        }
    }

    /// Rotate the ring by `count`, which moves every row `count` lines up.
    ///
    /// The topmost rows leave, and the bottommost rows are taken from the far end of the ring: of
    /// what those hold nothing is known.
    pub(crate) fn rotate_up(&mut self, count: usize)
        requires
            old(self).wf(),
            count <= old(self).rows().len(),
        ensures
            final(self).wf(),
            final(self).visible() == old(self).visible(),
            final(self).rows().len() == old(self).rows().len(),
            final(self).rows().take(old(self).rows().len() - count) == old(self).rows().skip(
                count as int,
            ),
            forall|columns: nat|
                old(self).has_width(columns) ==> #[trigger] final(self).has_width(columns),
    {
        if count <= self.zero {
            self.zero -= count;
        } else {
            self.zero = self.inner.len() - (count - self.zero);
        }
        assert(forall|columns: nat|
            old(self).has_width(columns) ==> #[trigger] self.has_width(columns));
        assert(self.rows().take(old(self).rows().len() - count) =~= old(self).rows().skip(
            count as int,
        ));
    }

    /// Rotate the ring by `count`, which moves every row `count` lines down.
    ///
    /// The bottommost rows leave, and the topmost rows are taken from the far end of the ring: of
    /// what those hold nothing is known.
    pub(crate) fn rotate_down(&mut self, count: usize)
        requires
            old(self).wf(),
            count < old(self).rows().len(),
        ensures
            final(self).wf(),
            final(self).visible() == old(self).visible(),
            final(self).rows().len() == old(self).rows().len(),
            final(self).rows().skip(count as int) == old(self).rows().take(
                old(self).rows().len() - count,
            ),
            forall|columns: nat|
                old(self).has_width(columns) ==> #[trigger] final(self).has_width(columns),
    {
        if count >= self.inner.len() - self.zero {
            self.zero = count - (self.inner.len() - self.zero);
        } else {
            self.zero += count;
        }
        assert(forall|columns: nat|
            old(self).has_width(columns) ==> #[trigger] self.has_width(columns));
        assert(self.rows().skip(count as int) =~= old(self).rows().take(
            old(self).rows().len() - count,
        ));
    }

    /// Reset the rows of the lines from `start` up to `end`.
    pub(crate) fn reset_lines(&mut self, start: i32, end: i32, template: &T) where T: GridCell
        requires
            old(self).wf(),
            start < end ==> -(old(self).rows().len() - old(self).visible()) <= start && end
                <= old(self).visible(),
        ensures
            final(self).wf(),
            final(self).visible() == old(self).visible(),
            final(self).rows() == with_cleared(
                old(self).rows(),
                start + old(self).rows().len() - old(self).visible(),
                end + old(self).rows().len() - old(self).visible(),
                *template,
            ),
            forall|columns: nat|
                old(self).has_width(columns) ==> #[trigger] final(self).has_width(columns),
    {
        let ghost before = *self;
        let ghost h = self.rows().len() - self.visible();
        let mut line: i32 = start;
        while line < end
            invariant
                self.wf(),
                self.visible() == before.visible(),
                h == before.rows().len() - before.visible(),
                start < end ==> -h <= start && end <= before.visible() && line <= end,
                start <= line,
                start >= end ==> line == start,
                self.rows() =~= with_cleared(before.rows(), start + h, line + h, *template),
                forall|columns: nat|
                    before.has_width(columns) ==> #[trigger] self.has_width(columns),
            decreases end - line,
        {
            let ghost current = *self;
            self.row_mut(Line(line)).reset(template);
            proof {
                assert forall|columns: nat| before.has_width(columns) implies #[trigger] self.has_width(
                    columns,
                ) by {
                    assert(current.has_width(columns));
                    current.lemma_wf(columns);
                    assert(current.rows()[line + h].len() == columns);
                }
            }
            line += 1;
        }
        assert(self.rows() =~= with_cleared(before.rows(), start + h, end + h, *template));
    }

    /// The buffer of the given rows, listed from the topmost downward.
    pub(crate) fn from_rows(rows: Vec<Row<T>>, visible_lines: usize) -> (storage: Storage<T>)
        requires
            visible_lines <= rows@.len() <= i32::MAX,
        ensures
            storage.wf(),
            storage.visible() == visible_lines,
            storage.rows() == Seq::new(rows@.len(), |k: int| rows@[k]@),
            forall|columns: nat|
                (forall|k: int| 0 <= k < rows@.len() ==> (#[trigger] rows@[k])@.len() == columns)
                    ==> #[trigger] storage.has_width(columns),
    {
        let ghost listed = rows@;
        let len: usize = rows.len();
        let inner = reversed(rows);
        let storage = Storage { inner, zero: 0, visible_lines, len };
        proof {
            assert(storage.rows() =~= Seq::new(listed.len(), |k: int| listed[k]@));
            assert forall|columns: nat|
                (forall|k: int| 0 <= k < listed.len() ==> (#[trigger] listed[k])@.len() == columns)
                implies #[trigger] storage.has_width(columns) by {
                assert forall|i: int| 0 <= i < storage.inner@.len() implies (
                #[trigger] storage.inner@[i])@.len() == columns by {
                    assert(listed[listed.len() - 1 - i]@.len() == columns);
                }
            }
        }
        storage
    }

    /// The rows in use, listed from the topmost downward.
    pub(crate) fn into_rows(self) -> (rows: Vec<Row<T>>)
        requires
            self.wf(),
        ensures
            Seq::new(rows@.len(), |k: int| rows@[k]@) == self.rows(),
    {
        let mut storage = self;
        storage.truncate();
        storage.rezero();
        let ghost trimmed = storage;
        let rows = reversed(storage.inner);
        assert(Seq::new(rows@.len(), |k: int| rows@[k]@) =~= trimmed.rows());
        rows
    }
}

impl<T> Storage<T> {
    /// Whether the ring is consistent.
    fn is_wf(&self) -> (r: bool)
        ensures
            r == self.wf(),
    {
        self.visible_lines <= self.len && self.len <= self.inner.len() && self.len
            <= i32::MAX as usize && (self.zero < self.inner.len() || (self.zero == 0
            && self.inner.len() == 0))
    }
}

impl<T: PartialEq> Storage<T> {
    /// Whether both buffers are consistent and have rows that compare equal.
    pub(crate) fn same_as(&self, other: &Storage<T>) -> (r: bool)
        ensures
            T::obeys_eq_spec() ==> r == (self.wf() && other.wf() && self.visible()
                == other.visible() && same_rows(self.rows(), other.rows())),
    {
        if !self.is_wf() || !other.is_wf() || self.visible_lines != other.visible_lines || self.len
            != other.len {
            return false;
        }
        let ghost h = self.len - self.visible_lines;
        let end: i32 = self.visible_lines as i32;
        let mut line: i32 = -((self.len - self.visible_lines) as i32);
        while line < end
            invariant
                self.wf(),
                other.wf(),
                self.visible_lines == other.visible_lines == end,
                self.len == other.len,
                h == self.len - self.visible_lines,
                -h <= line <= end,
                T::obeys_eq_spec() ==> forall|j: int|
                    0 <= j < line + h ==> same_cells(#[trigger] self.rows()[j], other.rows()[j]),
            decreases end - line,
        {
            if *self.row(Line(line)) != *other.row(Line(line)) {
                assert(T::obeys_eq_spec() ==> !same_cells(
                    self.rows()[line + h],
                    other.rows()[line + h],
                ));
                return false;
            }
            line += 1;
        }
        true
    }
}

} // verus!
