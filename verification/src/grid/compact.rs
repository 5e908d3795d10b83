//! Compressed rows for old scrollback.

use vstd::layout::size_of;
use vstd::prelude::*;

use crate::cell::{default_cell, Cell, Color, Flags};
use crate::grid::row::Row;
use crate::grid::stats::clamped;

verus! {

/// The attributes of a cell, without its text.
#[derive(Debug, Clone, Copy, PartialEq, Eq, Hash, Structural)]
pub struct Style {
    pub fg: Color,
    pub bg: Color,
    pub flags: Flags,
}

/// Neighboring cells of one style.
#[derive(Debug, Clone, Copy, PartialEq, Eq, Hash, Structural)]
pub struct StyleRun {
    pub len: usize,
    pub style: Style,
}

/// A row of cells in compressed form.
///
/// The untouched cells at the end of the row are left out. Of the others the characters are stored
/// one by one, and their attributes once per run of equal ones.
#[derive(Debug)]
pub struct CompactRow {
    /// Number of cells of the row.
    columns: usize,
    /// The characters, up to the last cell that was touched.
    text: Vec<char>,
    /// The attributes of these characters.
    styles: Vec<StyleRun>,
}

/// The attributes of a cell.
pub open spec fn style_of(cell: Cell) -> Style {
    Style { fg: cell.fg, bg: cell.bg, flags: cell.flags }
}

impl Style {
    /// A cell of this style.
    fn cell(&self, c: char) -> (cell: Cell)
        ensures
            cell == styled(c, *self),
    {
        Cell { c, fg: self.fg, bg: self.bg, flags: self.flags }
    }
}

/// The cell of a character and its attributes.
pub open spec fn styled(c: char, style: Style) -> Cell {
    Cell { c, fg: style.fg, bg: style.bg, flags: style.flags }
}

/// The styles of the cells that `runs` covers, one by one.
pub open spec fn expanded(runs: Seq<StyleRun>) -> Seq<Style>
    decreases runs.len(),
{
    if runs.len() == 0 {
        Seq::empty()
    } else {
        expanded(runs.drop_last()) + Seq::new(runs.last().len as nat, |i: int| runs.last().style)
    }
}

/// Number of cells down to the last one that was touched.
pub open spec fn used_len(cells: Seq<Cell>) -> nat
    decreases cells.len(),
{
    if cells.len() == 0 {
        0
    } else if cells.last() == default_cell() {
        used_len(cells.drop_last())
    } else {
        cells.len()
    }
}

/// The cells down to the last one that was touched.
pub open spec fn used_cells(cells: Seq<Cell>) -> Seq<Cell> {
    cells.take(used_len(cells) as int)
}

/// The runs of equal styles that the cells have, each as long as possible.
pub open spec fn style_runs(cells: Seq<Cell>) -> Seq<StyleRun>
    decreases cells.len(),
{
    if cells.len() == 0 {
        Seq::empty()
    } else {
        let runs = style_runs(cells.drop_last());
        let style = style_of(cells.last());
        if runs.len() > 0 && runs.last().style == style {
            runs.update(
                runs.len() - 1,
                StyleRun { len: (runs.last().len + 1) as usize, style },
            )
        } else {
            runs.push(StyleRun { len: 1, style })
        }
    }
}

/// Memory that a compressed row of these cells owns, in bytes.
pub open spec fn compact_size(cells: Seq<Cell>) -> nat {
    used_len(cells) * size_of::<char>() + style_runs(used_cells(cells)).len() * size_of::<
        StyleRun,
    >()
}

/// All cells after the used ones are untouched, and the last used one is not.
pub proof fn lemma_used_len(cells: Seq<Cell>)
    ensures
        used_len(cells) <= cells.len(),
        forall|i: int| used_len(cells) <= i < cells.len() ==> #[trigger] cells[i] == default_cell(),
        used_len(cells) > 0 ==> cells[used_len(cells) - 1] != default_cell(),
    decreases cells.len(),
{
    if cells.len() > 0 && cells.last() == default_cell() {
        let rest = cells.drop_last();
        lemma_used_len(rest);
        assert forall|i: int| used_len(cells) <= i < cells.len() implies #[trigger] cells[i]
            == default_cell() by {
            if i < rest.len() {
                assert(rest[i] == cells[i]);
            }
        }
    }
}

/// Runs stand for the styles of the cells one by one. None of them is empty, neighbors differ, and
/// there are not more of them than cells.
pub proof fn lemma_style_runs(cells: Seq<Cell>)
    requires
        cells.len() <= usize::MAX,
    ensures
        expanded(style_runs(cells)) == Seq::new(cells.len(), |i: int| style_of(cells[i])),
        style_runs(cells).len() <= cells.len(),
        cells.len() > 0 ==> style_runs(cells).len() > 0,
        forall|k: int| 0 <= k < style_runs(cells).len() ==> (#[trigger] style_runs(cells)[k]).len > 0,
        forall|j: int, k: int|
            0 <= j < style_runs(cells).len() && k == j + 1 && k < style_runs(cells).len() ==> (
            #[trigger] style_runs(cells)[j]).style != (#[trigger] style_runs(cells)[k]).style,
    decreases cells.len(),
{
    if cells.len() > 0 {
        let rest = cells.drop_last();
        let runs = style_runs(rest);
        let style = style_of(cells.last());
        lemma_style_runs(rest);
        if runs.len() > 0 && runs.last().style == style {
            lemma_expanded_len(runs);
            lemma_expanded_grow(runs);
        } else {
            lemma_expanded_push(runs, style);
        }
    }
    assert(expanded(style_runs(cells)) =~= Seq::new(cells.len(), |i: int| style_of(cells[i])));
}

/// Cells of one style make up one run.
pub proof fn lemma_one_run(cells: Seq<Cell>)
    requires
        cells.len() <= usize::MAX,
        forall|i: int|
            0 <= i < cells.len() ==> style_of(#[trigger] cells[i]) == style_of(cells[0]),
    ensures
        style_runs(cells).len() <= 1,
    decreases cells.len(),
{
    if cells.len() > 1 {
        let rest = cells.drop_last();
        assert forall|i: int| 0 <= i < rest.len() implies style_of(#[trigger] rest[i]) == style_of(
            rest[0],
        ) by {
            assert(rest[i] == cells[i]);
        }
        lemma_one_run(rest);
        lemma_style_runs(rest);
        let run = style_runs(rest)[0];
        assert(style_runs(rest).last() == run);
        assert(style_runs(rest).drop_last() =~= Seq::empty());
        assert(expanded(style_runs(rest))[0] == run.style);
        assert(run.style == style_of(cells[0]));
        assert(style_of(cells.last()) == style_of(cells[0]));
    } else if cells.len() == 1 {
        assert(style_runs(cells.drop_last()).len() == 0);
    }
}

/// Growing the last run by one cell adds one style.
proof fn lemma_expanded_grow(runs: Seq<StyleRun>)
    requires
        runs.len() > 0,
        runs.last().len < usize::MAX,
    ensures
        ({
            let last = StyleRun { len: (runs.last().len + 1) as usize, style: runs.last().style };
            expanded(runs.update(runs.len() - 1, last)) == expanded(runs).push(runs.last().style)
        }),
{
    let last = StyleRun { len: (runs.last().len + 1) as usize, style: runs.last().style };
    let grown = runs.update(runs.len() - 1, last);
    assert(grown.drop_last() =~= runs.drop_last());
    assert(expanded(grown) =~= expanded(runs).push(runs.last().style));
}

/// A new run of one cell adds one style.
proof fn lemma_expanded_push(runs: Seq<StyleRun>, style: Style)
    ensures
        expanded(runs.push(StyleRun { len: 1, style })) == expanded(runs).push(style),
{
    let longer = runs.push(StyleRun { len: 1, style });
    assert(longer.drop_last() =~= runs);
    assert(expanded(longer) =~= expanded(runs).push(style));
}

/// The last run is not longer than all of them together.
proof fn lemma_expanded_len(runs: Seq<StyleRun>)
    requires
        runs.len() > 0,
    ensures
        runs.last().len <= expanded(runs).len(),
{
}

/// The runs before some index cover a prefix of what all of them cover.
proof fn lemma_expanded_prefix(runs: Seq<StyleRun>, k: int)
    requires
        0 <= k < runs.len(),
    ensures
        expanded(runs.take(k)).len() + runs[k].len <= expanded(runs).len(),
        forall|i: int|
            0 <= i < expanded(runs.take(k)).len() ==> expanded(runs)[i] == #[trigger] expanded(
                runs.take(k),
            )[i],
        forall|i: int|
            expanded(runs.take(k)).len() <= i < expanded(runs.take(k)).len() + runs[k].len
                ==> #[trigger] expanded(runs)[i] == runs[k].style,
    decreases runs.len(),
{
    if k == runs.len() - 1 {
        assert(runs.take(k) =~= runs.drop_last());
    } else {
        lemma_expanded_prefix(runs.drop_last(), k);
        assert(runs.drop_last().take(k) =~= runs.take(k));
    }
}

/// The product of two numbers, or the largest machine word if that is smaller.
fn saturating_product(a: usize, b: usize) -> (product: usize)
    ensures
        product == clamped(a * b),
{
    match a.checked_mul(b) {
        Some(product) => product,
        None => usize::MAX,
    }
}

impl Clone for CompactRow {
    fn clone(&self) -> (copy: CompactRow)
        ensures
            copy.cells() == self.cells(),
    {
        proof {
            use_type_invariant(self);
        }
        let text = self.text.clone();
        let styles = self.styles.clone();
        proof {
            assert(text@ =~= self.text@);
            assert(styles@ =~= self.styles@);
            assert((CompactRow { columns: self.columns, text, styles }).cells() =~= self.cells());
        }
        CompactRow { columns: self.columns, text, styles }
    }
}

impl CompactRow {
    /// The cells that the row stands for.
    pub closed spec fn cells(&self) -> Seq<Cell> {
        Seq::new(self.columns as nat, |i: int| self.cell_at(i))
    }

    spec fn cell_at(&self, i: int) -> Cell {
        if i < self.text@.len() {
            styled(self.text@[i], expanded(self.styles@)[i])
        } else {
            default_cell()
        }
    }

    spec fn consistent(&self) -> bool {
        &&& self.text@.len() <= self.columns
        &&& expanded(self.styles@).len() == self.text@.len()
    }

    /// The row is stored in the one form that its cells have: nothing is stored of the untouched
    /// cells at the end, and the runs of styles are as long as possible.
    pub closed spec fn canonical(&self) -> bool {
        let used = used_cells(self.cells());
        &&& self.text@ == Seq::new(used.len(), |i: int| used[i].c)
        &&& self.styles@ == style_runs(used)
    }

    #[verifier::type_invariant]
    spec fn inv(&self) -> bool {
        self.consistent() && self.canonical()
    }

    /// Compress a row.
    pub fn compress(row: &Row<Cell>) -> (compact: CompactRow)
        ensures
            compact.cells() == row@,
            compact.canonical(),
    {
        let columns: usize = row.len();
        let mut used: usize = columns;
        assert(row@.take(used as int) =~= row@);
        while used > 0 && *row.cell(used - 1) == Cell::default()
            invariant
                used <= columns == row@.len(),
                used_len(row@) == used_len(row@.take(used as int)),
            decreases used,
        {
            assert(row@.take(used as int).drop_last() =~= row@.take(used - 1));
            used -= 1;
        }
        let ghost cells = used_cells(row@);
        assert(used_len(row@) == used);

        let mut text: Vec<char> = Vec::with_capacity(used);
        let mut styles: Vec<StyleRun> = Vec::new();
        let mut i: usize = 0;
        while i < used
            invariant
                i <= used <= columns == row@.len(),
                cells == row@.take(used as int),
                text@.len() == i,
                forall|j: int| 0 <= j < i ==> #[trigger] text@[j] == cells[j].c,
                styles@ == style_runs(cells.take(i as int)),
            decreases used - i,
        {
            let cell: Cell = *row.cell(i);
            let style = Style { fg: cell.fg, bg: cell.bg, flags: cell.flags };
            text.push(cell.c);
            proof {
                assert(cells.take(i + 1).drop_last() =~= cells.take(i as int));
                lemma_style_runs(cells.take(i as int));
            }
            let runs: usize = styles.len();
            if runs > 0 && styles[runs - 1].style == style {
                proof {
                    lemma_expanded_len(styles@);
                }
                let len: usize = styles[runs - 1].len + 1;
                styles[runs - 1] = StyleRun { len, style };
            } else {
                styles.push(StyleRun { len: 1, style });
            }
            i += 1;
        }
        proof {
            assert(cells.take(i as int) =~= cells);
            lemma_style_runs(cells);
            lemma_used_len(row@);
            assert((CompactRow { columns, text, styles }).cells() =~= row@);
            assert(text@ =~= Seq::new(cells.len(), |k: int| cells[k].c));
        }
        CompactRow { columns, text, styles }
    }

    /// Restore the row.
    pub fn decompress(&self) -> (row: Row<Cell>)
        ensures
            row@ == self.cells(),
    {
        proof {
            use_type_invariant(self);
        }
        let mut cells: Vec<Cell> = Vec::with_capacity(self.columns);
        let mut k: usize = 0;
        while k < self.styles.len()
            invariant
                self.consistent(),
                k <= self.styles@.len(),
                cells@.len() == expanded(self.styles@.take(k as int)).len(),
                k < self.styles@.len() || cells@.len() == self.text@.len(),
                forall|i: int| 0 <= i < cells@.len() ==> #[trigger] cells@[i] == self.cells()[i],
            decreases self.styles@.len() - k,
        {
            let run: StyleRun = self.styles[k];
            let ghost start = cells@.len();
            proof {
                lemma_expanded_prefix(self.styles@, k as int);
            }
            let mut done: usize = 0;
            while done < run.len
                invariant
                    self.consistent(),
                    done <= run.len,
                    start + run.len <= self.text@.len(),
                    cells@.len() == start + done,
                    forall|i: int|
                        start <= i < start + run.len ==> #[trigger] expanded(self.styles@)[i]
                            == run.style,
                    forall|i: int|
                        0 <= i < cells@.len() ==> #[trigger] cells@[i] == self.cells()[i],
                decreases run.len - done,
            {
                let c: char = self.text[cells.len()];
                let cell: Cell = run.style.cell(c);
                assert(expanded(self.styles@)[cells@.len() as int] == run.style);
                cells.push(cell);
                done += 1;
            }
            proof {
                assert(self.styles@.take(k + 1).drop_last() =~= self.styles@.take(k as int));
                if k + 1 == self.styles@.len() {
                    assert(self.styles@.take(k + 1) =~= self.styles@);
                }
            }
            k += 1;
        }
        while cells.len() < self.columns
            invariant
                self.text@.len() <= cells@.len() <= self.columns,
                forall|i: int| 0 <= i < cells@.len() ==> #[trigger] cells@[i] == self.cells()[i],
            decreases self.columns - cells.len(),
        {
            cells.push(Cell::default());
        }
        assert(cells@ =~= self.cells());
        Row::from_cells(cells)
    }

    /// Approximate heap memory used by the row, in bytes.
    pub fn heap_bytes(&self) -> (bytes: usize)
        ensures
            bytes == clamped(compact_size(self.cells()) as int),
    {
        proof {
            use_type_invariant(self);
            lemma_used_len(self.cells());
        }
        saturating_product(self.text.len(), std::mem::size_of::<char>()).saturating_add(
            saturating_product(self.styles.len(), std::mem::size_of::<StyleRun>()),
        )
    }
}

impl CompactRow {
    /// Whether two rows are stored alike.
    pub closed spec fn same_form(&self, other: &CompactRow) -> bool {
        &&& self.columns == other.columns
        &&& self.text@ == other.text@
        &&& self.styles@ == other.styles@
    }

    /// Rows of the same cells are stored alike, and the other way round.
    pub proof fn lemma_canonical_form(&self, other: &CompactRow)
        requires
            self.canonical(),
            other.canonical(),
        ensures
            self.same_form(other) <==> self.cells() == other.cells(),
    {
        if self.same_form(other) {
            assert(self.cells() =~= other.cells());
        }
        if self.cells() == other.cells() {
            assert(self.cells().len() == self.columns);
            assert(other.cells().len() == other.columns);
        }
    }
}

impl vstd::std_specs::cmp::PartialEqSpecImpl for CompactRow {
    open spec fn obeys_eq_spec() -> bool {
        true
    }

    open spec fn eq_spec(&self, other: &CompactRow) -> bool {
        self.cells() == other.cells()
    }
}

impl PartialEq for CompactRow {
    fn eq(&self, other: &CompactRow) -> (r: bool) {
        proof {
            use_type_invariant(self);
            use_type_invariant(other);
            self.lemma_canonical_form(other);
        }
        if self.columns != other.columns || self.text.len() != other.text.len()
            || self.styles.len() != other.styles.len() {
            return false;
        }
        let mut i: usize = 0;
        while i < self.text.len()
            invariant
                self.same_form(other) <==> self.cells() == other.cells(),
                i <= self.text@.len() == other.text@.len(),
                forall|j: int| 0 <= j < i ==> #[trigger] self.text@[j] == other.text@[j],
            decreases self.text@.len() - i,
        {
            if self.text[i] != other.text[i] {
                return false;
            }
            i += 1;
        }
        let mut k: usize = 0;
        while k < self.styles.len()
            invariant
                self.same_form(other) <==> self.cells() == other.cells(),
                k <= self.styles@.len() == other.styles@.len(),
                forall|j: int| 0 <= j < k ==> #[trigger] self.styles@[j] == other.styles@[j],
            decreases self.styles@.len() - k,
        {
            if self.styles[k] != other.styles[k] {
                return false;
            }
            k += 1;
        }
        assert(self.text@ =~= other.text@);
        assert(self.styles@ =~= other.styles@);
        true
    }
}

} // verus!
