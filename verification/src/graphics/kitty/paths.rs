//! Directories for temporary files.

use vstd::prelude::*;

verus! {

/// An absolute path without links, as the names of the directories on the way and of the file.
#[derive(Debug, Clone)]
pub struct ResolvedPath {
    pub components: Vec<Vec<u8>>,
}

impl View for ResolvedPath {
    type V = Seq<Seq<u8>>;

    open spec fn view(&self) -> Seq<Seq<u8>> {
        Seq::new(self.components@.len(), |i: int| self.components@[i]@)
    }
}

/// How two values compare.
#[derive(Debug, Clone, Copy, PartialEq, Eq, Structural)]
pub enum Placement {
    Before,
    Same,
    After,
}

/// Dictionary order of names.
pub open spec fn name_before(a: Seq<u8>, b: Seq<u8>) -> bool
    decreases a.len(),
{
    if b.len() == 0 {
        false
    } else if a.len() == 0 {
        true
    } else if a[0] != b[0] {
        a[0] < b[0]
    } else {
        name_before(a.drop_first(), b.drop_first())
    }
}

/// Order of paths: dictionary order by name.
pub open spec fn path_before(a: Seq<Seq<u8>>, b: Seq<Seq<u8>>) -> bool
    decreases a.len(),
{
    if b.len() == 0 {
        false
    } else if a.len() == 0 {
        true
    } else if a[0] != b[0] {
        name_before(a[0], b[0])
    } else {
        path_before(a.drop_first(), b.drop_first())
    }
}

proof fn lemma_name_transitive(a: Seq<u8>, b: Seq<u8>, c: Seq<u8>)
    requires
        name_before(a, b),
        name_before(b, c),
    ensures
        name_before(a, c),
    decreases a.len(),
{
    if a.len() > 0 && b.len() > 0 && c.len() > 0 && a[0] == b[0] && b[0] == c[0] {
        lemma_name_transitive(a.drop_first(), b.drop_first(), c.drop_first());
    }
}

proof fn lemma_name_irreflexive(a: Seq<u8>)
    ensures
        !name_before(a, a),
    decreases a.len(),
{
    if a.len() > 0 {
        lemma_name_irreflexive(a.drop_first());
    }
}

proof fn lemma_path_transitive(a: Seq<Seq<u8>>, b: Seq<Seq<u8>>, c: Seq<Seq<u8>>)
    requires
        path_before(a, b),
        path_before(b, c),
    ensures
        path_before(a, c),
    decreases a.len(),
{
    if a.len() > 0 && b.len() > 0 && c.len() > 0 {
        if a[0] == b[0] && b[0] == c[0] {
            lemma_path_transitive(a.drop_first(), b.drop_first(), c.drop_first());
        } else if a[0] != b[0] && b[0] != c[0] {
            lemma_name_transitive(a[0], b[0], c[0]);
            lemma_name_irreflexive(a[0]);
        }
    }
}

/// Whether `path` lies in one of the directories, or is one of them.
pub open spec fn within(path: Seq<Seq<u8>>, dirs: Seq<ResolvedPath>) -> bool {
    exists|i: int| 0 <= i < dirs.len() && (#[trigger] dirs[i])@.is_prefix_of(path)
}

/// Whether `path` is one of the directories.
pub open spec fn listed(dirs: Seq<ResolvedPath>, path: Seq<Seq<u8>>) -> bool {
    exists|i: int| 0 <= i < dirs.len() && (#[trigger] dirs[i])@ == path
}

/// Whether `path` is one of the directories that could be resolved.
pub open spec fn found(dirs: Seq<Option<ResolvedPath>>, path: Seq<Seq<u8>>) -> bool {
    exists|i: int|
        0 <= i < dirs.len() && (#[trigger] dirs[i] matches Some(dir) && dir@ == path)
}

/// Each directory comes before those that follow it.
pub open spec fn in_order(dirs: Seq<ResolvedPath>) -> bool {
    forall|i: int, j: int|
        0 <= i < j < dirs.len() ==> path_before((#[trigger] dirs[i])@, (#[trigger] dirs[j])@)
}

/// Compare two names.
fn compare_names(a: &Vec<u8>, b: &Vec<u8>) -> (r: Placement)
    ensures
        r == Placement::Before <==> name_before(a@, b@),
        r == Placement::Same <==> a@ == b@,
        r == Placement::After ==> name_before(b@, a@),
{
    let mut i: usize = 0;
    assert(a@.skip(0) =~= a@);
    assert(b@.skip(0) =~= b@);
    while i < a.len() && i < b.len()
        invariant
            i <= a@.len(),
            i <= b@.len(),
            a@.take(i as int) == b@.take(i as int),
            name_before(a@, b@) == name_before(a@.skip(i as int), b@.skip(i as int)),
            name_before(b@, a@) == name_before(b@.skip(i as int), a@.skip(i as int)),
        decreases a@.len() - i,
    {
        if a[i] < b[i] {
            return Placement::Before;
        }
        if a[i] > b[i] {
            return Placement::After;
        }
        assert(a@.skip(i as int).drop_first() =~= a@.skip(i + 1));
        assert(b@.skip(i as int).drop_first() =~= b@.skip(i + 1));
        assert(a@.take(i + 1) =~= a@.take(i as int).push(a@[i as int]));
        assert(b@.take(i + 1) =~= b@.take(i as int).push(b@[i as int]));
        i += 1;
    }
    if i < b.len() {
        Placement::Before
    } else if i < a.len() {
        Placement::After
    } else {
        assert(a@ =~= a@.take(i as int));
        assert(b@ =~= b@.take(i as int));
        proof {
            lemma_name_irreflexive(a@);
        }
        Placement::Same
    }
}

impl ResolvedPath {
    /// Compare two paths.
    pub fn compare(&self, other: &ResolvedPath) -> (r: Placement)
        ensures
            r == Placement::Before <==> path_before(self@, other@),
            r == Placement::Same <==> self@ == other@,
            r == Placement::After ==> path_before(other@, self@),
    {
        let a = &self.components;
        let b = &other.components;
        let ghost (pa, pb) = (self@, other@);
        let mut i: usize = 0;
        assert(pa.skip(0) =~= pa);
        assert(pb.skip(0) =~= pb);
        while i < a.len() && i < b.len()
            invariant
                a@ == self.components@,
                b@ == other.components@,
                pa == self@,
                pb == other@,
                i <= pa.len(),
                i <= pb.len(),
                pa.take(i as int) == pb.take(i as int),
                path_before(pa, pb) == path_before(pa.skip(i as int), pb.skip(i as int)),
                path_before(pb, pa) == path_before(pb.skip(i as int), pa.skip(i as int)),
            decreases pa.len() - i,
        {
            assert(pa.skip(i as int)[0] == a@[i as int]@);
            assert(pb.skip(i as int)[0] == b@[i as int]@);
            match compare_names(&a[i], &b[i]) {
                Placement::Before => {
                    return Placement::Before;
                },
                Placement::After => {
                    return Placement::After;
                },
                Placement::Same => {},
            }
            assert(pa.skip(i as int).drop_first() =~= pa.skip(i + 1));
            assert(pb.skip(i as int).drop_first() =~= pb.skip(i + 1));
            assert(pa.take(i + 1) =~= pa.take(i as int).push(pa[i as int]));
            assert(pb.take(i + 1) =~= pb.take(i as int).push(pb[i as int]));
            i += 1;
        }
        if i < b.len() {
            Placement::Before
        } else if i < a.len() {
            Placement::After
        } else {
            assert(pa =~= pa.take(i as int));
            assert(pb =~= pb.take(i as int));
            assert(!path_before(pa.skip(i as int), pb.skip(i as int)));
            Placement::Same
        }
    }

    /// Whether the path lies in `dir`, or is that directory.
    pub fn starts_with(&self, dir: &ResolvedPath) -> (r: bool)
        ensures
            r == dir@.is_prefix_of(self@),
    {
        if dir.components.len() > self.components.len() {
            return false;
        }
        let mut i: usize = 0;
        while i < dir.components.len()
            invariant
                i <= dir.components@.len() <= self.components@.len(),
                forall|j: int| 0 <= j < i ==> #[trigger] dir@[j] == self@[j],
            decreases dir.components@.len() - i,
        {
            if compare_names(&dir.components[i], &self.components[i]) != Placement::Same {
                assert(dir@[i as int] != self@[i as int]);
                assert(self@.subrange(0, dir@.len() as int)[i as int] == self@[i as int]);
                return false;
            }
            i += 1;
        }
        assert(dir@ =~= self@.subrange(0, dir@.len() as int));
        true
    }

    /// Whether the path lies in one of the directories, or is one of them.
    pub fn is_within(&self, dirs: &Vec<ResolvedPath>) -> (r: bool)
        ensures
            r == within(self@, dirs@),
    {
        let mut i: usize = 0;
        while i < dirs.len()
            invariant
                i <= dirs@.len(),
                forall|j: int| 0 <= j < i ==> !(#[trigger] dirs@[j])@.is_prefix_of(self@),
            decreases dirs@.len() - i,
        {
            if self.starts_with(&dirs[i]) {
                return true;
            }
            i += 1;
        }
        false
    }
}

/// Where temporary files may be.
#[derive(Debug, Clone)]
pub enum TempDirSource {
    /// The directory that the system names.
    System,
    /// A fixed directory.
    Path(String),
    /// The directory that the environment variable `TMPDIR` names, if it is set.
    TmpdirVariable,
}

/// A place for temporary files as a mathematical value.
pub enum TempDirSourceView {
    System,
    Path(Seq<char>),
    TmpdirVariable,
}

impl View for TempDirSource {
    type V = TempDirSourceView;

    open spec fn view(&self) -> TempDirSourceView {
        match self {
            TempDirSource::System => TempDirSourceView::System,
            TempDirSource::Path(path) => TempDirSourceView::Path(path@),
            TempDirSource::TmpdirVariable => TempDirSourceView::TmpdirVariable,
        }
    }
}

/// The places to look for temporary files, on Unix and on Linux.
pub open spec fn temp_dir_places(unix: bool, linux: bool) -> Seq<TempDirSourceView> {
    seq![TempDirSourceView::System] + (if unix {
        seq![TempDirSourceView::Path("/tmp"@)]
    } else {
        Seq::empty()
    }) + (if linux {
        seq![TempDirSourceView::Path("/dev/shm"@)]
    } else {
        Seq::empty()
    }) + seq![TempDirSourceView::TmpdirVariable]
}

/// The places to look for temporary files.
///
/// Covers platform differences: on macOS, the system's directory is `$TMPDIR`
/// (e.g. `/var/folders/.../T/`) while many tools write to `/tmp` (which
/// resolves to `/private/tmp`). Both are included on Unix.
pub fn temp_dir_sources(unix: bool, linux: bool) -> (sources: Vec<TempDirSource>)
    ensures
        Seq::new(sources@.len(), |i: int| sources@[i]@) == temp_dir_places(unix, linux),
{
    let mut sources: Vec<TempDirSource> = Vec::new();
    sources.push(TempDirSource::System);
    if unix {
        sources.push(TempDirSource::Path("/tmp".to_owned()));
    }
    if linux {
        sources.push(TempDirSource::Path("/dev/shm".to_owned()));
    }
    sources.push(TempDirSource::TmpdirVariable);
    assert(Seq::new(sources@.len(), |i: int| sources@[i]@) =~= temp_dir_places(unix, linux));
    sources
}

/// Returns a sorted list, without repetitions, of the temp directories that could be resolved.
pub fn known_temp_dirs(resolved: Vec<Option<ResolvedPath>>) -> (dirs: Vec<ResolvedPath>)
    ensures
        in_order(dirs@),
        forall|path: Seq<Seq<u8>>| #[trigger] listed(dirs@, path) == found(resolved@, path),
{
    let ghost all = resolved@;
    let mut resolved = resolved;
    let mut dirs: Vec<ResolvedPath> = Vec::new();
    loop
        invariant
            resolved@.len() <= all.len(),
            resolved@ == all.take(resolved@.len() as int),
            in_order(dirs@),
            forall|path: Seq<Seq<u8>>|
                #[trigger] listed(dirs@, path) == found(
                    all.skip(resolved@.len() as int),
                    path,
                ),
        ensures
            resolved@.len() == 0,
        decreases resolved@.len(),
    {
        let ghost rest = all.skip(resolved@.len() as int);
        match resolved.pop() {
            Some(next) => {
                let ghost next_view = next;
                let ghost longer = all.skip(resolved@.len() as int);
                assert(longer =~= seq![next_view] + rest);
                let ghost before = dirs@;
                match next {
                    Some(dir) => {
                        let ghost added = dir@;
                        insert_in_order(&mut dirs, dir);
                        proof {
                            assert forall|path: Seq<Seq<u8>>| #[trigger]
                                listed(dirs@, path) == found(longer, path) by {
                                assert(listed(dirs@, path) == (listed(before, path) || path
                                    == added));
                                lemma_found_prepend(next_view, rest, path);
                            }
                        }
                    },
                    None => {
                        proof {
                            assert forall|path: Seq<Seq<u8>>| #[trigger]
                                listed(dirs@, path) == found(longer, path) by {
                                lemma_found_prepend(next_view, rest, path);
                            }
                        }
                    },
                }
            },
            None => {
                break ;
            },
        }
    }
    assert(all.skip(0) =~= all);
    dirs
}

proof fn lemma_found_prepend(
    first: Option<ResolvedPath>,
    rest: Seq<Option<ResolvedPath>>,
    path: Seq<Seq<u8>>,
)
    ensures
        found(seq![first] + rest, path) == (found(rest, path) || (first matches Some(dir)
            && dir@ == path)),
{
    let all = seq![first] + rest;
    if found(all, path) {
        let i = choose|i: int|
            0 <= i < all.len() && (#[trigger] all[i] matches Some(dir) && dir@ == path);
        if i > 0 {
            assert(rest[i - 1] == all[i]);
        }
    }
    if found(rest, path) {
        let i = choose|i: int|
            0 <= i < rest.len() && (#[trigger] rest[i] matches Some(dir) && dir@ == path);
        assert(all[i + 1] == rest[i]);
    }
    if first matches Some(dir) && dir@ == path {
        assert(all[0] == first);
    }
}

/// Put a directory in its place, unless it is there already.
fn insert_in_order(dirs: &mut Vec<ResolvedPath>, dir: ResolvedPath)
    requires
        in_order(old(dirs)@),
    ensures
        in_order(final(dirs)@),
        forall|path: Seq<Seq<u8>>| #[trigger]
            listed(final(dirs)@, path) == (listed(old(dirs)@, path) || path == dir@),
{
    let ghost before = dirs@;
    let mut place: usize = 0;
    while place < dirs.len()
        invariant_except_break
            forall|i: int| 0 <= i < place ==> path_before((#[trigger] dirs@[i])@, dir@),
        invariant
            dirs@ == before,
            place <= dirs@.len(),
        ensures
            forall|i: int| 0 <= i < place ==> path_before((#[trigger] dirs@[i])@, dir@),
            place < dirs@.len() ==> dirs@[place as int]@ == dir@ || path_before(
                dir@,
                dirs@[place as int]@,
            ),
        decreases dirs@.len() - place,
    {
        if dirs[place].compare(&dir) != Placement::Before {
            break ;
        }
        place += 1;
    }
    if place < dirs.len() && dirs[place].compare(&dir) == Placement::Same {
        assert(listed(before, dir@));
        return ;
    }
    let ghost added = dir;
    dirs.insert(place, dir);
    proof {
        assert forall|i: int, j: int| 0 <= i < j < dirs@.len() implies path_before(
            (#[trigger] dirs@[i])@,
            (#[trigger] dirs@[j])@,
        ) by {
            if i == place {
                assert(dirs@[j] == before[j - 1]);
                if j - 1 > place {
                    lemma_path_transitive(added@, before[place as int]@, before[j - 1]@);
                }
            } else if j == place {
                assert(dirs@[i] == before[i]);
            } else {
                let bi = if i < place { i } else { i - 1 };
                let bj = if j < place { j } else { j - 1 };
                assert(dirs@[i] == before[bi]);
                assert(dirs@[j] == before[bj]);
            }
        }
        assert forall|path: Seq<Seq<u8>>| #[trigger]
            listed(dirs@, path) == (listed(before, path) || path == added@) by {
            if listed(before, path) {
                let i = choose|i: int| 0 <= i < before.len() && (#[trigger] before[i])@ == path;
                let k = if i < place { i } else { i + 1 };
                assert(dirs@[k] == before[i]);
            }
            if path == added@ {
                assert(dirs@[place as int] == added);
            }
            if listed(dirs@, path) {
                let k = choose|k: int| 0 <= k < dirs@.len() && (#[trigger] dirs@[k])@ == path;
                if k != place {
                    let i = if k < place { k } else { k - 1 };
                    assert(dirs@[k] == before[i]);
                }
            }
        }
    }
}

} // verus!
