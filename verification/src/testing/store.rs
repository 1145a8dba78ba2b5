//! Where baselines and failure artifacts live.
//!
//! Paths are `/`-separated strings. A relative path is joined to a directory
//! the way `std::path::Path::join` joins it on Unix.

use vstd::prelude::*;
use vstd::string::StringExecFns;

use crate::testing::name::{
    component_end, component_end_at, law_valid_names_stay_below_their_root, lemma_component_end,
    name_error, SnapshotName,
};
use crate::text::chars_of;

verus! {

/// `relative` appended to `dir`, with one `/` between them.
pub open spec fn join_path(dir: Seq<char>, relative: Seq<char>) -> Seq<char> {
    if dir.len() == 0 {
        relative
    } else if dir.last() == '/' {
        dir + relative
    } else {
        dir + seq!['/'] + relative
    }
}

/// The non-empty components of `path` from `start` on, leaving out `.` components.
pub open spec fn components_from(path: Seq<char>, start: int) -> Seq<Seq<char>>
    decreases path.len() - start,
{
    if start < 0 || start > path.len() {
        Seq::empty()
    } else {
        let end = component_end(path, start);
        proof {
            lemma_component_end(path, start);
        }
        let component = path.subrange(start, end);
        let rest = if end < path.len() {
            components_from(path, end + 1)
        } else {
            Seq::empty()
        };
        if component.len() == 0 || component == seq!['.'] {
            rest
        } else {
            seq![component] + rest
        }
    }
}

/// The lexical components of a directory path.
pub open spec fn path_components(path: Seq<char>) -> Seq<Seq<char>> {
    components_from(path, 0)
}

pub open spec fn is_absolute(path: Seq<char>) -> bool {
    path.len() > 0 && path[0] == '/'
}

pub open spec fn is_prefix_of(short: Seq<Seq<char>>, long: Seq<Seq<char>>) -> bool {
    short.len() <= long.len() && short == long.take(short.len() as int)
}

/// Two directories are lexically equal, or one lies inside the other.
pub open spec fn roots_overlap(a: Seq<char>, b: Seq<char>) -> bool {
    &&& is_absolute(a) == is_absolute(b)
    &&& (is_prefix_of(path_components(a), path_components(b)) || is_prefix_of(
        path_components(b),
        path_components(a),
    ))
}

/// Overlap does not depend on the order of the two directories.
pub proof fn law_roots_overlap_is_symmetric(a: Seq<char>, b: Seq<char>)
    ensures
        roots_overlap(a, b) == roots_overlap(b, a),
{
}

/// Every directory overlaps itself.
pub proof fn law_root_overlaps_itself(a: Seq<char>)
    ensures
        roots_overlap(a, a),
{
    assert(path_components(a).take(path_components(a).len() as int) =~= path_components(a));
}

// ---------------------------------------------------------------------------
// Components of joined paths
// ---------------------------------------------------------------------------

proof fn lemma_end_in_suffix(p: Seq<char>, q: Seq<char>, t: int)
    requires
        0 <= t <= q.len(),
    ensures
        component_end(p + q, p.len() + t) == p.len() + component_end(q, t),
    decreases q.len() - t,
{
    if t < q.len() && q[t] != '/' {
        assert((p + q)[p.len() + t] == q[t]);
        lemma_end_in_suffix(p, q, t + 1);
    } else if t < q.len() {
        assert((p + q)[p.len() + t] == q[t]);
    }
}

proof fn lemma_components_of_suffix(p: Seq<char>, q: Seq<char>, t: int)
    requires
        0 <= t <= q.len(),
    ensures
        components_from(p + q, p.len() + t) == components_from(q, t),
    decreases q.len() - t,
{
    lemma_end_in_suffix(p, q, t);
    lemma_component_end(q, t);
    let e = component_end(q, t);
    assert((p + q).subrange(p.len() + t, p.len() + e) =~= q.subrange(t, e));
    if e < q.len() {
        lemma_components_of_suffix(p, q, e + 1);
    }
}

proof fn lemma_end_in_prefix(p: Seq<char>, q: Seq<char>, s: int)
    requires
        0 <= s <= p.len(),
    ensures
        component_end(p, s) < p.len() ==> component_end(p + q, s) == component_end(p, s),
        component_end(p, s) == p.len() ==> component_end(p + q, s) == p.len() + component_end(
            q,
            0,
        ),
    decreases p.len() - s,
{
    lemma_component_end(p, s);
    if s < p.len() {
        assert((p + q)[s] == p[s]);
        if p[s] != '/' {
            lemma_end_in_prefix(p, q, s + 1);
        }
    } else {
        lemma_end_in_suffix(p, q, 0);
    }
}

/// The components of `x/y` are those of `x` followed by those of `y`.
proof fn lemma_components_of_slash_join(x: Seq<char>, y: Seq<char>, s: int)
    requires
        0 <= s <= x.len(),
    ensures
        components_from(x + seq!['/'] + y, s) == components_from(x, s) + components_from(y, 0),
    decreases x.len() - s,
{
    let full = x + seq!['/'] + y;
    let head = x + seq!['/'];
    assert(full =~= x + (seq!['/'] + y));
    lemma_end_in_prefix(x, seq!['/'] + y, s);
    lemma_component_end(x, s);
    let e = component_end(x, s);
    assert(component_end(seq!['/'] + y, 0) == 0);
    assert(component_end(full, s) == e);
    assert(full.subrange(s, e) =~= x.subrange(s, e));
    if e < x.len() {
        lemma_components_of_slash_join(x, y, e + 1);
        let c = x.subrange(s, e);
        let rest = components_from(x, e + 1);
        let tail = components_from(y, 0);
        if !(c.len() == 0 || c == seq!['.']) {
            assert(seq![c] + rest + tail =~= seq![c] + (rest + tail));
        }
    } else {
        assert(full =~= head + y);
        lemma_components_of_suffix(head, y, 0);
        let c = x.subrange(s, e);
        if !(c.len() == 0 || c == seq!['.']) {
            assert(seq![c] + Seq::<Seq<char>>::empty() + components_from(y, 0) =~= seq![c]
                + components_from(y, 0));
        } else {
            assert(Seq::<Seq<char>>::empty() + components_from(y, 0) =~= components_from(y, 0));
        }
    }
}

proof fn lemma_no_components_of_empty()
    ensures
        path_components(Seq::<char>::empty()) == Seq::<Seq<char>>::empty(),
{
    let e = Seq::<char>::empty();
    assert(component_end(e, 0) == 0);
    assert(e.subrange(0, 0).len() == 0);
}

/// The components of a joined path are those of the directory followed by those
/// of the relative path.
pub proof fn lemma_components_of_join(dir: Seq<char>, relative: Seq<char>)
    ensures
        path_components(join_path(dir, relative)) == path_components(dir) + path_components(
            relative,
        ),
{
    if dir.len() == 0 {
        lemma_no_components_of_empty();
        assert(Seq::<Seq<char>>::empty() + path_components(relative) =~= path_components(relative));
    } else if dir.last() == '/' {
        let stem = dir.drop_last();
        assert(dir =~= stem + seq!['/'] + Seq::<char>::empty());
        lemma_components_of_slash_join(stem, Seq::<char>::empty(), 0);
        lemma_no_components_of_empty();
        assert(path_components(dir) =~= path_components(stem));
        assert(dir + relative =~= stem + seq!['/'] + relative);
        lemma_components_of_slash_join(stem, relative, 0);
    } else {
        lemma_components_of_slash_join(dir, relative, 0);
    }
}

/// A path without `/` is its own only component, unless it is empty or `.`.
proof fn lemma_components_of_plain(z: Seq<char>)
    requires
        forall|i: int| 0 <= i < z.len() ==> z[i] != '/',
        z.len() > 0,
        z != seq!['.'],
    ensures
        path_components(z) == seq![z],
{
    lemma_component_end(z, 0);
    let e = component_end(z, 0);
    if e < z.len() {
        assert(z[e] == '/');
    }
    assert(z.subrange(0, e) =~= z);
    assert(seq![z] + Seq::<Seq<char>>::empty() =~= seq![z]);
}

/// A name with a slash-free suffix appended has as many components as the name.
proof fn lemma_suffix_keeps_component_count(n: Seq<char>, z: Seq<char>, s: int)
    requires
        n.len() > 0,
        n.last() != '/',
        forall|i: int|
            0 <= i < n.len() && #[trigger] n[i] == '/' ==> i + 1 < n.len() && n[i + 1] != '/'
                && n[i + 1] != '.',
        forall|i: int| 0 <= i < z.len() ==> z[i] != '/',
        0 <= s < n.len(),
        n[s] != '/',
        n[s] != '.',
    ensures
        components_from(n + z, s).len() == components_from(n, s).len(),
    decreases n.len() - s,
{
    lemma_component_end(n, s);
    lemma_end_in_prefix(n, z, s);
    let e = component_end(n, s);
    let full = n + z;
    let c = n.subrange(s, e);
    assert(c.len() > 0 && c[0] == n[s]);
    assert(c != seq!['.']);
    if e < n.len() {
        assert(full.subrange(s, e) =~= c);
        assert(n[e] == '/');
        lemma_suffix_keeps_component_count(n, z, e + 1);
    } else {
        lemma_component_end(z, 0);
        let ez = component_end(z, 0);
        if ez < z.len() {
            assert(z[ez] == '/');
        }
        let fc = full.subrange(s, (n.len() + z.len()) as int);
        assert(fc.len() > 0 && fc[0] == n[s]);
        assert(fc != seq!['.']);
    }
}

/// With roots that are neither equal nor nested, a snapshot's baseline file is
/// never one of the files in its artifact directory.
#[verifier::spinoff_prover]
pub proof fn law_artifact_files_are_not_the_baseline(
    baseline_root: Seq<char>,
    artifact_root: Seq<char>,
    name: Seq<char>,
    file: Seq<char>,
)
    requires
        name_error(name) is None,
        !roots_overlap(baseline_root, artifact_root),
        file.len() > 0,
        file != seq!['.'],
        forall|i: int| 0 <= i < file.len() ==> file[i] != '/',
    ensures
        join_path(baseline_root, name + ".png"@) != join_path(join_path(artifact_root, name), file),
{
    reveal_strlit(".png");
    law_valid_names_stay_below_their_root(name);
    let suffixed = name + ".png"@;
    let baseline = join_path(baseline_root, suffixed);
    let dir = join_path(artifact_root, name);
    let artifact = join_path(dir, file);
    if baseline == artifact {
        lemma_components_of_join(baseline_root, suffixed);
        lemma_components_of_join(artifact_root, name);
        lemma_components_of_join(dir, file);
        lemma_components_of_plain(file);
        lemma_suffix_keeps_component_count(name, ".png"@, 0);
        let cb = path_components(baseline_root);
        let ca = path_components(artifact_root);
        let cn = path_components(name);
        let cs = path_components(suffixed);
        assert(cb + cs == ca + cn + seq![file]);
        assert(cs.len() == cn.len());
        assert((cb + cs).len() == cb.len() + cs.len());
        assert((ca + cn + seq![file]).len() == ca.len() + cn.len() + 1);
        assert(cb.len() == ca.len() + 1);
        assert forall|i: int| 0 <= i < ca.len() implies #[trigger] cb.take(ca.len() as int)[i]
            == ca[i] by {
            assert((cb + cs)[i] == cb[i]);
            assert((ca + cn + seq![file])[i] == ca[i]);
        }
        assert(ca =~= cb.take(ca.len() as int));
        assert(is_prefix_of(ca, cb));
        assert(suffixed[0] == name[0]);
        assert(is_absolute(baseline_root) == is_absolute(artifact_root)) by {
            if baseline_root.len() > 0 {
                assert(baseline[0] == baseline_root[0]);
            }
            if artifact_root.len() > 0 {
                assert(dir[0] == artifact_root[0]);
            }
            assert(artifact[0] == dir[0]);
        }
        assert(roots_overlap(baseline_root, artifact_root));
    }
}

/// Joins a relative path to a directory.
pub fn join(dir: &str, relative: &str) -> (r: String)
    ensures
        r@ == join_path(dir@, relative@),
{
    let chars = chars_of(dir);
    let mut out = String::from_str(dir);
    if chars.len() > 0 && chars[chars.len() - 1] != '/' {
        out.append("/");
        proof {
            reveal_strlit("/");
        }
    }
    out.append(relative);
    proof {
        if dir@.len() > 0 && dir@.last() != '/' {
            assert(out@ =~= dir@ + seq!['/'] + relative@);
        }
    }
    out
}

fn components_of(path: &str) -> (r: Vec<Vec<char>>)
    ensures
        r@.len() == path_components(path@).len(),
        forall|i: int| 0 <= i < r@.len() ==> #[trigger] r@[i]@ == path_components(path@)[i],
{
    let chars = chars_of(path);
    let n = chars.len();
    let ghost p = chars@;
    let mut out: Vec<Vec<char>> = Vec::new();
    let ghost mut taken: Seq<Seq<char>> = Seq::empty();
    let mut start: usize = 0;
    loop
        invariant
            p == chars@,
            p == path@,
            n == p.len(),
            start <= n,
            taken + components_from(p, start as int) == path_components(p),
            out@.len() == taken.len(),
            forall|i: int| 0 <= i < out@.len() ==> #[trigger] out@[i]@ == taken[i],
        decreases n - start,
    {
        let end = component_end_at(&chars, start);
        proof {
            lemma_component_end(p, start as int);
        }
        let component = vstd::slice::slice_to_vec(&chars.as_slice()[start..end]);
        let ghost rest = if end < n {
            components_from(p, end + 1)
        } else {
            Seq::<Seq<char>>::empty()
        };
        let skip = component.len() == 0 || (component.len() == 1 && component[0] == '.');
        proof {
            assert(component@ == p.subrange(start as int, end as int));
            if component.len() == 1 && component[0] == '.' {
                assert(component@ =~= seq!['.']);
            }
            if component@ == seq!['.'] {
                assert(component@[0] == '.');
            }
        }
        if !skip {
            proof {
                assert(taken.push(component@) + rest =~= taken + (seq![component@] + rest));
                taken = taken.push(component@);
            }
            out.push(component);
        }
        if end == n {
            assert(taken =~= taken + Seq::<Seq<char>>::empty());
            return out;
        }
        start = end + 1;
    }
}

fn chars_equal(a: &Vec<char>, b: &Vec<char>) -> (r: bool)
    ensures
        r == (a@ == b@),
{
    if a.len() != b.len() {
        return false;
    }
    let mut i: usize = 0;
    while i < a.len()
        invariant
            i <= a@.len(),
            a@.len() == b@.len(),
            forall|j: int| 0 <= j < i ==> a@[j] == b@[j],
        decreases a@.len() - i,
    {
        if a[i] != b[i] {
            return false;
        }
        i += 1;
    }
    assert(a@ =~= b@);
    true
}

fn components_prefix(short: &Vec<Vec<char>>, long: &Vec<Vec<char>>) -> (r: bool)
    ensures
        r == (short@.len() <= long@.len() && forall|i: int|
            0 <= i < short@.len() ==> #[trigger] short@[i]@ == long@[i]@),
{
    if short.len() > long.len() {
        return false;
    }
    let mut i: usize = 0;
    while i < short.len()
        invariant
            i <= short@.len(),
            short@.len() <= long@.len(),
            forall|j: int| 0 <= j < i ==> #[trigger] short@[j]@ == long@[j]@,
        decreases short@.len() - i,
    {
        if !chars_equal(&short[i], &long[i]) {
            return false;
        }
        i += 1;
    }
    true
}

/// Whether two directories are lexically equal or nested: their absoluteness
/// agrees and the components of one, ignoring empty and `.` components, begin
/// the components of the other.
pub fn directories_overlap(a: &str, b: &str) -> (r: bool)
    ensures
        r == roots_overlap(a@, b@),
{
    let a_chars = chars_of(a);
    let b_chars = chars_of(b);
    let a_absolute = a_chars.len() > 0 && a_chars[0] == '/';
    let b_absolute = b_chars.len() > 0 && b_chars[0] == '/';
    let ca = components_of(a);
    let cb = components_of(b);
    let ghost pa = path_components(a@);
    let ghost pb = path_components(b@);
    let forward = components_prefix(&ca, &cb);
    let backward = components_prefix(&cb, &ca);
    proof {
        if forward {
            assert forall|i: int| 0 <= i < pa.len() implies pa[i] == #[trigger] pb.take(
                pa.len() as int,
            )[i] by {
                assert(ca@[i]@ == cb@[i]@);
            }
            assert(pa =~= pb.take(pa.len() as int));
        }
        if is_prefix_of(pa, pb) {
            assert forall|i: int| 0 <= i < ca@.len() implies #[trigger] ca@[i]@ == cb@[i]@ by {
                assert(pb.take(pa.len() as int)[i] == pb[i]);
            }
        }
        if backward {
            assert forall|i: int| 0 <= i < pb.len() implies pb[i] == #[trigger] pa.take(
                pb.len() as int,
            )[i] by {
                assert(cb@[i]@ == ca@[i]@);
            }
            assert(pb =~= pa.take(pb.len() as int));
        }
        if is_prefix_of(pb, pa) {
            assert forall|i: int| 0 <= i < cb@.len() implies #[trigger] cb@[i]@ == ca@[i]@ by {
                assert(pa.take(pb.len() as int)[i] == pa[i]);
            }
        }
    }
    a_absolute == b_absolute && (forward || backward)
}

/// Filesystem roots used to store accepted baselines and failure artifacts.
///
/// The roots are trusted caller configuration. [`SnapshotName`] validation
/// prevents lexical traversal but does not turn symlinked roots into a
/// filesystem sandbox.
#[derive(Clone, Debug, PartialEq, Eq)]
pub struct SnapshotStore {
    baseline_dir: String,
    artifact_dir: String,
}

/// Where one snapshot's baseline and artifacts are stored.
#[derive(Clone, Debug, PartialEq, Eq)]
pub struct SnapshotPaths {
    pub baseline: String,
    pub artifact_dir: String,
}

impl SnapshotStore {
    pub closed spec fn baseline_dir_view(&self) -> Seq<char> {
        self.baseline_dir@
    }

    pub closed spec fn artifact_dir_view(&self) -> Seq<char> {
        self.artifact_dir@
    }

    /// Creates a store with the given baseline and artifact roots.
    pub fn new(baseline_dir: &str, artifact_dir: &str) -> (r: Self)
        ensures
            r.baseline_dir_view() == baseline_dir@,
            r.artifact_dir_view() == artifact_dir@,
    {
        SnapshotStore {
            baseline_dir: String::from_str(baseline_dir),
            artifact_dir: String::from_str(artifact_dir),
        }
    }

    /// Returns the directory containing accepted baseline PNGs.
    pub fn baseline_dir(&self) -> (r: &str)
        ensures
            r@ == self.baseline_dir_view(),
    {
        self.baseline_dir.as_str()
    }

    /// Returns the directory containing failure artifacts.
    pub fn artifact_dir(&self) -> (r: &str)
        ensures
            r@ == self.artifact_dir_view(),
    {
        self.artifact_dir.as_str()
    }

    /// The baseline file `<baseline root>/<name>.png` and the artifact directory
    /// `<artifact root>/<name>` of a snapshot.
    pub fn resolve(&self, name: &SnapshotName) -> (r: SnapshotPaths)
        ensures
            r.baseline@ == join_path(self.baseline_dir_view(), name.view_chars() + ".png"@),
            r.artifact_dir@ == join_path(self.artifact_dir_view(), name.view_chars()),
    {
        let relative = name.as_str();
        let file = String::from_str(relative).concat(".png");
        SnapshotPaths {
            baseline: join(self.baseline_dir.as_str(), file.as_str()),
            artifact_dir: join(self.artifact_dir.as_str(), relative),
        }
    }
}

impl Default for SnapshotStore {
    fn default() -> (r: Self)
        ensures
            r.baseline_dir_view() == "tests/snapshots"@,
            r.artifact_dir_view() == "target/slint-snapshots"@,
    {
        SnapshotStore::new("tests/snapshots", "target/slint-snapshots")
    }
}

/// How a file is written.
#[derive(Clone, Copy, Debug, PartialEq, Eq, Structural)]
pub enum WriteMode {
    /// Create the file, or atomically replace an existing one.
    Replace,
    /// Create the file; fail if it already exists.
    CreateNew,
}

} // verus!
