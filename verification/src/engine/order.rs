//! Which entries of a directory tree are shredded, and in which order directories are removed.
use vstd::prelude::*;
use std::path::PathBuf;
use crate::engine::{EntryAction, EntryKind, Shredder};
use crate::paths::{path_bytes, path_len};

verus! {

/// An entry found while walking a directory tree.
#[derive(Clone, Debug)]
pub struct DirEntry {
    /// The entry's path.
    pub path: PathBuf,
    /// Whether the entry is a regular file.
    pub is_file: bool,
}

/// The removal keys of a list of entries: the lengths of their paths in bytes.
pub open spec fn entry_keys(entries: Seq<DirEntry>) -> Seq<nat> {
    entries.map_values(|e: DirEntry| path_bytes(e.path).len())
}

/// Entry `x` is removed before entry `y`: it has the longer path, or the same length and
/// comes earlier in the walk.
pub open spec fn removed_before(keys: Seq<nat>, x: int, y: int) -> bool {
    keys[x] > keys[y] || (keys[x] == keys[y] && x < y)
}

/// `order` lists indices into `keys` in removal order, each at most once.
pub open spec fn in_removal_order(keys: Seq<nat>, order: Seq<usize>) -> bool {
    forall|i: int, j: int|
        0 <= i < j < order.len() ==> removed_before(keys, #[trigger] order[i] as int, #[trigger] order[j] as int)
}

/// `order` lists every index of `keys` exactly once, in removal order.
pub open spec fn is_removal_order(keys: Seq<nat>, order: Seq<usize>) -> bool {
    &&& order.len() == keys.len()
    &&& forall|k: int| 0 <= k < order.len() ==> #[trigger] order[k] < keys.len()
    &&& forall|x: usize| x < keys.len() ==> #[trigger] order.contains(x)
    &&& in_removal_order(keys, order)
}

/// Sorts the indices `lo..hi` into removal order.
fn sort_range(keys: &Vec<usize>, lo: usize, hi: usize) -> (r: Vec<usize>)
    requires
        lo <= hi <= keys.len(),
    ensures
        r.len() == hi - lo,
        forall|k: int| 0 <= k < r.len() ==> lo <= #[trigger] r@[k] < hi,
        forall|x: usize| lo <= x < hi ==> r@.contains(x),
        in_removal_order(keys@.map_values(|k: usize| k as nat), r@),
    decreases hi - lo,
{
    if hi - lo == 0 {
        Vec::new()
    } else if hi - lo == 1 {
        let mut r = Vec::new();
        r.push(lo);
        assert(r@[0] == lo);
        r
    } else {
        let mid = lo + (hi - lo) / 2;
        let a = sort_range(keys, lo, mid);
        let b = sort_range(keys, mid, hi);
        let r = merge(keys, &a, &b);
        assert forall|x: usize| lo <= x < hi implies r@.contains(x) by {
            if x < mid {
                assert(a@.contains(x));
            } else {
                assert(b@.contains(x));
            }
        }
        assert forall|k: int| 0 <= k < r.len() implies lo <= #[trigger] r@[k] < hi by {
            assert(r@.contains(r@[k]));
            if a@.contains(r@[k]) {
                let p = choose|p: int| 0 <= p < a@.len() && a@[p] == r@[k];
            } else {
                let p = choose|p: int| 0 <= p < b@.len() && b@[p] == r@[k];
            }
        }
        r
    }
}

/// Merges two lists already in removal order, over disjoint sets of indices.
fn merge(keys: &Vec<usize>, a: &Vec<usize>, b: &Vec<usize>) -> (r: Vec<usize>)
    requires
        forall|k: int| 0 <= k < a.len() ==> #[trigger] a@[k] < keys.len(),
        forall|k: int| 0 <= k < b.len() ==> #[trigger] b@[k] < keys.len(),
        forall|p: int, q: int| 0 <= p < a.len() && 0 <= q < b.len() ==> #[trigger] a@[p] != #[trigger] b@[q],
        in_removal_order(keys@.map_values(|k: usize| k as nat), a@),
        in_removal_order(keys@.map_values(|k: usize| k as nat), b@),
    ensures
        r.len() == a.len() + b.len(),
        forall|x: usize| #[trigger] r@.contains(x) <==> (a@.contains(x) || b@.contains(x)),
        in_removal_order(keys@.map_values(|k: usize| k as nat), r@),
{
    let ghost ks = keys@.map_values(|k: usize| k as nat);
    let mut r: Vec<usize> = Vec::new();
    let mut i: usize = 0;
    let mut j: usize = 0;
    while i < a.len() || j < b.len()
        invariant
            ks == keys@.map_values(|k: usize| k as nat),
            forall|k: int| 0 <= k < a.len() ==> #[trigger] a@[k] < keys.len(),
            forall|k: int| 0 <= k < b.len() ==> #[trigger] b@[k] < keys.len(),
            forall|p: int, q: int| 0 <= p < a.len() && 0 <= q < b.len() ==> #[trigger] a@[p] != #[trigger] b@[q],
            in_removal_order(ks, a@),
            in_removal_order(ks, b@),
            i <= a.len(),
            j <= b.len(),
            r.len() == i + j,
            in_removal_order(ks, r@),
            forall|x: usize| #[trigger] r@.contains(x) <==> (a@.take(i as int).contains(x) || b@.take(j as int).contains(x)),
            forall|k: int, p: int| 0 <= k < r.len() && i <= p < a.len() ==> removed_before(ks, #[trigger] r@[k] as int, #[trigger] a@[p] as int),
            forall|k: int, q: int| 0 <= k < r.len() && j <= q < b.len() ==> removed_before(ks, #[trigger] r@[k] as int, #[trigger] b@[q] as int),
        decreases a.len() + b.len() - i - j,
    {
        let take_a = if j >= b.len() {
            true
        } else if i >= a.len() {
            false
        } else {
            let x = a[i];
            let y = b[j];
            keys[x] > keys[y] || (keys[x] == keys[y] && x < y)
        };
        let ghost old_r = r@;
        if take_a {
            let x = a[i];
            proof {
                if j < b.len() {
                    assert(removed_before(ks, x as int, b@[j as int] as int));
                    assert forall|q: int| j <= q < b.len() implies removed_before(ks, x as int, #[trigger] b@[q] as int) by {
                        if q > j {
                            assert(removed_before(ks, b@[j as int] as int, b@[q] as int));
                        }
                    }
                }
                assert forall|p: int| i < p < a.len() implies removed_before(ks, x as int, #[trigger] a@[p] as int) by {
                    assert(removed_before(ks, a@[i as int] as int, a@[p] as int));
                }
            }
            r.push(x);
            i = i + 1;
            proof {
                assert(a@.take(i as int) =~= a@.take(i - 1).push(x));
                lemma_push_keeps_membership(old_r, x, a@.take(i - 1), a@.take(i as int), b@.take(j as int));
            }
        } else {
            let y = b[j];
            proof {
                if i < a.len() {
                    assert(a@[i as int] != y);
                    assert(removed_before(ks, y as int, a@[i as int] as int));
                    assert forall|p: int| i <= p < a.len() implies removed_before(ks, y as int, #[trigger] a@[p] as int) by {
                        if p > i {
                            assert(removed_before(ks, a@[i as int] as int, a@[p] as int));
                        }
                    }
                }
                assert forall|q: int| j < q < b.len() implies removed_before(ks, y as int, #[trigger] b@[q] as int) by {
                    assert(removed_before(ks, b@[j as int] as int, b@[q] as int));
                }
            }
            r.push(y);
            j = j + 1;
            proof {
                assert(b@.take(j as int) =~= b@.take(j - 1).push(y));
                lemma_push_keeps_membership(old_r, y, b@.take(j - 1), b@.take(j as int), a@.take(i as int));
            }
        }
    }
    assert(a@.take(a.len() as int) =~= a@);
    assert(b@.take(b.len() as int) =~= b@);
    r
}

/// Appending `x` to both a list and one of the two lists it is made of keeps the
/// membership relation between them.
proof fn lemma_push_keeps_membership(r: Seq<usize>, x: usize, s: Seq<usize>, s2: Seq<usize>, t: Seq<usize>)
    requires
        forall|y: usize| #[trigger] r.contains(y) <==> (s.contains(y) || t.contains(y)),
        s2 == s.push(x),
    ensures
        forall|y: usize| #[trigger] r.push(x).contains(y) <==> (s2.contains(y) || t.contains(y)),
{
    let r2 = r.push(x);
    assert forall|y: usize| #[trigger] r2.contains(y) <==> (s2.contains(y) || t.contains(y)) by {
        if r2.contains(y) {
            let k = choose|k: int| 0 <= k < r2.len() && r2[k] == y;
            if k < r.len() {
                assert(r[k] == y);
                assert(r.contains(y));
                if s.contains(y) {
                    let m = choose|m: int| 0 <= m < s.len() && s[m] == y;
                    assert(s2[m] == y);
                }
            } else {
                assert(s2[s.len() as int] == y);
            }
        }
        if s2.contains(y) {
            let k = choose|k: int| 0 <= k < s2.len() && s2[k] == y;
            if k < s.len() {
                assert(s[k] == y);
                assert(s.contains(y));
                assert(r.contains(y));
                let m = choose|m: int| 0 <= m < r.len() && r[m] == y;
                assert(r2[m] == y);
            } else {
                assert(r2[r.len() as int] == y);
            }
        }
        if t.contains(y) {
            assert(r.contains(y));
            let m = choose|m: int| 0 <= m < r.len() && r[m] == y;
            assert(r2[m] == y);
        }
    }
}

/// In a removal order, whatever lies inside a directory (any path that extends the
/// directory's path) comes before the directory itself.
pub proof fn lemma_contents_go_before_their_directory(entries: Seq<DirEntry>, order: Seq<usize>, p: int, q: int)
    requires
        is_removal_order(entry_keys(entries), order),
        0 <= p < order.len(),
        0 <= q < order.len(),
        path_bytes(entries[order[q] as int].path).len() < path_bytes(entries[order[p] as int].path).len(),
        path_bytes(entries[order[p] as int].path).take(path_bytes(entries[order[q] as int].path).len() as int)
            == path_bytes(entries[order[q] as int].path),
    ensures
        p < q,
{
    let keys = entry_keys(entries);
    let inner = path_bytes(entries[order[p] as int].path);
    let outer = path_bytes(entries[order[q] as int].path);
    assert(keys[order[p] as int] == inner.len());
    assert(keys[order[q] as int] == outer.len());
    if q < p {
        assert(removed_before(keys, order[q] as int, order[p] as int));
    }
}

impl Shredder {
    /// Whether a walked entry is shredded: a regular file that no pattern excludes.
    pub open spec fn shredded_in_walk(&self, e: DirEntry) -> bool {
        e.is_file && !self.excludes(path_bytes(e.path))
    }

    /// The indices of the walked entries that are shredded, in walk order. Their number
    /// is the total the progress bar counts to.
    pub fn select_files(&self, entries: &Vec<DirEntry>) -> (sel: Vec<usize>)
        ensures
            forall|k: int|
                0 <= k < sel.len() ==> #[trigger] sel@[k] < entries.len() && self.shredded_in_walk(
                    entries@[sel@[k] as int],
                ),
            forall|i: int, j: int| 0 <= i < j < sel.len() ==> #[trigger] sel@[i] < #[trigger] sel@[j],
            forall|x: usize|
                x < entries.len() && self.shredded_in_walk(#[trigger] entries@[x as int])
                    ==> sel@.contains(x),
    {
        let mut sel: Vec<usize> = Vec::new();
        let n = entries.len();
        let mut i: usize = 0;
        while i < n
            invariant
                n == entries.len(),
                i <= n,
                forall|k: int|
                    0 <= k < sel.len() ==> #[trigger] sel@[k] < i && self.shredded_in_walk(
                        entries@[sel@[k] as int],
                    ),
                forall|a: int, b: int| 0 <= a < b < sel.len() ==> #[trigger] sel@[a] < #[trigger] sel@[b],
                forall|x: usize|
                    x < i && self.shredded_in_walk(#[trigger] entries@[x as int]) ==> sel@.contains(x),
            decreases n - i,
        {
            let e = &entries[i];
            if e.is_file && !self.should_exclude(&e.path) {
                let ghost old_sel = sel@;
                sel.push(i);
                proof {
                    assert forall|x: usize|
                        x < i + 1 && self.shredded_in_walk(#[trigger] entries@[x as int])
                            implies sel@.contains(x) by {
                        if x == i {
                            assert(sel@[sel@.len() - 1] == x);
                        } else {
                            let k = choose|k: int| 0 <= k < old_sel.len() && old_sel[k] == x;
                            assert(sel@[k] == x);
                        }
                    }
                }
            } else {
                proof {
                    assert forall|x: usize|
                        x < i + 1 && self.shredded_in_walk(#[trigger] entries@[x as int])
                            implies sel@.contains(x) by {
                        if x == i {
                            assert(entries@[x as int] == *e);
                        }
                    }
                }
            }
            i = i + 1;
        }
        sel
    }

    /// The order in which the walked entries are offered for directory removal: none at
    /// all when files are kept, in a dry run, after cancellation, or when a file failed to
    /// be shredded; otherwise every entry once, longest path (in bytes) first, ties in walk
    /// order.
    pub fn removal_order(&self, entries: &Vec<DirEntry>, keep: bool, cancelled: bool, all_shredded: bool) -> (order: Vec<usize>)
        ensures
            keep || self.spec_dry_run() || cancelled || !all_shredded ==> order.len() == 0,
            !(keep || self.spec_dry_run() || cancelled || !all_shredded) ==> is_removal_order(
                entry_keys(entries@),
                order@,
            ),
    {
        if keep || self.dry_run || cancelled || !all_shredded {
            return Vec::new();
        }
        let n = entries.len();
        let mut keys: Vec<usize> = Vec::new();
        let mut i: usize = 0;
        while i < n
            invariant
                n == entries.len(),
                i <= n,
                keys.len() == i,
                forall|k: int| 0 <= k < i ==> #[trigger] keys@[k] as nat == path_bytes(entries@[k].path).len(),
            decreases n - i,
        {
            keys.push(path_len(&entries[i].path));
            i = i + 1;
        }
        let order = sort_range(&keys, 0, n);
        assert(keys@.map_values(|k: usize| k as nat) =~= entry_keys(entries@));
        order
    }
}

/// The walk selects exactly the regular files that no pattern excludes, in a dry run as
/// in a real one: a dry run lists the same files that a real run would shred.
pub proof fn lemma_walk_selects_unexcluded_files(s: &Shredder, e: DirEntry)
    ensures
        s.shredded_in_walk(e) <==> (e.is_file && !s.excludes(path_bytes(e.path))),
{
}

/// Which walked entries are selected depends on the exclusion patterns alone: two
/// shredders with the same patterns select the same entries, whether or not either is a
/// dry run, forced or trimming.
pub proof fn lemma_selection_depends_only_on_exclusions(s1: &Shredder, s2: &Shredder, e: DirEntry)
    requires
        s1.exclude_patterns() == s2.exclude_patterns(),
    ensures
        s1.shredded_in_walk(e) == s2.shredded_in_walk(e),
{
}

/// A file the walk selects is acted on when its turn comes: destroyed, or only recorded
/// in a dry run, unless the session was cancelled in between.
pub proof fn lemma_selected_files_are_shredded(s: &Shredder, e: DirEntry, keep: bool)
    requires
        s.shredded_in_walk(e),
    ensures
        !s.spec_dry_run() ==> s.entry_action(path_bytes(e.path), EntryKind::File, false, keep) == EntryAction::Destroy,
        s.spec_dry_run() ==> s.entry_action(path_bytes(e.path), EntryKind::File, false, keep) == EntryAction::RecordDryRun,
{
}

} // verus!
