//! From a path to the mount it lives on.

use crate::error::FqError;
use crate::mtab::{views, MountRecord, MountView};
use crate::text::starts_with;
use vstd::prelude::*;

verus! {

/// The mount point of `mount` is a prefix of `path`, character for
/// character.
pub open spec fn covers(mount: MountView, path: Seq<char>) -> bool {
    mount.directory.is_prefix_of(path)
}

/// Some mount of the table covers `path`.
pub open spec fn covered(mounts: Seq<MountView>, path: Seq<char>) -> bool {
    exists|j: int| 0 <= j < mounts.len() && covers(#[trigger] mounts[j], path)
}

/// `path` resolves to the mount at index `i`: that mount covers the path,
/// no covering mount has a longer mount point, and every covering mount
/// after it has a shorter one. So the most specific mount wins, and of
/// mounts that are equally specific the one that comes last in the table.
pub open spec fn resolves_to(mounts: Seq<MountView>, path: Seq<char>, i: int) -> bool {
    &&& 0 <= i < mounts.len()
    &&& covers(mounts[i], path)
    &&& forall|j: int|
        0 <= j < mounts.len() && covers(#[trigger] mounts[j], path) ==> mounts[j].directory.len()
            <= mounts[i].directory.len()
    &&& forall|j: int|
        i < j < mounts.len() && covers(#[trigger] mounts[j], path) ==> mounts[j].directory.len()
            < mounts[i].directory.len()
}

/// The index of the mount that `path` resolves to, if any mount covers it.
pub open spec fn resolution(mounts: Seq<MountView>, path: Seq<char>) -> Option<int> {
    if exists|i: int| resolves_to(mounts, path, i) {
        Some(choose|i: int| resolves_to(mounts, path, i))
    } else {
        None
    }
}

/// A path resolves to at most one mount.
pub proof fn lemma_resolution_unique(mounts: Seq<MountView>, path: Seq<char>, i: int, j: int)
    requires
        resolves_to(mounts, path, i),
        resolves_to(mounts, path, j),
    ensures
        i == j,
{
}

/// Among the first `n` mounts, the one that a path covered by any of them
/// resolves to.
proof fn lemma_best_of_first(mounts: Seq<MountView>, path: Seq<char>, n: int) -> (best: int)
    requires
        0 <= n <= mounts.len(),
        covered(mounts.take(n), path),
    ensures
        resolves_to(mounts.take(n), path, best),
    decreases n,
{
    let head = mounts.take(n - 1);
    let all = mounts.take(n);
    assert(forall|j: int| 0 <= j < n - 1 ==> head[j] == all[j]);
    if covered(head, path) {
        let b = lemma_best_of_first(mounts, path, n - 1);
        if covers(all[n - 1], path) && all[n - 1].directory.len() >= all[b].directory.len() {
            n - 1
        } else {
            b
        }
    } else {
        let j = choose|j: int| 0 <= j < all.len() && covers(#[trigger] all[j], path);
        assert(j == n - 1) by {
            if j < n - 1 {
                assert(covers(head[j], path));
            }
        }
        n - 1
    }
}

/// A path resolves exactly when some mount covers it, and then to the
/// covering mount with the longest mount point.
pub proof fn lemma_resolution_total(mounts: Seq<MountView>, path: Seq<char>)
    ensures
        resolution(mounts, path) is Some <==> covered(mounts, path),
        resolution(mounts, path) matches Some(i) ==> resolves_to(mounts, path, i),
{
    assert(mounts.take(mounts.len() as int) =~= mounts);
    if covered(mounts, path) {
        let best = lemma_best_of_first(mounts, path, mounts.len() as int);
        assert(resolves_to(mounts, path, best));
    }
}

/// Of two mounts with the same mount point, a path never resolves to the
/// earlier one: the later entry shadows it.
pub proof fn lemma_later_duplicate_wins(
    mounts: Seq<MountView>,
    path: Seq<char>,
    earlier: int,
    later: int,
)
    requires
        0 <= earlier < later < mounts.len(),
        mounts[earlier].directory == mounts[later].directory,
    ensures
        resolution(mounts, path) != Some(earlier),
{
    if resolution(mounts, path) == Some(earlier) {
        assert(resolves_to(mounts, path, earlier));
        assert(covers(mounts[later], path));
    }
}

/// Finds the index of the mount that `path` lies on.
///
/// `path` is compared as it stands; hand in the canonical form of the path
/// that is asked about.
pub fn resolve_index(mounts: &Vec<MountRecord>, path: &str) -> (found: Option<usize>)
    ensures
        match found {
            Some(i) => resolution(views(mounts@), path@) == Some(i as int),
            None => resolution(views(mounts@), path@) is None,
        },
        found matches Some(i) ==> resolves_to(views(mounts@), path@, i as int),
        found is None <==> !covered(views(mounts@), path@),
{
    let ghost table = views(mounts@);
    let mut best: Option<usize> = None;
    let mut best_len: usize = 0;
    let mut i: usize = 0;
    while i < mounts.len()
        invariant
            i <= mounts.len(),
            table == views(mounts@),
            best is None ==> forall|j: int| 0 <= j < i ==> !covers(#[trigger] table[j], path@),
            best matches Some(b) ==> {
                &&& b < i
                &&& covers(table[b as int], path@)
                &&& best_len == table[b as int].directory.len()
                &&& forall|j: int|
                    0 <= j < i && covers(#[trigger] table[j], path@) ==> table[j].directory.len()
                        <= best_len
                &&& forall|j: int|
                    b < j < i && covers(#[trigger] table[j], path@) ==> table[j].directory.len()
                        < best_len
            },
        decreases mounts.len() - i,
    {
        let directory = mounts[i].directory.as_str();
        assert(table[i as int] == mounts[i as int]@);
        if starts_with(path, directory) {
            let len = directory.unicode_len();
            if best.is_none() || len >= best_len {
                best = Some(i);
                best_len = len;
            }
        }
        i += 1;
    }
    proof {
        lemma_resolution_total(table, path@);
        match best {
            Some(b) => {
                assert(resolves_to(table, path@, b as int));
                lemma_resolution_unique(table, path@, b as int, resolution(table, path@)->0);
            },
            None => {},
        }
    }
    best
}

/// Finds the mount that `path` lies on: the covering mount with the longest
/// mount point, the last of them in table order where several are equally
/// long. Fails with `Unsupported` exactly when no mount covers the path.
pub fn resolve<'a>(mounts: &'a Vec<MountRecord>, path: &str) -> (found: Result<
    &'a MountRecord,
    FqError,
>)
    ensures
        match found {
            Ok(mount) => resolution(views(mounts@), path@) matches Some(i) && 0 <= i
                < mounts.len() && *mount == mounts[i],
            Err(e) => e == FqError::Unsupported && resolution(views(mounts@), path@) is None,
        },
        found is Ok <==> covered(views(mounts@), path@),
{
    match resolve_index(mounts, path) {
        Some(i) => Ok(&mounts[i]),
        None => Err(FqError::Unsupported),
    }
}

} // verus!
