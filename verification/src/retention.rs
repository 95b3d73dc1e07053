//! Bounding disk usage: of the dataset files in the data directory, only the
//! three most recently modified are kept.
//!
//! The planner works on plain (name, modification time) pairs and returns
//! the indices to delete; the caller enumerates the directory and performs
//! the deletions. Only period-named dataset files are ever planned for
//! deletion — the current-dataset indirection never matches the pattern, so
//! it is never deleted.

use vstd::prelude::*;
use crate::text::spec_ends_with;
use crate::text::spec_starts_with;
use crate::text::str_ends_with;
use crate::text::str_starts_with;
use crate::fetch::spec_latest_name;

verus! {

/// How many dataset files are retained.
pub const RETAIN_COUNT: usize = 3;

/// One directory entry: its name and its modification time, in seconds.
pub struct FileMeta {
    pub name: String,
    pub mtime: u64,
}

/// A name of the dataset pattern: `dbip-city-lite-*.mmdb`.
pub open spec fn spec_is_dataset_name(n: Seq<char>) -> bool {
    spec_starts_with(n, "dbip-city-lite-"@) && spec_ends_with(n, ".mmdb"@)
}

/// Pattern test for dataset filenames.
pub fn is_dataset_filename(name: &str) -> (r: bool)
    ensures
        r == spec_is_dataset_name(name@),
{
    str_starts_with(name, "dbip-city-lite-") && str_ends_with(name, ".mmdb")
}

/// Entry `i` exists and is a dataset file.
pub open spec fn spec_matching(files: Seq<FileMeta>, i: int) -> bool {
    0 <= i < files.len() && spec_is_dataset_name(files[i].name@)
}

/// How many entries are dataset files.
pub open spec fn count_matching(files: Seq<FileMeta>) -> nat
    decreases files.len(),
{
    if files.len() == 0 {
        0
    } else {
        count_matching(files.drop_last()) + if spec_is_dataset_name(files.last().name@) {
            1nat
        } else {
            0nat
        }
    }
}

/// The current-dataset indirection is not a dataset-pattern name, so no plan
/// ever deletes it.
pub proof fn lemma_latest_never_matches()
    ensures
        !spec_is_dataset_name(spec_latest_name()),
{
    reveal_strlit("latest.mmdb");
    reveal_strlit("dbip-city-lite-");
    assert(!spec_starts_with(spec_latest_name(), "dbip-city-lite-"@));
}

/// `v` stands at some position of `idxs` below `q` other than the three
/// given ones.
pub open spec fn from_other_position(
    idxs: Seq<usize>,
    q: int,
    p1: int,
    p2: int,
    p3: int,
    v: usize,
) -> bool {
    exists|t: int| 0 <= t < q && t != p1 && t != p2 && t != p3 && idxs[t] == v
}

/// The positions `p1`, `p2`, `p3` that lie below `q`.
pub open spec fn skipped_before(q: int, p1: int, p2: int, p3: int) -> int {
    (if p1 < q {
        1int
    } else {
        0int
    }) + (if p2 < q {
        1int
    } else {
        0int
    }) + (if p3 < q {
        1int
    } else {
        0int
    })
}

/// The position, other than the excluded two, whose entry has the greatest
/// modification time; `m` (one past the end) excludes nothing.
fn argmax_excluding(files: &Vec<FileMeta>, idxs: &Vec<usize>, e1: usize, e2: usize) -> (p: usize)
    requires
        idxs@.len() >= 3,
        forall|a: int| 0 <= a < idxs@.len() ==> (idxs@[a] as int) < files@.len(),
    ensures
        p < idxs@.len(),
        p != e1,
        p != e2,
        forall|q: int|
            0 <= q < idxs@.len() && q != e1 && q != e2 ==> files@[idxs@[p as int] as int].mtime
                >= files@[idxs@[q] as int].mtime,
{
    let m = idxs.len();
    let mut best: usize = 0;
    if best == e1 || best == e2 {
        best = best + 1;
    }
    if best == e1 || best == e2 {
        best = best + 1;
    }
    let mut q: usize = 0;
    while q < m
        invariant
            m == idxs@.len(),
            m >= 3,
            forall|a: int| 0 <= a < idxs@.len() ==> (idxs@[a] as int) < files@.len(),
            q <= m,
            best < m,
            best != e1,
            best != e2,
            forall|t: int|
                0 <= t < q && t != e1 && t != e2 ==> files@[idxs@[best as int] as int].mtime
                    >= files@[idxs@[t] as int].mtime,
        decreases m - q,
    {
        if q != e1 && q != e2 {
            let fq = idxs[q];
            let fb = idxs[best];
            if files[fq].mtime > files[fb].mtime {
                best = q;
            }
        }
        q = q + 1;
    }
    best
}

/// Plans retention over a directory listing: the indices to delete, in
/// increasing order. Exactly the dataset-pattern entries beyond the three
/// most recently modified are planned; every entry kept is at least as new
/// as every entry deleted, and non-dataset names are never touched.
pub fn plan_retention(files: &Vec<FileMeta>) -> (delete: Vec<usize>)
    ensures
        forall|a: int, b: int| 0 <= a < b < delete@.len() ==> delete@[a] < delete@[b],
        forall|a: int| 0 <= a < delete@.len() ==> spec_matching(files@, delete@[a] as int),
        delete@.len() == if count_matching(files@) > RETAIN_COUNT as nat {
            count_matching(files@) - RETAIN_COUNT as nat
        } else {
            0int
        },
        forall|i: int, a: int|
            spec_matching(files@, i) && !delete@.contains(i as usize) && 0 <= a < delete@.len()
                ==> files@[i].mtime >= files@[delete@[a] as int].mtime,
        forall|a: int|
            0 <= a < delete@.len() ==> files@[delete@[a] as int].name@ != spec_latest_name(),
{
    proof {
        lemma_latest_never_matches();
    }
    let n = files.len();
    let mut idxs: Vec<usize> = Vec::new();
    let mut i: usize = 0;
    while i < n
        invariant
            n == files@.len(),
            i <= n,
            forall|a: int, b: int| 0 <= a < b < idxs@.len() ==> idxs@[a] < idxs@[b],
            forall|a: int|
                0 <= a < idxs@.len() ==> (idxs@[a] as int) < i && spec_matching(
                    files@,
                    idxs@[a] as int,
                ),
            forall|x: int|
                0 <= x < i && spec_is_dataset_name(files@[x].name@) ==> exists|j: int|
                    0 <= j < idxs@.len() && idxs@[j] == x,
            idxs@.len() == count_matching(files@.subrange(0, i as int)),
        decreases n - i,
    {
        let ghost prev = idxs@;
        if is_dataset_filename(files[i].name.as_str()) {
            idxs.push(i);
        }
        proof {
            assert(files@.subrange(0, i + 1).drop_last() =~= files@.subrange(0, i as int));
            assert(files@.subrange(0, i + 1).last() == files@[i as int]);
            assert forall|x: int|
                0 <= x < i + 1 && spec_is_dataset_name(files@[x].name@) implies exists|j: int|
                0 <= j < idxs@.len() && idxs@[j] == x by {
                if x < i {
                    let j = choose|j: int| 0 <= j < prev.len() && prev[j] == x;
                    assert(idxs@[j] == x);
                } else {
                    assert(idxs@[idxs@.len() - 1] == x);
                }
            }
        }
        i = i + 1;
    }
    proof {
        assert(files@.subrange(0, n as int) =~= files@);
    }
    let m = idxs.len();
    if m <= RETAIN_COUNT {
        return Vec::new();
    }
    let p1 = argmax_excluding(files, &idxs, m, m);
    let p2 = argmax_excluding(files, &idxs, p1, m);
    let p3 = argmax_excluding(files, &idxs, p1, p2);
    let mut delete: Vec<usize> = Vec::new();
    let mut q: usize = 0;
    while q < m
        invariant
            m == idxs@.len(),
            m > RETAIN_COUNT,
            n == files@.len(),
            q <= m,
            p1 < m && p2 < m && p3 < m,
            p1 != p2 && p1 != p3 && p2 != p3,
            forall|a: int, b: int| 0 <= a < b < idxs@.len() ==> idxs@[a] < idxs@[b],
            forall|a: int|
                0 <= a < idxs@.len() ==> (idxs@[a] as int) < n && spec_matching(
                    files@,
                    idxs@[a] as int,
                ),
            delete@.len() == q - skipped_before(q as int, p1 as int, p2 as int, p3 as int),
            forall|a: int|
                0 <= a < delete@.len() ==> from_other_position(
                    idxs@,
                    q as int,
                    p1 as int,
                    p2 as int,
                    p3 as int,
                    #[trigger] delete@[a],
                ),
            forall|t: int|
                0 <= t < q && t != p1 && t != p2 && t != p3 ==> delete@.contains(idxs@[t]),
            forall|a: int, b: int| 0 <= a < b < delete@.len() ==> delete@[a] < delete@[b],
        decreases m - q,
    {
        let ghost prevd = delete@;
        if q != p1 && q != p2 && q != p3 {
            let fi = idxs[q];
            proof {
                assert forall|a: int| 0 <= a < prevd.len() implies prevd[a] < fi by {
                    assert(from_other_position(
                        idxs@,
                        q as int,
                        p1 as int,
                        p2 as int,
                        p3 as int,
                        prevd[a],
                    ));
                    let t = choose|t: int|
                        0 <= t < q && t != p1 && t != p2 && t != p3 && idxs@[t] == prevd[a];
                    assert(idxs@[t] < idxs@[q as int]);
                }
            }
            delete.push(fi);
            proof {
                assert forall|t: int|
                    0 <= t < q + 1 && t != p1 && t != p2 && t != p3 implies delete@.contains(
                    idxs@[t],
                ) by {
                    if t < q {
                        assert(prevd.contains(idxs@[t]));
                        let a = choose|a: int| 0 <= a < prevd.len() && prevd[a] == idxs@[t];
                        assert(delete@[a] == idxs@[t]);
                    } else {
                        assert(delete@[delete@.len() - 1] == idxs@[t]);
                    }
                }
            }
        }
        q = q + 1;
    }
    proof {
        assert(delete@.len() == m - RETAIN_COUNT);
        assert(count_matching(files@) == m);
        assert forall|i2: int, a: int|
            spec_matching(files@, i2) && !delete@.contains(i2 as usize) && 0 <= a < delete@.len()
            implies files@[i2].mtime >= files@[delete@[a] as int].mtime by {
            let j = choose|j: int| 0 <= j < idxs@.len() && idxs@[j] == i2;
            assert(from_other_position(
                idxs@,
                m as int,
                p1 as int,
                p2 as int,
                p3 as int,
                delete@[a],
            ));
            let u = choose|t: int|
                0 <= t < m && t != p1 && t != p2 && t != p3 && idxs@[t] == delete@[a];
            if j != p1 && j != p2 && j != p3 {
                assert(delete@.contains(idxs@[j]));
                assert(false);
            }
            if j == p1 {
                assert(files@[idxs@[p1 as int] as int].mtime >= files@[idxs@[u] as int].mtime);
            } else if j == p2 {
                assert(files@[idxs@[p2 as int] as int].mtime >= files@[idxs@[u] as int].mtime);
            } else {
                assert(files@[idxs@[p3 as int] as int].mtime >= files@[idxs@[u] as int].mtime);
            }
        }
    }
    delete
}

} // verus!
