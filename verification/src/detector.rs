//! The change detector: reduces a scan of all roots to one number, the
//! newest modification time among tracked files.
//!
//! For each configured root the tree scanner enumerates the leaves; each
//! leaf the exclusion matcher accepts contributes its modification time;
//! the result is the running maximum, or 0 when nothing is accepted (empty
//! root list, or every file ignored). Max over a set is commutative and
//! associative, so enumeration order never shows in the result.

use vstd::prelude::*;
use crate::fstree::{FsTree, FileMeta, leaves, leaves_of, walk};
use crate::matcher::{PathChecker, spec_accept};

verus! {

/// The maximum modification time among the accepted entries of `files`,
/// or 0 when none is accepted.
pub open spec fn max_accepted_mtime(files: Seq<FileMeta>, regexes: Seq<Seq<char>>) -> u64
    decreases files.len(),
{
    if files.len() == 0 {
        0u64
    } else {
        let rest = max_accepted_mtime(files.drop_last(), regexes);
        if spec_accept(regexes, files.last().path@) && files.last().mtime > rest {
            files.last().mtime
        } else {
            rest
        }
    }
}

/// All leaves reachable from the configured roots, in order.
pub open spec fn all_leaves(roots: Seq<FsTree>) -> Seq<FileMeta> {
    leaves_of(roots, roots.len() as int)
}

/// The newest modification time among tracked files under the roots.
pub open spec fn spec_last_update(roots: Seq<FsTree>, regexes: Seq<Seq<char>>) -> u64 {
    max_accepted_mtime(all_leaves(roots), regexes)
}

/// Scans every root, filters each visited leaf through the matcher, and
/// returns the newest modification time among the accepted ones, or 0 when
/// no file is accepted.
pub fn get_last_update(roots: &Vec<FsTree>, checker: &PathChecker) -> (r: u64)
    ensures
        r == spec_last_update(roots@, checker.regexes()),
{
    let ghost regexes = checker.regexes();
    let mut last_update: u64 = 0;
    let mut i: usize = 0;
    while i < roots.len()
        invariant
            i <= roots@.len(),
            regexes == checker.regexes(),
            last_update == max_accepted_mtime(leaves_of(roots@, i as int), regexes),
        decreases roots@.len() - i,
    {
        let files = walk(&roots[i]);
        let ghost seen = leaves_of(roots@, i as int);
        let mut k: usize = 0;
        while k < files.len()
            invariant
                k <= files@.len(),
                regexes == checker.regexes(),
                files@ == leaves(roots@[i as int]),
                last_update == max_accepted_mtime(seen + files@.subrange(0, k as int), regexes),
            decreases files@.len() - k,
        {
            proof {
                let pre = seen + files@.subrange(0, k + 1);
                assert(pre.drop_last() =~= seen + files@.subrange(0, k as int));
                assert(pre.last() == files@[k as int]);
            }
            if checker.accept(files[k].path.as_str()) {
                let m = files[k].mtime;
                if m > last_update {
                    last_update = m;
                }
            }
            k = k + 1;
        }
        proof {
            assert(seen + files@.subrange(0, files@.len() as int)
                =~= leaves_of(roots@, i as int) + leaves(roots@[i as int]));
            assert(leaves_of(roots@, i + 1)
                == leaves_of(roots@, i as int) + leaves(roots@[i as int]));
        }
        i = i + 1;
    }
    proof {
        assert(leaves_of(roots@, i as int) == all_leaves(roots@));
    }
    last_update
}

/// When no entry of `files` is accepted, the maximum is the sentinel 0.
pub proof fn lemma_max_no_accepted_is_zero(files: Seq<FileMeta>, regexes: Seq<Seq<char>>)
    requires
        forall|k: int| 0 <= k < files.len() ==> !spec_accept(regexes, files[k].path@),
    ensures
        max_accepted_mtime(files, regexes) == 0,
    decreases files.len(),
{
    if files.len() > 0 {
        assert(forall|k: int|
            0 <= k < files.drop_last().len() ==> files.drop_last()[k] == files[k]);
        lemma_max_no_accepted_is_zero(files.drop_last(), regexes);
    }
}

/// The detected value is 0 when the root list is empty, and 0 when every
/// visited leaf is rejected by the matcher.
pub proof fn lemma_last_update_zero(roots: Seq<FsTree>, regexes: Seq<Seq<char>>)
    ensures
        roots.len() == 0 ==> spec_last_update(roots, regexes) == 0,
        (forall|k: int|
            0 <= k < all_leaves(roots).len() ==> !spec_accept(regexes, all_leaves(roots)[k].path@))
            ==> spec_last_update(roots, regexes) == 0,
{
    if forall|k: int|
        0 <= k < all_leaves(roots).len() ==> !spec_accept(regexes, all_leaves(roots)[k].path@) {
        lemma_max_no_accepted_is_zero(all_leaves(roots), regexes);
    }
}

/// The maximum is what it says: every accepted entry is no newer than it,
/// and unless it is the sentinel 0, some accepted entry bears exactly that
/// time. Rejected entries never contribute, however new they are.
pub proof fn lemma_max_is_max(files: Seq<FileMeta>, regexes: Seq<Seq<char>>)
    ensures
        forall|k: int|
            0 <= k < files.len() && spec_accept(regexes, files[k].path@)
                ==> files[k].mtime <= max_accepted_mtime(files, regexes),
        max_accepted_mtime(files, regexes) != 0 ==> exists|k: int|
            0 <= k < files.len() && spec_accept(regexes, files[k].path@)
                && files[k].mtime == max_accepted_mtime(files, regexes),
    decreases files.len(),
{
    if files.len() > 0 {
        let rest = files.drop_last();
        let m = max_accepted_mtime(files, regexes);
        lemma_max_is_max(rest, regexes);
        assert(forall|k: int| 0 <= k < rest.len() ==> rest[k] == files[k]);
        assert forall|k: int|
            0 <= k < files.len() && spec_accept(regexes, files[k].path@)
                implies files[k].mtime <= m by {
            if k < rest.len() {
                assert(files[k].mtime <= max_accepted_mtime(rest, regexes));
            }
        }
        if m != 0 {
            if spec_accept(regexes, files.last().path@)
                && files.last().mtime > max_accepted_mtime(rest, regexes) {
                assert(files[files.len() - 1].mtime == m);
            } else {
                let k = choose|k: int|
                    0 <= k < rest.len() && spec_accept(regexes, rest[k].path@)
                        && rest[k].mtime == max_accepted_mtime(rest, regexes);
                assert(files[k].mtime == m);
            }
        }
    }
}

/// The detected latest update is the maximum modification time among
/// accepted leaves under the roots.
pub proof fn lemma_last_update_is_max_accepted(roots: Seq<FsTree>, regexes: Seq<Seq<char>>)
    ensures
        forall|k: int|
            0 <= k < all_leaves(roots).len() && spec_accept(regexes, all_leaves(roots)[k].path@)
                ==> all_leaves(roots)[k].mtime <= spec_last_update(roots, regexes),
        spec_last_update(roots, regexes) != 0 ==> exists|k: int|
            0 <= k < all_leaves(roots).len() && spec_accept(regexes, all_leaves(roots)[k].path@)
                && all_leaves(roots)[k].mtime == spec_last_update(roots, regexes),
{
    lemma_max_is_max(all_leaves(roots), regexes);
}

/// Scanning is idempotent: two scans of the same snapshot with the same
/// matcher yield the same value, since the result is a function of the
/// snapshot and the compiled patterns alone.
pub proof fn lemma_last_update_idempotent(
    roots: Seq<FsTree>,
    regexes: Seq<Seq<char>>,
    r1: u64,
    r2: u64,
)
    requires
        r1 == spec_last_update(roots, regexes),
        r2 == spec_last_update(roots, regexes),
    ensures
        r1 == r2,
{
}

} // verus!
