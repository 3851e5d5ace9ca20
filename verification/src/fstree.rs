//! The tree scanner: a snapshot of a filesystem subtree and the recursive
//! walk that enumerates its non-directory leaves.
//!
//! A scan works on a snapshot: each regular file (or other non-directory
//! entry) carries its full path string and its last-modification time in
//! seconds, already reduced to a plain number. A file whose modification
//! time could not be read carries 0, the "not newer than anything" sentinel
//! (see `mtime_or_zero`). Enumeration order of a directory's children is
//! whatever order the snapshot was built in: nothing below depends on it
//! being stable.

use vstd::prelude::*;

verus! {

/// One non-directory entry: its full path and its modification time.
pub struct FileMeta {
    pub path: String,
    pub mtime: u64,
}

/// A snapshot of a filesystem subtree: a non-directory leaf, or a
/// directory with its direct children.
pub enum FsTree {
    File(FileMeta),
    Dir(Vec<FsTree>),
}

/// The non-directory leaves reachable from `t` by recursive descent, in
/// left-to-right order: a leaf is its own single visit, a directory
/// contributes its children's leaves in order. Every reachable leaf occurs
/// exactly once, since each node of the tree is descended into once.
pub open spec fn leaves(t: FsTree) -> Seq<FileMeta>
    decreases t, 0int,
{
    match t {
        FsTree::File(m) => seq![m],
        FsTree::Dir(entries) => leaves_of(entries@, entries@.len() as int),
    }
}

/// The leaves of the first `n` trees of `s`, concatenated in order.
pub open spec fn leaves_of(s: Seq<FsTree>, n: int) -> Seq<FileMeta>
    decreases s, n,
{
    if n <= 0 || n > s.len() {
        Seq::empty()
    } else {
        leaves_of(s, n - 1) + leaves(s[n - 1])
    }
}

/// A walk of a root that is not a directory visits that root itself,
/// exactly once.
pub proof fn lemma_file_root_single_visit(m: FileMeta)
    ensures
        leaves(FsTree::File(m)) == seq![m],
{
}

/// The per-file policy for an unreadable modification time: a file whose
/// time could not be read counts as "not newer" (0) instead of failing the
/// scan.
pub fn mtime_or_zero(m: Option<u64>) -> (r: u64)
    ensures
        r == match m {
            Option::Some(secs) => secs,
            Option::None => 0u64,
        },
{
    match m {
        Option::Some(secs) => secs,
        Option::None => 0,
    }
}

/// Visits every non-directory reachable from `t` by recursive descent
/// exactly once, returning the visited entries in descent order; if `t`
/// itself is not a directory, it is the one entry visited.
pub fn walk(t: &FsTree) -> (r: Vec<FileMeta>)
    ensures
        r@ == leaves(*t),
    decreases *t,
{
    match t {
        FsTree::File(m) => {
            let mut out: Vec<FileMeta> = Vec::new();
            out.push(FileMeta { path: m.path.clone(), mtime: m.mtime });
            proof {
                assert(out@ =~= leaves(*t));
            }
            out
        },
        FsTree::Dir(entries) => {
            let mut out: Vec<FileMeta> = Vec::new();
            let mut j: usize = 0;
            while j < entries.len()
                invariant
                    j <= entries@.len(),
                    out@ == leaves_of(entries@, j as int),
                    *t == FsTree::Dir(*entries),
                decreases entries@.len() - j,
            {
                proof {
                    assert(decreases_to!(*t => t->Dir_0));
                    assert(t->Dir_0 == *entries);
                    assert(decreases_to!(*entries => entries@));
                    assert(decreases_to!(entries@ => entries@[j as int]));
                }
                let mut sub = walk(&entries[j]);
                out.append(&mut sub);
                j = j + 1;
            }
            out
        },
    }
}

} // verus!
