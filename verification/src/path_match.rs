//! The entry matcher: an archive entry matches the target iff the final
//! segment of its path inside the archive — the filename component, with
//! every directory segment ignored — equals the target filename exactly.

use vstd::prelude::*;

verus! {

/// The path separator used inside archive entry paths.
pub const SEPARATOR: u8 = 47;

/// The filename component of an entry path: the suffix after the last
/// separator byte, the whole path when it holds no separator, and empty
/// for a path that ends in a separator (a directory entry).
pub open spec fn basename(p: Seq<u8>) -> Seq<u8>
    decreases p.len(),
{
    if p.len() == 0 {
        p
    } else if p.last() == SEPARATOR {
        Seq::<u8>::empty()
    } else {
        basename(p.drop_last()).push(p.last())
    }
}

/// Whether an entry at path `p` is the target named `target`.
pub open spec fn matches_target(p: Seq<u8>, target: Seq<u8>) -> bool {
    basename(p) == target
}

/// `basename` is the suffix that starts at any cut point `k` that sits just
/// after the last separator (or at the front when there is none).
proof fn lemma_basename_tail(p: Seq<u8>, k: int)
    requires
        0 <= k <= p.len(),
        k == 0 || p[k - 1] == SEPARATOR,
        forall|j: int| k <= j < p.len() ==> p[j] != SEPARATOR,
    ensures
        basename(p) == p.skip(k),
    decreases p.len(),
{
    if p.len() == 0 {
        assert(p.skip(k) =~= p);
    } else if p.last() == SEPARATOR {
        assert(k < p.len() ==> p[p.len() - 1] != SEPARATOR);
        assert(k == p.len());
        assert(p.skip(k) =~= Seq::<u8>::empty());
    } else {
        assert(k < p.len());
        let q = p.drop_last();
        lemma_basename_tail(q, k);
        assert(q.skip(k).push(p.last()) =~= p.skip(k));
    }
}

/// A path without a separator is its own filename component.
pub proof fn lemma_basename_no_separator(p: Seq<u8>)
    requires
        forall|i: int| 0 <= i < p.len() ==> p[i] != SEPARATOR,
    ensures
        basename(p) == p,
    decreases p.len(),
{
    if p.len() > 0 {
        lemma_basename_no_separator(p.drop_last());
        assert(p.drop_last().push(p.last()) =~= p);
    }
}

/// Matching is directory-independent: nesting a name (itself free of
/// separators) under any directory prefix leaves the filename component —
/// and with it the match decision — unchanged.
pub proof fn lemma_matching_directory_independent(dir: Seq<u8>, name: Seq<u8>)
    requires
        forall|i: int| 0 <= i < name.len() ==> name[i] != SEPARATOR,
    ensures
        basename(dir + seq![SEPARATOR] + name) == name,
    decreases name.len(),
{
    let p = dir + seq![SEPARATOR] + name;
    if name.len() == 0 {
        assert(p.last() == SEPARATOR);
        assert(name =~= Seq::<u8>::empty());
    } else {
        lemma_matching_directory_independent(dir, name.drop_last());
        assert(p.drop_last() =~= dir + seq![SEPARATOR] + name.drop_last());
        assert(p.last() == name.last());
        assert(name.drop_last().push(name.last()) =~= name);
    }
}

/// Decide whether the entry path `path` matches the target filename
/// `target`: exact, case-sensitive equality of the final path segment.
pub fn entry_matches(path: &Vec<u8>, target: &Vec<u8>) -> (r: bool)
    ensures
        r == matches_target(path@, target@),
{
    let mut k: usize = path.len();
    while k > 0 && path[k - 1] != SEPARATOR
        invariant
            0 <= k <= path@.len(),
            forall|j: int| k <= j < path@.len() ==> path@[j] != SEPARATOR,
        decreases k,
    {
        k = k - 1;
    }
    proof {
        lemma_basename_tail(path@, k as int);
    }
    if path.len() - k != target.len() {
        return false;
    }
    let mut i: usize = 0;
    while i < target.len()
        invariant
            0 <= i <= target@.len(),
            k + target@.len() == path@.len(),
            path@.len() <= usize::MAX,
            basename(path@) == path@.skip(k as int),
            forall|j: int| 0 <= j < i ==> path@[k + j] == target@[j],
        decreases target@.len() - i,
    {
        if path[k + i] != target[i] {
            proof {
                assert(path@.skip(k as int)[i as int] == path@[k + i]);
            }
            return false;
        }
        i = i + 1;
    }
    proof {
        assert(path@.skip(k as int) =~= target@);
    }
    true
}

} // verus!
