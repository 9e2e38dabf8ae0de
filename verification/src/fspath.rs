//! Turning a request target into a filesystem path.
//!
//! A target such as `/tmp/a/b.txt` is resolved relative to the working
//! directory: every leading slash is stripped and `./` is prepended,
//! giving `./tmp/a/b.txt`. A write also needs the chain of parent
//! directories of its target, which is everything before the last slash.

use vstd::prelude::*;
use vstd::slice::{slice_subrange, slice_to_vec};

verus! {

/// ASCII `/`.
pub const SLASH: u8 = 47;

/// ASCII `.`.
pub const DOT: u8 = 46;

/// `p` with every leading slash removed.
pub open spec fn strip_leading_slashes(p: Seq<u8>) -> Seq<u8>
    decreases p.len(),
{
    if p.len() > 0 && p[0] == SLASH {
        strip_leading_slashes(p.skip(1))
    } else {
        p
    }
}

/// The filesystem path a request target names: `./` followed by the
/// target with its leading slashes stripped.
pub open spec fn normalize_target(target: Seq<u8>) -> Seq<u8> {
    seq![DOT, SLASH] + strip_leading_slashes(target)
}

/// Whether `p` contains a slash anywhere.
pub open spec fn has_slash(p: Seq<u8>) -> bool {
    exists|i: int| 0 <= i < p.len() && p[i] == SLASH
}

/// The index of the last slash in `p`, or `-1` where there is none.
pub open spec fn last_slash_at(p: Seq<u8>) -> int
    decreases p.len(),
{
    if p.len() == 0 {
        -1
    } else if p[p.len() - 1] == SLASH {
        p.len() - 1
    } else {
        last_slash_at(p.drop_last())
    }
}

/// Everything before the last slash of `p`: the parent directory chain
/// of the path `p` names.
pub open spec fn parent_of(p: Seq<u8>) -> Seq<u8> {
    p.take(last_slash_at(p))
}

/// Stripping leading slashes is skipping past them: where the first `i`
/// bytes are slashes and byte `i` (if any) is not, the stripped sequence
/// is the tail from `i`.
proof fn lemma_strip_is_skip(p: Seq<u8>, i: int)
    requires
        0 <= i <= p.len(),
        forall|j: int| 0 <= j < i ==> p[j] == SLASH,
        i == p.len() || p[i] != SLASH,
    ensures
        strip_leading_slashes(p) == p.skip(i),
    decreases i,
{
    if i == 0 {
        assert(p.skip(0) =~= p);
    } else {
        let tail = p.skip(1);
        assert(forall|j: int| 0 <= j < i - 1 ==> tail[j] == SLASH);
        lemma_strip_is_skip(tail, i - 1);
        assert(tail.skip(i - 1) =~= p.skip(i));
    }
}

/// Where byte `k` is the last slash of `p`, `last_slash_at` finds it.
proof fn lemma_last_slash_found(p: Seq<u8>, k: int)
    requires
        0 <= k < p.len(),
        p[k] == SLASH,
        forall|j: int| k < j < p.len() ==> p[j] != SLASH,
    ensures
        last_slash_at(p) == k,
    decreases p.len(),
{
    if k < p.len() - 1 {
        lemma_last_slash_found(p.drop_last(), k);
    }
}

/// The normalized form of any target contains a slash (at index 1) and
/// so always has a parent directory chain.
pub proof fn lemma_normalized_has_slash(target: Seq<u8>)
    ensures
        has_slash(normalize_target(target)),
        normalize_target(target).len() >= 2,
{
    assert(normalize_target(target)[1] == SLASH);
}

/// The filesystem path for a request target, resolved relative to the
/// working directory.
pub fn normalize(target: &Vec<u8>) -> (r: Vec<u8>)
    ensures
        r@ == normalize_target(target@),
{
    let mut i: usize = 0;
    while i < target.len() && target[i] == SLASH
        invariant
            i <= target@.len(),
            forall|j: int| 0 <= j < i ==> target@[j] == SLASH,
        decreases target@.len() - i,
    {
        i = i + 1;
    }
    proof {
        lemma_strip_is_skip(target@, i as int);
    }
    let mut r: Vec<u8> = Vec::new();
    r.push(DOT);
    r.push(SLASH);
    let mut tail = slice_to_vec(slice_subrange(target.as_slice(), i, target.len()));
    r.append(&mut tail);
    assert(r@ =~= normalize_target(target@));
    r
}

/// The parent directory chain of `path`: everything before its last
/// slash.
pub fn parent_dir(path: &Vec<u8>) -> (r: Vec<u8>)
    requires
        has_slash(path@),
    ensures
        r@ == parent_of(path@),
{
    let mut k: usize = path.len();
    while k > 0 && path[k - 1] != SLASH
        invariant
            k <= path@.len(),
            forall|j: int| k <= j < path@.len() ==> path@[j] != SLASH,
        decreases k,
    {
        k = k - 1;
    }
    assert(k > 0);
    proof {
        lemma_last_slash_found(path@, k - 1);
    }
    let r = slice_to_vec(slice_subrange(path.as_slice(), 0, k - 1));
    assert(r@ =~= parent_of(path@));
    r
}

} // verus!
