//! What the fork point of two walks is.
//!
//! A walk is the sequence of commits that one side holds and the other does
//! not, oldest first. The first commit of the branch's walk is looked for in
//! the base's walk by its metadata: where it is found, the two walks are read
//! on in step for as long as they agree, and the last commit of the branch
//! that agreed is the fork point. Where it is not found, or the branch has no
//! commit of its own, the fork point is the fallback: the common ancestor, or
//! the base itself where there is none.

use crate::commit::{Commit, CommitView, MetadataView};
use crate::error::ResolveError;
use git2::Oid;
use vstd::prelude::*;

verus! {

/// The views of a sequence of commits.
pub open spec fn views(commits: Seq<Commit>) -> Seq<CommitView> {
    commits.map_values(|c: Commit| c@)
}

/// The answer where no correspondence is found: the common ancestor, or the
/// base where the histories share none.
pub open spec fn fallback(merge_base: Option<Oid>, onto: Oid) -> Oid {
    match merge_base {
        Some(base) => base,
        None => onto,
    }
}

/// The position, at or after `from`, of the first commit of `walk` that
/// carries `meta`.
pub open spec fn first_match(meta: MetadataView, walk: Seq<CommitView>, from: int) -> Option<int>
    decreases walk.len() - from,
{
    if from < 0 || from >= walk.len() {
        None
    } else if walk[from].meta == meta {
        Some(from)
    } else {
        first_match(meta, walk, from + 1)
    }
}

/// How many pairs in a row carry the same metadata, counted from `branch[b]`
/// and `onto[o]` on.
pub open spec fn agreeing(branch: Seq<CommitView>, onto: Seq<CommitView>, b: int, o: int) -> nat
    decreases branch.len() - b,
{
    if 0 <= b < branch.len() && 0 <= o < onto.len() && branch[b].meta == onto[o].meta {
        1 + agreeing(branch, onto, b + 1, o + 1)
    } else {
        0
    }
}

/// The fork point of `branch` against `onto`.
pub open spec fn fork_point(fallback: Oid, branch: Seq<CommitView>, onto: Seq<CommitView>) -> Oid {
    if branch.len() == 0 {
        fallback
    } else {
        match first_match(branch[0].meta, onto, 0) {
            None => fallback,
            Some(anchor) => branch[agreeing(branch, onto, 1, anchor + 1) as int].id,
        }
    }
}

/// What resolving returns once both walks are known. A branch with no commit
/// of its own lies within the base, so a common ancestor exists: where none
/// was found, the history is not sound.
pub open spec fn resolution(
    merge_base: Option<Oid>,
    onto: Oid,
    branch: Seq<CommitView>,
    onto_walk: Seq<CommitView>,
) -> Result<Oid, ResolveError> {
    if branch.len() == 0 && merge_base is None {
        Err(ResolveError::InconsistentHistory)
    } else {
        Ok(fork_point(fallback(merge_base, onto), branch, onto_walk))
    }
}

/// No commit of `walk` in `from..to` carries `meta`.
pub open spec fn none_carries(
    meta: MetadataView,
    walk: Seq<CommitView>,
    from: int,
    to: int,
) -> bool {
    forall|i: int| from <= i < to ==> (#[trigger] walk[i]).meta != meta
}

/// The `n` pairs from `branch[b]` and `onto[o]` on are there and agree.
pub open spec fn pairs_agree(
    branch: Seq<CommitView>,
    onto: Seq<CommitView>,
    b: int,
    o: int,
    n: int,
) -> bool {
    &&& b + n <= branch.len()
    &&& o + n <= onto.len()
    &&& forall|k: int| b <= k < b + n ==> (#[trigger] branch[k]).meta == onto[o + (k - b)].meta
}

/// The pair `branch[b]`, `onto[o]` is there and agrees.
pub open spec fn pair_agrees(
    branch: Seq<CommitView>,
    onto: Seq<CommitView>,
    b: int,
    o: int,
) -> bool {
    0 <= b < branch.len() && 0 <= o < onto.len() && branch[b].meta == onto[o].meta
}

/// Where the first commit that carries `meta` stands, `first_match` finds it.
pub proof fn lemma_first_match_found(meta: MetadataView, walk: Seq<CommitView>, from: int, at: int)
    requires
        0 <= from <= at < walk.len(),
        none_carries(meta, walk, from, at),
        walk[at].meta == meta,
    ensures
        first_match(meta, walk, from) == Some(at),
    decreases at - from,
{
    if from < at {
        assert(walk[from].meta != meta);
        lemma_first_match_found(meta, walk, from + 1, at);
    }
}

/// Where no commit carries `meta`, `first_match` finds none.
pub proof fn lemma_first_match_absent(meta: MetadataView, walk: Seq<CommitView>, from: int)
    requires
        0 <= from,
        none_carries(meta, walk, from, walk.len() as int),
    ensures
        first_match(meta, walk, from) is None,
    decreases walk.len() - from,
{
    if from < walk.len() {
        assert(walk[from].meta != meta);
        lemma_first_match_absent(meta, walk, from + 1);
    }
}

/// Where `n` pairs agree and the next does not, `agreeing` counts `n`.
pub proof fn lemma_agreeing_counts(
    branch: Seq<CommitView>,
    onto: Seq<CommitView>,
    b: int,
    o: int,
    n: int,
)
    requires
        0 <= b,
        0 <= o,
        0 <= n,
        pairs_agree(branch, onto, b, o, n),
        !pair_agrees(branch, onto, b + n, o + n),
    ensures
        agreeing(branch, onto, b, o) == n,
    decreases n,
{
    if n > 0 {
        assert(branch[b].meta == onto[o + (b - b)].meta);
        lemma_agreeing_counts(branch, onto, b + 1, o + 1, n - 1);
    }
}

/// Where the base's walk holds no commit with the metadata of the branch's
/// first, the fork point is the fallback.
pub proof fn lemma_fork_point_unanchored(
    fallback: Oid,
    branch: Seq<CommitView>,
    onto: Seq<CommitView>,
)
    requires
        branch.len() > 0,
        none_carries(branch[0].meta, onto, 0, onto.len() as int),
    ensures
        fork_point(fallback, branch, onto) == fallback,
{
    lemma_first_match_absent(branch[0].meta, onto, 0);
}

/// The branch's first commit is first met at `onto[anchor]`, and the `n`
/// pairs from there on are there and agree.
pub open spec fn in_step(
    branch: Seq<CommitView>,
    onto: Seq<CommitView>,
    anchor: int,
    n: int,
) -> bool {
    &&& 0 <= anchor
    &&& 1 <= n <= branch.len()
    &&& anchor + n <= onto.len()
    &&& none_carries(branch[0].meta, onto, 0, anchor)
    &&& forall|k: int| 0 <= k < n ==> (#[trigger] branch[k]).meta == onto[anchor + k].meta
}

/// Where the walks are in step over `n` pairs from `onto[anchor]` on and the
/// next pair does not agree, or is not there, the fork point is the branch's
/// commit of the last pair that agrees.
pub proof fn lemma_fork_point_run(
    fallback: Oid,
    branch: Seq<CommitView>,
    onto: Seq<CommitView>,
    anchor: int,
    n: int,
)
    requires
        in_step(branch, onto, anchor, n),
        !pair_agrees(branch, onto, n, anchor + n),
    ensures
        fork_point(fallback, branch, onto) == branch[n - 1].id,
{
    assert(branch[0].meta == onto[anchor + 0].meta);
    lemma_first_match_found(branch[0].meta, onto, 0, anchor);
    assert(pairs_agree(branch, onto, 1, anchor + 1, n - 1)) by {
        assert forall|k: int| 1 <= k < 1 + (n - 1) implies (#[trigger] branch[k]).meta
            == onto[anchor + 1 + (k - 1)].meta by {
            assert(branch[k].meta == onto[anchor + k].meta);
        }
    }
    lemma_agreeing_counts(branch, onto, 1, anchor + 1, n - 1);
}

} // verus!
