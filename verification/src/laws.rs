//! What holds of every resolution.
//!
//! Each law is stated of [`resolution`], which is what
//! [`resolve_commits`](crate::resolver::resolve_commits) returns for two
//! walks that are given, and what
//! [`resolve_walks`](crate::history::resolve_walks) and
//! [`find_old_base`](crate::history::find_old_base) return for the walks that
//! a repository holds, unless the repository fails.
//!
//! A [`Resolver`](crate::resolver::Resolver) reads the walks only as far as
//! decides. For it each law is stated once more, of a result that is settled
//! by what was drawn: it holds of every pair of walks that begin with what
//! was drawn.

use crate::commit::CommitView;
use crate::error::ResolveError;
use crate::model::{
    fallback, in_step, lemma_fork_point_run, lemma_fork_point_unanchored, none_carries,
    pair_agrees, resolution,
};
use crate::observation::{settles, Observed};
use git2::Oid;
use vstd::prelude::*;

verus! {

/// The parents of each commit of a history.
pub ghost struct Ancestry {
    pub parents: spec_fn(Oid) -> Set<Oid>,
}

impl Ancestry {
    /// Each commit of `path` but the first is a parent of the one before it.
    pub open spec fn descends(self, path: Seq<Oid>) -> bool {
        forall|i: int|
            0 <= i < path.len() - 1 ==> (self.parents)(#[trigger] path[i]).contains(path[i + 1])
    }

    /// `to` is `from` or one of its ancestors.
    pub open spec fn reaches(self, from: Oid, to: Oid) -> bool {
        exists|path: Seq<Oid>|
            path.len() > 0 && path[0] == from && path[path.len() - 1] == to
                && #[trigger] self.descends(path)
    }

    /// Every commit of `walk` is one that `start` reaches and `beyond` does
    /// not.
    pub open spec fn lists_only(self, start: Oid, beyond: Oid, walk: Seq<CommitView>) -> bool {
        forall|i: int|
            0 <= i < walk.len() ==> self.reaches(start, (#[trigger] walk[i]).id) && !self.reaches(
                beyond,
                walk[i].id,
            )
    }

    /// An ancestor of an ancestor is an ancestor.
    pub proof fn lemma_reaches_on(self, from: Oid, via: Oid, to: Oid)
        requires
            self.reaches(from, via),
            self.reaches(via, to),
        ensures
            self.reaches(from, to),
    {
        let first = choose|path: Seq<Oid>|
            path.len() > 0 && path[0] == from && path[path.len() - 1] == via
                && #[trigger] self.descends(path);
        let second = choose|path: Seq<Oid>|
            path.len() > 0 && path[0] == via && path[path.len() - 1] == to
                && #[trigger] self.descends(path);
        let whole = first + second.skip(1);
        assert forall|i: int| 0 <= i < whole.len() - 1 implies (self.parents)(
            #[trigger] whole[i],
        ).contains(whole[i + 1]) by {
            if i < first.len() - 1 {
                assert((self.parents)(first[i]).contains(first[i + 1]));
            } else {
                let k = i - (first.len() - 1);
                assert(whole[i] == second[k]);
                assert((self.parents)(second[k]).contains(second[k + 1]));
            }
        }
        assert(self.descends(whole));
        assert(whole[0] == from);
        assert(whole[whole.len() - 1] == to);
    }
}

/// Containment: a branch that the base reaches holds no commit of its own,
/// and resolves to the common ancestor. Where the branch never left the base,
/// that ancestor is the branch itself.
pub proof fn law_containment(
    history: Ancestry,
    branch: Oid,
    onto: Oid,
    merge_base: Oid,
    branch_walk: Seq<CommitView>,
    onto_walk: Seq<CommitView>,
)
    requires
        history.reaches(onto, branch),
        history.lists_only(branch, onto, branch_walk),
    ensures
        branch_walk.len() == 0,
        resolution(Some(merge_base), onto, branch_walk, onto_walk) == Ok::<Oid, ResolveError>(
            merge_base,
        ),
        merge_base == branch ==> resolution(Some(merge_base), onto, branch_walk, onto_walk)
            == Ok::<Oid, ResolveError>(branch),
{
    if branch_walk.len() > 0 {
        let own = branch_walk[0].id;
        history.lemma_reaches_on(onto, branch, own);
    }
}

/// No correspondence: where no commit of the branch's walk carries the
/// metadata of any commit of the base's walk, the resolution is the common
/// ancestor, or the base where there is none.
///
/// A branch with no commit of its own and no common ancestor is left out: it
/// has no resolution.
pub proof fn law_no_correspondence(
    merge_base: Option<Oid>,
    onto: Oid,
    branch_walk: Seq<CommitView>,
    onto_walk: Seq<CommitView>,
)
    requires
        forall|i: int, j: int|
            0 <= i < branch_walk.len() && 0 <= j < onto_walk.len() ==> (
            #[trigger] branch_walk[i]).meta != (#[trigger] onto_walk[j]).meta,
        branch_walk.len() > 0 || merge_base is Some,
    ensures
        resolution(merge_base, onto, branch_walk, onto_walk) == Ok::<Oid, ResolveError>(
            fallback(merge_base, onto),
        ),
{
    if branch_walk.len() > 0 {
        assert forall|j: int| 0 <= j < onto_walk.len() implies (#[trigger] onto_walk[j]).meta
            != branch_walk[0].meta by {
            assert(branch_walk[0].meta != onto_walk[j].meta);
        }
        lemma_fork_point_unanchored(fallback(merge_base, onto), branch_walk, onto_walk);
    }
}

/// Full migration: where the base's walk first meets the branch's first
/// commit at `anchor`, and from there on holds a commit with the same
/// metadata for every commit of the branch's walk, in the same order and with
/// none between, the resolution is the last commit of the branch's walk.
pub proof fn law_full_migration(
    merge_base: Option<Oid>,
    onto: Oid,
    branch_walk: Seq<CommitView>,
    onto_walk: Seq<CommitView>,
    anchor: int,
)
    requires
        in_step(branch_walk, onto_walk, anchor, branch_walk.len() as int),
    ensures
        resolution(merge_base, onto, branch_walk, onto_walk) == Ok::<Oid, ResolveError>(
            branch_walk[branch_walk.len() - 1].id,
        ),
{
    lemma_fork_point_run(
        fallback(merge_base, onto),
        branch_walk,
        onto_walk,
        anchor,
        branch_walk.len() as int,
    );
}

/// Partial migration: where the base's walk first meets the branch's first
/// commit at `anchor`, the first `k` pairs from there on agree and the next
/// pair does not, the resolution is the branch's commit of the `k`-th pair,
/// whatever the walks hold after that.
pub proof fn law_partial_migration(
    merge_base: Option<Oid>,
    onto: Oid,
    branch_walk: Seq<CommitView>,
    onto_walk: Seq<CommitView>,
    anchor: int,
    k: int,
)
    requires
        in_step(branch_walk, onto_walk, anchor, k),
        k < branch_walk.len(),
        anchor + k < onto_walk.len(),
        branch_walk[k].meta != onto_walk[anchor + k].meta,
    ensures
        resolution(merge_base, onto, branch_walk, onto_walk) == Ok::<Oid, ResolveError>(
            branch_walk[k - 1].id,
        ),
{
    assert(!pair_agrees(branch_walk, onto_walk, k, anchor + k));
    lemma_fork_point_run(fallback(merge_base, onto), branch_walk, onto_walk, anchor, k);
}

/// Unrelated histories: where the branch and the base have no common
/// ancestor and no commit of the base's walk carries the metadata of the
/// branch's first commit, the resolution is the base.
pub proof fn law_unrelated_histories(
    onto: Oid,
    branch_walk: Seq<CommitView>,
    onto_walk: Seq<CommitView>,
)
    requires
        branch_walk.len() > 0,
        none_carries(branch_walk[0].meta, onto_walk, 0, onto_walk.len() as int),
    ensures
        resolution(None, onto, branch_walk, onto_walk) == Ok::<Oid, ResolveError>(onto),
{
    lemma_fork_point_unanchored(onto, branch_walk, onto_walk);
}

/// A result that is settled by what was drawn is the resolution of every
/// pair of walks that begin with what was drawn.
pub proof fn law_settled(
    seen: Observed,
    merge_base: Option<Oid>,
    onto: Oid,
    res: Result<Oid, ResolveError>,
    branch_walk: Seq<CommitView>,
    onto_walk: Seq<CommitView>,
)
    requires
        settles(seen, merge_base, onto, res),
        seen.admits(branch_walk, onto_walk),
    ensures
        res == resolution(merge_base, onto, branch_walk, onto_walk),
{
}

/// No correspondence, of a settled result: where the walks begin with what
/// was drawn and no commit of the one carries the metadata of any commit of
/// the other, the result is the common ancestor, or the base where there is
/// none.
pub proof fn law_no_correspondence_settled(
    seen: Observed,
    merge_base: Option<Oid>,
    onto: Oid,
    res: Result<Oid, ResolveError>,
    branch_walk: Seq<CommitView>,
    onto_walk: Seq<CommitView>,
)
    requires
        settles(seen, merge_base, onto, res),
        seen.admits(branch_walk, onto_walk),
        forall|i: int, j: int|
            0 <= i < branch_walk.len() && 0 <= j < onto_walk.len() ==> (
            #[trigger] branch_walk[i]).meta != (#[trigger] onto_walk[j]).meta,
        branch_walk.len() > 0 || merge_base is Some,
    ensures
        res == Ok::<Oid, ResolveError>(fallback(merge_base, onto)),
{
    law_no_correspondence(merge_base, onto, branch_walk, onto_walk);
}

/// Full migration, of a settled result: where the walks begin with what was
/// drawn and the base's walk holds, from the first commit that carries the
/// metadata of the branch's first, a commit with the same metadata for every
/// commit of the branch's walk, the result is the last commit of the
/// branch's walk.
pub proof fn law_full_migration_settled(
    seen: Observed,
    merge_base: Option<Oid>,
    onto: Oid,
    res: Result<Oid, ResolveError>,
    branch_walk: Seq<CommitView>,
    onto_walk: Seq<CommitView>,
    anchor: int,
)
    requires
        settles(seen, merge_base, onto, res),
        seen.admits(branch_walk, onto_walk),
        in_step(branch_walk, onto_walk, anchor, branch_walk.len() as int),
    ensures
        res == Ok::<Oid, ResolveError>(branch_walk[branch_walk.len() - 1].id),
{
    law_full_migration(merge_base, onto, branch_walk, onto_walk, anchor);
}

/// Partial migration, of a settled result: where the walks begin with what
/// was drawn, the first `k` pairs from the anchor on agree and the next pair
/// does not, the result is the branch's commit of the `k`-th pair, whatever
/// the walks hold after that.
pub proof fn law_partial_migration_settled(
    seen: Observed,
    merge_base: Option<Oid>,
    onto: Oid,
    res: Result<Oid, ResolveError>,
    branch_walk: Seq<CommitView>,
    onto_walk: Seq<CommitView>,
    anchor: int,
    k: int,
)
    requires
        settles(seen, merge_base, onto, res),
        seen.admits(branch_walk, onto_walk),
        in_step(branch_walk, onto_walk, anchor, k),
        k < branch_walk.len(),
        anchor + k < onto_walk.len(),
        branch_walk[k].meta != onto_walk[anchor + k].meta,
    ensures
        res == Ok::<Oid, ResolveError>(branch_walk[k - 1].id),
{
    law_partial_migration(merge_base, onto, branch_walk, onto_walk, anchor, k);
}

/// Unrelated histories, of a settled result: where the walks begin with what
/// was drawn, there is no common ancestor, and no commit of the base's walk
/// carries the metadata of the branch's first commit, the result is the
/// base.
pub proof fn law_unrelated_histories_settled(
    seen: Observed,
    onto: Oid,
    res: Result<Oid, ResolveError>,
    branch_walk: Seq<CommitView>,
    onto_walk: Seq<CommitView>,
)
    requires
        settles(seen, None, onto, res),
        seen.admits(branch_walk, onto_walk),
        branch_walk.len() > 0,
        none_carries(branch_walk[0].meta, onto_walk, 0, onto_walk.len() as int),
    ensures
        res == Ok::<Oid, ResolveError>(onto),
{
    law_unrelated_histories(onto, branch_walk, onto_walk);
}

} // verus!
