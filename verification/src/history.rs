//! Resolving against a repository.
//!
//! The repository is asked for the common ancestor of the branch and the
//! base, and for two walks: the commits that only the branch holds, and those
//! that only the base holds, each oldest first. The walks are read no further
//! than the resolver asks.

use crate::backend::{
    failure_class, failure_code, failure_message, held_ancestor, held_metadata, merge_base,
    new_walk, read_metadata, reported_class, reported_code, reported_message, walk_next,
    walk_oldest_first, walk_pending, walk_range, walk_ranges, walk_repository, walk_reversed,
};
use crate::commit::{Commit, CommitView};
use crate::error::{BackendError, ResolveError};
use crate::model::resolution;
use crate::observation::{drawn_from, settles, Observed};
use crate::resolver::{Phase, Resolver, Want};
use git2::{Error, Oid, Repository, Revwalk};
use vstd::prelude::*;

verus! {

/// `failure` is what `error` reports: its class and its code, as far as this
/// crate tells them apart, and its message.
pub open spec fn reports(failure: BackendError, error: Error) -> bool {
    &&& failure.class == reported_class(error)
    &&& failure.code == reported_code(error)
    &&& failure.message@ == reported_message(error)
}

/// `failure` is a failure of the repository, passed on as it was reported.
pub open spec fn passed_on(failure: ResolveError) -> bool {
    failure matches ResolveError::Backend(reported) && exists|error: Error| #[trigger]
        reports(reported, error)
}

/// The failure that `error` reports, as this crate holds it.
pub fn backend_failure(error: &Error) -> (failure: BackendError)
    ensures
        reports(failure, *error),
{
    BackendError {
        class: failure_class(error),
        code: failure_code(error),
        message: failure_message(error),
    }
}

/// What an answer of the repository means to a resolution: what was
/// answered, or the failure as it was reported. A failure ends the
/// resolution: nothing is tried again and nothing stands in for the answer.
pub fn answer_from<T>(answer: Result<T, Error>) -> (res: Result<T, ResolveError>)
    ensures
        match answer {
            Ok(answered) => res == Ok::<T, ResolveError>(answered),
            Err(error) => res matches Err(ResolveError::Backend(failure)) && reports(
                failure,
                error,
            ),
        },
{
    match answer {
        Ok(answered) => Ok(answered),
        Err(error) => Err(ResolveError::Backend(backend_failure(&error))),
    }
}

/// What the answer to a query for the common ancestor means: the ancestor,
/// none where the repository says that the two commits have none, and a
/// failure where it failed otherwise.
pub fn common_ancestor_from(answer: Result<Oid, BackendError>) -> (res: Result<
    Option<Oid>,
    ResolveError,
>)
    ensures
        res == match answer {
            Ok(base) => Ok(Some(base)),
            Err(failure) => if failure.means_no_common_ancestor() {
                Ok(None)
            } else {
                Err(ResolveError::Backend(failure))
            },
        },
{
    match answer {
        Ok(base) => Ok(Some(base)),
        Err(failure) => if failure.is_no_common_ancestor() {
            Ok(None)
        } else {
            Err(ResolveError::Backend(failure))
        },
    }
}

/// The common ancestor of `one` and `two` in `repo`, or `None` where they
/// share no history.
///
/// What is found is the ancestor that the repository holds of the two. A
/// failure is the repository's, passed on as it was reported, and never the
/// one that says that there is no common ancestor.
pub fn common_ancestor(repo: &Repository, one: Oid, two: Oid) -> (res: Result<
    Option<Oid>,
    ResolveError,
>)
    ensures
        res matches Ok(found) ==> found == held_ancestor(*repo, one, two),
        res matches Err(failure) ==> passed_on(failure),
        res matches Err(ResolveError::Backend(reported)) ==> !reported.means_no_common_ancestor(),
{
    let answer = match merge_base(repo, one, two) {
        Ok(base) => Ok(base),
        Err(error) => {
            let failure = backend_failure(&error);
            assert(reports(failure, error));
            Err(failure)
        },
    };
    common_ancestor_from(answer)
}

/// `walk` is a walk of `repo` that has taken in the range of the commits that
/// `start` holds and `beyond` does not, and no other, and is set to hand them
/// out oldest first.
pub open spec fn asked_for(walk: Revwalk, repo: Repository, start: Oid, beyond: Oid) -> bool {
    &&& walk_repository(walk) == repo
    &&& walk_ranges(walk) == set![(start, beyond)]
    &&& walk_reversed(walk)
}

/// A walk over the commits of `repo` that `start` holds and `beyond` does
/// not, oldest first.
///
/// A new walk is set to hand out oldest first, and then takes in the range.
/// Both commits must be commits of `repo`: where one is not, that is the
/// failure. The walk that is returned has taken in just this range. What it
/// holds is the repository's answer. A failure is the repository's, passed
/// on as it was reported.
pub fn open_walk<'repo>(repo: &'repo Repository, start: Oid, beyond: Oid) -> (res: Result<
    Revwalk<'repo>,
    ResolveError,
>)
    ensures
        res matches Ok(walk) ==> asked_for(walk, *repo, start, beyond),
        res matches Err(failure) ==> passed_on(failure),
{
    let mut walk = answer_from(new_walk(repo))?;
    answer_from(walk_oldest_first(&mut walk))?;
    answer_from(walk_range(repo, &mut walk, beyond, start))?;
    Ok(walk)
}

/// Draws the next commit of `walk` and reads its author and message from
/// `repo`. `None` says that the walk has ended.
///
/// The commit drawn is the first that was pending, and carries what the
/// repository holds under its id. A failure is the repository's, passed on
/// as it was reported.
pub fn draw(repo: &Repository, walk: &mut Revwalk) -> (res: Result<Option<Commit>, ResolveError>)
    ensures
        match res {
            Ok(Some(commit)) => {
                &&& walk_pending(*old(walk)).len() > 0
                &&& commit.id == walk_pending(*old(walk))[0]
                &&& commit.meta@ == held_metadata(*repo, commit.id)
                &&& walk_pending(*final(walk)) == walk_pending(*old(walk)).skip(1)
            },
            Ok(None) => walk_pending(*old(walk)).len() == 0 && walk_pending(*final(walk)).len()
                == 0,
            Err(failure) => passed_on(failure),
        },
{
    match walk_next(walk) {
        None => Ok(None),
        Some(answer) => {
            let id = answer_from(answer)?;
            let meta = answer_from(read_metadata(repo, id))?;
            Ok(Some(Commit { id, meta }))
        },
    }
}

/// Every commit of `seen` carries what `repo` holds under its id.
pub open spec fn read_from(seen: Seq<CommitView>, repo: Repository) -> bool {
    forall|i: int|
        0 <= i < seen.len() ==> (#[trigger] seen[i]).meta == held_metadata(repo, seen[i].id)
}

/// The commits `ids`, each with what `repo` holds under its id.
pub open spec fn held_walk(repo: Repository, ids: Seq<Oid>) -> Seq<CommitView> {
    Seq::new(ids.len(), |i: int| CommitView { id: ids[i], meta: held_metadata(repo, ids[i]) })
}

/// What was drawn of walks over `branch_ids` and `onto_ids` and read from
/// `repo` is the beginning of those walks as the repository holds them.
pub proof fn lemma_drawn_of_held(
    seen: Observed,
    repo: Repository,
    branch_ids: Seq<Oid>,
    onto_ids: Seq<Oid>,
)
    requires
        drawn_from(seen, branch_ids, onto_ids),
        read_from(seen.branch, repo),
        read_from(seen.onto, repo),
    ensures
        seen.admits(held_walk(repo, branch_ids), held_walk(repo, onto_ids)),
{
    assert forall|i: int| 0 <= i < seen.branch.len() implies #[trigger] seen.branch[i]
        == held_walk(repo, branch_ids)[i] by {
        assert(seen.branch[i].id == branch_ids[i]);
    }
    assert forall|i: int| 0 <= i < seen.onto.len() implies #[trigger] seen.onto[i] == held_walk(
        repo,
        onto_ids,
    )[i] by {
        assert(seen.onto[i].id == onto_ids[i]);
    }
}

/// Resolves `walk_branch`, the commits that only the branch holds, against
/// `walk_onto`, the commits that only the base `onto` holds. Both are walks
/// of `repo` that hand out oldest first. `merge_base` is their common
/// ancestor, where they have one.
///
/// Unless the repository fails, the result is the resolution of the two
/// walks as the repository holds them: the commits that were pending, each
/// with the author and message held under its id. The walks are read no
/// further than decides: each has handed out its first commits, as many as
/// were asked for, and what they handed out settles the result. A failure is
/// the repository's, passed on as it was reported.
pub fn resolve_walks(
    repo: &Repository,
    merge_base: Option<Oid>,
    onto: Oid,
    walk_branch: &mut Revwalk,
    walk_onto: &mut Revwalk,
) -> (res: Result<Oid, ResolveError>)
    requires
        walk_repository(*old(walk_branch)) == *repo,
        walk_repository(*old(walk_onto)) == *repo,
        walk_reversed(*old(walk_branch)),
        walk_reversed(*old(walk_onto)),
    ensures
        res matches Err(ResolveError::Backend(_)) || res == resolution(
            merge_base,
            onto,
            held_walk(*repo, walk_pending(*old(walk_branch))),
            held_walk(*repo, walk_pending(*old(walk_onto))),
        ),
        res matches Err(ResolveError::Backend(_)) || exists|seen: Observed|
            {
                &&& drawn_from(
                    seen,
                    walk_pending(*old(walk_branch)),
                    walk_pending(*old(walk_onto)),
                )
                &&& read_from(seen.branch, *repo)
                &&& read_from(seen.onto, *repo)
                &&& walk_pending(*final(walk_branch)) == walk_pending(*old(walk_branch)).skip(
                    seen.branch.len() as int,
                )
                &&& walk_pending(*final(walk_onto)) == walk_pending(*old(walk_onto)).skip(
                    seen.onto.len() as int,
                )
                &&& #[trigger] settles(seen, merge_base, onto, res)
            },
        res matches Err(failure) ==> (failure is Backend ==> passed_on(failure)),
{
    let ghost branch_ids = walk_pending(*walk_branch);
    let ghost onto_ids = walk_pending(*walk_onto);
    let mut resolver = Resolver::new(merge_base, onto);
    while !resolver.is_done()
        invariant
            resolver.wf(),
            resolver.merge_base() == merge_base,
            resolver.onto() == onto,
            drawn_from(resolver.observed(), branch_ids, onto_ids),
            read_from(resolver.observed().branch, *repo),
            read_from(resolver.observed().onto, *repo),
            walk_pending(*walk_branch) == branch_ids.skip(resolver.observed().branch.len() as int),
            walk_pending(*walk_onto) == onto_ids.skip(resolver.observed().onto.len() as int),
        decreases
                if resolver.phase() == Phase::Done {
                    0
                } else {
                    1 + walk_pending(*walk_branch).len() + walk_pending(*walk_onto).len()
                },
    {
        match resolver.wants() {
            Want::Branch => {
                let next = draw(repo, walk_branch)?;
                resolver.offer_branch(next);
            },
            Want::Onto => {
                let next = draw(repo, walk_onto)?;
                resolver.offer_onto(next);
            },
            Want::Nothing => {},
        }
    }
    let res = resolver.outcome();
    proof {
        lemma_drawn_of_held(resolver.observed(), *repo, branch_ids, onto_ids);
    }
    res
}

/// `res` is the resolution of what `repo` holds of `branch` and `onto`: of
/// the common ancestor that it finds, and of two of its walks as it holds
/// them, the one over what `branch` holds beyond `onto`, the other over what
/// `onto` holds beyond `branch`, both oldest first.
pub open spec fn resolves(
    repo: Repository,
    branch: Oid,
    onto: Oid,
    res: Result<Oid, ResolveError>,
) -> bool {
    exists|walk_branch: Revwalk, walk_onto: Revwalk|
        #![trigger
            asked_for(walk_branch, repo, branch, onto),
            asked_for(walk_onto, repo, onto, branch),
        ]
        {
            &&& asked_for(walk_branch, repo, branch, onto)
            &&& asked_for(walk_onto, repo, onto, branch)
            &&& res == resolution(
                held_ancestor(repo, onto, branch),
                onto,
                held_walk(repo, walk_pending(walk_branch)),
                held_walk(repo, walk_pending(walk_onto)),
            )
        }
}

/// The commit on which the branch at `branch` was last based, now that the
/// base stands at `onto`.
///
/// The repository is asked for the common ancestor of `onto` and `branch`,
/// and for two walks, both oldest first: from `branch`, leaving out what
/// `onto` holds, and from `onto`, leaving out what `branch` holds. Unless the
/// repository fails, the result is the resolution of that ancestor and those
/// walks, each commit with the author and message that the repository holds
/// under its id. A failure is the repository's, passed on as it was
/// reported.
pub fn find_old_base(repo: &Repository, branch: Oid, onto: Oid) -> (res: Result<
    Oid,
    ResolveError,
>)
    ensures
        res matches Err(ResolveError::Backend(_)) || resolves(*repo, branch, onto, res),
        res matches Err(failure) ==> (failure is Backend ==> passed_on(failure)),
{
    let merge_base = common_ancestor(repo, onto, branch)?;
    let mut walk_branch = open_walk(repo, branch, onto)?;
    let mut walk_onto = open_walk(repo, onto, branch)?;
    let ghost asked_branch = walk_branch;
    let ghost asked_onto = walk_onto;
    let res = resolve_walks(repo, merge_base, onto, &mut walk_branch, &mut walk_onto);
    proof {
        assert(asked_for(asked_branch, *repo, branch, onto));
        assert(asked_for(asked_onto, *repo, onto, branch));
    }
    res
}

} // verus!
