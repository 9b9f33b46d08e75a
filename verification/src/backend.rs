//! The calls into `git2`, each with the contract that the rest of the crate
//! relies on. Nothing in this file is proved: these are the assumptions.

use crate::commit::{Metadata, MetadataView};
use crate::error::{FailureClass, FailureCode};
use git2::{Error, ErrorClass, ErrorCode, Oid, Repository, Revwalk, Sort};
use vstd::prelude::*;

verus! {

/// `git2::Oid`, the identifier of a commit. Nothing is known of what it holds:
/// it is passed through, and compared for equality in contracts only.
#[verifier::external_type_specification]
#[verifier::external_body]
pub struct ExOid(git2::Oid);

/// `git2::Repository`, an open repository.
#[verifier::external_type_specification]
#[verifier::external_body]
pub struct ExRepository(git2::Repository);

/// `git2::Revwalk`, a walk over the commits of a repository.
#[verifier::external_type_specification]
#[verifier::external_body]
pub struct ExRevwalk<'repo>(git2::Revwalk<'repo>);

/// `git2::Error`, a failure reported by `git2`.
#[verifier::external_type_specification]
#[verifier::external_body]
pub struct ExError(git2::Error);

/// The commits that a walk has yet to hand out, in the order in which it
/// hands them out.
///
/// A walk that is sorted in reverse lists all its commits when the first is
/// asked for, and hands them out from that list. For a walk that has not been
/// asked yet, this is the list that it will make.
pub uninterp spec fn walk_pending(walk: Revwalk) -> Seq<Oid>;

/// The ranges that a walk has taken in since it was made or last reset: of
/// each, the commit to start from, and the commit to leave out with all its
/// ancestors. A walk that is reset forgets them.
pub uninterp spec fn walk_ranges(walk: Revwalk) -> Set<(Oid, Oid)>;

/// Whether a walk is set to hand out its commits oldest first.
pub uninterp spec fn walk_reversed(walk: Revwalk) -> bool;

/// The repository that a walk was made for. It reads no other.
pub uninterp spec fn walk_repository(walk: Revwalk) -> Repository;

/// What a repository holds under the id of a commit: the name and the
/// address of its author, and its message.
///
/// An id is the hash of what it names, so what a repository holds under one
/// id is always the same. A repository that does not hold the commit answers
/// with a failure, of which nothing is said.
pub uninterp spec fn held_metadata(repo: Repository, id: Oid) -> MetadataView;

/// The common ancestor that a repository finds of two commits that it holds,
/// or none where their histories have no commit in common.
///
/// The ancestors of a commit are named in the commit, so a repository that is
/// not rewritten while it is asked finds the same ancestor every time.
pub uninterp spec fn held_ancestor(repo: Repository, one: Oid, two: Oid) -> Option<Oid>;

/// The class of a failure, as far as this crate tells the classes apart.
pub uninterp spec fn reported_class(error: Error) -> FailureClass;

/// The code of a failure, as far as this crate tells the codes apart.
pub uninterp spec fn reported_code(error: Error) -> FailureCode;

/// The message of a failure.
pub uninterp spec fn reported_message(error: Error) -> Seq<char>;

/// `Repository::merge_base`: the common ancestor that `repo` finds of two
/// commits. A commit that is returned is that ancestor. The failure of the
/// class of merges that says that nothing was found is how the call says
/// that there is none: it is raised where the search has ended with no
/// commit, and nowhere else. Nothing is claimed after any other failure.
#[verifier::external_body]
pub(crate) fn merge_base(repo: &Repository, one: Oid, two: Oid) -> (answer: Result<Oid, Error>)
    ensures
        match answer {
            Ok(base) => held_ancestor(*repo, one, two) == Some(base),
            Err(error) => reported_class(error) == FailureClass::Merge && reported_code(error)
                == FailureCode::NotFound ==> held_ancestor(*repo, one, two) is None,
        },
{
    repo.merge_base(one, two)
}

/// `Repository::revwalk`: a new walk for `repo`. It has taken in no range and
/// is not set to hand out oldest first.
#[verifier::external_body]
pub(crate) fn new_walk<'repo>(repo: &'repo Repository) -> (made: Result<Revwalk<'repo>, Error>)
    ensures
        made matches Ok(walk) ==> {
            &&& walk_repository(walk) == *repo
            &&& walk_ranges(walk) == Set::<(Oid, Oid)>::empty()
            &&& !walk_reversed(walk)
        },
{
    repo.revwalk()
}

/// `Revwalk::set_sorting` with `Sort::REVERSE`: sets the walk to hand out its
/// commits oldest first. A walk that has begun to hand out commits is reset
/// by this and forgets its ranges; one that has not keeps them. The walk
/// stays with its repository. Nothing is claimed of what the walk holds
/// afterwards.
#[verifier::external_body]
pub(crate) fn walk_oldest_first(walk: &mut Revwalk) -> (asked: Result<(), Error>)
    ensures
        walk_repository(*final(walk)) == walk_repository(*old(walk)),
        asked is Ok ==> {
            &&& walk_reversed(*final(walk))
            &&& (walk_ranges(*final(walk)) == walk_ranges(*old(walk)) || walk_ranges(
                *final(walk),
            ) == Set::<(Oid, Oid)>::empty())
        },
{
    walk.set_sorting(Sort::REVERSE)
}

/// `Repository::find_commit` of `start` and of `beyond`, then
/// `Revwalk::push_range` on the range `<beyond>..<start>`, both written in
/// full: has the walk start from `start` and leave out `beyond` with all its
/// ancestors.
///
/// The range is handed over as a text, and a text that names no object is
/// read as the name of a reference. So both commits are looked up first, in
/// the repository of the walk, and the failure to find one is returned
/// before anything is handed over. Where all succeeds, the walk has taken in
/// this range besides those before, and hands out in the order it was set
/// to. The walk stays with its repository. Nothing is claimed of what the
/// walk holds afterwards, nor after a failure.
#[verifier::external_body]
pub(crate) fn walk_range(repo: &Repository, walk: &mut Revwalk, beyond: Oid, start: Oid) -> (asked:
    Result<(), Error>)
    requires
        walk_repository(*old(walk)) == *repo,
    ensures
        walk_repository(*final(walk)) == walk_repository(*old(walk)),
        asked is Ok ==> {
            &&& walk_ranges(*final(walk)) == walk_ranges(*old(walk)).insert((start, beyond))
            &&& walk_reversed(*final(walk)) == walk_reversed(*old(walk))
        },
{
    repo.find_commit(start)?;
    repo.find_commit(beyond)?;
    walk.push_range(&format!("{}..{}", beyond, start))
}

/// `Iterator::next` of `Revwalk`. A commit that is handed out is the first of
/// those pending and leaves the others pending; `None` is returned only where
/// none is pending, and none is pending afterwards (the walk is reset, and a
/// reset walk has nothing to start from). Nothing is claimed after a failure.
#[verifier::external_body]
pub(crate) fn walk_next(walk: &mut Revwalk) -> (next: Option<Result<Oid, Error>>)
    ensures
        match next {
            Some(Ok(id)) => {
                &&& walk_pending(*old(walk)).len() > 0
                &&& id == walk_pending(*old(walk))[0]
                &&& walk_pending(*final(walk)) == walk_pending(*old(walk)).skip(1)
            },
            Some(Err(_)) => true,
            None => walk_pending(*old(walk)).len() == 0 && walk_pending(*final(walk)).len() == 0,
        },
{
    walk.next()
}

/// `Repository::find_commit`, and of the commit found `Commit::author` with
/// `Signature::name_bytes` and `Signature::email_bytes`, and
/// `Commit::message_bytes`: the name and the address of the author of the
/// commit `id`, and its message less the line breaks that it begins with,
/// each as the bytes that `repo` holds. What is read is what the repository
/// holds under `id`. Nothing is claimed after a failure.
#[verifier::external_body]
pub(crate) fn read_metadata(repo: &Repository, id: Oid) -> (read: Result<Metadata, Error>)
    ensures
        read matches Ok(meta) ==> meta@ == held_metadata(*repo, id),
{
    let commit = repo.find_commit(id)?;
    let author = commit.author();
    Ok(
        Metadata {
            author_name: author.name_bytes().to_vec(),
            author_email: author.email_bytes().to_vec(),
            message: commit.message_bytes().to_vec(),
        },
    )
}

/// `Error::class`, as far as this crate tells the classes apart. The class
/// is a field of the failure, and is named by it.
#[verifier::external_body]
pub(crate) fn failure_class(error: &Error) -> (class: FailureClass)
    ensures
        class == reported_class(*error),
{
    match error.class() {
        ErrorClass::Reference => FailureClass::Reference,
        ErrorClass::Merge => FailureClass::Merge,
        _ => FailureClass::Other,
    }
}

/// `Error::code`, as far as this crate tells the codes apart. The code is a
/// field of the failure, and is named by it.
#[verifier::external_body]
pub(crate) fn failure_code(error: &Error) -> (code: FailureCode)
    ensures
        code == reported_code(*error),
{
    match error.code() {
        ErrorCode::NotFound => FailureCode::NotFound,
        ErrorCode::UnbornBranch => FailureCode::UnbornBranch,
        _ => FailureCode::Other,
    }
}

/// `Error::message`, as an owned string. The message is a field of the
/// failure, and is named by it.
#[verifier::external_body]
pub(crate) fn failure_message(error: &Error) -> (message: String)
    ensures
        message@ == reported_message(*error),
{
    error.message().to_string()
}

} // verus!
