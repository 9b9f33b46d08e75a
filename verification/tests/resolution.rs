//! Resolving walks that are known in full.

use git2::Oid;
use onto::commit::{bytes_equal, copy_bytes, Commit, Metadata};
use onto::error::{BackendError, FailureClass, FailureCode, ResolveError};
use onto::history::common_ancestor_from;
use onto::resolver::resolve_commits;

fn id(n: u8) -> Oid {
    Oid::from_bytes(&[n; 20]).unwrap()
}

fn meta(name: &str, email: &str, message: &str) -> Metadata {
    Metadata {
        author_name: name.as_bytes().to_vec(),
        author_email: email.as_bytes().to_vec(),
        message: message.as_bytes().to_vec(),
    }
}

/// A commit by the one author of these tests, with `message`.
fn commit(n: u8, message: &str) -> Commit {
    Commit { id: id(n), meta: meta("Ada", "ada@example.org", message) }
}

#[test]
fn branch_without_commits_resolves_to_the_common_ancestor() {
    let onto_walk = vec![commit(1, "d"), commit(2, "e")];
    assert_eq!(resolve_commits(Some(id(9)), id(2), &[], &onto_walk), Ok(id(9)));
    assert_eq!(resolve_commits(Some(id(9)), id(2), &[], &[]), Ok(id(9)));
}

#[test]
fn branch_that_is_the_base_resolves_to_itself() {
    assert_eq!(resolve_commits(Some(id(7)), id(7), &[], &[]), Ok(id(7)));
}

#[test]
fn branch_without_commits_and_without_ancestor_is_inconsistent() {
    assert_eq!(
        resolve_commits(None, id(2), &[], &vec![commit(2, "e")]),
        Err(ResolveError::InconsistentHistory)
    );
    assert_eq!(resolve_commits(None, id(2), &[], &[]), Err(ResolveError::InconsistentHistory));
}

#[test]
fn no_correspondence_resolves_to_the_common_ancestor() {
    let branch = vec![commit(10, "alpha"), commit(11, "beta")];
    let onto_walk = vec![commit(20, "d"), commit(21, "e")];
    assert_eq!(resolve_commits(Some(id(3)), id(21), &branch, &onto_walk), Ok(id(3)));
}

#[test]
fn no_correspondence_and_empty_base_walk_resolve_to_the_common_ancestor() {
    let branch = vec![commit(10, "alpha"), commit(11, "beta")];
    assert_eq!(resolve_commits(Some(id(3)), id(3), &branch, &[]), Ok(id(3)));
}

#[test]
fn unrelated_histories_resolve_to_the_base() {
    let branch = vec![commit(10, "alpha"), commit(11, "beta")];
    let onto_walk = vec![commit(20, "root"), commit(21, "next")];
    assert_eq!(resolve_commits(None, id(21), &branch, &onto_walk), Ok(id(21)));
}

#[test]
fn full_migration_resolves_to_the_last_commit_of_the_branch() {
    let branch = vec![commit(10, "alpha"), commit(11, "beta"), commit(12, "gamma")];
    let onto_walk = vec![commit(30, "alpha"), commit(31, "beta"), commit(32, "gamma")];
    assert_eq!(resolve_commits(Some(id(3)), id(32), &branch, &onto_walk), Ok(id(12)));
}

#[test]
fn full_migration_after_commits_of_the_base_alone() {
    let branch = vec![commit(10, "alpha"), commit(11, "beta")];
    let onto_walk = vec![commit(20, "d"), commit(21, "e"), commit(30, "alpha"), commit(31, "beta")];
    assert_eq!(resolve_commits(Some(id(3)), id(31), &branch, &onto_walk), Ok(id(11)));
}

#[test]
fn full_migration_with_more_on_the_base() {
    let branch = vec![commit(10, "alpha"), commit(11, "beta")];
    let onto_walk = vec![commit(30, "alpha"), commit(31, "beta"), commit(32, "lambda")];
    assert_eq!(resolve_commits(Some(id(3)), id(32), &branch, &onto_walk), Ok(id(11)));
}

#[test]
fn partial_migration_resolves_to_the_last_commit_that_agrees() {
    let branch = vec![commit(10, "alpha"), commit(11, "beta"), commit(12, "x"), commit(13, "y")];
    let onto_walk =
        vec![commit(30, "alpha"), commit(31, "beta"), commit(32, "gamma"), commit(33, "delta")];
    assert_eq!(resolve_commits(Some(id(3)), id(33), &branch, &onto_walk), Ok(id(11)));
}

#[test]
fn partial_migration_does_not_look_past_the_first_difference() {
    let branch = vec![commit(10, "alpha"), commit(11, "x"), commit(12, "gamma")];
    let onto_walk = vec![commit(30, "alpha"), commit(31, "beta"), commit(32, "gamma")];
    assert_eq!(resolve_commits(Some(id(3)), id(32), &branch, &onto_walk), Ok(id(10)));
}

#[test]
fn only_the_first_commit_of_the_branch_is_searched_for() {
    let branch = vec![commit(10, "x"), commit(11, "alpha")];
    let onto_walk = vec![commit(30, "alpha"), commit(31, "beta")];
    assert_eq!(resolve_commits(Some(id(3)), id(31), &branch, &onto_walk), Ok(id(3)));
}

#[test]
fn the_anchor_is_the_first_commit_of_the_base_that_matches() {
    let branch = vec![commit(10, "alpha"), commit(11, "beta")];
    let onto_walk =
        vec![commit(29, "alpha"), commit(20, "d"), commit(30, "alpha"), commit(31, "beta")];
    assert_eq!(resolve_commits(Some(id(3)), id(31), &branch, &onto_walk), Ok(id(10)));
}

#[test]
fn the_resolution_is_the_commit_of_the_branch_not_of_the_base() {
    let branch = vec![commit(10, "alpha")];
    let onto_walk = vec![commit(30, "alpha")];
    let resolved = resolve_commits(Some(id(3)), id(30), &branch, &onto_walk).unwrap();
    assert_eq!(resolved, id(10));
    assert_ne!(resolved, id(30));
}

#[test]
fn branch_rebuilt_on_a_rebased_parent() {
    // The parent branch held alpha and beta on c and was replayed on e. The
    // child still holds the old alpha and beta, and v and w of its own.
    let child = vec![commit(10, "alpha"), commit(11, "beta"), commit(12, "v"), commit(13, "w")];
    let parent = vec![
        commit(20, "d"),
        commit(21, "e"),
        commit(30, "alpha"),
        commit(31, "beta"),
        commit(32, "lambda"),
    ];
    assert_eq!(resolve_commits(Some(id(3)), id(32), &child, &parent), Ok(id(11)));
}

#[test]
fn author_name_counts() {
    let branch = vec![Commit { id: id(10), meta: meta("Ada", "ada@example.org", "alpha") }];
    let onto_walk = vec![Commit { id: id(30), meta: meta("Eve", "ada@example.org", "alpha") }];
    assert_eq!(resolve_commits(Some(id(3)), id(30), &branch, &onto_walk), Ok(id(3)));
}

#[test]
fn author_email_counts() {
    let branch = vec![Commit { id: id(10), meta: meta("Ada", "ada@example.org", "alpha") }];
    let onto_walk = vec![Commit { id: id(30), meta: meta("Ada", "ada@example.com", "alpha") }];
    assert_eq!(resolve_commits(Some(id(3)), id(30), &branch, &onto_walk), Ok(id(3)));
}

#[test]
fn message_is_not_normalised() {
    let branch = vec![commit(10, "alpha")];
    for other in ["alpha\n", " alpha", "Alpha", "alph", ""] {
        let onto_walk = vec![commit(30, other)];
        assert_eq!(resolve_commits(Some(id(3)), id(30), &branch, &onto_walk), Ok(id(3)));
    }
}

#[test]
fn metadata_matches_itself_and_its_copy() {
    let one = meta("Ada", "ada@example.org", "alpha");
    assert!(one.matches(&one));
    assert!(one.matches(&one.clone()));
    assert!(one.matches(&meta("Ada", "ada@example.org", "alpha")));
    assert!(!one.matches(&meta("Ada", "ada@example.org", "beta")));
    assert!(!one.matches(&meta("Ada", "", "alpha")));
    assert!(!one.matches(&meta("", "ada@example.org", "alpha")));
}

#[test]
fn metadata_fields_are_not_confused() {
    let one = meta("a", "b", "c");
    assert!(!one.matches(&meta("b", "a", "c")));
    assert!(!one.matches(&meta("a", "c", "b")));
    assert!(!one.matches(&meta("c", "b", "a")));
}

#[test]
fn bytes_are_compared_one_by_one() {
    assert!(bytes_equal(b"", b""));
    assert!(bytes_equal(b"alpha", b"alpha"));
    assert!(!bytes_equal(b"alpha", b"alphb"));
    assert!(!bytes_equal(b"alpha", b"blpha"));
    assert!(!bytes_equal(b"alpha", b"alph"));
    assert!(!bytes_equal(b"alph", b"alpha"));
    assert!(!bytes_equal(b"", b"a"));
    assert!(bytes_equal(&[0xff, 0x00, 0x80], &[0xff, 0x00, 0x80]));
}

#[test]
fn copies_keep_every_byte() {
    assert_eq!(copy_bytes(&Vec::new()), Vec::<u8>::new());
    assert_eq!(copy_bytes(&vec![1, 2, 3, 0xff]), vec![1, 2, 3, 0xff]);
    let first = commit(10, "alpha");
    let copy = first.clone();
    assert_eq!(copy, first);
    assert_eq!(copy.id, id(10));
    assert_eq!(copy.meta.message, b"alpha".to_vec());
}

fn failure(class: FailureClass, code: FailureCode) -> BackendError {
    BackendError { class, code, message: String::from("no merge base found") }
}

#[test]
fn a_common_ancestor_that_was_found_is_passed_on() {
    assert_eq!(common_ancestor_from(Ok(id(5))), Ok(Some(id(5))));
}

#[test]
fn no_merge_base_is_an_answer() {
    let answer = Err(failure(FailureClass::Merge, FailureCode::NotFound));
    assert_eq!(common_ancestor_from(answer), Ok(None));
}

#[test]
fn other_failures_of_the_merge_base_are_failures() {
    for (class, code) in [
        (FailureClass::Other, FailureCode::NotFound),
        (FailureClass::Reference, FailureCode::NotFound),
        (FailureClass::Merge, FailureCode::Other),
        (FailureClass::Merge, FailureCode::UnbornBranch),
        (FailureClass::Other, FailureCode::Other),
    ] {
        let reported = failure(class, code);
        assert!(!reported.is_no_common_ancestor());
        assert_eq!(
            common_ancestor_from(Err(reported.clone())),
            Err(ResolveError::Backend(reported))
        );
    }
    assert!(failure(FailureClass::Merge, FailureCode::NotFound).is_no_common_ancestor());
}
