//! The resolver, fed one commit at a time.

use git2::Oid;
use onto::commit::{Commit, Metadata};
use onto::error::ResolveError;
use onto::resolver::{Resolver, Want};

fn id(n: u8) -> Oid {
    Oid::from_bytes(&[n; 20]).unwrap()
}

fn commit(n: u8, message: &str) -> Commit {
    Commit {
        id: id(n),
        meta: Metadata {
            author_name: b"Ada".to_vec(),
            author_email: b"ada@example.org".to_vec(),
            message: message.as_bytes().to_vec(),
        },
    }
}

#[test]
fn a_new_resolver_wants_the_branch() {
    let resolver = Resolver::new(Some(id(3)), id(9));
    assert_eq!(resolver.wants(), Want::Branch);
    assert!(!resolver.is_done());
}

#[test]
fn an_empty_branch_ends_the_resolution_at_once() {
    let mut resolver = Resolver::new(Some(id(3)), id(9));
    resolver.offer_branch(None);
    assert_eq!(resolver.wants(), Want::Nothing);
    assert!(resolver.is_done());
    assert_eq!(resolver.outcome(), Ok(id(3)));
}

#[test]
fn an_empty_branch_without_ancestor_ends_in_failure() {
    let mut resolver = Resolver::new(None, id(9));
    resolver.offer_branch(None);
    assert!(resolver.is_done());
    assert_eq!(resolver.outcome(), Err(ResolveError::InconsistentHistory));
}

#[test]
fn the_anchor_is_searched_for_until_the_base_ends() {
    let mut resolver = Resolver::new(Some(id(3)), id(9));
    resolver.offer_branch(Some(commit(10, "alpha")));
    for n in 20..25 {
        assert_eq!(resolver.wants(), Want::Onto);
        resolver.offer_onto(Some(commit(n, "other")));
    }
    assert_eq!(resolver.wants(), Want::Onto);
    resolver.offer_onto(None);
    assert_eq!(resolver.wants(), Want::Nothing);
    assert_eq!(resolver.outcome(), Ok(id(3)));
}

#[test]
fn the_anchor_is_searched_for_until_the_base_ends_without_ancestor() {
    let mut resolver = Resolver::new(None, id(9));
    resolver.offer_branch(Some(commit(10, "alpha")));
    resolver.offer_onto(Some(commit(20, "other")));
    resolver.offer_onto(None);
    assert_eq!(resolver.outcome(), Ok(id(9)));
}

#[test]
fn the_walks_are_read_in_step_once_anchored() {
    let mut resolver = Resolver::new(Some(id(3)), id(9));
    resolver.offer_branch(Some(commit(10, "alpha")));
    resolver.offer_onto(Some(commit(20, "d")));
    assert_eq!(resolver.wants(), Want::Onto);
    resolver.offer_onto(Some(commit(30, "alpha")));
    assert_eq!(resolver.wants(), Want::Branch);
    resolver.offer_branch(Some(commit(11, "beta")));
    assert_eq!(resolver.wants(), Want::Onto);
    resolver.offer_onto(Some(commit(31, "beta")));
    assert_eq!(resolver.wants(), Want::Branch);
    resolver.offer_branch(Some(commit(12, "x")));
    assert_eq!(resolver.wants(), Want::Onto);
    resolver.offer_onto(Some(commit(32, "gamma")));
    assert_eq!(resolver.wants(), Want::Nothing);
    assert_eq!(resolver.outcome(), Ok(id(11)));
}

#[test]
fn the_end_of_the_branch_ends_the_resolution() {
    let mut resolver = Resolver::new(Some(id(3)), id(9));
    resolver.offer_branch(Some(commit(10, "alpha")));
    resolver.offer_onto(Some(commit(30, "alpha")));
    resolver.offer_branch(None);
    assert_eq!(resolver.wants(), Want::Nothing);
    assert_eq!(resolver.outcome(), Ok(id(10)));
}

#[test]
fn the_end_of_the_base_ends_the_resolution() {
    let mut resolver = Resolver::new(Some(id(3)), id(9));
    resolver.offer_branch(Some(commit(10, "alpha")));
    resolver.offer_onto(Some(commit(30, "alpha")));
    resolver.offer_branch(Some(commit(11, "beta")));
    resolver.offer_onto(None);
    assert_eq!(resolver.wants(), Want::Nothing);
    assert_eq!(resolver.outcome(), Ok(id(10)));
}

#[test]
fn a_difference_in_step_ends_the_resolution() {
    let mut resolver = Resolver::new(Some(id(3)), id(9));
    resolver.offer_branch(Some(commit(10, "alpha")));
    resolver.offer_onto(Some(commit(30, "alpha")));
    resolver.offer_branch(Some(commit(11, "beta")));
    resolver.offer_onto(Some(commit(31, "gamma")));
    assert!(resolver.is_done());
    assert_eq!(resolver.outcome(), Ok(id(10)));
}

/// Feeds `resolver` from the two walks and counts what it draws of each.
fn feed(resolver: &mut Resolver, branch: &[Commit], onto_walk: &[Commit]) -> (usize, usize) {
    let (mut b, mut o) = (0, 0);
    loop {
        match resolver.wants() {
            Want::Branch => {
                resolver.offer_branch(branch.get(b).cloned());
                b += 1;
            }
            Want::Onto => {
                resolver.offer_onto(onto_walk.get(o).cloned());
                o += 1;
            }
            Want::Nothing => return (b, o),
        }
    }
}

#[test]
fn no_more_is_drawn_than_decides() {
    let branch: Vec<Commit> = vec![
        commit(10, "alpha"),
        commit(11, "beta"),
        commit(12, "x"),
        commit(13, "y"),
        commit(14, "z"),
    ];
    let onto_walk: Vec<Commit> = vec![
        commit(20, "d"),
        commit(30, "alpha"),
        commit(31, "beta"),
        commit(32, "gamma"),
        commit(33, "delta"),
        commit(34, "epsilon"),
    ];
    let mut resolver = Resolver::new(Some(id(3)), id(34));
    assert_eq!(feed(&mut resolver, &branch, &onto_walk), (3, 4));
    assert_eq!(resolver.outcome(), Ok(id(11)));
}

#[test]
fn an_empty_branch_draws_nothing_of_the_base() {
    let onto_walk: Vec<Commit> = vec![commit(20, "d")];
    let mut resolver = Resolver::new(Some(id(3)), id(20));
    assert_eq!(feed(&mut resolver, &[], &onto_walk), (1, 0));
    assert_eq!(resolver.outcome(), Ok(id(3)));
}

#[test]
fn a_branch_that_ends_in_step_draws_no_further_commit_of_the_base() {
    let branch: Vec<Commit> = vec![commit(10, "alpha")];
    let onto_walk: Vec<Commit> = vec![commit(30, "alpha"), commit(31, "beta")];
    let mut resolver = Resolver::new(Some(id(3)), id(31));
    assert_eq!(feed(&mut resolver, &branch, &onto_walk), (2, 1));
    assert_eq!(resolver.outcome(), Ok(id(10)));
}
