//! The resolver: the decisions, one drawn commit at a time.
//!
//! A [`Resolver`] never reads a repository. It says which walk it wants the
//! next commit of, is handed that commit (or word that the walk has ended),
//! and decides. Whoever holds the walks feeds it until it wants no more.

use crate::commit::{Commit, CommitView};
use crate::error::ResolveError;
use crate::model::{
    fallback, in_step, lemma_fork_point_run, lemma_fork_point_unanchored, none_carries,
    resolution, views,
};
use crate::observation::{drawn, lemma_in_step_continues, settles, Observed};
use git2::Oid;
use vstd::prelude::*;

verus! {

/// Where a resolver stands.
#[derive(Clone, Copy, Debug, PartialEq, Eq, Structural)]
pub enum Phase {
    /// Nothing is drawn yet: the first commit of the branch is awaited.
    Start,
    /// The base's walk is searched for a commit that carries the metadata of
    /// the branch's first.
    Search,
    /// The walks are read in step, and the branch's next commit is awaited.
    Extend,
    /// The walks are read in step, and the base's next commit is awaited, to
    /// be held against the branch's.
    Compare,
    /// The fork point is settled.
    Done,
}

/// Which walk a resolver wants the next commit of.
#[derive(Clone, Copy, Debug, PartialEq, Eq, Structural)]
pub enum Want {
    /// The next commit that only the branch holds.
    Branch,
    /// The next commit that only the base holds.
    Onto,
    /// Neither: the resolver is done.
    Nothing,
}

/// The walk that is read in a phase.
pub open spec fn wanted_in(phase: Phase) -> Want {
    match phase {
        Phase::Start => Want::Branch,
        Phase::Search => Want::Onto,
        Phase::Extend => Want::Branch,
        Phase::Compare => Want::Onto,
        Phase::Done => Want::Nothing,
    }
}

/// `next` is a commit, and carries the metadata of the commit `held`.
pub open spec fn answers(held: Option<CommitView>, next: Option<CommitView>) -> bool {
    held matches Some(h) && next matches Some(n) && h.meta == n.meta
}

/// The state of one resolution.
pub struct Resolver {
    merge_base: Option<Oid>,
    onto: Oid,
    phase: Phase,
    best: Oid,
    candidate: Option<Commit>,
    seen: Ghost<Observed>,
}

impl Resolver {
    /// The common ancestor that the resolver was made with.
    pub closed spec fn merge_base(&self) -> Option<Oid> {
        self.merge_base
    }

    /// The tip of the base that the resolver was made with.
    pub closed spec fn onto(&self) -> Oid {
        self.onto
    }

    /// Where the resolver stands.
    pub closed spec fn phase(&self) -> Phase {
        self.phase
    }

    /// The best answer so far.
    pub closed spec fn best(&self) -> Oid {
        self.best
    }

    /// The commit of the branch that the base's next commit is held against.
    pub closed spec fn candidate(&self) -> Option<CommitView> {
        drawn(self.candidate)
    }

    /// What the resolver has been handed.
    pub closed spec fn observed(&self) -> Observed {
        self.seen@
    }

    /// The state is one that a resolver can reach.
    pub closed spec fn wf(&self) -> bool {
        let b = self.seen@.branch;
        let o = self.seen@.onto;
        let open = !self.seen@.branch_ended && !self.seen@.onto_ended;
        let start = fallback(self.merge_base, self.onto);
        &&& (self.candidate is None) == (b.len() == 0)
        &&& match self.phase {
            Phase::Start => {
                &&& open
                &&& b.len() == 0
                &&& o.len() == 0
                &&& self.best == start
            },
            Phase::Search => {
                &&& open
                &&& b.len() == 1
                &&& self.candidate() == Some(b[0])
                &&& none_carries(b[0].meta, o, 0, o.len() as int)
                &&& self.best == start
            },
            Phase::Extend => {
                &&& open
                &&& in_step(b, o, o.len() - b.len(), b.len() as int)
                &&& self.best == b[b.len() - 1].id
            },
            Phase::Compare => {
                &&& open
                &&& in_step(b, o, o.len() - (b.len() - 1), b.len() - 1)
                &&& self.candidate() == Some(b[b.len() - 1])
                &&& self.best == b[b.len() - 2].id
            },
            Phase::Done => {
                ||| self.contained()
                ||| self.unanchored()
                ||| self.branch_ran_out()
                ||| self.onto_ran_out()
                ||| self.parted()
            },
        }
    }

    /// Done: the branch holds no commit of its own.
    spec fn contained(&self) -> bool {
        &&& self.seen@.branch_ended
        &&& self.seen@.branch.len() == 0
        &&& self.best == fallback(self.merge_base, self.onto)
    }

    /// Done: the base's walk ended before the branch's first commit was met.
    spec fn unanchored(&self) -> bool {
        let b = self.seen@.branch;
        let o = self.seen@.onto;
        &&& self.seen@.onto_ended
        &&& b.len() == 1
        &&& none_carries(b[0].meta, o, 0, o.len() as int)
        &&& self.best == fallback(self.merge_base, self.onto)
    }

    /// Done: the walks were in step up to the end of the branch's.
    spec fn branch_ran_out(&self) -> bool {
        let b = self.seen@.branch;
        let o = self.seen@.onto;
        &&& self.seen@.branch_ended
        &&& in_step(b, o, o.len() - b.len(), b.len() as int)
        &&& self.best == b[b.len() - 1].id
    }

    /// Done: the walks were in step up to the end of the base's, and the
    /// branch's last commit was drawn with nothing to hold it against.
    spec fn onto_ran_out(&self) -> bool {
        let b = self.seen@.branch;
        let o = self.seen@.onto;
        &&& self.seen@.onto_ended
        &&& in_step(b, o, o.len() - (b.len() - 1), b.len() - 1)
        &&& self.best == b[b.len() - 2].id
    }

    /// Done: the walks were in step up to the last pair drawn, which does not
    /// agree.
    spec fn parted(&self) -> bool {
        let b = self.seen@.branch;
        let o = self.seen@.onto;
        &&& in_step(b, o, o.len() - b.len(), b.len() - 1)
        &&& b[b.len() - 1].meta != o[o.len() - 1].meta
        &&& self.best == b[b.len() - 2].id
    }

    /// A resolver for a branch against the base `onto`, whose common ancestor
    /// is `merge_base` where they have one.
    pub fn new(merge_base: Option<Oid>, onto: Oid) -> (resolver: Resolver)
        ensures
            resolver.wf(),
            resolver.merge_base() == merge_base,
            resolver.onto() == onto,
            resolver.phase() == Phase::Start,
            resolver.best() == fallback(merge_base, onto),
            resolver.candidate() is None,
            resolver.observed() == Observed::nothing(),
    {
        let best = match merge_base {
            Some(base) => base,
            None => onto,
        };
        Resolver {
            merge_base,
            onto,
            phase: Phase::Start,
            best,
            candidate: None,
            seen: Ghost(Observed::nothing()),
        }
    }

    /// Whether the resolver wants no more.
    pub fn is_done(&self) -> (done: bool)
        ensures
            done == (self.phase() == Phase::Done),
    {
        match self.phase {
            Phase::Done => true,
            _ => false,
        }
    }

    /// Which walk the next commit is wanted of.
    pub fn wants(&self) -> (want: Want)
        ensures
            want == wanted_in(self.phase()),
    {
        match self.phase {
            Phase::Start => Want::Branch,
            Phase::Search => Want::Onto,
            Phase::Extend => Want::Branch,
            Phase::Compare => Want::Onto,
            Phase::Done => Want::Nothing,
        }
    }

    /// Hands the resolver the next commit of the branch's walk, or `None`
    /// where that walk has ended.
    ///
    /// The first commit becomes the one that the base's walk is searched for;
    /// a later one is held against the base's next commit. Where the walk has
    /// ended, the answer stands as it is.
    pub fn offer_branch(&mut self, next: Option<Commit>)
        requires
            old(self).wf(),
            wanted_in(old(self).phase()) == Want::Branch,
        ensures
            final(self).wf(),
            final(self).merge_base() == old(self).merge_base(),
            final(self).onto() == old(self).onto(),
            final(self).observed() == old(self).observed().and_branch(drawn(next)),
            final(self).best() == old(self).best(),
            final(self).phase() == match next {
                None => Phase::Done,
                Some(_) => if old(self).phase() == Phase::Start {
                    Phase::Search
                } else {
                    Phase::Compare
                },
            },
            final(self).candidate() == match next {
                None => old(self).candidate(),
                Some(commit) => Some(commit@),
            },
    {
        let ghost event = drawn(next);
        match next {
            None => {
                self.phase = Phase::Done;
            },
            Some(commit) => {
                self.phase = match self.phase {
                    Phase::Start => Phase::Search,
                    _ => Phase::Compare,
                };
                self.candidate = Some(commit);
            },
        }
        proof {
            self.seen@ = self.seen@.and_branch(event);
        }
    }

    /// Hands the resolver the next commit of the base's walk, or `None` where
    /// that walk has ended.
    ///
    /// A commit that carries the metadata of the one held makes the held one
    /// the best answer, and the walks are read on in step. One that does not
    /// is passed over while the anchor is searched for, and ends the
    /// resolution once the walks are read in step. So does the end of the
    /// walk.
    pub fn offer_onto(&mut self, next: Option<Commit>)
        requires
            old(self).wf(),
            wanted_in(old(self).phase()) == Want::Onto,
        ensures
            final(self).wf(),
            final(self).merge_base() == old(self).merge_base(),
            final(self).onto() == old(self).onto(),
            final(self).observed() == old(self).observed().and_onto(drawn(next)),
            final(self).candidate() == old(self).candidate(),
            old(self).candidate() is Some,
            final(self).best() == if answers(old(self).candidate(), drawn(next)) {
                old(self).candidate()->0.id
            } else {
                old(self).best()
            },
            final(self).phase() == if answers(old(self).candidate(), drawn(next)) {
                Phase::Extend
            } else if next is Some && old(self).phase() == Phase::Search {
                Phase::Search
            } else {
                Phase::Done
            },
    {
        let ghost event = drawn(next);
        match next {
            None => {
                self.phase = Phase::Done;
            },
            Some(commit) => {
                let agrees = match &self.candidate {
                    Some(held) => held.meta.matches(&commit.meta),
                    None => false,
                };
                if agrees {
                    if let Some(held) = &self.candidate {
                        self.best = held.id;
                    }
                    self.phase = Phase::Extend;
                } else {
                    self.phase = match self.phase {
                        Phase::Search => Phase::Search,
                        _ => Phase::Done,
                    };
                }
            },
        }
        proof {
            self.seen@ = self.seen@.and_onto(event);
        }
    }

    /// Whatever the walks hold beyond what the resolver has seen, resolving
    /// them gives what [`Resolver::outcome`] returns.
    pub proof fn lemma_settled(&self, branch: Seq<CommitView>, onto_walk: Seq<CommitView>)
        requires
            self.wf(),
            self.phase() == Phase::Done,
            self.observed().admits(branch, onto_walk),
        ensures
            resolution(self.merge_base(), self.onto(), branch, onto_walk) == self.settled(),
    {
        let seen = self.seen@;
        let b = seen.branch;
        let o = seen.onto;
        let start = fallback(self.merge_base, self.onto);
        if self.contained() {
        } else if self.unanchored() {
            assert(branch[0] == b[0]);
            lemma_fork_point_unanchored(start, branch, onto_walk);
        } else if self.branch_ran_out() {
            lemma_in_step_continues(seen, branch, onto_walk, o.len() - b.len(), b.len() as int);
            lemma_fork_point_run(start, branch, onto_walk, o.len() - b.len(), b.len() as int);
        } else if self.onto_ran_out() {
            lemma_in_step_continues(seen, branch, onto_walk, o.len() - (b.len() - 1), b.len() - 1);
            lemma_fork_point_run(start, branch, onto_walk, o.len() - (b.len() - 1), b.len() - 1);
        } else {
            lemma_in_step_continues(seen, branch, onto_walk, o.len() - b.len(), b.len() - 1);
            lemma_fork_point_run(start, branch, onto_walk, o.len() - b.len(), b.len() - 1);
        }
    }

    /// What the resolver has settled on: the best answer, or the failure of a
    /// branch that holds no commit of its own and has no common ancestor with
    /// the base.
    pub open spec fn settled(&self) -> Result<Oid, ResolveError> {
        if self.merge_base() is None && self.observed().branch.len() == 0 {
            Err(ResolveError::InconsistentHistory)
        } else {
            Ok(self.best())
        }
    }

    /// The result, once the resolver wants no more.
    pub fn outcome(&self) -> (res: Result<Oid, ResolveError>)
        requires
            self.wf(),
            self.phase() == Phase::Done,
        ensures
            res == self.settled(),
            settles(self.observed(), self.merge_base(), self.onto(), res),
    {
        proof {
            assert forall|branch: Seq<CommitView>, onto_walk: Seq<CommitView>| #[trigger]
                self.observed().admits(branch, onto_walk) implies resolution(
                self.merge_base(),
                self.onto(),
                branch,
                onto_walk,
            ) == self.settled() by {
                self.lemma_settled(branch, onto_walk);
            }
        }
        if self.merge_base.is_none() && self.candidate.is_none() {
            Err(ResolveError::InconsistentHistory)
        } else {
            Ok(self.best)
        }
    }
}

/// The commit of `walk` at `at`, or `None` where the walk ends before.
fn commit_at(walk: &[Commit], at: usize) -> (next: Option<Commit>)
    ensures
        drawn(next) == if at < walk.len() {
            Some(views(walk@)[at as int])
        } else {
            None
        },
{
    if at < walk.len() {
        Some(walk[at].clone())
    } else {
        None
    }
}

/// Resolves two walks that are known in full: `branch`, the commits that only
/// the branch holds, against `onto_walk`, those that only the base `onto`
/// holds, both oldest first. `merge_base` is their common ancestor, where
/// they have one.
pub fn resolve_commits(
    merge_base: Option<Oid>,
    onto: Oid,
    branch: &[Commit],
    onto_walk: &[Commit],
) -> (res: Result<Oid, ResolveError>)
    ensures
        res == resolution(merge_base, onto, views(branch@), views(onto_walk@)),
{
    let mut resolver = Resolver::new(merge_base, onto);
    let mut b: usize = 0;
    let mut o: usize = 0;
    while !resolver.is_done()
        invariant
            resolver.wf(),
            resolver.merge_base() == merge_base,
            resolver.onto() == onto,
            resolver.observed().admits(views(branch@), views(onto_walk@)),
            resolver.observed().branch.len() == b <= branch.len(),
            resolver.observed().onto.len() == o <= onto_walk.len(),
        decreases
                if resolver.phase() == Phase::Done {
                    0
                } else {
                    1 + (branch.len() - b) + (onto_walk.len() - o)
                },
    {
        match resolver.wants() {
            Want::Branch => {
                let next = commit_at(branch, b);
                if b < branch.len() {
                    b += 1;
                }
                resolver.offer_branch(next);
            },
            Want::Onto => {
                let next = commit_at(onto_walk, o);
                if o < onto_walk.len() {
                    o += 1;
                }
                resolver.offer_onto(next);
            },
            Want::Nothing => {},
        }
    }
    resolver.outcome()
}

} // verus!
