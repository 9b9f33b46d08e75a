//! What has been seen of two walks, and when that is enough.
//!
//! The walks are read no further than the fork point needs. What was read is
//! an [`Observed`]: the commits that each walk has handed out, and whether it
//! was seen to end. It settles the resolution where every pair of walks that
//! begin in this way resolves alike.

use crate::commit::{Commit, CommitView};
use crate::error::ResolveError;
use crate::model::{in_step, resolution};
use git2::Oid;
use vstd::prelude::*;

verus! {

/// What two walks have handed out so far, and whether either was seen to end.
pub ghost struct Observed {
    pub branch: Seq<CommitView>,
    pub branch_ended: bool,
    pub onto: Seq<CommitView>,
    pub onto_ended: bool,
}

/// What a walk hands out: a commit, or nothing once it has ended.
pub open spec fn drawn(next: Option<Commit>) -> Option<CommitView> {
    match next {
        Some(commit) => Some(commit@),
        None => None,
    }
}

/// `walk` begins with the commits of `seen`, and holds no more than those
/// where the walk was seen to end.
pub open spec fn continues(seen: Seq<CommitView>, ended: bool, walk: Seq<CommitView>) -> bool {
    &&& seen.len() <= walk.len()
    &&& ended ==> seen.len() == walk.len()
    &&& forall|i: int|
        #![trigger seen[i]]
        #![trigger walk[i]]
        0 <= i < seen.len() ==> seen[i] == walk[i]
}

impl Observed {
    /// Nothing drawn yet.
    pub open spec fn nothing() -> Observed {
        Observed {
            branch: Seq::empty(),
            branch_ended: false,
            onto: Seq::empty(),
            onto_ended: false,
        }
    }

    /// `self`, after the branch's walk has handed out `next`.
    pub open spec fn and_branch(self, next: Option<CommitView>) -> Observed {
        match next {
            Some(commit) => Observed { branch: self.branch.push(commit), ..self },
            None => Observed { branch_ended: true, ..self },
        }
    }

    /// `self`, after the base's walk has handed out `next`.
    pub open spec fn and_onto(self, next: Option<CommitView>) -> Observed {
        match next {
            Some(commit) => Observed { onto: self.onto.push(commit), ..self },
            None => Observed { onto_ended: true, ..self },
        }
    }

    /// The two walks may be `branch` and `onto`, as far as `self` has seen
    /// of them.
    pub open spec fn admits(self, branch: Seq<CommitView>, onto: Seq<CommitView>) -> bool {
        continues(self.branch, self.branch_ended, branch) && continues(
            self.onto,
            self.onto_ended,
            onto,
        )
    }
}

/// The fork point is the same for every pair of walks that `seen` admits,
/// and resolving gives `res` for each of them.
pub open spec fn settles(
    seen: Observed,
    merge_base: Option<Oid>,
    onto: Oid,
    res: Result<Oid, ResolveError>,
) -> bool {
    forall|branch: Seq<CommitView>, onto_walk: Seq<CommitView>| #[trigger]
        seen.admits(branch, onto_walk) ==> resolution(merge_base, onto, branch, onto_walk) == res
}

/// Walks that are in step as far as they were seen are in step whatever they
/// hold beyond.
pub proof fn lemma_in_step_continues(
    seen: Observed,
    branch: Seq<CommitView>,
    onto: Seq<CommitView>,
    anchor: int,
    n: int,
)
    requires
        seen.admits(branch, onto),
        in_step(seen.branch, seen.onto, anchor, n),
    ensures
        in_step(branch, onto, anchor, n),
{
    assert(seen.branch[0] == branch[0]);
    assert forall|i: int| 0 <= i < anchor implies (#[trigger] onto[i]).meta != branch[0].meta by {
        assert(onto[i] == seen.onto[i]);
    }
    assert forall|k: int| 0 <= k < n implies (#[trigger] branch[k]).meta == onto[anchor
        + k].meta by {
        assert(branch[k] == seen.branch[k]);
        assert(onto[anchor + k] == seen.onto[anchor + k]);
    }
}

/// The commits of `seen` are the first of `ids`, in order, and where the walk
/// was seen to end, they are all of them.
pub open spec fn leads(seen: Seq<CommitView>, ended: bool, ids: Seq<Oid>) -> bool {
    &&& seen.len() <= ids.len()
    &&& ended ==> seen.len() == ids.len()
    &&& forall|i: int| 0 <= i < seen.len() ==> (#[trigger] seen[i]).id == ids[i]
}

/// `seen` is a record of what two walks handed out that held the commits
/// `branch_ids` and `onto_ids`.
pub open spec fn drawn_from(seen: Observed, branch_ids: Seq<Oid>, onto_ids: Seq<Oid>) -> bool {
    leads(seen.branch, seen.branch_ended, branch_ids) && leads(
        seen.onto,
        seen.onto_ended,
        onto_ids,
    )
}

} // verus!
