//! What can go wrong while a fork point is looked for.

use vstd::prelude::*;

verus! {

/// The part of the repository that a failure is attributed to, as far as
/// this crate tells the parts apart.
#[derive(Clone, Copy, Debug, PartialEq, Eq, Structural)]
pub enum FailureClass {
    /// A reference could not be resolved or read.
    Reference,
    /// The two histories could not be merged.
    Merge,
    /// Any other part.
    Other,
}

/// The kind of a failure, as far as this crate tells the kinds apart.
#[derive(Clone, Copy, Debug, PartialEq, Eq, Structural)]
pub enum FailureCode {
    /// What was asked for does not exist.
    NotFound,
    /// `HEAD` names a branch that has no commit yet.
    UnbornBranch,
    /// Any other kind.
    Other,
}

/// A failure reported by the repository.
#[derive(Clone, Debug, PartialEq, Eq)]
pub struct BackendError {
    pub class: FailureClass,
    pub code: FailureCode,
    pub message: String,
}

impl BackendError {
    /// Whether this failure is the repository's way of saying that two
    /// commits have no common ancestor.
    pub open spec fn means_no_common_ancestor(&self) -> bool {
        self.class == FailureClass::Merge && self.code == FailureCode::NotFound
    }

    /// Whether this failure says that two commits have no common ancestor.
    /// That is an answer, not a fault.
    pub fn is_no_common_ancestor(&self) -> (absent: bool)
        ensures
            absent == self.means_no_common_ancestor(),
    {
        self.class == FailureClass::Merge && self.code == FailureCode::NotFound
    }
}

/// Why no fork point was returned.
#[derive(Clone, Debug, PartialEq, Eq)]
pub enum ResolveError {
    /// The repository failed to answer a query.
    Backend(BackendError),
    /// The branch holds no commit beyond the base and yet shares no ancestor
    /// with it. No sound history does that.
    InconsistentHistory,
}

} // verus!
