//! What the command line tells its user when it cannot start resolving.
//!
//! The program takes the name of the base branch and resolves the branch
//! that `HEAD` names against it. Three things can stand in the way, and each
//! has its message and its exit status. Every other failure of the
//! repository is passed on as it is.

use crate::error::{BackendError, FailureClass, FailureCode};
use vstd::prelude::*;
use vstd::string::StringExecFns;

verus! {

/// Why the command line refuses to resolve.
#[derive(Clone, Copy, Debug, PartialEq, Eq, Structural)]
pub enum Refusal {
    /// `HEAD` names a branch that has no commit yet.
    UnbornHead,
    /// `HEAD` does not name a branch.
    DetachedHead,
    /// The base branch that was named does not exist.
    NoSuchBranch,
}

/// How refusals map to exit statuses.
#[derive(Clone, Copy, Debug, PartialEq, Eq, Structural)]
pub enum ExitConvention {
    /// A base branch that does not exist has a status of its own.
    Distinct,
    /// Every refusal has the same status.
    Uniform,
}

/// The exit status of a refusal that has none of its own.
pub const REFUSED: i32 = -1;

/// The exit status of a base branch that does not exist, where that refusal
/// has a status of its own.
pub const NO_SUCH_BRANCH: i32 = 128;

/// The text of a refusal, for the base branch named `base_branch`.
pub open spec fn message_of(refusal: Refusal, base_branch: Seq<char>) -> Seq<char> {
    match refusal {
        Refusal::UnbornHead => "HEAD is an unborn branch"@,
        Refusal::DetachedHead => "HEAD is not a branch"@,
        Refusal::NoSuchBranch => "branch '"@ + base_branch + "' does not exist"@,
    }
}

/// The exit status of a refusal under a convention.
pub open spec fn status_of(refusal: Refusal, convention: ExitConvention) -> int {
    if refusal == Refusal::NoSuchBranch && convention == ExitConvention::Distinct {
        NO_SUCH_BRANCH as int
    } else {
        REFUSED as int
    }
}

impl Refusal {
    /// What a failure to read `HEAD` means: an unborn branch is refused by
    /// name, and any other failure is none of the refusals.
    pub fn of_head(failure: &BackendError) -> (refusal: Option<Refusal>)
        ensures
            refusal == if failure.class == FailureClass::Reference && failure.code
                == FailureCode::UnbornBranch {
                Some(Refusal::UnbornHead)
            } else {
                None
            },
    {
        if failure.class == FailureClass::Reference && failure.code == FailureCode::UnbornBranch {
            Some(Refusal::UnbornHead)
        } else {
            None
        }
    }

    /// What a failure to find the base branch means: a branch that does not
    /// exist is refused by name, and any other failure is none of the
    /// refusals.
    pub fn of_base_branch(failure: &BackendError) -> (refusal: Option<Refusal>)
        ensures
            refusal == if failure.class == FailureClass::Reference && failure.code
                == FailureCode::NotFound {
                Some(Refusal::NoSuchBranch)
            } else {
                None
            },
    {
        if failure.class == FailureClass::Reference && failure.code == FailureCode::NotFound {
            Some(Refusal::NoSuchBranch)
        } else {
            None
        }
    }

    /// The line that is written to the standard error stream.
    pub fn message(&self, base_branch: &str) -> (text: String)
        ensures
            text@ == message_of(*self, base_branch@),
    {
        match self {
            Refusal::UnbornHead => String::from_str("HEAD is an unborn branch"),
            Refusal::DetachedHead => String::from_str("HEAD is not a branch"),
            Refusal::NoSuchBranch => {
                let mut text = String::from_str("branch '");
                text.append(base_branch);
                text.append("' does not exist");
                text
            },
        }
    }

    /// The status that the process exits with. It is never that of success.
    pub fn exit_status(&self, convention: ExitConvention) -> (status: i32)
        ensures
            status == status_of(*self, convention),
            status != 0,
    {
        match (self, convention) {
            (Refusal::NoSuchBranch, ExitConvention::Distinct) => NO_SUCH_BRANCH,
            _ => REFUSED,
        }
    }
}

} // verus!
