//! Finds the commit on which a branch was last based, after the base has been
//! rewritten underneath it.
//!
//! A rebase gives every commit that it replays a new identifier and keeps its
//! author and message. Once the base of a branch has been rebased, the common
//! ancestor of the two is stale: the branch still holds the old commits of
//! its base, and the base holds their copies. The fork point is found again
//! by the metadata: the commits that only the branch holds are read against
//! those that only the base holds, and the last commit of the branch that is
//! met again on the base is where the branch left it.
//!
//! - [`model`] says what the fork point of two walks is.
//! - [`laws`] holds what follows for every pair of walks.
//! - [`observation`] says when what was read of two walks settles the fork
//!   point, whatever they hold beyond.
//! - [`resolver`] decides, one drawn commit at a time, and is proved to
//!   settle on the fork point.
//! - [`history`] reads a repository through `git2` and feeds the resolver.
//!   What it returns is stated over what the repository holds: the common
//!   ancestor that it finds, the commits pending in its walks, and the author
//!   and message under each id.
//! - [`backend`] holds the calls into `git2` and what is assumed of them.
//! - [`cli`] holds what the command line says when it refuses to resolve.

pub mod backend;
pub mod cli;
pub mod commit;
pub mod error;
pub mod history;
pub mod laws;
pub mod model;
pub mod observation;
pub mod resolver;

pub use history::find_old_base;
