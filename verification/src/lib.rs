//! Build a consolidated database upgrade script from the difference between
//! two branches of a version-controlled schema tree.
//!
//! The core logic — version extraction from branch names, upgrade-set
//! diffing, transaction-marker filtering, move-pattern partitioning, and
//! assembly of the final script text — is verified. Calls into the `git2`
//! and `regex` crates stand behind trusted wrappers with stated contracts.

pub mod assemble;
pub mod diff;
pub mod lines;
pub mod pattern;
pub mod repo;
pub mod run;
pub mod version;

pub use repo::{HeadError, RepoError, find_branch, get_branch_version, get_current_branch,
    get_repository, get_upgrades};
