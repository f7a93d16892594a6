//! The state-reconciliation and synchronisation core of a desktop client for
//! git repositories.
//!
//! The library decides; its caller reads and writes the repository. It turns
//! what the repository reports into the lists of staged, unstaged and
//! untracked paths (`status`), steers a fetch, a pull or a push one action at
//! a time (`fetch`, `pull`, `push`, with `credentials` for the challenges of
//! the remote), finds and applies stashed work (`stash`, `stash_apply`), and
//! prepares what is shown of history and patches (`history`, `patch`). Every
//! function carries a contract that Verus proves, and the modules ending in
//! `_laws` state what holds of every status and of every pull.

pub mod access;
pub mod credentials;
pub mod diagnostics;
pub mod error;
pub mod fetch;
pub mod graph;
pub mod history;
pub mod model;
pub mod notes;
pub mod objects;
pub mod patch;
pub mod progress;
pub mod pull;
pub mod pull_laws;
pub mod push;
pub mod recent;
pub mod reply;
pub mod stash;
pub mod stash_apply;
pub mod status;
pub mod status_laws;
pub mod text;

pub use crate::model::{
    BranchInfo, CommitDiff, CommitInfo, FileChange, RecentRepo, RepoInfo, StashInfo,
    WorkspaceStatus,
};
