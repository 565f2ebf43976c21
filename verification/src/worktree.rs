//! Worktrees: their lock state and the options of their making and pruning.

use vstd::prelude::*;

verus! {

/// Lock Status of a worktree
#[derive(Clone, Debug, PartialEq, Eq)]
pub enum WorktreeLockStatus {
    /// Worktree is Unlocked
    Unlocked,
    /// Worktree is locked with the optional message
    Locked(Option<String>),
}

/// Options which can be used to configure how a worktree is initialized
#[derive(Clone, Debug, Default, PartialEq, Eq)]
pub struct WorktreeAddOptions {
    /// If enabled, this will cause the newly added worktree to be locked
    pub lock: Option<bool>,
    /// If enabled, this will checkout the existing branch matching the worktree name.
    pub checkout_existing: Option<bool>,
    /// reference name to use for the new worktree HEAD
    pub ref_name: Option<String>,
}

/// Options to configure how worktree pruning is performed
#[derive(Clone, Debug, Default, PartialEq, Eq)]
pub struct WorktreePruneOptions {
    /// Controls whether valid (still existing on the filesystem) worktrees
    /// will be pruned
    ///
    /// Defaults to false
    pub valid: Option<bool>,
    /// Controls whether locked worktrees will be pruned
    ///
    /// Defaults to false
    pub locked: Option<bool>,
    /// Controls whether the actual working tree on the filesystem is recursively removed
    ///
    /// Defaults to false
    pub working_tree: Option<bool>,
}

} // verus!
