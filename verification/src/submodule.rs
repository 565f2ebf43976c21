//! Submodules: their rules and the flags of their status.

use crate::util::{bitflags_contain, contains_all};
use vstd::prelude::*;

verus! {

/// Submodule ignore values
///
/// These values represent settings for the `submodule.$name.ignore`
/// configuration value which says how deeply to look at the working
/// directory when getting the submodule status.
#[derive(Clone, Copy, Debug, PartialEq, Eq)]
pub enum SubmoduleIgnore {
    /// Use the submodule's configuration
    Unspecified,
    /// Any change or untracked file is considered dirty
    Nothing,
    /// Only dirty if tracked files have changed
    Untracked,
    /// Only dirty if HEAD has moved
    Dirty,
    /// Never dirty
    All,
}

/// Submodule update values
///
/// These values represent settings for the `submodule.$name.update`
/// configuration value which says how to handle `git submodule update`
/// for this submodule. The value is usually set in the ".gitmodules"
/// file and copied to ".git/config" when the submodule is initialized.
#[derive(Clone, Copy, Debug, PartialEq, Eq)]
pub enum SubmoduleUpdate {
    /// The default; when a submodule is updated, checkout the new detached
    /// HEAD to the submodule directory.
    Checkout,
    /// Update by rebasing the current checked out branch onto the commit from
    /// the superproject.
    Rebase,
    /// Update by merging the commit in the superproject into the current
    /// checkout out branch of the submodule.
    Merge,
    /// Do not update this submodule even when the commit in the superproject
    /// is updated.
    Never,
    /// Not used except as static initializer when we don't want any particular
    /// update rule to be specified.
    Default,
}

/// Return codes for submodule status.
#[derive(Clone, Copy, Debug, PartialEq, Eq)]
pub enum SubmoduleStatus {
    /// Superproject head contains submodule.
    InHead,
    /// Superproject index contains submodule.
    InIndex,
    /// Superproject gitmodules has submodule.
    InConfig,
    /// Superproject workdir has submodule.
    InWD,
    /// In index, not in head.
    IndexAdded,
    /// In head, not in index.
    IndexDeleted,
    /// Index and head don't match.
    IndexModified,
    /// Workdir contains empty repository.
    WDUninitialized,
    /// In workdir, not index.
    WDAdded,
    /// In index, not workdir.
    WDDeleted,
    /// Index and workdir head don't match.
    WDModified,
    /// Submodule workdir index is dirty.
    WDIndexModified,
    /// Submodule workdir has modified files.
    WDWDModified,
    /// Submodule workdir contains untracked files.
    WDUntracked,
}

impl SubmoduleStatus {
    /// The flag of the status, as the engine numbers it.
    pub open spec fn flag(self) -> u32 {
        match self {
            SubmoduleStatus::InHead => 1u32,
            SubmoduleStatus::InIndex => 2u32,
            SubmoduleStatus::InConfig => 4u32,
            SubmoduleStatus::InWD => 8u32,
            SubmoduleStatus::IndexAdded => 16u32,
            SubmoduleStatus::IndexDeleted => 32u32,
            SubmoduleStatus::IndexModified => 64u32,
            SubmoduleStatus::WDUninitialized => 128u32,
            SubmoduleStatus::WDAdded => 256u32,
            SubmoduleStatus::WDDeleted => 512u32,
            SubmoduleStatus::WDModified => 1024u32,
            SubmoduleStatus::WDIndexModified => 2048u32,
            SubmoduleStatus::WDWDModified => 4096u32,
            SubmoduleStatus::WDUntracked => 8192u32,
        }
    }

    /// The flag of the status.
    pub fn bits(self) -> (bits: u32)
        ensures
            bits == self.flag(),
    {
        match self {
            SubmoduleStatus::InHead => 1,
            SubmoduleStatus::InIndex => 2,
            SubmoduleStatus::InConfig => 4,
            SubmoduleStatus::InWD => 8,
            SubmoduleStatus::IndexAdded => 16,
            SubmoduleStatus::IndexDeleted => 32,
            SubmoduleStatus::IndexModified => 64,
            SubmoduleStatus::WDUninitialized => 128,
            SubmoduleStatus::WDAdded => 256,
            SubmoduleStatus::WDDeleted => 512,
            SubmoduleStatus::WDModified => 1024,
            SubmoduleStatus::WDIndexModified => 2048,
            SubmoduleStatus::WDWDModified => 4096,
            SubmoduleStatus::WDUntracked => 8192,
        }
    }
}

/// Check submodule status contains specific flags.
pub fn submodule_status_contains(source: u32, target: u32) -> (found: bool)
    ensures
        found == contains_all(source, target),
{
    bitflags_contain(source, target)
}

/// A switch of a submodule task that the host may leave out: left out, it is
/// off.
pub fn switch_or_off(switch: Option<bool>) -> (on: bool)
    ensures
        on == (switch == Some(true)),
{
    match switch {
        Some(on) => on,
        None => false,
    }
}

} // verus!
