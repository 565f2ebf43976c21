//! Checking out: the options of a checkout.

use vstd::prelude::*;

verus! {

/// Options of a checkout. An option that is absent keeps the engine's
/// default.
#[derive(Clone, Debug, Default, PartialEq, Eq)]
pub struct CheckoutOptions {
    /// Indicate that this checkout should perform a dry run by checking for
    /// conflicts but not make any actual changes.
    pub dry_run: Option<bool>,
    /// Take any action necessary to get the working directory to match the
    /// target including potentially discarding modified files.
    pub force: Option<bool>,
    /// Indicate that the checkout should be performed safely, allowing new
    /// files to be created but not overwriting existing files or changes.
    ///
    /// This is the default.
    pub safe: Option<bool>,
    /// In safe mode, create files that don't exist.
    ///
    /// Defaults to false.
    pub recreate_missing: Option<bool>,
    /// In safe mode, apply safe file updates even when there are conflicts
    /// instead of canceling the checkout.
    ///
    /// Defaults to false.
    pub allow_conflicts: Option<bool>,
    /// Remove untracked files from the working dir.
    ///
    /// Defaults to false.
    pub remove_untracked: Option<bool>,
    /// Remove ignored files from the working dir.
    ///
    /// Defaults to false.
    pub remove_ignored: Option<bool>,
    /// Only update the contents of files that already exist.
    ///
    /// If set, files will not be created or deleted.
    ///
    /// Defaults to false.
    pub update_only: Option<bool>,
    /// Prevents checkout from writing the updated files' information to the
    /// index.
    ///
    /// Defaults to true.
    pub update_index: Option<bool>,
    /// Indicate whether the index and git attributes should be refreshed from
    /// disk before any operations.
    ///
    /// Defaults to true,
    pub refresh: Option<bool>,
    /// Skip files with unmerged index entries.
    ///
    /// Defaults to false.
    pub skip_unmerged: Option<bool>,
    /// Indicate whether the checkout should proceed on conflicts by using the
    /// stage 2 version of the file ("ours").
    ///
    /// Defaults to false.
    pub use_ours: Option<bool>,
    /// Indicate whether the checkout should proceed on conflicts by using the
    /// stage 3 version of the file ("theirs").
    ///
    /// Defaults to false.
    pub use_theirs: Option<bool>,
    /// Indicate whether ignored files should be overwritten during the checkout.
    ///
    /// Defaults to true.
    pub overwrite_ignored: Option<bool>,
    /// Indicate whether a normal merge file should be written for conflicts.
    ///
    /// Defaults to false.
    pub conflict_style_merge: Option<bool>,
    /// Indicates whether to include common ancestor data in diff3 format files
    /// for conflicts.
    ///
    /// Defaults to false.
    pub conflict_style_diff3: Option<bool>,
    /// Treat paths specified in `path` as exact file paths
    /// instead of as pathspecs.
    pub disable_pathspec_match: Option<bool>,
    /// Indicate whether to apply filters like CRLF conversion.
    pub disable_filters: Option<bool>,
    /// Set the mode with which new directories are created.
    ///
    /// Default is 0755
    pub dir_perm: Option<i32>,
    /// Set the mode with which new files are created.
    ///
    /// The default is 0644 or 0755 as dictated by the blob.
    pub file_perm: Option<i32>,
    /// Add a path to be checked out.
    ///
    /// The path is a pathspec pattern, unless `disablePathspecMatch` is set.
    ///
    /// If no paths are specified, then all files are checked out. Otherwise
    /// only these specified paths are checked out.
    pub path: Option<String>,
    /// Set the directory to check out to
    pub target_dir: Option<String>,
    /// The name of the common ancestor side of conflicts
    pub ancestor_label: Option<String>,
    /// The name of the common our side of conflicts
    pub our_label: Option<String>,
    /// The name of the common their side of conflicts
    pub their_label: Option<String>,
}

/// How far a checkout may go in changing the working directory.
#[derive(Clone, Copy, Debug, PartialEq, Eq)]
pub enum CheckoutStrategy {
    /// Nothing was asked for: the engine's default stands.
    Unset,
    /// Check for conflicts, change nothing.
    DryRun,
    /// Make the working directory match, whatever is lost.
    Force,
    /// Create new files, overwrite nothing.
    Safe,
}

impl CheckoutOptions {
    /// The strategy that `self` asks for. The three switches exclude each
    /// other; where more than one is on, safe goes before force, and force
    /// before a dry run. A switch that is off asks for nothing.
    pub open spec fn strategy_of(&self) -> CheckoutStrategy {
        if self.safe == Some(true) {
            CheckoutStrategy::Safe
        } else if self.force == Some(true) {
            CheckoutStrategy::Force
        } else if self.dry_run == Some(true) {
            CheckoutStrategy::DryRun
        } else {
            CheckoutStrategy::Unset
        }
    }

    /// The strategy of the checkout.
    pub fn strategy(&self) -> (strategy: CheckoutStrategy)
        ensures
            strategy == self.strategy_of(),
    {
        let mut strategy = CheckoutStrategy::Unset;
        if let Some(true) = self.dry_run {
            strategy = CheckoutStrategy::DryRun;
        }
        if let Some(true) = self.force {
            strategy = CheckoutStrategy::Force;
        }
        if let Some(true) = self.safe {
            strategy = CheckoutStrategy::Safe;
        }
        strategy
    }
}

} // verus!
