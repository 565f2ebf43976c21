//! Reverting: the options of a revert.

use crate::checkout::CheckoutOptions;
use crate::merge::MergeOptions;
use vstd::prelude::*;

verus! {

/// Options for revert behavior.
#[derive(Clone, Debug, Default, PartialEq, Eq)]
pub struct RevertOptions {
    /// Parent number for merge commits (1-based).
    ///
    /// When reverting a merge commit, the mainline parent is the one you want to
    /// revert to. The mainline is the branch into which the merge was made.
    pub mainline: Option<u32>,
    /// Options for merge conflict resolution.
    pub merge_options: Option<MergeOptions>,
    /// Options for checkout behavior when updating working directory.
    pub checkout_options: Option<CheckoutOptions>,
}

} // verus!
