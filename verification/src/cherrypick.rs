//! Cherry-picking: the options of a cherry-pick.

use crate::checkout::CheckoutOptions;
use crate::merge::MergeOptions;
use vstd::prelude::*;

verus! {

/// Options for cherrypick behavior.
#[derive(Clone, Debug, Default, PartialEq, Eq)]
pub struct CherrypickOptions {
    /// Parent number for merge commits (1-based).
    ///
    /// When cherrypicking a merge commit, the mainline parent is the one you want to
    /// cherrypick from. The mainline is the branch from which the merge was made.
    pub mainline: Option<u32>,
    /// Options for merge resolution when cherrypicking a merge commit.
    pub merge_options: Option<MergeOptions>,
    /// Options for checkout behavior when updating working directory.
    pub checkout_options: Option<CheckoutOptions>,
}

} // verus!
