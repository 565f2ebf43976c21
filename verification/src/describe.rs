//! Describing a commit by the nearest tag: the options.

use vstd::prelude::*;

verus! {

/// Options of formatting a description.
#[derive(Clone, Debug, Default, PartialEq, Eq)]
pub struct DescribeFormatOptions {
    /// Sets the size of the abbreviated commit id to use.
    ///
    /// The value is the lower bound for the length of the abbreviated string,
    /// and the default is 7.
    pub abbreviated_size: Option<u32>,
    /// Sets whether or not the long format is used even when a shorter name
    /// could be used.
    pub always_use_long_format: Option<bool>,
    /// If the workdir is dirty and this is set, this string will be appended to
    /// the description string.
    pub dirty_suffix: Option<String>,
}

/// Options of describing.
#[derive(Clone, Debug, Default, PartialEq, Eq)]
pub struct DescribeOptions {
    pub max_candidates_tags: Option<u32>,
    /// Sets the reference lookup strategy
    ///
    /// This behaves like the `--tags` option to git-describe.
    pub describe_tags: Option<bool>,
    /// Sets the reference lookup strategy
    ///
    /// This behaves like the `--all` option to git-describe.
    pub describe_all: Option<bool>,
    /// Indicates when calculating the distance from the matching tag or
    /// reference whether to only walk down the first-parent ancestry.
    pub only_follow_first_parent: Option<bool>,
    /// If no matching tag or reference is found whether a describe option would
    /// normally fail. This option indicates, however, that it will instead fall
    /// back to showing the full id of the commit.
    pub show_commit_oid_as_fallback: Option<bool>,
    pub pattern: Option<String>,
}

/// Which references a description looks among.
#[derive(Clone, Copy, Debug, PartialEq, Eq)]
pub enum DescribeStrategy {
    /// Annotated tags alone: the engine's default.
    Annotated,
    /// All tags.
    Tags,
    /// All references.
    All,
}

impl DescribeOptions {
    /// The strategy that `self` asks for. Of the two switches the one for all
    /// references goes before the one for tags; a switch that is off asks
    /// for nothing.
    pub open spec fn strategy_of(&self) -> DescribeStrategy {
        if self.describe_all == Some(true) {
            DescribeStrategy::All
        } else if self.describe_tags == Some(true) {
            DescribeStrategy::Tags
        } else {
            DescribeStrategy::Annotated
        }
    }

    /// The reference lookup strategy of the description.
    pub fn strategy(&self) -> (strategy: DescribeStrategy)
        ensures
            strategy == self.strategy_of(),
    {
        let mut strategy = DescribeStrategy::Annotated;
        if let Some(true) = self.describe_tags {
            strategy = DescribeStrategy::Tags;
        }
        if let Some(true) = self.describe_all {
            strategy = DescribeStrategy::All;
        }
        strategy
    }
}

} // verus!
