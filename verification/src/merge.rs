//! Merging: the options of a merge and what a merge analysis found.

use crate::util::{bitflags_intersect, shares_any};
use vstd::prelude::*;

verus! {

/// Which side of a conflict wins where lines clash.
#[derive(Clone, Copy, Debug, PartialEq, Eq)]
pub enum FileFavor {
    /// When a region of a file is changed in both branches, a conflict will be
    /// recorded in the index so that git_checkout can produce a merge file with
    /// conflict markers in the working directory. This is the default.
    Normal,
    /// When a region of a file is changed in both branches, the file created
    /// in the index will contain the "ours" side of any conflicting region.
    /// The index will not record a conflict.
    Ours,
    /// When a region of a file is changed in both branches, the file created
    /// in the index will contain the "theirs" side of any conflicting region.
    /// The index will not record a conflict.
    Theirs,
    /// When a region of a file is changed in both branches, the file created
    /// in the index will contain each unique line from each side, which has
    /// the result of combining both files. The index will not record a conflict.
    Union,
}

/// Options of a merge. An option that is absent keeps the engine's default.
#[derive(Clone, Debug, Default, PartialEq, Eq)]
pub struct MergeOptions {
    /// Detect file renames
    pub find_renames: Option<bool>,
    /// If a conflict occurs, exit immediately instead of attempting to continue
    /// resolving conflicts
    pub fail_on_conflict: Option<bool>,
    /// Do not write the REUC extension on the resulting index
    pub skip_reuc: Option<bool>,
    /// If the commits being merged have multiple merge bases, do not build a
    /// recursive merge base (by merging the multiple merge bases), instead
    /// simply use the first base.
    pub no_recursive: Option<bool>,
    /// Similarity to consider a file renamed (default 50)
    pub rename_threshold: Option<u32>,
    /// Maximum similarity sources to examine for renames (default 200).
    /// If the number of rename candidates (add / delete pairs) is greater
    /// than this value, inexact rename detection is aborted. This setting
    /// overrides the `merge.renameLimit` configuration value.
    pub target_limit: Option<u32>,
    /// Maximum number of times to merge common ancestors to build a
    /// virtual merge base when faced with criss-cross merges. When
    /// this limit is reached, the next ancestor will simply be used
    /// instead of attempting to merge it. The default is unlimited.
    pub recursion_limit: Option<u32>,
    /// Specify a side to favor for resolving conflicts
    pub fil_favor: Option<FileFavor>,
    /// Create standard conflicted merge files
    pub standard_style: Option<bool>,
    /// Create diff3-style file
    pub diff3_style: Option<bool>,
    /// Condense non-alphanumeric regions for simplified diff file
    pub simplify_alnum: Option<bool>,
    /// Ignore all whitespace
    pub ignore_whitespace: Option<bool>,
    /// Ignore changes in amount of whitespace
    pub ignore_whitespace_change: Option<bool>,
    /// Ignore whitespace at end of line
    pub ignore_whitespace_eol: Option<bool>,
    /// Use the "patience diff" algorithm
    pub patience: Option<bool>,
    /// Take extra time to find minimal diff
    pub minimal: Option<bool>,
}

/// Flags of a merge analysis, as the engine numbers them.
pub const MERGE_ANALYSIS_NONE: u32 = 0;
pub const MERGE_ANALYSIS_NORMAL: u32 = 1;
pub const MERGE_ANALYSIS_UP_TO_DATE: u32 = 2;
pub const MERGE_ANALYSIS_FASTFORWARD: u32 = 4;
pub const MERGE_ANALYSIS_UNBORN: u32 = 8;

/// Flags of a merge preference, as the engine numbers them.
pub const MERGE_PREFERENCE_NONE: u32 = 0;
pub const MERGE_PREFERENCE_NO_FAST_FORWARD: u32 = 1;
pub const MERGE_PREFERENCE_FASTFORWARD_ONLY: u32 = 2;

/// The results of a merge analysis: which kinds of merge are possible.
#[derive(Clone, Copy, Debug, PartialEq, Eq)]
pub struct MergeAnalysis {
    /// No merge is possible.
    pub none: bool,
    /// A "normal" merge; both HEAD and the given merge input have diverged
    /// from their common ancestor. The divergent commits must be merged.
    pub normal: bool,
    /// All given merge inputs are reachable from HEAD, meaning the
    /// repository is up-to-date and no merge needs to be performed.
    pub up_to_date: bool,
    /// The given merge input is a fast-forward from HEAD and no merge
    /// needs to be performed. Instead, the client can check out the
    /// given merge input.
    pub fast_forward: bool,
    /// The HEAD of the current repository is "unborn" and does not point to
    /// a valid commit. No merge can be performed, but the caller may wish
    /// to simply set HEAD to the target commit(s).
    pub unborn: bool,
}

impl MergeAnalysis {
    /// The analysis that the flag word `bits` stands for. A field is set
    /// where the word shares a flag with the field's own; the flag of "none"
    /// is the empty one, which no word shares.
    pub open spec fn of_bits(bits: u32) -> MergeAnalysis {
        MergeAnalysis {
            none: shares_any(bits, MERGE_ANALYSIS_NONE),
            normal: shares_any(bits, MERGE_ANALYSIS_NORMAL),
            up_to_date: shares_any(bits, MERGE_ANALYSIS_UP_TO_DATE),
            fast_forward: shares_any(bits, MERGE_ANALYSIS_FASTFORWARD),
            unborn: shares_any(bits, MERGE_ANALYSIS_UNBORN),
        }
    }

    /// Reads an analysis from the engine's flag word.
    pub fn from_bits(bits: u32) -> (analysis: MergeAnalysis)
        ensures
            analysis == Self::of_bits(bits),
            !analysis.none,
    {
        assert(bits & 0 == 0) by (bit_vector);
        MergeAnalysis {
            none: bitflags_intersect(bits, MERGE_ANALYSIS_NONE),
            normal: bitflags_intersect(bits, MERGE_ANALYSIS_NORMAL),
            up_to_date: bitflags_intersect(bits, MERGE_ANALYSIS_UP_TO_DATE),
            fast_forward: bitflags_intersect(bits, MERGE_ANALYSIS_FASTFORWARD),
            unborn: bitflags_intersect(bits, MERGE_ANALYSIS_UNBORN),
        }
    }
}

/// The user's stated preference for merges.
#[derive(Clone, Copy, Debug, PartialEq, Eq)]
pub struct MergePreference {
    /// No configuration was found that suggests a preferred behavior for merge.
    pub none: bool,
    /// There is a `merge.ff=false` configuration setting, suggesting that
    /// the user does not want to allow a fast-forward merge.
    pub no_fast_forward: bool,
    /// There is a `merge.ff=only` configuration setting, suggesting that
    /// the user only wants fast-forward merges.
    pub fast_forward_only: bool,
}

impl MergePreference {
    /// The preference that the flag word `bits` stands for.
    pub open spec fn of_bits(bits: u32) -> MergePreference {
        MergePreference {
            none: shares_any(bits, MERGE_PREFERENCE_NONE),
            no_fast_forward: shares_any(bits, MERGE_PREFERENCE_NO_FAST_FORWARD),
            fast_forward_only: shares_any(bits, MERGE_PREFERENCE_FASTFORWARD_ONLY),
        }
    }

    /// Reads a preference from the engine's flag word.
    pub fn from_bits(bits: u32) -> (preference: MergePreference)
        ensures
            preference == Self::of_bits(bits),
            !preference.none,
    {
        assert(bits & 0 == 0) by (bit_vector);
        MergePreference {
            none: bitflags_intersect(bits, MERGE_PREFERENCE_NONE),
            no_fast_forward: bitflags_intersect(bits, MERGE_PREFERENCE_NO_FAST_FORWARD),
            fast_forward_only: bitflags_intersect(bits, MERGE_PREFERENCE_FASTFORWARD_ONLY),
        }
    }
}

/// What a merge analysis found, and what the user prefers.
#[derive(Clone, Copy, Debug, PartialEq, Eq)]
pub struct MergeAnalysisResult {
    /// Merge opportunities.
    pub analysis: MergeAnalysis,
    /// The user's stated preference for merges.
    pub preference: MergePreference,
}

impl MergeAnalysisResult {
    /// Reads the result of an analysis from the engine's two flag words.
    pub fn from_bits(analysis: u32, preference: u32) -> (result: MergeAnalysisResult)
        ensures
            result.analysis == MergeAnalysis::of_bits(analysis),
            result.preference == MergePreference::of_bits(preference),
    {
        MergeAnalysisResult {
            analysis: MergeAnalysis::from_bits(analysis),
            preference: MergePreference::from_bits(preference),
        }
    }
}

} // verus!
