//! The status of a file: how index and working directory differ from HEAD.

use crate::util::{bitflags_contain, contains_all};
use vstd::prelude::*;

verus! {

/// Flags of a file status, as the engine numbers them. "Current" is the
/// empty word.
pub const STATUS_CURRENT: u32 = 0;
pub const STATUS_INDEX_NEW: u32 = 1;
pub const STATUS_INDEX_MODIFIED: u32 = 2;
pub const STATUS_INDEX_DELETED: u32 = 4;
pub const STATUS_INDEX_RENAMED: u32 = 8;
pub const STATUS_INDEX_TYPECHANGE: u32 = 16;
pub const STATUS_WT_NEW: u32 = 128;
pub const STATUS_WT_MODIFIED: u32 = 256;
pub const STATUS_WT_DELETED: u32 = 512;
pub const STATUS_WT_TYPECHANGE: u32 = 1024;
pub const STATUS_WT_RENAMED: u32 = 2048;
pub const STATUS_IGNORED: u32 = 16384;
pub const STATUS_CONFLICTED: u32 = 32768;

/// The status of one file, a switch for each flag.
#[derive(Clone, Copy, Debug, PartialEq, Eq)]
pub struct Status {
    pub current: bool,
    pub index_new: bool,
    pub index_modified: bool,
    pub index_deleted: bool,
    pub index_renamed: bool,
    pub index_typechange: bool,
    pub wt_new: bool,
    pub wt_modified: bool,
    pub wt_deleted: bool,
    pub wt_typechange: bool,
    pub wt_renamed: bool,
    pub ignored: bool,
    pub conflicted: bool,
}

impl Status {
    /// The status that the flag word `bits` stands for: a switch is on where
    /// the word contains its flag.
    pub open spec fn of_bits(bits: u32) -> Status {
        Status {
            current: contains_all(bits, STATUS_CURRENT),
            index_new: contains_all(bits, STATUS_INDEX_NEW),
            index_modified: contains_all(bits, STATUS_INDEX_MODIFIED),
            index_deleted: contains_all(bits, STATUS_INDEX_DELETED),
            index_renamed: contains_all(bits, STATUS_INDEX_RENAMED),
            index_typechange: contains_all(bits, STATUS_INDEX_TYPECHANGE),
            wt_new: contains_all(bits, STATUS_WT_NEW),
            wt_modified: contains_all(bits, STATUS_WT_MODIFIED),
            wt_deleted: contains_all(bits, STATUS_WT_DELETED),
            wt_typechange: contains_all(bits, STATUS_WT_TYPECHANGE),
            wt_renamed: contains_all(bits, STATUS_WT_RENAMED),
            ignored: contains_all(bits, STATUS_IGNORED),
            conflicted: contains_all(bits, STATUS_CONFLICTED),
        }
    }

    /// Reads a status from the engine's flag word. The empty flag is in
    /// every word, so `current` is always on.
    pub fn from_bits(bits: u32) -> (status: Status)
        ensures
            status == Self::of_bits(bits),
            status.current,
    {
        assert(bits & 0 == 0) by (bit_vector);
        Status {
            current: bitflags_contain(bits, STATUS_CURRENT),
            index_new: bitflags_contain(bits, STATUS_INDEX_NEW),
            index_modified: bitflags_contain(bits, STATUS_INDEX_MODIFIED),
            index_deleted: bitflags_contain(bits, STATUS_INDEX_DELETED),
            index_renamed: bitflags_contain(bits, STATUS_INDEX_RENAMED),
            index_typechange: bitflags_contain(bits, STATUS_INDEX_TYPECHANGE),
            wt_new: bitflags_contain(bits, STATUS_WT_NEW),
            wt_modified: bitflags_contain(bits, STATUS_WT_MODIFIED),
            wt_deleted: bitflags_contain(bits, STATUS_WT_DELETED),
            wt_typechange: bitflags_contain(bits, STATUS_WT_TYPECHANGE),
            wt_renamed: bitflags_contain(bits, STATUS_WT_RENAMED),
            ignored: bitflags_contain(bits, STATUS_IGNORED),
            conflicted: bitflags_contain(bits, STATUS_CONFLICTED),
        }
    }
}

/// Enumeration of possible methods of what can be shown through a status
/// operation.
#[derive(Clone, Copy, Debug, PartialEq, Eq)]
pub enum StatusShow {
    /// Only gives status based on HEAD to index comparison, not looking at
    /// working directory changes.
    Index,
    /// Only gives status based on index to working directory comparison, not
    /// comparing the index to the HEAD.
    Workdir,
    /// The default, this roughly matches `git status --porcelain` regarding
    /// which files are included and in what order.
    IndexAndWorkdir,
}

/// Options of a status listing. An option that is absent keeps the engine's
/// default.
#[derive(Clone, Debug, Default, PartialEq, Eq)]
pub struct StatusOptions {
    /// Select the files on which to report status.
    pub show: Option<StatusShow>,
    /// Path patterns to match (using fnmatch-style matching).
    pub pathspecs: Option<Vec<String>>,
    /// Flag whether untracked files will be included.
    pub include_untracked: Option<bool>,
    /// Flag whether ignored files will be included.
    pub include_ignored: Option<bool>,
    /// Flag to include unmodified files.
    pub include_unmodified: Option<bool>,
    /// Flag that submodules should be skipped.
    pub exclude_submodules: Option<bool>,
    /// Flag that all files in untracked directories should be included.
    pub recurse_untracked_dirs: Option<bool>,
    /// Indicates that the given paths should be treated as literals paths.
    pub disable_pathspec_match: Option<bool>,
    /// Indicates that the contents of ignored directories should be included.
    pub recurse_ignored_dirs: Option<bool>,
    /// Indicates that rename detection should be processed between the head
    /// and the index.
    pub renames_head_to_index: Option<bool>,
    /// Indicates that rename detection should be run between the index and
    /// the working directory.
    pub renames_index_to_workdir: Option<bool>,
    /// Override the native case sensitivity for the file system and force
    /// the output to be in case sensitive order.
    pub sort_case_sensitively: Option<bool>,
    /// Override the native case sensitivity for the file system and force
    /// the output to be in case-insensitive order.
    pub sort_case_insensitively: Option<bool>,
    /// Indicates that rename detection should include files that were changed heavily.
    pub renames_from_rewrites: Option<bool>,
    /// Bypasses the default status behavior of doing a "soft" index reload.
    pub no_refresh: Option<bool>,
    /// Refresh the stat cache in the index for files are unchanged but have
    /// out of date stat information in the index.
    pub update_index: Option<bool>,
    /// Include unreadable files.
    pub include_unreadable: Option<bool>,
    /// Include unreadable files as untracked files.
    pub include_unreadable_as_untracked: Option<bool>,
    /// Set threshold above which similar files will be considered renames.
    pub rename_threshold: Option<u16>,
}

} // verus!
