//! Diffs: the kinds of change, the options of making and refining a diff,
//! and the text of a printed one.

use crate::util::{bitflags_contain, contains_all, utf8_to_string};
use vstd::prelude::*;
use vstd::string::StringExecFns;
use vstd::utf8::{decode_utf8, valid_utf8};

verus! {

/// Flags for a diff delta or file.
#[derive(Clone, Copy, Debug, PartialEq, Eq)]
pub enum DiffFlags {
    /// File(s) treated as binary data.
    Binary,
    /// File(s) treated as text data.
    NotBinary,
    /// `id` value is known correct.
    ValidId,
    /// File exists at this side of the delta.
    Exists,
}

impl DiffFlags {
    /// The flag, as the engine numbers it.
    pub open spec fn flag(self) -> u32 {
        match self {
            DiffFlags::Binary => 1u32,
            DiffFlags::NotBinary => 2u32,
            DiffFlags::ValidId => 4u32,
            DiffFlags::Exists => 8u32,
        }
    }

    /// The flag.
    pub fn bits(self) -> (bits: u32)
        ensures
            bits == self.flag(),
    {
        match self {
            DiffFlags::Binary => 1,
            DiffFlags::NotBinary => 2,
            DiffFlags::ValidId => 4,
            DiffFlags::Exists => 8,
        }
    }
}

/// Check diff flags contains given flags.
pub fn diff_flags_contains(source: u32, target: u32) -> (found: bool)
    ensures
        found == contains_all(source, target),
{
    bitflags_contain(source, target)
}

/// What type of change is described by a `DiffDelta`?
#[derive(Clone, Copy, Debug, PartialEq, Eq)]
pub enum DeltaType {
    /// No changes
    Unmodified,
    /// Entry does not exist in old version
    Added,
    /// Entry does not exist in new version
    Deleted,
    /// Entry content changed between old and new
    Modified,
    /// Entry was renamed between old and new
    Renamed,
    /// Entry was copied from another old entry
    Copied,
    /// Entry is ignored item in workdir
    Ignored,
    /// Entry is untracked item in workdir
    Untracked,
    /// Type of entry changed between old and new
    Typechange,
    /// Entry is unreadable
    Unreadable,
    /// Entry in the index is conflicted
    Conflicted,
}

/// Possible output formats for diff data
#[derive(Clone, Copy, Debug, PartialEq, Eq)]
pub enum DiffFormat {
    /// full git diff (default)
    Patch,
    /// just the headers of the patch
    PatchHeader,
    /// like git diff --raw
    Raw,
    /// like git diff --name-only
    NameOnly,
    /// like git diff --name-status
    NameStatus,
    /// git diff as used by git patch-id
    PatchId,
}

impl Default for DiffFormat {
    fn default() -> (format: Self)
        ensures
            format == DiffFormat::Patch,
    {
        DiffFormat::Patch
    }
}

/// Options of printing a diff.
#[derive(Clone, Debug, Default, PartialEq, Eq)]
pub struct DiffPrintOptions {
    pub format: Option<DiffFormat>,
}

/// The format that a diff is printed in with `options`: the one they name,
/// else the full patch.
pub open spec fn print_format_of(options: Option<DiffPrintOptions>) -> DiffFormat {
    match options {
        Some(o) => match o.format {
            Some(f) => f,
            None => DiffFormat::Patch,
        },
        None => DiffFormat::Patch,
    }
}

/// The format of a printing.
pub fn print_format(options: Option<DiffPrintOptions>) -> (format: DiffFormat)
    ensures
        format == print_format_of(options),
{
    match options {
        Some(DiffPrintOptions { format: Some(f) }) => f,
        _ => DiffFormat::default(),
    }
}

/// What a line of a printed diff adds to the text: itself where it is text,
/// nothing where it is not.
pub open spec fn line_text(content: Seq<u8>) -> Seq<char> {
    if valid_utf8(content) {
        decode_utf8(content)
    } else {
        Seq::empty()
    }
}

/// The text of the lines `lines`, one after the other.
pub open spec fn lines_text(lines: Seq<Seq<u8>>) -> Seq<char>
    decreases lines.len(),
{
    if lines.len() == 0 {
        Seq::empty()
    } else {
        lines_text(lines.drop_last()) + line_text(lines.last())
    }
}

/// Collects the text of a diff while the engine prints it line by line.
pub struct PatchText {
    text: String,
}

impl View for PatchText {
    type V = Seq<char>;

    closed spec fn view(&self) -> Seq<char> {
        self.text@
    }
}

impl PatchText {
    /// A collector that holds no text.
    pub fn new() -> (collector: PatchText)
        ensures
            collector@ == Seq::<char>::empty(),
    {
        PatchText { text: String::new() }
    }

    /// Takes one printed line. A line that is not text is passed over. The
    /// result tells the engine to go on printing, which it always may.
    pub fn push_line(&mut self, content: &[u8]) -> (go_on: bool)
        ensures
            go_on,
            final(self)@ == old(self)@ + line_text(content@),
    {
        match utf8_to_string(content) {
            Some(line) => {
                self.text.append(line.as_str());
            },
            None => {
                assert(self@ + Seq::<char>::empty() =~= self@);
            },
        }
        true
    }

    /// The text that was collected.
    pub fn finish(self) -> (text: String)
        ensures
            text@ == self@,
    {
        self.text
    }
}

/// Collecting line by line gives the text of all lines: a collector that
/// holds the text of `lines` holds, after one more line, the text of the
/// lines with that one added.
pub proof fn lemma_collecting_adds_lines(lines: Seq<Seq<u8>>, content: Seq<u8>)
    ensures
        lines_text(lines.push(content)) == lines_text(lines) + line_text(content),
        lines_text(Seq::<Seq<u8>>::empty()) == Seq::<char>::empty(),
{
    assert(lines.push(content).drop_last() =~= lines);
}

/// The number of files of a delta, as the host sees it.
pub fn num_files(count: u16) -> (n: u32)
    ensures
        n == count,
{
    count as u32
}

/// Options of finding renames, copies and rewrites in a diff. An option that
/// is absent keeps the engine's default.
#[derive(Clone, Debug, Default, PartialEq, Eq)]
pub struct DiffFindOptions {
    /// Look for renames?
    pub renames: Option<bool>,
    /// Consider old side of modified for renames?
    pub renames_from_rewrites: Option<bool>,
    /// Look for copies?
    pub copies: Option<bool>,
    /// Consider unmodified as copy sources?
    ///
    /// For this to work correctly, use `includeUnmodified` when the initial
    /// diff is being made.
    pub copies_from_unmodified: Option<bool>,
    /// Mark significant rewrites for split.
    pub rewrites: Option<bool>,
    /// Actually split large rewrites into delete/add pairs
    pub break_rewrites: Option<bool>,
    /// Find renames/copies for untracked items in working directory.
    ///
    /// For this to work correctly use the `includeUntracked` option when the
    /// initial diff is being made.
    pub for_untracked: Option<bool>,
    /// Turn on all finding features.
    pub all: Option<bool>,
    /// Measure similarity ignoring leading whitespace (default)
    pub ignore_leading_whitespace: Option<bool>,
    /// Measure similarity ignoring all whitespace
    pub ignore_whitespace: Option<bool>,
    /// Measure similarity including all data
    pub dont_ignore_whitespace: Option<bool>,
    /// Measure similarity only by comparing SHAs (fast and cheap)
    pub exact_match_only: Option<bool>,
    /// Do not break rewrites unless they contribute to a rename.
    ///
    /// Normally, `breakRewrites` and `rewrites` will measure the
    /// self-similarity of modified files and split the ones that have changed a
    /// lot into a delete/add pair.  Then the sides of that pair will be
    /// considered candidates for rename and copy detection
    ///
    /// If you add this flag in and the split pair is not used for an actual
    /// rename or copy, then the modified record will be restored to a regular
    /// modified record instead of being split.
    pub break_rewrites_for_renames_only: Option<bool>,
    /// Remove any unmodified deltas after find_similar is done.
    ///
    /// Using `copiesFromUnmodified` to emulate the `--find-copies-harder`
    /// behavior requires building a diff with the `includeUnmodified` flag. If
    /// you do not want unmodified records in the final result, pas this flag to
    /// have them removed.
    pub remove_unmodified: Option<bool>,
    /// Similarity to consider a file renamed (default 50)
    pub rename_threshold: Option<u16>,
    /// Similarity of modified to be eligible rename source (default 50)
    pub rename_from_rewrite_threshold: Option<u16>,
    /// Similarity to consider a file copy (default 50)
    pub copy_threshold: Option<u16>,
    /// Similarity to split modify into delete/add pair (default 60)
    pub break_rewrite_threshold: Option<u16>,
    /// Maximum similarity sources to examine for a file (somewhat like
    /// git-diff's `-l` option or `diff.renameLimit` config)
    ///
    /// Defaults to 200
    pub rename_limit: Option<u32>,
}

/// Valid modes for index and tree entries.
#[derive(Clone, Copy, Debug, PartialEq, Eq)]
pub enum FileMode {
    /// Unreadable
    Unreadable,
    /// Tree
    Tree,
    /// Blob
    Blob,
    /// Group writable blob. Obsolete mode kept for compatibility reasons
    BlobGroupWritable,
    /// Blob executable
    BlobExecutable,
    /// Link
    Link,
    /// Commit
    Commit,
}

/// Options of making a diff. An option that is absent keeps the engine's
/// default.
#[derive(Clone, Debug, Default, PartialEq, Eq)]
pub struct DiffOptions {
    /// Flag indicating whether the sides of the diff will be reversed.
    pub reverse: Option<bool>,
    /// Flag indicating whether ignored files are included.
    pub include_ignored: Option<bool>,
    /// Flag indicating whether ignored directories are traversed deeply or not.
    pub recurse_ignored_dirs: Option<bool>,
    /// Flag indicating whether untracked files are in the diff
    pub include_untracked: Option<bool>,
    /// Flag indicating whether untracked directories are traversed deeply or
    /// not.
    pub recurse_untracked_dirs: Option<bool>,
    /// Flag indicating whether unmodified files are in the diff.
    pub include_unmodified: Option<bool>,
    /// If enabled, then Typechange delta records are made.
    pub include_typechange: Option<bool>,
    /// Event with `includeTypechange`, the tree returned generally shows a
    /// deleted blob. This flag correctly labels the tree transitions as a
    /// typechange record with the `new_file`'s mode set to tree.
    ///
    /// Note that the tree SHA will not be available.
    pub include_typechange_trees: Option<bool>,
    /// Flag indicating whether file mode changes are ignored.
    pub ignore_filemode: Option<bool>,
    /// Flag indicating whether all submodules should be treated as unmodified.
    pub ignore_submodules: Option<bool>,
    /// Flag indicating whether case insensitive filenames should be used.
    pub ignore_case: Option<bool>,
    /// If pathspecs are specified, this flag means that they should be applied
    /// as an exact match instead of a fnmatch pattern.
    pub disable_pathspec_match: Option<bool>,
    /// Disable updating the `binary` flag in delta records. This is useful when
    /// iterating over a diff if you don't need hunk and data callbacks and want
    /// to avoid having to load a file completely.
    pub skip_binary_check: Option<bool>,
    /// When diff finds an untracked directory, to match the behavior of core
    /// Git, it scans the contents for ignored and untracked files. If all
    /// contents are ignored, then the directory is ignored; if any contents are
    /// not ignored, then the directory is untracked. This is extra work that
    /// may not matter in many cases.
    ///
    /// This flag turns off that scan and immediately labels an untracked
    /// directory as untracked (changing the behavior to not match core git).
    pub enable_fast_untracked_dirs: Option<bool>,
    /// When diff finds a file in the working directory with stat information
    /// different from the index, but the OID ends up being the same, write the
    /// correct stat information into the index. Note: without this flag, diff
    /// will always leave the index untouched.
    pub update_index: Option<bool>,
    /// Include unreadable files in the diff
    pub include_unreadable: Option<bool>,
    /// Include unreadable files in the diff as untracked files
    pub include_unreadable_as_untracked: Option<bool>,
    /// Treat all files as text, disabling binary attributes and detection.
    pub force_text: Option<bool>,
    /// Treat all files as binary, disabling text diffs
    pub force_binary: Option<bool>,
    /// Ignore all whitespace
    pub ignore_whitespace: Option<bool>,
    /// Ignore changes in the amount of whitespace
    pub ignore_whitespace_change: Option<bool>,
    /// Ignore whitespace at the end of line
    pub ignore_whitespace_eol: Option<bool>,
    /// Ignore blank lines
    pub ignore_blank_lines: Option<bool>,
    /// When generating patch text, include the content of untracked files.
    ///
    /// This automatically turns on `includeUntracked` but it does not turn on
    /// `recurseUntrackedDirs`. Add that flag if you want the content of every
    /// single untracked file.
    pub show_untracked_content: Option<bool>,
    /// When generating output, include the names of unmodified files if they
    /// are included in the `Diff`. Normally these are skipped in the formats
    /// that list files (e.g. name-only, name-status, raw). Even with this these
    /// will not be included in the patch format.
    pub show_unmodified: Option<bool>,
    /// Use the "patience diff" algorithm
    pub patience: Option<bool>,
    /// Take extra time to find the minimal diff
    pub minimal: Option<bool>,
    /// Include the necessary deflate/delta information so that `git-apply` can
    /// apply given diff information to binary files.
    pub show_binary: Option<bool>,
    /// Use a heuristic that takes indentation and whitespace into account
    /// which generally can produce better diffs when dealing with ambiguous
    /// diff hunks.
    pub indent_heuristic: Option<bool>,
    /// Set the number of unchanged lines that define the boundary of a hunk
    /// (and to display before and after).
    ///
    /// The default value for this is 3.
    pub context_lines: Option<u32>,
    /// Set the maximum number of unchanged lines between hunk boundaries before
    /// the hunks will be merged into one.
    ///
    /// The default value for this is 0.
    pub interhunk_lines: Option<u32>,
    /// The default value for this is `core.abbrev` or 7 if unset.
    pub id_abbrev: Option<u16>,
    /// Maximum size (in bytes) above which a blob will be marked as binary
    /// automatically.
    ///
    /// A negative value will disable this entirely.
    ///
    /// The default value for this is 512MB.
    pub max_size: Option<i64>,
    /// The virtual "directory" to prefix old file names with in hunk headers.
    ///
    /// The default value for this is "a".
    pub old_prefix: Option<String>,
    /// The virtual "directory" to prefix new file names with in hunk headers.
    ///
    /// The default value for this is "b".
    pub new_prefix: Option<String>,
    /// Add to the array of paths/fnmatch patterns to constrain the diff.
    pub pathspecs: Option<Vec<String>>,
}

} // verus!
