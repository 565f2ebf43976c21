//! Blame: who last changed each line of a file.

use crate::oid::{hex_text, is_oid_text, oid_bytes, ObjectId};
use crate::remote::{host_count, low32};
use crate::signature::Signature;
use crate::util::{lossy_text, path_to_string};
use std::collections::HashSet;
use vstd::prelude::*;

verus! {

broadcast use vstd::std_specs::hash::group_hash_axioms;

/// A hunk of a blame, as the host sees it.
#[derive(Clone, Debug, PartialEq, Eq)]
pub struct BlameHunk {
    /// The oid of the commit where this line was last changed.
    pub final_commit_id: String,
    /// The 1-based line number in the final version of the file where this hunk starts.
    pub final_start_line_number: u32,
    /// The number of lines in this hunk.
    pub lines_in_hunk: u32,
    /// The signature of the commit where this line was last changed.
    pub final_signature: Option<Signature>,
    /// The path to the file where this hunk originated.
    pub path: Option<String>,
    /// The 1-based line number in the earlier version of the file where this hunk starts.
    pub orig_start_line_number: u32,
    /// The oid of the commit where this hunk was found.
    pub orig_commit_id: String,
    /// The signature of the commit where this hunk was found.
    pub orig_signature: Option<Signature>,
    /// True if the hunk has been tracked to a boundary commit (the root,
    /// or the commit specified in the set of options of blame).
    pub is_boundary: bool,
}

/// A hunk of a blame, as the engine holds it. A signature is absent where
/// the engine's could not be read.
#[derive(Clone, Debug, PartialEq, Eq)]
pub struct RawBlameHunk {
    pub final_commit_id: ObjectId,
    pub final_start_line: usize,
    pub lines_in_hunk: usize,
    pub final_signature: Option<Signature>,
    pub path: Option<Vec<u8>>,
    pub orig_start_line: usize,
    pub orig_commit_id: ObjectId,
    pub orig_signature: Option<Signature>,
    pub is_boundary: bool,
}

/// The signature that goes with the commit `id`: none for the id of all
/// zeros, which stands for lines that are in no commit yet.
pub open spec fn signature_of(id: ObjectId, signature: Option<Signature>) -> Option<Signature> {
    if id.zero() {
        None
    } else {
        signature
    }
}

/// Whether `hunk` shows `raw`.
pub open spec fn shows_hunk(hunk: BlameHunk, raw: RawBlameHunk) -> bool {
    &&& hunk.final_commit_id@ == hex_text(raw.final_commit_id.bytes@)
    &&& hunk.final_start_line_number == low32(raw.final_start_line)
    &&& hunk.lines_in_hunk == low32(raw.lines_in_hunk)
    &&& hunk.final_signature == signature_of(raw.final_commit_id, raw.final_signature)
    &&& match raw.path {
        Some(bytes) => hunk.path matches Some(text) && text@ == lossy_text(bytes@),
        None => hunk.path is None,
    }
    &&& hunk.orig_start_line_number == low32(raw.orig_start_line)
    &&& hunk.orig_commit_id@ == hex_text(raw.orig_commit_id.bytes@)
    &&& hunk.orig_signature == signature_of(raw.orig_commit_id, raw.orig_signature)
    &&& hunk.is_boundary == raw.is_boundary
}

impl BlameHunk {
    /// The hunk for the host.
    pub fn from_raw(raw: RawBlameHunk) -> (hunk: BlameHunk)
        ensures
            shows_hunk(hunk, raw),
    {
        let final_commit_id = raw.final_commit_id.to_hex();
        let final_signature = if raw.final_commit_id.is_zero() {
            None
        } else {
            raw.final_signature
        };
        let orig_commit_id = raw.orig_commit_id.to_hex();
        let orig_signature = if raw.orig_commit_id.is_zero() {
            None
        } else {
            raw.orig_signature
        };
        let path = match &raw.path {
            Some(bytes) => Some(path_to_string(bytes.as_slice())),
            None => None,
        };
        BlameHunk {
            final_commit_id,
            final_start_line_number: host_count(raw.final_start_line),
            lines_in_hunk: host_count(raw.lines_in_hunk),
            final_signature,
            path,
            orig_start_line_number: host_count(raw.orig_start_line),
            orig_commit_id,
            orig_signature,
            is_boundary: raw.is_boundary,
        }
    }
}

/// Options of a blame. An option that is absent keeps the engine's default.
#[derive(Clone, Debug, Default, PartialEq, Eq)]
pub struct BlameOptions {
    /// The first line in the file to blame (1-based line number).
    pub min_line: Option<u32>,
    /// The last line in the file to blame (1-based line number).
    pub max_line: Option<u32>,
    /// The oid of the newest commit to consider. The blame algorithm will stop
    /// when this commit is reached.
    pub newest_commit: Option<String>,
    /// The oid of the oldest commit to consider. The blame algorithm will
    /// stop when this commit is reached.
    pub oldest_commit: Option<String>,
    /// The path to the file being worked on. Path has to be relative to the
    /// repo root.
    pub path: Option<String>,
    /// Track lines that have moved within a file. This is the git-blame -M
    /// option.
    pub track_lines_movement: Option<bool>,
    /// Restrict search to commits reachable following only first parents.
    pub first_parent: Option<bool>,
    /// Ignore whitespace differences.
    pub ignore_whitespace: Option<bool>,
    /// Track lines that have been copied from another file that exists in
    /// any commit.
    pub track_copies_any_commit_copies: Option<bool>,
    /// Track lines that have been copied from another file that exists in
    /// the same commit.
    pub track_copies_same_commit_copies: Option<bool>,
    /// Track lines that have moved across files in the same commit.
    pub track_copies_same_commit_moves: Option<bool>,
    /// Use mailmap file to map author and committer names and email
    /// addresses to canonical real names and email addresses.
    pub use_mailmap: Option<bool>,
}

/// The commit that bounds a blame, of what the options say: the id that the
/// text spells, or none where there is no text or the text is no id. A bound
/// that cannot be read bounds nothing.
pub fn commit_bound(text: &Option<String>) -> (bound: Option<ObjectId>)
    ensures
        bound is Some <==> (text matches Some(t) && is_oid_text(t@)),
        bound matches Some(id) ==> (text matches Some(t) && id.bytes@ == oid_bytes(t@)),
{
    match text {
        Some(t) => match ObjectId::parse(t.as_str()) {
            Ok(id) => Some(id),
            Err(_) => None,
        },
        None => None,
    }
}

/// An iteration over the hunks of a blame by their index.
#[derive(Clone, Copy, Debug, PartialEq, Eq)]
pub struct BlameHunks {
    pub current_index: u32,
    pub total_count: u32,
}

impl BlameHunks {
    /// An iteration over `total_count` hunks from the first on.
    pub fn new(total_count: u32) -> (hunks: BlameHunks)
        ensures
            hunks == (BlameHunks { current_index: 0, total_count }),
    {
        BlameHunks { current_index: 0, total_count }
    }

    /// The index of the hunk that comes next, or `None` where all were
    /// handed out. Each index from the current one up to the count comes
    /// once, in order.
    pub fn next_index(&mut self) -> (index: Option<u32>)
        ensures
            final(self).total_count == old(self).total_count,
            index is Some <==> old(self).current_index < old(self).total_count,
            index matches Some(i) ==> i == old(self).current_index && final(self).current_index
                == i + 1,
            index is None ==> final(self).current_index == old(self).current_index,
    {
        if self.current_index >= self.total_count {
            return None;
        }
        let index = self.current_index;
        self.current_index = index + 1;
        Some(index)
    }
}

/// The key by which a hunk is told from the others: where it starts, and how
/// long it is.
pub open spec fn hunk_key(start: u32, lines: u32) -> u64 {
    (start as int * 0x1_0000_0000 + lines as int) as u64
}

/// The key of `hunk`.
pub open spec fn key_of(hunk: BlameHunk) -> u64 {
    hunk_key(hunk.final_start_line_number, hunk.lines_in_hunk)
}

/// The line after the last one of a hunk, or the last line number there is
/// where the hunk reaches it.
pub open spec fn line_after(start: u32, lines: u32) -> u32 {
    if start + lines > u32::MAX {
        u32::MAX
    } else {
        (start + lines) as u32
    }
}

/// Whether `line` was looked up in vain: no hunk holds it, or the hunk that
/// holds it is among those `seen` before.
pub open spec fn in_vain<F: Fn(u32) -> Option<BlameHunk>>(lookup: F, line: u32, seen: Set<u64>) -> bool {
    exists|found: Option<BlameHunk>| #[trigger]
        call_ensures(lookup, (line,), found) && match found {
            Some(h) => seen.contains(key_of(h)),
            None => true,
        }
}

/// An iteration over the hunks of a blame by line: it looks each line up in
/// turn, hands out the hunk that holds it, and goes on behind that hunk.
pub struct BlameHunksByLine {
    current_line: u32,
    processed_hunks: HashSet<u64>,
    total_hunk_count: usize,
}

impl BlameHunksByLine {
    /// The line that is looked up next.
    pub closed spec fn line(&self) -> u32 {
        self.current_line
    }

    /// The keys of the hunks that were handed out.
    pub closed spec fn seen(&self) -> Set<u64> {
        self.processed_hunks@
    }

    /// The number of hunks of the blame.
    pub closed spec fn total(&self) -> usize {
        self.total_hunk_count
    }

    /// An iteration over a blame of `total_hunk_count` hunks, from line 1 on.
    pub fn new(total_hunk_count: usize) -> (hunks: BlameHunksByLine)
        ensures
            hunks.line() == 1,
            hunks.seen() == Set::<u64>::empty(),
            hunks.total() == total_hunk_count,
    {
        BlameHunksByLine { current_line: 1, processed_hunks: HashSet::new(), total_hunk_count }
    }

    /// The next hunk, or `None` at the end. `lookup` finds the hunk that
    /// holds a line. The lines are looked up in order, from the current one
    /// on, and the first hunk that was not seen before is handed out; the
    /// iteration goes on behind it. The iteration ends when as many hunks
    /// were handed out as the blame has, or when the line numbers run out.
    pub fn next<F>(&mut self, lookup: F) -> (hunk: Option<BlameHunk>) where
        F: Fn(u32) -> Option<BlameHunk>,

        requires
            forall|line: u32| call_requires(lookup, (line,)),
        ensures
            final(self).total() == old(self).total(),
            hunk matches Some(h) ==> {
                &&& old(self).seen().len() < old(self).total()
                &&& !old(self).seen().contains(key_of(h))
                &&& final(self).seen() == old(self).seen().insert(key_of(h))
                &&& final(self).line() == line_after(h.final_start_line_number, h.lines_in_hunk)
                &&& exists|line: u32|
                    {
                        &&& line >= old(self).line()
                        &&& call_ensures(lookup, (line,), Some(h))
                        &&& forall|l: u32|
                            old(self).line() <= l < line ==> in_vain(lookup, l, old(self).seen())
                    }
            },
            hunk is None ==> final(self).seen() == old(self).seen(),
            hunk is None && old(self).seen().len() < old(self).total() ==> {
                &&& final(self).line() == u32::MAX
                &&& forall|l: u32| old(self).line() <= l ==> in_vain(lookup, l, old(self).seen())
            },
    {
        if self.processed_hunks.len() >= self.total_hunk_count {
            return None;
        }
        loop
            invariant
                forall|line: u32| call_requires(lookup, (line,)),
                self.total() == old(self).total(),
                self.seen() == old(self).seen(),
                self.line() >= old(self).line(),
                old(self).seen().len() < old(self).total(),
                forall|l: u32|
                    old(self).line() <= l < self.line() ==> in_vain(lookup, l, old(self).seen()),
            decreases u32::MAX - self.current_line,
        {
            let line = self.current_line;
            let found = lookup(line);
            let ghost answer = found;
            if let Some(found) = found {
                let start = found.final_start_line_number;
                let lines = found.lines_in_hunk;
                let key = start as u64 * 0x1_0000_0000 + lines as u64;
                if self.processed_hunks.insert(key) {
                    self.current_line = if lines > u32::MAX - start {
                        u32::MAX
                    } else {
                        start + lines
                    };
                    assert(call_ensures(lookup, (line,), Some(found)));
                    return Some(found);
                }
            }
            assert(in_vain(lookup, line, old(self).seen())) by {
                assert(call_ensures(lookup, (line,), answer));
            }
            if self.current_line == u32::MAX {
                return None;
            }
            self.current_line = self.current_line + 1;
        }
    }
}

} // verus!
