//! The stash: the flags of saving, and the list of what is stashed.

use crate::remote::{host_count, low32};
use crate::util::{flag_if_true, flag_when};
use vstd::prelude::*;

verus! {

/// Flags of a stash, as the engine numbers them.
pub const STASH_DEFAULT: u32 = 0;
pub const STASH_KEEP_INDEX: u32 = 1;
pub const STASH_INCLUDE_UNTRACKED: u32 = 2;
pub const STASH_INCLUDE_IGNORED: u32 = 4;

/// What goes into a stash besides the tracked changes.
#[derive(Clone, Debug, Default, PartialEq, Eq)]
pub struct StashSaveOptions {
    /// Description along with the stashed state.
    pub message: Option<String>,
    /// All untracked files are also stashed and then cleaned up from the
    /// working directory.
    pub include_untracked: Option<bool>,
    /// All ignored files are also stashed and then cleaned up from the
    /// working directory.
    pub include_ignored: Option<bool>,
    /// All changes already added to the index are left intact in the working
    /// directory.
    pub keep_index: Option<bool>,
}

impl StashSaveOptions {
    /// The flag word that `self` stands for.
    pub open spec fn flag_word(&self) -> u32 {
        flag_if_true(self.include_untracked, STASH_INCLUDE_UNTRACKED) | flag_if_true(
            self.include_ignored,
            STASH_INCLUDE_IGNORED,
        ) | flag_if_true(self.keep_index, STASH_KEEP_INDEX)
    }

    /// The flag word of the stash: one flag for each option that is switched
    /// on.
    pub fn flags(&self) -> (word: u32)
        ensures
            word == self.flag_word(),
            word <= 7,
    {
        let untracked = flag_when(self.include_untracked, STASH_INCLUDE_UNTRACKED);
        let ignored = flag_when(self.include_ignored, STASH_INCLUDE_IGNORED);
        let keep = flag_when(self.keep_index, STASH_KEEP_INDEX);
        let word = untracked | ignored | keep;
        assert(word <= 7) by (bit_vector)
            requires
                word == untracked | ignored | keep,
                untracked == 0 || untracked == 2,
                ignored == 0 || ignored == 4,
                keep == 0 || keep == 1,
        ;
        word
    }
}

/// Options of applying a stash.
#[derive(Clone, Debug, Default, PartialEq, Eq)]
pub struct StashApplyOptions {
    /// Try to reinstate not only the working tree's changes, but also the
    /// index's changes.
    pub reinstantiate_index: Option<bool>,
}

impl StashApplyOptions {
    /// Whether the index is brought back too. Only an explicit `true` asks
    /// for it.
    pub fn reinstates_index(&self) -> (reinstate: bool)
        ensures
            reinstate == (self.reinstantiate_index == Some(true)),
    {
        match self.reinstantiate_index {
            Some(true) => true,
            _ => false,
        }
    }
}

/// One stashed state.
#[derive(Clone, Debug, PartialEq, Eq)]
pub struct StashEntry {
    /// Its position in the stash; the latest has position 0.
    pub position: usize,
    /// The id of its commit, in hex.
    pub id: String,
    /// Its description.
    pub message: Option<String>,
}

impl StashEntry {
    /// The position as the host sees it.
    pub fn index(&self) -> (n: u32)
        ensures
            n == low32(self.position),
    {
        host_count(self.position)
    }
}

/// The stashed states of a repository, as they were when the list was made.
pub struct StashList {
    entries: Vec<StashEntry>,
}

impl View for StashList {
    type V = Seq<StashEntry>;

    closed spec fn view(&self) -> Seq<StashEntry> {
        self.entries@
    }
}

impl StashList {
    /// The list of `entries`, in their order.
    pub fn new(entries: Vec<StashEntry>) -> (list: StashList)
        ensures
            list@ == entries@,
    {
        StashList { entries }
    }

    /// The entry at `index`, or `None` where the list is shorter.
    pub fn get(&self, index: u32) -> (entry: Option<&StashEntry>)
        ensures
            entry is Some <==> index < self@.len(),
            entry matches Some(e) ==> *e == self@[index as int],
    {
        let idx = index as usize;
        if idx >= self.entries.len() {
            return None;
        }
        Some(&self.entries[idx])
    }

    /// The number of entries, as the host sees it.
    pub fn len(&self) -> (n: u32)
        ensures
            n == low32(self@.len() as usize),
            self@.len() <= u32::MAX ==> n == self@.len(),
    {
        host_count(self.entries.len())
    }

    /// Whether nothing is stashed.
    pub fn is_empty(&self) -> (empty: bool)
        ensures
            empty == (self@.len() == 0),
    {
        self.entries.len() == 0
    }

    /// An iteration over the entries from the first on.
    pub fn iter(&self) -> (iter: StashListIter<'_>)
        ensures
            iter.list() == self@,
            iter.position() == 0,
    {
        StashListIter { entries: &self.entries, index: 0 }
    }
}

/// An iteration over a stash list.
pub struct StashListIter<'a> {
    entries: &'a Vec<StashEntry>,
    index: usize,
}

impl<'a> StashListIter<'a> {
    /// The entries that are iterated over.
    pub closed spec fn list(&self) -> Seq<StashEntry> {
        self.entries@
    }

    /// How many entries were handed out.
    pub closed spec fn position(&self) -> int {
        self.index as int
    }

    #[verifier::type_invariant]
    spec fn within_list(&self) -> bool {
        self.index <= self.entries@.len()
    }

    /// The next entry, or `None` at the end. The entries come in their
    /// order, each once; at the end the iteration stays at the end.
    pub fn next(&mut self) -> (entry: Option<&'a StashEntry>)
        ensures
            final(self).list() == old(self).list(),
            entry is Some <==> old(self).position() < old(self).list().len(),
            entry matches Some(e) ==> *e == old(self).list()[old(self).position()]
                && final(self).position() == old(self).position() + 1,
            entry is None ==> final(self).position() == old(self).position(),
    {
        proof {
            use_type_invariant(&*self);
        }
        let current = self.index;
        if current >= self.entries.len() {
            return None;
        }
        self.index = current + 1;
        Some(&self.entries[current])
    }
}

} // verus!
