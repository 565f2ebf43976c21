//! Attributes: where the engine looks an attribute up.

use crate::util::{set_flag, with_flag};
use vstd::prelude::*;

verus! {

/// Flags of an attribute lookup, as the engine numbers them. The first is
/// the empty word: it is what a lookup does when nothing else is asked for.
pub const ATTR_CHECK_FILE_THEN_INDEX: u32 = 0;
pub const ATTR_CHECK_INDEX_THEN_FILE: u32 = 1;
pub const ATTR_CHECK_INDEX_ONLY: u32 = 2;
pub const ATTR_CHECK_NO_SYSTEM: u32 = 4;

/// Options of an attribute lookup.
#[derive(Clone, Debug, Default, PartialEq, Eq)]
pub struct AttrOptions {
    /// Check the working directory, then the index.
    pub check_file_then_index: Option<bool>,
    /// Check the index, then the working directory.
    pub check_index_then_file: Option<bool>,
    /// Check the index only.
    pub check_index_only: Option<bool>,
    /// Do not use the system gitattributes file.
    pub check_no_system: Option<bool>,
}

/// The word `word` after one optional switch: its flag is put in or taken
/// out as the switch says, and left alone where the switch is absent.
pub open spec fn switched(word: u32, option: Option<bool>, bit: u32) -> u32 {
    match option {
        Some(on) => with_flag(word, bit, on),
        None => word,
    }
}

/// Applies one optional switch to a flag word.
pub fn switch(word: u32, option: Option<bool>, bit: u32) -> (changed: u32)
    ensures
        changed == switched(word, option, bit),
{
    match option {
        Some(on) => set_flag(word, bit, on),
        None => word,
    }
}

impl AttrOptions {
    /// The flag word that `self` stands for: the engine's default with each
    /// switch applied in turn.
    pub open spec fn flag_word(&self) -> u32 {
        switched(
            switched(
                switched(
                    switched(
                        ATTR_CHECK_FILE_THEN_INDEX,
                        self.check_file_then_index,
                        ATTR_CHECK_FILE_THEN_INDEX,
                    ),
                    self.check_index_then_file,
                    ATTR_CHECK_INDEX_THEN_FILE,
                ),
                self.check_index_only,
                ATTR_CHECK_INDEX_ONLY,
            ),
            self.check_no_system,
            ATTR_CHECK_NO_SYSTEM,
        )
    }

    /// The flag word of the lookup.
    pub fn flags(&self) -> (word: u32)
        ensures
            word == self.flag_word(),
    {
        let mut word = ATTR_CHECK_FILE_THEN_INDEX;
        word = switch(word, self.check_file_then_index, ATTR_CHECK_FILE_THEN_INDEX);
        word = switch(word, self.check_index_then_file, ATTR_CHECK_INDEX_THEN_FILE);
        word = switch(word, self.check_index_only, ATTR_CHECK_INDEX_ONLY);
        word = switch(word, self.check_no_system, ATTR_CHECK_NO_SYSTEM);
        word
    }
}

/// The flag word of a lookup with `options`, or the engine's default without.
pub open spec fn lookup_flag_word(options: Option<AttrOptions>) -> u32 {
    match options {
        Some(o) => o.flag_word(),
        None => ATTR_CHECK_FILE_THEN_INDEX,
    }
}

/// The flag word of a lookup.
pub fn lookup_flags(options: &Option<AttrOptions>) -> (word: u32)
    ensures
        word == lookup_flag_word(*options),
{
    match options {
        Some(o) => o.flags(),
        None => ATTR_CHECK_FILE_THEN_INDEX,
    }
}

/// A lookup can be told to pass over the system file and to read the index
/// alone, and nothing else: the word of any options has no flag beyond those
/// of the three switches that have one. The switch for "file, then index"
/// has the empty flag and changes nothing, on or off.
pub proof fn lemma_attr_flags_in_range(options: AttrOptions)
    ensures
        options.flag_word() <= 7,
        options.flag_word() == (AttrOptions {
            check_file_then_index: None,
            ..options
        }).flag_word(),
{
    let a = switched(
        ATTR_CHECK_FILE_THEN_INDEX,
        options.check_file_then_index,
        ATTR_CHECK_FILE_THEN_INDEX,
    );
    assert(0u32 | 0u32 == 0 && 0u32 & !0u32 == 0) by (bit_vector);
    assert(a == 0);
    let b = switched(a, options.check_index_then_file, ATTR_CHECK_INDEX_THEN_FILE);
    assert(0u32 | 1u32 == 1 && 0u32 & !1u32 == 0) by (bit_vector);
    assert(b <= 1);
    let c = switched(b, options.check_index_only, ATTR_CHECK_INDEX_ONLY);
    assert(b <= 1 ==> (b | 2u32) <= 3 && (b & !2u32) <= 1) by (bit_vector);
    assert(c <= 3);
    let d = switched(c, options.check_no_system, ATTR_CHECK_NO_SYSTEM);
    assert(c <= 3 ==> (c | 4u32) <= 7 && (c & !4u32) <= 3) by (bit_vector);
}

} // verus!
