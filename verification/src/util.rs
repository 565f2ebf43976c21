//! Small helpers shared by the other modules: text from engine bytes, and
//! tests on flag words.

use crate::error::Error;
use vstd::prelude::*;
use vstd::utf8::{decode_utf8, valid_utf8};

verus! {

/// The text that `bytes` spell when every malformed sequence in them is
/// replaced by U+FFFD.
pub uninterp spec fn lossy_text(bytes: Seq<u8>) -> Seq<char>;

/// Calls `String::from_utf8_lossy`. The result is a function of the bytes
/// alone; for well-formed UTF-8 it is the decoded text, as std documents.
#[verifier::external_body]
fn lossy_string(bytes: &[u8]) -> (text: String)
    ensures
        text@ == lossy_text(bytes@),
        valid_utf8(bytes@) ==> text@ == decode_utf8(bytes@),
{
    String::from_utf8_lossy(bytes).into_owned()
}

/// Calls `std::str::from_utf8`, which accepts exactly the well-formed UTF-8
/// byte strings and then yields the text they encode.
#[verifier::external_body]
fn strict_string(bytes: &[u8]) -> (text: Option<String>)
    ensures
        text is Some <==> valid_utf8(bytes@),
        text matches Some(s) ==> s@ == decode_utf8(bytes@),
{
    std::str::from_utf8(bytes).ok().map(|s| s.to_string())
}

/// A path of the engine as text for the host. Paths are byte strings and need
/// not be UTF-8; what cannot be decoded is replaced, never dropped.
pub fn path_to_string(path: &[u8]) -> (text: String)
    ensures
        text@ == lossy_text(path@),
        valid_utf8(path@) ==> text@ == decode_utf8(path@),
{
    lossy_string(path)
}

/// Engine bytes as text, or `None` where they are not well-formed UTF-8.
pub fn utf8_to_string(bytes: &[u8]) -> (text: Option<String>)
    ensures
        text is Some <==> valid_utf8(bytes@),
        text matches Some(s) ==> s@ == decode_utf8(bytes@),
{
    strict_string(bytes)
}

/// Whether every flag of `target` is set in `source`.
pub open spec fn contains_all(source: u32, target: u32) -> bool {
    source & target == target
}

/// Whether `source` and `target` share a flag.
pub open spec fn shares_any(source: u32, target: u32) -> bool {
    source & target != 0
}

/// Tests a flag word for a set of flags: all of them must be present. The
/// empty set is contained in every word.
pub fn bitflags_contain(source: u32, target: u32) -> (found: bool)
    ensures
        found == contains_all(source, target),
{
    source & target == target
}

/// Tests a flag word for any flag of a set. No word shares a flag with the
/// empty set.
pub fn bitflags_intersect(source: u32, target: u32) -> (found: bool)
    ensures
        found == shares_any(source, target),
{
    source & target != 0
}

/// The flag `bit` where `option` is set to `true`, and no flag otherwise.
pub open spec fn flag_if_true(option: Option<bool>, bit: u32) -> u32 {
    if option == Some(true) {
        bit
    } else {
        0
    }
}

/// The contribution of one optional switch to a flag word: its flag where
/// the switch is on, nothing where it is off or absent.
pub fn flag_when(option: Option<bool>, bit: u32) -> (flag: u32)
    ensures
        flag == flag_if_true(option, bit),
{
    match option {
        Some(true) => bit,
        _ => 0,
    }
}

/// The word `word` with the flags of `bit` switched on or off.
pub open spec fn with_flag(word: u32, bit: u32, on: bool) -> u32 {
    if on {
        word | bit
    } else {
        word & !bit
    }
}

/// Switches the flags of `bit` on or off in `word`.
pub fn set_flag(word: u32, bit: u32, on: bool) -> (changed: u32)
    ensures
        changed == with_flag(word, bit, on),
{
    if on {
        word | bit
    } else {
        word & !bit
    }
}

/// Engine bytes that have to be text: the text they encode, or the
/// invalid-UTF-8 error where they encode none.
pub fn required_text(bytes: &[u8]) -> (text: Result<String, Error>)
    ensures
        text is Ok <==> valid_utf8(bytes@),
        text matches Ok(s) ==> s@ == decode_utf8(bytes@),
        text matches Err(e) ==> e == Error::InvalidUtf8,
{
    match utf8_to_string(bytes) {
        Some(s) => Ok(s),
        None => Err(Error::InvalidUtf8),
    }
}

/// Engine bytes that may be absent but have to be text where they are
/// present.
pub fn optional_text(bytes: Option<&[u8]>) -> (text: Result<Option<String>, Error>)
    ensures
        text is Ok <==> (bytes matches Some(b) ==> valid_utf8(b@)),
        text matches Ok(t) ==> (t is Some <==> bytes is Some),
        text matches Ok(Some(s)) ==> (bytes matches Some(b) && s@ == decode_utf8(b@)),
        text matches Err(e) ==> e == Error::InvalidUtf8,
{
    match bytes {
        Some(b) => match utf8_to_string(b) {
            Some(s) => Ok(Some(s)),
            None => Err(Error::InvalidUtf8),
        },
        None => Ok(None),
    }
}

} // verus!
