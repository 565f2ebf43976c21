//! Object ids: the twenty bytes that name an object, and their hex form.

use crate::error::{EngineError, Error};
use vstd::prelude::*;
use vstd::string::StringExecFns;

verus! {

/// The number of bytes of an object id.
pub const OID_BYTES: usize = 20;

/// The most hex digits that an object id is written with.
pub const OID_HEX_DIGITS: usize = 40;

/// The name of an object.
#[derive(Clone, Copy, Debug, PartialEq, Eq)]
pub struct ObjectId {
    pub bytes: [u8; 20],
}

/// The value of a hex digit, or -1 for any other character.
pub open spec fn hex_value(c: char) -> int {
    if '0' <= c <= '9' {
        c as int - '0' as int
    } else if 'a' <= c <= 'f' {
        c as int - 'a' as int + 10
    } else if 'A' <= c <= 'F' {
        c as int - 'A' as int + 10
    } else {
        -1
    }
}

/// Whether `text` is an object id in hex, in full or abbreviated: one to
/// forty hex digits and nothing else.
pub open spec fn is_oid_text(text: Seq<char>) -> bool {
    &&& 1 <= text.len() <= OID_HEX_DIGITS
    &&& forall|i: int| 0 <= i < text.len() ==> hex_value(#[trigger] text[i]) >= 0
}

/// The hex digit at `position`, where an abbreviated id is filled up with
/// zeros on the right.
pub open spec fn digit_at(text: Seq<char>, position: int) -> int {
    if 0 <= position < text.len() {
        hex_value(text[position])
    } else {
        0
    }
}

/// The bytes that the hex digits of `text` spell, two digits to a byte, the
/// high one first.
pub open spec fn oid_bytes(text: Seq<char>) -> Seq<u8> {
    Seq::new(OID_BYTES as nat, |i: int| (16 * digit_at(text, 2 * i) + digit_at(text, 2 * i + 1)) as u8)
}

/// Calls `git2::Oid::from_str`. It takes one to forty hex digits and nothing
/// else, and reads them two to a byte from the left; the bytes that an
/// abbreviated id leaves open are zero.
#[verifier::external_body]
fn engine_parse_oid(text: &str) -> (parsed: Result<ObjectId, EngineError>)
    ensures
        parsed is Ok <==> is_oid_text(text@),
        parsed matches Ok(id) ==> id.bytes@ == oid_bytes(text@),
{
    match git2::Oid::from_str(text) {
        Ok(oid) => {
            let mut bytes = [0u8; 20];
            bytes.copy_from_slice(oid.as_bytes());
            Ok(ObjectId { bytes })
        },
        Err(e) => Err(
            EngineError { code: e.raw_code(), class: e.raw_class(), message: e.message().to_string() },
        ),
    }
}

/// The lower-case hex digit of value `n`.
pub open spec fn hex_char(n: int) -> char {
    if 0 <= n < 10 {
        ('0' as int + n) as char
    } else {
        ('a' as int + n - 10) as char
    }
}

/// The hex form of `bytes`: two lower-case digits to a byte, the high one
/// first.
pub open spec fn hex_text(bytes: Seq<u8>) -> Seq<char> {
    Seq::new(
        2 * bytes.len(),
        |i: int|
            if i % 2 == 0 {
                hex_char(bytes[i / 2] as int / 16)
            } else {
                hex_char(bytes[i / 2] as int % 16)
            },
    )
}

/// The hex digit of value `n`, as a string of one character.
fn hex_digit(n: u8) -> (digit: &'static str)
    requires
        n < 16,
    ensures
        digit@ == seq![hex_char(n as int)],
{
    proof {
        reveal_strlit("0");
        reveal_strlit("1");
        reveal_strlit("2");
        reveal_strlit("3");
        reveal_strlit("4");
        reveal_strlit("5");
        reveal_strlit("6");
        reveal_strlit("7");
        reveal_strlit("8");
        reveal_strlit("9");
        reveal_strlit("a");
        reveal_strlit("b");
        reveal_strlit("c");
        reveal_strlit("d");
        reveal_strlit("e");
        reveal_strlit("f");
    }
    let digit = if n == 0 {
        "0"
    } else if n == 1 {
        "1"
    } else if n == 2 {
        "2"
    } else if n == 3 {
        "3"
    } else if n == 4 {
        "4"
    } else if n == 5 {
        "5"
    } else if n == 6 {
        "6"
    } else if n == 7 {
        "7"
    } else if n == 8 {
        "8"
    } else if n == 9 {
        "9"
    } else if n == 10 {
        "a"
    } else if n == 11 {
        "b"
    } else if n == 12 {
        "c"
    } else if n == 13 {
        "d"
    } else if n == 14 {
        "e"
    } else {
        "f"
    };
    assert(digit@ =~= seq![hex_char(n as int)]);
    digit
}

impl ObjectId {
    /// Whether this is the id of all zeros, which names no object.
    pub open spec fn zero(self) -> bool {
        forall|i: int| 0 <= i < OID_BYTES ==> self.bytes@[i] == 0
    }

    /// Reads an object id from its hex form. The text is refused, with the
    /// engine's error, unless it is one to forty hex digits.
    pub fn parse(text: &str) -> (parsed: Result<ObjectId, Error>)
        ensures
            parsed is Ok <==> is_oid_text(text@),
            parsed matches Ok(id) ==> id.bytes@ == oid_bytes(text@),
            parsed matches Err(e) ==> e is Engine,
    {
        match engine_parse_oid(text) {
            Ok(id) => Ok(id),
            Err(e) => Err(Error::Engine(e)),
        }
    }

    /// The id in hex: forty lower-case digits.
    pub fn to_hex(&self) -> (text: String)
        ensures
            text@ == hex_text(self.bytes@),
    {
        let mut text = String::new();
        let mut i: usize = 0;
        while i < OID_BYTES
            invariant
                i <= OID_BYTES,
                text@ == hex_text(self.bytes@.take(i as int)),
            decreases OID_BYTES - i,
        {
            let byte = self.bytes[i];
            text.append(hex_digit(byte / 16));
            text.append(hex_digit(byte % 16));
            assert(text@ =~= hex_text(self.bytes@.take(i + 1)));
            i += 1;
        }
        assert(self.bytes@.take(OID_BYTES as int) =~= self.bytes@);
        text
    }

    /// Whether this is the id of all zeros.
    pub fn is_zero(&self) -> (zero: bool)
        ensures
            zero == self.zero(),
    {
        let mut i: usize = 0;
        while i < OID_BYTES
            invariant
                i <= OID_BYTES,
                forall|j: int| 0 <= j < i ==> self.bytes@[j] == 0,
            decreases OID_BYTES - i,
        {
            if self.bytes[i] != 0 {
                return false;
            }
            i += 1;
        }
        true
    }
}

/// Whether every text of `texts` is an object id in hex.
pub open spec fn all_oid_texts(texts: Seq<String>) -> bool {
    forall|i: int| 0 <= i < texts.len() ==> is_oid_text(#[trigger] texts[i]@)
}

/// Reads a list of object ids. All of them must be well-formed: the first
/// that is not ends the reading with the engine's error for it.
pub fn into_oids(texts: &Vec<String>) -> (parsed: Result<Vec<ObjectId>, Error>)
    ensures
        parsed is Ok <==> all_oid_texts(texts@),
        parsed matches Ok(ids) ==> ids.len() == texts.len() && forall|i: int|
            0 <= i < ids.len() ==> (#[trigger] ids[i]).bytes@ == oid_bytes(texts[i]@),
        parsed matches Err(e) ==> e is Engine,
{
    let mut oids: Vec<ObjectId> = Vec::new();
    let mut i: usize = 0;
    while i < texts.len()
        invariant
            i <= texts.len(),
            oids.len() == i,
            forall|j: int| 0 <= j < i ==> is_oid_text(#[trigger] texts[j]@),
            forall|j: int| 0 <= j < i ==> (#[trigger] oids[j]).bytes@ == oid_bytes(texts[j]@),
        decreases texts.len() - i,
    {
        match ObjectId::parse(texts[i].as_str()) {
            Ok(id) => {
                oids.push(id);
            },
            Err(e) => {
                return Err(e);
            },
        }
        i += 1;
    }
    Ok(oids)
}

/// The hex form of an id is read back as the same id: writing and reading
/// lose nothing.
pub proof fn lemma_hex_round_trip(bytes: Seq<u8>)
    requires
        bytes.len() == OID_BYTES,
    ensures
        is_oid_text(hex_text(bytes)),
        oid_bytes(hex_text(bytes)) == bytes,
{
    let text = hex_text(bytes);
    assert forall|i: int| 0 <= i < text.len() implies hex_value(#[trigger] text[i]) >= 0 by {
        lemma_hex_char_value(bytes[i / 2] as int / 16);
        lemma_hex_char_value(bytes[i / 2] as int % 16);
    }
    assert forall|i: int| 0 <= i < OID_BYTES implies oid_bytes(text)[i] == bytes[i] by {
        lemma_hex_char_value(bytes[i] as int / 16);
        lemma_hex_char_value(bytes[i] as int % 16);
        assert((2 * i) / 2 == i && (2 * i) % 2 == 0);
        assert((2 * i + 1) / 2 == i && (2 * i + 1) % 2 == 1);
        assert(digit_at(text, 2 * i) == bytes[i] as int / 16);
        assert(digit_at(text, 2 * i + 1) == bytes[i] as int % 16);
    }
    assert(oid_bytes(text) =~= bytes);
}

/// A hex digit has the value that it was made of.
pub proof fn lemma_hex_char_value(n: int)
    requires
        0 <= n < 16,
    ensures
        hex_value(hex_char(n)) == n,
{
}

} // verus!
