//! Applying a diff: where it is applied, what a hunk looks like to the host,
//! and the adapter that asks the host whether a hunk is to be applied.

use crate::bridge::BridgeError;
use crate::error::Error;
use crate::util::utf8_to_string;
use vstd::prelude::*;
use vstd::utf8::{decode_utf8, valid_utf8};

verus! {

/// Possible application locations for git_apply
/// see <https://libgit2.org/libgit2/#HEAD/type/git_apply_options>
#[derive(Debug, Copy, Clone, PartialEq, Eq)]
pub enum ApplyLocation {
    /// Apply the patch to the workdir
    WorkDir,
    /// Apply the patch to the index
    Index,
    /// Apply the patch to both the working directory and the index
    Both,
}

/// Structure describing a hunk of a diff.
#[derive(Debug, Clone, PartialEq, Eq)]
pub struct DiffHunkData {
    /// Starting line number in old_file
    pub old_start: u32,
    /// Number of lines in old_file
    pub old_lines: u32,
    /// Starting line number in new_file
    pub new_start: u32,
    /// Number of lines in new_file
    pub new_lines: u32,
    /// Header text
    pub header: String,
}

/// A hunk as the engine hands it over: the header is bytes.
#[derive(Debug, Clone, PartialEq, Eq)]
pub struct RawHunk {
    pub old_start: u32,
    pub old_lines: u32,
    pub new_start: u32,
    pub new_lines: u32,
    pub header: Vec<u8>,
}

/// Whether `data` describes `raw`: the same numbers, and the header decoded.
pub open spec fn describes(data: DiffHunkData, raw: RawHunk) -> bool {
    &&& data.old_start == raw.old_start
    &&& data.old_lines == raw.old_lines
    &&& data.new_start == raw.new_start
    &&& data.new_lines == raw.new_lines
    &&& data.header@ == decode_utf8(raw.header@)
}

impl DiffHunkData {
    /// The hunk for the host. It exists exactly where the header is
    /// well-formed UTF-8.
    pub fn from_raw(raw: &RawHunk) -> (data: Result<DiffHunkData, Error>)
        ensures
            data is Ok <==> valid_utf8(raw.header@),
            data matches Ok(d) ==> describes(d, *raw),
            data matches Err(e) ==> e == Error::InvalidUtf8,
    {
        match utf8_to_string(raw.header.as_slice()) {
            Some(header) => Ok(
                DiffHunkData {
                    old_start: raw.old_start,
                    old_lines: raw.old_lines,
                    new_start: raw.new_start,
                    new_lines: raw.new_lines,
                    header,
                },
            ),
            None => Err(Error::InvalidUtf8),
        }
    }
}

/// Whether `sent` is what the host is shown for the engine's `hunk`: the
/// hunk's description where there is a hunk with a readable header, else
/// nothing.
pub open spec fn shows(sent: Option<DiffHunkData>, hunk: Option<RawHunk>) -> bool {
    match hunk {
        Some(raw) => if valid_utf8(raw.header@) {
            sent matches Some(d) && describes(d, raw)
        } else {
            sent is None
        },
        None => sent is None,
    }
}

/// The argument of one hunk callback.
pub fn pack_hunk(hunk: Option<&RawHunk>) -> (sent: Option<DiffHunkData>)
    ensures
        shows(
            sent,
            match hunk {
                Some(raw) => Some(*raw),
                None => None,
            },
        ),
{
    match hunk {
        Some(raw) => match DiffHunkData::from_raw(raw) {
            Ok(data) => Some(data),
            Err(_) => None,
        },
        None => None,
    }
}

/// Whether the engine is to apply the hunk, given the bridge's answer.
pub open spec fn hunk_verdict(answer: Result<bool, BridgeError>) -> bool {
    match answer {
        Ok(apply) => apply,
        Err(_) => false,
    }
}

/// Turns the bridge's answer into the engine's boolean. Where the invocation
/// failed the hunk is not applied: nobody said it should be.
pub fn hunk_sentinel(answer: Result<bool, BridgeError>) -> (apply: bool)
    ensures
        apply == hunk_verdict(answer),
{
    match answer {
        Ok(apply) => apply,
        Err(_) => false,
    }
}

/// The adapter that sits in the engine's hunk slot. `invoke` is one
/// synchronous invocation of the script function.
pub fn on_hunk<F>(invoke: F, hunk: Option<&RawHunk>) -> (apply: bool) where
    F: Fn(Option<DiffHunkData>) -> Result<bool, BridgeError>,

    requires
        forall|sent: Option<DiffHunkData>| call_requires(invoke, (sent,)),
    ensures
        exists|sent: Option<DiffHunkData>, answer: Result<bool, BridgeError>|
            shows(
                sent,
                match hunk {
                    Some(raw) => Some(*raw),
                    None => None,
                },
            ) && call_ensures(invoke, (sent,), answer) && apply == hunk_verdict(answer),
{
    let sent = pack_hunk(hunk);
    let ghost shown = sent;
    let answer = invoke(sent);
    proof {
        assert(call_ensures(invoke, (shown,), answer));
    }
    hunk_sentinel(answer)
}

} // verus!
