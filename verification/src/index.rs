//! The index: the data of its entries, the flags of a scan, and the adapter
//! that answers the engine's on-match callback through the bridge.

use crate::bridge::BridgeError;
use crate::error::Error;
use crate::oid::{hex_text, is_oid_text, oid_bytes, ObjectId};
use crate::time::{on_calendar, Timestamp};
use crate::util::{flag_if_true, flag_when, lossy_text, path_to_string, utf8_to_string};
use vstd::prelude::*;
use vstd::utf8::{decode_utf8, valid_utf8};

verus! {

/// What the script function of an on-match callback is called with.
#[derive(Clone, Debug, PartialEq, Eq)]
pub struct IndexOnMatchCallbackArgs {
    /// The path of entry.
    pub path: String,
    /// The patchspec that matched it.
    pub pathspec: String,
}

/// The sentinel that makes the engine abort a scan and report an error.
pub const ON_MATCH_ABORT: i32 = -1;

/// How the engine reads the number that an on-match callback returns.
#[derive(Clone, Copy, Debug, PartialEq, Eq)]
pub enum MatchAction {
    /// Zero: the entry is added, removed or updated.
    Proceed,
    /// Above zero: the entry is passed over and the scan goes on.
    Skip,
    /// Below zero: the scan ends with an error.
    Abort,
}

/// The engine's reading of `code`.
pub open spec fn action_of(code: i32) -> MatchAction {
    if code == 0 {
        MatchAction::Proceed
    } else if code > 0 {
        MatchAction::Skip
    } else {
        MatchAction::Abort
    }
}

/// Reads a sentinel as the engine does.
pub fn match_action(code: i32) -> (action: MatchAction)
    ensures
        action == action_of(code),
{
    if code == 0 {
        MatchAction::Proceed
    } else if code > 0 {
        MatchAction::Skip
    } else {
        MatchAction::Abort
    }
}

/// The number handed to the engine for what the bridge answered.
pub open spec fn on_match_code(answer: Result<i32, BridgeError>) -> i32 {
    match answer {
        Ok(code) => code,
        Err(_) => ON_MATCH_ABORT,
    }
}

/// Turns the bridge's answer into the engine's sentinel. The script's number
/// passes through as it is. A failed invocation aborts the scan: to guess
/// "add" or "skip" would change the index behind the caller's back.
pub fn on_match_sentinel(answer: Result<i32, BridgeError>) -> (code: i32)
    ensures
        code == on_match_code(answer),
        answer is Err ==> action_of(code) == MatchAction::Abort,
{
    match answer {
        Ok(code) => code,
        Err(_) => ON_MATCH_ABORT,
    }
}

/// Whether `args` are what the engine's `path` and `pathspec` pack into.
pub open spec fn packs_match(args: IndexOnMatchCallbackArgs, path: Seq<u8>, pathspec: Seq<u8>) -> bool {
    &&& args.path@ == lossy_text(path)
    &&& args.pathspec@ == decode_utf8(pathspec)
}

/// The arguments of one on-match call, or `None` where the pathspec is not
/// text: a pathspec comes from the host and is sent back to it unchanged, so
/// one that cannot be decoded is not sent at all.
pub fn pack_match(path: &[u8], pathspec: &[u8]) -> (packed: Option<IndexOnMatchCallbackArgs>)
    ensures
        packed is Some <==> valid_utf8(pathspec@),
        packed matches Some(args) ==> packs_match(args, path@, pathspec@),
{
    match utf8_to_string(pathspec) {
        Some(spec) => Some(IndexOnMatchCallbackArgs { path: path_to_string(path), pathspec: spec }),
        None => None,
    }
}

/// The adapter that sits in the engine's on-match slot. `invoke` is one
/// synchronous invocation of the script function. The engine gets the script's
/// own number where the invocation succeeded, and the abort sentinel where it
/// failed or where the pathspec could not be sent.
pub fn on_match<F>(invoke: F, path: &[u8], pathspec: &[u8]) -> (code: i32) where
    F: Fn(IndexOnMatchCallbackArgs) -> Result<i32, BridgeError>,

    requires
        forall|args: IndexOnMatchCallbackArgs| call_requires(invoke, (args,)),
    ensures
        !valid_utf8(pathspec@) ==> code == ON_MATCH_ABORT,
        valid_utf8(pathspec@) ==> exists|args: IndexOnMatchCallbackArgs, answer: Result<i32, BridgeError>|
            packs_match(args, path@, pathspec@) && call_ensures(invoke, (args,), answer) && code
                == on_match_code(answer),
{
    match pack_match(path, pathspec) {
        Some(args) => {
            let ghost sent = args;
            let answer = invoke(args);
            proof {
                assert(packs_match(sent, path@, pathspec@) && call_ensures(invoke, (sent,), answer));
            }
            on_match_sentinel(answer)
        },
        None => ON_MATCH_ABORT,
    }
}

/// Flags of an add-all scan, as the engine numbers them.
pub const INDEX_ADD_DEFAULT: u32 = 0;
pub const INDEX_ADD_FORCE: u32 = 1;
pub const INDEX_ADD_DISABLE_PATHSPEC_MATCH: u32 = 2;
pub const INDEX_ADD_CHECK_PATHSPEC: u32 = 4;

/// Options of an add-all scan.
#[derive(Clone, Debug, Default, PartialEq, Eq)]
pub struct IndexAddAllOptions {
    /// Files that are ignored will be skipped (unlike `addPath`). If a file is
    /// already tracked in the index, then it will be updated even if it is
    /// ignored. Pass the `force` flag to skip the checking of ignore rules.
    pub force: Option<bool>,
    /// Disable glob expansion of the pathspecs and force exact matching.
    pub disable_pathspec_match: Option<bool>,
    /// Fail where a pathspec names an ignored file exactly.
    pub check_pathspec: Option<bool>,
}

impl IndexAddAllOptions {
    /// The flag word that `self` stands for.
    pub open spec fn flag_word(&self) -> u32 {
        flag_if_true(self.force, INDEX_ADD_FORCE) | flag_if_true(
            self.disable_pathspec_match,
            INDEX_ADD_DISABLE_PATHSPEC_MATCH,
        ) | flag_if_true(self.check_pathspec, INDEX_ADD_CHECK_PATHSPEC)
    }

    /// The flag word of the scan: one flag for each option that is switched
    /// on. An option that is absent or `false` sets nothing.
    pub fn get_flag(&self) -> (flag: u32)
        ensures
            flag == self.flag_word(),
            flag <= 7,
    {
        let force = flag_when(self.force, INDEX_ADD_FORCE);
        let exact = flag_when(self.disable_pathspec_match, INDEX_ADD_DISABLE_PATHSPEC_MATCH);
        let check = flag_when(self.check_pathspec, INDEX_ADD_CHECK_PATHSPEC);
        let flag = force | exact | check;
        assert(flag <= 7) by (bit_vector)
            requires
                flag == force | exact | check,
                force == 0 || force == 1,
                exact == 0 || exact == 2,
                check == 0 || check == 4,
        ;
        flag
    }
}

/// - `Any` : Match any index stage.
/// - `Normal` : A normal staged file in the index.
/// - `Ancestor` : The ancestor side of a conflict.
/// - `Ours` : The "ours" side of a conflict.
/// - `Theirs` : The "theirs" side of a conflict.
#[derive(Clone, Copy, Debug, PartialEq, Eq)]
pub enum IndexStage {
    Any,
    Normal,
    Ancestor,
    Ours,
    Theirs,
}

impl IndexStage {
    /// The engine's number for the stage.
    pub open spec fn number(self) -> i32 {
        match self {
            IndexStage::Any => -1i32,
            IndexStage::Normal => 0i32,
            IndexStage::Ancestor => 1i32,
            IndexStage::Ours => 2i32,
            IndexStage::Theirs => 3i32,
        }
    }
}

impl Default for IndexStage {
    fn default() -> (stage: Self)
        ensures
            stage == IndexStage::Normal,
    {
        IndexStage::Normal
    }
}

impl From<IndexStage> for i32 {
    fn from(value: IndexStage) -> (number: i32) {
        match value {
            IndexStage::Any => -1,
            IndexStage::Normal => 0,
            IndexStage::Ancestor => 1,
            IndexStage::Ours => 2,
            IndexStage::Theirs => 3,
        }
    }
}

impl vstd::std_specs::convert::FromSpecImpl<IndexStage> for i32 {
    open spec fn obeys_from_spec() -> bool {
        true
    }

    open spec fn from_spec(value: IndexStage) -> i32 {
        value.number()
    }
}

/// Options for removing one entry.
#[derive(Clone, Debug, Default, PartialEq, Eq)]
pub struct IndexRemoveOptions {
    pub stage: Option<IndexStage>,
}

/// The stage to look a path up in where none is asked for.
pub open spec fn lookup_stage_of(stage: Option<IndexStage>) -> i32 {
    match stage {
        Some(s) => s.number(),
        None => IndexStage::Normal.number(),
    }
}

/// The stage number for a lookup by path: the one asked for, else the normal
/// stage.
pub fn lookup_stage(stage: Option<IndexStage>) -> (number: i32)
    ensures
        number == lookup_stage_of(stage),
{
    match stage {
        Some(s) => i32::from(s),
        None => i32::from(IndexStage::default()),
    }
}

/// The stage of a removal, where the options name one.
pub open spec fn removal_stage_of(options: Option<IndexRemoveOptions>) -> Option<i32> {
    match options {
        Some(o) => match o.stage {
            Some(s) => Some(s.number()),
            None => None,
        },
        None => None,
    }
}

/// Decides how an entry is removed: `Some(n)` removes the entry of stage `n`
/// alone; `None` removes the path as a file on disk would be, conflict
/// entries included.
pub fn removal_stage(options: Option<IndexRemoveOptions>) -> (stage: Option<i32>)
    ensures
        stage == removal_stage_of(options),
{
    match options {
        Some(IndexRemoveOptions { stage: Some(s) }) => Some(i32::from(s)),
        _ => None,
    }
}

/// A time of an index entry, as the engine holds it.
#[derive(Clone, Copy, Debug, PartialEq, Eq)]
pub struct IndexTime {
    pub seconds: i32,
    pub nanoseconds: u32,
}

/// An index entry, as the engine holds it.
#[derive(Clone, Debug, PartialEq, Eq)]
pub struct RawIndexEntry {
    pub ctime: IndexTime,
    pub mtime: IndexTime,
    pub dev: u32,
    pub ino: u32,
    pub mode: u32,
    pub uid: u32,
    pub gid: u32,
    pub file_size: u32,
    pub id: ObjectId,
    pub flags: u16,
    pub flags_extended: u16,
    pub path: Vec<u8>,
}

/// An index entry, as the host sees it.
#[derive(Clone, Debug, PartialEq, Eq)]
pub struct IndexEntry {
    pub ctime: Timestamp,
    pub mtime: Timestamp,
    pub dev: u32,
    pub ino: u32,
    pub mode: u32,
    pub uid: u32,
    pub gid: u32,
    pub file_size: u32,
    pub id: String,
    pub flags: u16,
    pub flags_extended: u16,
    /// The path of this index entry as a byte vector. Regardless of the
    /// current platform, the directory separator is an ASCII forward slash
    /// (`0x2F`). There are no terminating or internal NUL characters, and no
    /// trailing slashes. Most of the time, paths will be valid utf-8 — but
    /// not always.
    pub path: Vec<u8>,
}

/// Whether the calendar holds the time `t`.
pub open spec fn time_on_calendar(t: IndexTime) -> bool {
    on_calendar(t.seconds as int, t.nanoseconds as int)
}

/// Whether `entry` shows `raw`: the same numbers and path, the times as
/// points on the calendar, the id in hex.
pub open spec fn shows_entry(entry: IndexEntry, raw: RawIndexEntry) -> bool {
    &&& entry.ctime.secs() == raw.ctime.seconds
    &&& entry.ctime.nanos() == raw.ctime.nanoseconds
    &&& entry.mtime.secs() == raw.mtime.seconds
    &&& entry.mtime.nanos() == raw.mtime.nanoseconds
    &&& entry.dev == raw.dev
    &&& entry.ino == raw.ino
    &&& entry.mode == raw.mode
    &&& entry.uid == raw.uid
    &&& entry.gid == raw.gid
    &&& entry.file_size == raw.file_size
    &&& entry.id@ == hex_text(raw.id.bytes@)
    &&& entry.flags == raw.flags
    &&& entry.flags_extended == raw.flags_extended
    &&& entry.path == raw.path
}

/// Whether `raw` is what the engine is given for `entry`. Of each time the
/// engine gets the second of the minute and the nanoseconds.
pub open spec fn stores_entry(raw: RawIndexEntry, entry: IndexEntry) -> bool {
    &&& raw.ctime.seconds == entry.ctime.secs() % 60
    &&& raw.ctime.nanoseconds == entry.ctime.nanos()
    &&& raw.mtime.seconds == entry.mtime.secs() % 60
    &&& raw.mtime.nanoseconds == entry.mtime.nanos()
    &&& raw.dev == entry.dev
    &&& raw.ino == entry.ino
    &&& raw.mode == entry.mode
    &&& raw.uid == entry.uid
    &&& raw.gid == entry.gid
    &&& raw.file_size == entry.file_size
    &&& raw.id.bytes@ == oid_bytes(entry.id@)
    &&& raw.flags == entry.flags
    &&& raw.flags_extended == entry.flags_extended
    &&& raw.path == entry.path
}

impl IndexEntry {
    /// The entry for the host. It exists exactly where the calendar holds
    /// both times of the entry.
    pub fn from_raw(raw: RawIndexEntry) -> (entry: Result<IndexEntry, Error>)
        ensures
            entry is Ok <==> time_on_calendar(raw.ctime) && time_on_calendar(raw.mtime),
            entry matches Ok(e) ==> shows_entry(e, raw),
            entry matches Err(e) ==> e == Error::InvalidTime,
    {
        let ctime = match Timestamp::new(raw.ctime.seconds as i64, raw.ctime.nanoseconds) {
            Ok(t) => t,
            Err(e) => {
                return Err(e);
            },
        };
        let mtime = match Timestamp::new(raw.mtime.seconds as i64, raw.mtime.nanoseconds) {
            Ok(t) => t,
            Err(e) => {
                return Err(e);
            },
        };
        Ok(
            IndexEntry {
                ctime,
                mtime,
                dev: raw.dev,
                ino: raw.ino,
                mode: raw.mode,
                uid: raw.uid,
                gid: raw.gid,
                file_size: raw.file_size,
                id: raw.id.to_hex(),
                flags: raw.flags,
                flags_extended: raw.flags_extended,
                path: raw.path,
            },
        )
    }

    /// The entry for the engine. It exists exactly where the id is an
    /// object id in hex.
    pub fn into_raw(self) -> (raw: Result<RawIndexEntry, Error>)
        ensures
            raw is Ok <==> is_oid_text(self.id@),
            raw matches Ok(r) ==> stores_entry(r, self),
            raw matches Err(e) ==> e is Engine,
    {
        let id = match ObjectId::parse(self.id.as_str()) {
            Ok(id) => id,
            Err(e) => {
                return Err(e);
            },
        };
        Ok(
            RawIndexEntry {
                ctime: IndexTime {
                    seconds: self.ctime.second() as i32,
                    nanoseconds: self.ctime.nanoseconds(),
                },
                mtime: IndexTime {
                    seconds: self.mtime.second() as i32,
                    nanoseconds: self.mtime.nanoseconds(),
                },
                dev: self.dev,
                ino: self.ino,
                mode: self.mode,
                uid: self.uid,
                gid: self.gid,
                file_size: self.file_size,
                id,
                flags: self.flags,
                flags_extended: self.flags_extended,
                path: self.path,
            },
        )
    }
}

} // verus!
