//! Repositories: their states, and the options of making, opening and
//! cloning them.

use crate::error::{EngineError, Error};
use crate::util::{flag_if_true, flag_when, utf8_to_string};
use vstd::prelude::*;
use vstd::utf8::{decode_utf8, valid_utf8};

verus! {

/// Available states for a repository: what it is in the middle of.
#[derive(Clone, Copy, Debug, PartialEq, Eq)]
pub enum RepositoryState {
    Clean,
    Merge,
    Revert,
    RevertSequence,
    CherryPick,
    CherryPickSequence,
    Bisect,
    Rebase,
    RebaseInteractive,
    RebaseMerge,
    ApplyMailbox,
    ApplyMailboxOrRebase,
}

/// Mode options for a new repository: who may write to it.
#[derive(Clone, Copy, Debug, PartialEq, Eq)]
pub enum RepositoryInitMode {
    /// Use permissions configured by umask (default)
    SharedUnmask,
    /// Use `--shared=group` behavior, chmod'ing the new repo to be
    /// group writable and \"g+sx\" for sticky group assignment.
    SharedGroup,
    /// Use `--shared=all` behavior, adding world readability.
    SharedAll,
}

/// Every bit that a mode of a new repository can hold.
pub const INIT_MODE_ALL: u32 = 0o2777;

impl RepositoryInitMode {
    /// The permission bits of the mode.
    pub open spec fn mode_bits(self) -> u32 {
        match self {
            RepositoryInitMode::SharedUnmask => 0u32,
            RepositoryInitMode::SharedGroup => 0o2775u32,
            RepositoryInitMode::SharedAll => 0o2777u32,
        }
    }

    /// The permission bits of the mode.
    pub fn bits(self) -> (bits: u32)
        ensures
            bits == self.mode_bits(),
            bits <= INIT_MODE_ALL,
    {
        match self {
            RepositoryInitMode::SharedUnmask => 0,
            RepositoryInitMode::SharedGroup => 0o2775,
            RepositoryInitMode::SharedAll => 0o2777,
        }
    }
}

/// The mode that the engine is given for the host's `mode`: the bits of it
/// that are bits of a mode. No others reach the engine.
pub fn init_mode(mode: u32) -> (bits: u32)
    ensures
        bits == mode & INIT_MODE_ALL,
        bits <= INIT_MODE_ALL,
{
    let bits = mode & INIT_MODE_ALL;
    assert(mode & 0o2777 <= 0o2777) by (bit_vector);
    bits
}

/// Options of making a repository. An option that is absent keeps the
/// engine's default.
#[derive(Clone, Debug, Default, PartialEq, Eq)]
pub struct RepositoryInitOptions {
    /// Create a bare repository with no working directory.
    ///
    /// Defaults to `false`.
    pub bare: Option<bool>,
    /// Return an error if the repository path appears to already be a git
    /// repository.
    ///
    /// Defaults to `false`.
    pub no_reinit: Option<bool>,
    /// Normally a '/.git/' will be appended to the repo path for non-bare repos
    /// (if it is not already there), but passing this flag prevents that
    /// behavior.
    ///
    /// Defaults to `false`.
    pub no_dotgit_dir: Option<bool>,
    /// Make the repo path (and workdir path) as needed. The ".git" directory
    /// will always be created regardless of this flag.
    ///
    /// Defaults to `true`.
    pub mkdir: Option<bool>,
    /// Make the repo path (and workdir path) as needed. The ".git" directory
    /// will always be created regardless of this flag.
    ///
    /// Defaults to `true`.
    pub mkpath: Option<bool>,
    /// Set to one of the `RepositoryInit` constants, or a custom value.
    pub mode: Option<u32>,
    /// Enable or disable using external templates.
    ///
    /// If enabled, then the `template_path` option will be queried first, then
    /// `init.templatedir` from the global config, and finally
    /// `/usr/share/git-core-templates` will be used (if it exists).
    ///
    /// Defaults to `true`.
    pub external_template: Option<bool>,
    /// When the `externalTemplate` option is set, this is the first location
    /// to check for the template directory.
    ///
    /// If this is not configured, then the default locations will be searched
    /// instead.
    pub template_path: Option<String>,
    /// The path to the working directory.
    ///
    /// If this is a relative path it will be relative to the repo path. If
    /// this is not configured, then the default locations will be searched
    /// instead.
    pub workdir_path: Option<String>,
    /// If set, this will be used to initialize the "description" file in the
    /// repository instead of using the template content.
    pub description: Option<String>,
    /// The name of the head to point HEAD at.
    ///
    /// If not configured, this will be taken from your git configuration.
    /// If this begins with `refs/` it will be used verbatim;
    /// otherwise `refs/heads/` will be prefixed.
    pub initial_head: Option<String>,
    /// If set, then after the rest of the repository initialization is
    /// completed an `origin` remote will be added pointing to this URL.
    pub origin_url: Option<String>,
}

/// Flags of opening a repository, as the engine numbers them.
pub const OPEN_NO_SEARCH: u32 = 1;
pub const OPEN_CROSS_FS: u32 = 2;
pub const OPEN_BARE: u32 = 4;
pub const OPEN_NO_DOTGIT: u32 = 8;
pub const OPEN_FROM_ENV: u32 = 16;

/// Options of opening a repository.
#[derive(Clone, Debug, Default, PartialEq, Eq)]
pub struct RepositoryOpenOptions {
    /// Only open the specified path; don't walk upward searching.
    pub no_search: Option<bool>,
    /// Search across filesystem boundaries.
    pub cross_fs: Option<bool>,
    /// Force opening as a bare repository, and defer loading its config.
    pub bare: Option<bool>,
    /// Don't try appending `/.git` to the specified repository path.
    pub no_dotgit: Option<bool>,
    /// Respect environment variables like `$GIT_DIR`.
    pub from_env: Option<bool>,
    /// Directories at which the search for a containing repository stops.
    pub ceiling_dirs: Option<Vec<String>>,
}

impl RepositoryOpenOptions {
    /// The flag word that `self` stands for.
    pub open spec fn flag_word(&self) -> u32 {
        flag_if_true(self.no_search, OPEN_NO_SEARCH) | flag_if_true(self.cross_fs, OPEN_CROSS_FS)
            | flag_if_true(self.bare, OPEN_BARE) | flag_if_true(self.no_dotgit, OPEN_NO_DOTGIT)
            | flag_if_true(self.from_env, OPEN_FROM_ENV)
    }

    /// The flag word of the opening: one flag for each option that is
    /// switched on. An option that is absent or `false` sets nothing.
    pub fn flags(&self) -> (word: u32)
        ensures
            word == self.flag_word(),
            word <= 31,
    {
        let no_search = flag_when(self.no_search, OPEN_NO_SEARCH);
        let cross_fs = flag_when(self.cross_fs, OPEN_CROSS_FS);
        let bare = flag_when(self.bare, OPEN_BARE);
        let no_dotgit = flag_when(self.no_dotgit, OPEN_NO_DOTGIT);
        let from_env = flag_when(self.from_env, OPEN_FROM_ENV);
        let word = no_search | cross_fs | bare | no_dotgit | from_env;
        assert(word <= 31) by (bit_vector)
            requires
                word == no_search | cross_fs | bare | no_dotgit | from_env,
                no_search <= 1,
                cross_fs <= 2,
                bare <= 4,
                no_dotgit <= 8,
                from_env <= 16,
        ;
        word
    }
}

/// Whether a clone with these switches goes on into the submodules. Only an
/// explicit `true` asks for it.
pub fn clones_submodules(recursive: Option<bool>) -> (recurse: bool)
    ensures
        recurse == (recursive == Some(true)),
{
    match recursive {
        Some(true) => true,
        _ => false,
    }
}

/// A signature of a commit or tag, with the data that it signs.
#[derive(Clone, Debug, PartialEq, Eq)]
pub struct ExtractedSignature {
    /// GPG signature of the commit, or empty string if no signature was found.
    pub signature: String,
    /// Signed data of commit.
    pub signed_data: String,
}

/// The engine's code for "not found".
pub const ENGINE_NOT_FOUND: i32 = -3;

/// Whether `found` holds what the engine extracted as `signature` over
/// `signed_data`.
pub open spec fn is_extract(found: ExtractedSignature, signature: Seq<u8>, signed_data: Seq<u8>) -> bool {
    &&& found.signature@ == decode_utf8(signature)
    &&& found.signed_data@ == decode_utf8(signed_data)
}

/// Reads the outcome of a signature extraction. An object without a
/// signature is no error: it yields `None`. Any other refusal of the engine
/// is handed on. What the engine extracted must be text, both parts of it.
pub fn extracted_signature(outcome: Result<(Vec<u8>, Vec<u8>), EngineError>) -> (found: Result<
    Option<ExtractedSignature>,
    Error,
>)
    ensures
        match outcome {
            Ok((signature, signed_data)) => if valid_utf8(signature@) && valid_utf8(signed_data@) {
                found matches Ok(Some(s)) && is_extract(s, signature@, signed_data@)
            } else {
                found == Err::<Option<ExtractedSignature>, Error>(Error::InvalidUtf8)
            },
            Err(e) => if e.code == ENGINE_NOT_FOUND {
                found == Ok::<Option<ExtractedSignature>, Error>(None)
            } else {
                found == Err::<Option<ExtractedSignature>, Error>(Error::Engine(e))
            },
        },
{
    match outcome {
        Ok((signature, signed_data)) => {
            let signature = match utf8_to_string(signature.as_slice()) {
                Some(s) => s,
                None => {
                    return Err(Error::InvalidUtf8);
                },
            };
            let signed_data = match utf8_to_string(signed_data.as_slice()) {
                Some(s) => s,
                None => {
                    return Err(Error::InvalidUtf8);
                },
            };
            Ok(Some(ExtractedSignature { signature, signed_data }))
        },
        Err(e) => {
            if e.code == ENGINE_NOT_FOUND {
                Ok(None)
            } else {
                Err(Error::Engine(e))
            }
        },
    }
}

} // verus!
