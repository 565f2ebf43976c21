//! References: their kinds, and the rules for their names.

use vstd::prelude::*;
use vstd::string::StringExecFns;

verus! {

/// An enumeration of all possible kinds of references.
#[derive(Clone, Copy, Debug, PartialEq, Eq)]
pub enum ReferenceType {
    /// A reference which points at an object id.
    Direct,
    /// A reference which points at another reference.
    Symbolic,
}

/// Whether the engine takes `name`, a name without a NUL character, for a
/// well-formed reference name.
pub uninterp spec fn reference_name_valid(name: Seq<char>) -> bool;

/// Calls `str::contains` with the NUL character for a pattern.
#[verifier::external_body]
fn contains_nul(text: &str) -> (found: bool)
    ensures
        found == text@.contains('\0'),
{
    text.contains('\0')
}

/// Calls `git2::Reference::is_valid_name`, whose answer depends on the name
/// alone. The engine takes names as C strings: a name with a NUL character
/// in it cannot be handed over.
#[verifier::external_body]
fn engine_reference_name_valid(name: &str) -> (valid: bool)
    requires
        !name@.contains('\0'),
    ensures
        valid == reference_name_valid(name@),
{
    git2::Reference::is_valid_name(name)
}

/// Whether `name` is a well-formed reference name: it holds no NUL
/// character, and the engine takes it for well-formed.
pub open spec fn is_reference_name(name: Seq<char>) -> bool {
    !name.contains('\0') && reference_name_valid(name)
}

/// Ensure the reference name is well-formed.
pub fn is_valid_reference_name(refname: String) -> (valid: bool)
    ensures
        valid == is_reference_name(refname@),
{
    if contains_nul(refname.as_str()) {
        false
    } else {
        engine_reference_name_valid(refname.as_str())
    }
}

/// Options for normalize reference name.
#[derive(Clone, Copy, Debug, PartialEq, Eq)]
pub enum ReferenceFormat {
    /// No particular normalization.
    Normal,
    /// Control whether one-level refname are accepted (i.e., refnames that
    /// do not contain multiple `/`-separated components). Those are
    /// expected to be written only using uppercase letters and underscore
    /// (e.g. `HEAD`, `FETCH_HEAD`).
    AllowOnelevel,
    /// Interpret the provided name as a reference pattern for a refspec (as
    /// used with remote repositories). If this option is enabled, the name
    /// is allowed to contain a single `*` in place of a full pathname
    /// components (e.g., `foo/*/bar` but not `foo/bar*`).
    RefspecPattern,
    /// Interpret the name as part of a refspec in shorthand form so the
    /// `AllowOnelevel` naming rules aren't enforced and `main` becomes a
    /// valid name.
    RefspecShorthand,
}

/// Every flag that a reference format can hold.
pub const REFERENCE_FORMAT_ALL: u32 = 7;

impl ReferenceFormat {
    /// The flag of the format, as the engine numbers it.
    pub open spec fn flag(self) -> u32 {
        match self {
            ReferenceFormat::Normal => 0u32,
            ReferenceFormat::AllowOnelevel => 1u32,
            ReferenceFormat::RefspecPattern => 2u32,
            ReferenceFormat::RefspecShorthand => 4u32,
        }
    }

    /// The flag of the format.
    pub fn bits(self) -> (bits: u32)
        ensures
            bits == self.flag(),
    {
        match self {
            ReferenceFormat::Normal => 0,
            ReferenceFormat::AllowOnelevel => 1,
            ReferenceFormat::RefspecPattern => 2,
            ReferenceFormat::RefspecShorthand => 4,
        }
    }
}

impl Default for ReferenceFormat {
    fn default() -> (format: Self)
        ensures
            format == ReferenceFormat::Normal,
    {
        ReferenceFormat::Normal
    }
}

/// What the engine makes of `name` under the format flags `format`: the
/// normalized name, or nothing where it refuses the name.
pub uninterp spec fn normalized_reference_name(name: Seq<char>, format: u32) -> Option<Seq<char>>;

/// Calls `git2::Reference::normalize_name`, whose result depends on the name
/// and the flags alone. The flags must be flags of a reference format.
#[verifier::external_body]
fn engine_normalize_name(name: &str, format: u32) -> (normal: Option<String>)
    requires
        format <= REFERENCE_FORMAT_ALL,
    ensures
        normal is Some <==> normalized_reference_name(name@, format) is Some,
        normal matches Some(s) ==> Some(s@) == normalized_reference_name(name@, format),
{
    git2::Reference::normalize_name(name, git2::ReferenceFormat::from_bits_retain(format)).ok()
}

/// The format flags that a normalization works with: those given, without
/// any bit that is no flag of a format; none where nothing is given.
pub open spec fn effective_format(format: Option<u32>) -> u32 {
    match format {
        Some(bits) => bits & REFERENCE_FORMAT_ALL,
        None => ReferenceFormat::Normal.flag(),
    }
}

/// The format flags of a normalization.
pub fn format_flags(format: Option<u32>) -> (bits: u32)
    ensures
        bits == effective_format(format),
        bits <= REFERENCE_FORMAT_ALL,
{
    match format {
        Some(bits) => {
            let kept = bits & REFERENCE_FORMAT_ALL;
            assert(bits & 7 <= 7) by (bit_vector);
            kept
        },
        None => ReferenceFormat::default().bits(),
    }
}

/// Normalize reference name and check validity.
///
/// This will normalize the reference name by collapsing runs of adjacent
/// slashes between name components into a single slash. It also validates
/// the name according to the rules of the format. The result is `None`
/// where the engine refuses the name.
pub fn normalize_reference_name(refname: String, format: Option<u32>) -> (normal: Option<String>)
    ensures
        normal is Some <==> normalized_reference_name(refname@, effective_format(format)) is Some,
        normal matches Some(s) ==> Some(s@) == normalized_reference_name(
            refname@,
            effective_format(format),
        ),
{
    engine_normalize_name(refname.as_str(), format_flags(format))
}

/// Options for renaming a reference.
#[derive(Clone, Debug, Default, PartialEq, Eq)]
pub struct RenameReferenceOptions {
    /// If the force flag is not enabled, and there's already a reference with
    /// the given name, the renaming will fail.
    pub force: Option<bool>,
    /// Message of the reflog entry that records the renaming.
    pub log_message: Option<String>,
}

/// Whether a renaming with `options` overwrites a reference of the new name.
pub open spec fn rename_forces(options: Option<RenameReferenceOptions>) -> bool {
    match options {
        Some(o) => o.force == Some(true),
        None => false,
    }
}

/// The reflog message of a renaming to `new_name` with `options`: the one
/// given, else one that names the new name.
pub open spec fn rename_message(new_name: Seq<char>, options: Option<RenameReferenceOptions>) -> Seq<
    char,
> {
    match options {
        Some(o) => match o.log_message {
            Some(message) => message@,
            None => "Renaming reference into "@ + new_name,
        },
        None => "Renaming reference into "@ + new_name,
    }
}

/// Settles how a reference is renamed: whether an existing reference of the
/// new name is overwritten, and what the reflog says.
pub fn rename_plan(new_name: &str, options: Option<RenameReferenceOptions>) -> (plan: (bool, String))
    ensures
        plan.0 == rename_forces(options),
        plan.1@ == rename_message(new_name@, options),
{
    let (force, message) = match options {
        Some(o) => (o.force, o.log_message),
        None => (None, None),
    };
    let force = match force {
        Some(f) => f,
        None => false,
    };
    let message = match message {
        Some(m) => m,
        None => String::from_str("Renaming reference into ").concat(new_name),
    };
    (force, message)
}

} // verus!
