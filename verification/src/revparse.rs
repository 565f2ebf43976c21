//! Revision parsing: what kind of specification was parsed.

use crate::util::{bitflags_contain, contains_all};
use vstd::prelude::*;

verus! {

/// Flags of a parsed revision specification, as the engine numbers them.
pub const REVPARSE_SINGLE: u32 = 1;
pub const REVPARSE_RANGE: u32 = 2;
pub const REVPARSE_MERGE_BASE: u32 = 4;

/// Flags for the revparse.
pub struct RevparseMode;

impl RevparseMode {
    /// The spec targeted a single object
    pub fn single() -> (bits: u32)
        ensures
            bits == REVPARSE_SINGLE,
    {
        REVPARSE_SINGLE
    }

    /// The spec targeted a range of commits
    pub fn range() -> (bits: u32)
        ensures
            bits == REVPARSE_RANGE,
    {
        REVPARSE_RANGE
    }

    /// The spec used the `...` operator, which invokes special semantics.
    pub fn merge_base() -> (bits: u32)
        ensures
            bits == REVPARSE_MERGE_BASE,
    {
        REVPARSE_MERGE_BASE
    }
}

/// Check revparse mode contains specific flags.
pub fn revparse_mode_contains(source: u32, target: u32) -> (found: bool)
    ensures
        found == contains_all(source, target),
{
    bitflags_contain(source, target)
}

/// A revspec represents a range of revisions within a repository.
#[derive(Clone, Debug, PartialEq, Eq)]
pub struct Revspec {
    /// Access the `from` range of this revspec.
    pub from: Option<String>,
    /// Access the `to` range of this revspec.
    pub to: Option<String>,
    /// Returns the intent of the revspec.
    pub mode: u32,
}

} // verus!
