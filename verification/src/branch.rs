//! Branches: their kinds, and the rules for their names.

use crate::error::{EngineError, Error};
use crate::util::utf8_to_string;
use vstd::prelude::*;
use vstd::utf8::{decode_utf8, valid_utf8};

verus! {

/// What the engine makes of `name` as a branch name: whether it is
/// well-formed, or nothing where the engine cannot tell.
pub uninterp spec fn branch_name_check(name: Seq<char>) -> Option<bool>;

/// Calls `git2::Branch::name_is_valid`, whose result depends on the name
/// alone.
#[verifier::external_body]
fn engine_branch_name_is_valid(name: &str) -> (checked: Result<bool, EngineError>)
    ensures
        checked is Ok <==> branch_name_check(name@) is Some,
        checked matches Ok(valid) ==> branch_name_check(name@) == Some(valid),
{
    match git2::Branch::name_is_valid(name) {
        Ok(valid) => Ok(valid),
        Err(e) => Err(
            EngineError { code: e.raw_code(), class: e.raw_class(), message: e.message().to_string() },
        ),
    }
}

/// Ensure the branch name is well-formed.
pub fn is_valid_branch_name(name: String) -> (checked: Result<bool, Error>)
    ensures
        checked is Ok <==> branch_name_check(name@) is Some,
        checked matches Ok(valid) ==> branch_name_check(name@) == Some(valid),
        checked matches Err(e) ==> e is Engine,
{
    match engine_branch_name_is_valid(name.as_str()) {
        Ok(valid) => Ok(valid),
        Err(e) => Err(Error::Engine(e)),
    }
}

/// An enumeration for the possible types of branches.
#[derive(Clone, Copy, Debug, PartialEq, Eq)]
pub enum BranchType {
    /// A local branch not on a remote.
    Local,
    /// A branch for a remote.
    Remote,
}

/// One branch, as an iteration over branches yields it.
#[derive(Clone, Debug, PartialEq, Eq)]
pub struct BranchesItem {
    pub kind: BranchType,
    pub name: String,
}

/// Options for renaming a branch.
#[derive(Clone, Debug, Default, PartialEq, Eq)]
pub struct BranchRenameOptions {
    /// If the force flag is not enabled, and there's already a branch with
    /// the given name, the renaming will fail.
    pub force: Option<bool>,
}

/// Options for creating a branch.
#[derive(Clone, Debug, Default, PartialEq, Eq)]
pub struct CreateBranchOptions {
    /// If `force` is true and a reference already exists with the given name,
    /// it'll be replaced.
    pub force: Option<bool>,
}

/// A filter on the branches of an iteration.
#[derive(Clone, Debug, Default, PartialEq, Eq)]
pub struct BranchesFilter {
    /// Branch type to filter.
    pub kind: Option<BranchType>,
}

/// The item for a branch of kind `kind` whose name the engine gave as
/// `name`, or as nothing where it could not. There is an item exactly where
/// there is a name and the name is text.
pub fn branches_item(kind: BranchType, name: Option<&[u8]>) -> (item: Option<BranchesItem>)
    ensures
        item is Some <==> (name matches Some(bytes) && valid_utf8(bytes@)),
        item matches Some(i) ==> i.kind == kind && (name matches Some(bytes) && i.name@
            == decode_utf8(bytes@)),
{
    match name {
        Some(bytes) => match utf8_to_string(bytes) {
            Some(text) => Some(BranchesItem { kind, name: text }),
            None => None,
        },
        None => None,
    }
}

} // verus!
