//! Rebasing: the options of a rebase and the steps it is made of.

use crate::checkout::CheckoutOptions;
use crate::merge::MergeOptions;
use vstd::prelude::*;

verus! {

/// A rebase operation
///
/// Describes a single instruction/operation to be performed during the
/// rebase.
#[derive(Clone, Copy, Debug, PartialEq, Eq)]
pub enum RebaseOperationType {
    /// The given commit is to be cherry-picked. The client should commit the
    /// changes and continue if there are no conflicts.
    Pick,
    /// The given commit is to be cherry-picked, but the client should prompt
    /// the user to provide an updated commit message.
    Reword,
    /// The given commit is to be cherry-picked, but the client should stop to
    /// allow the user to edit the changes before committing them.
    Edit,
    /// The given commit is to be squashed into the previous commit. The commit
    /// message will be merged with the previous message.
    Squash,
    /// The given commit is to be squashed into the previous commit. The commit
    /// message from this commit will be discarded.
    Fixup,
    /// No commit will be cherry-picked. The client should run the given command
    /// and (if successful) continue.
    Exec,
}

/// A rebase operation
///
/// Describes a single instruction/operation to be performed during the
/// rebase.
#[derive(Clone, Debug, PartialEq, Eq)]
pub struct RebaseOperation {
    /// The type of rebase operation
    pub kind: Option<RebaseOperationType>,
    /// The commit ID being cherry-picked. This will be populated for all
    /// operations except those of type `Exec`.
    pub id: String,
    /// The executable the user has requested be run. This will only
    /// be populated for operations of type `Exec`.
    pub command: Option<String>,
}

/// The command that an operation of kind `kind` runs, out of what the
/// engine holds for it: only an `Exec` step has a command.
pub open spec fn command_of(kind: Option<RebaseOperationType>, command: Option<String>) -> Option<
    String,
> {
    if kind == Some(RebaseOperationType::Exec) {
        command
    } else {
        None
    }
}

impl RebaseOperation {
    /// The operation for the host, of the kind, commit id and command that
    /// the engine holds. The command is kept for an `Exec` step alone.
    pub fn from_raw(kind: Option<RebaseOperationType>, id: String, command: Option<String>) -> (operation: RebaseOperation)
        ensures
            operation.kind == kind,
            operation.id == id,
            operation.command == command_of(kind, command),
    {
        let command = match kind {
            Some(RebaseOperationType::Exec) => command,
            _ => None,
        };
        RebaseOperation { kind, id, command }
    }
}

/// Rebase options
///
/// Use to tell the rebase machinery how to operate.
#[derive(Clone, Debug, Default, PartialEq, Eq)]
pub struct RebaseOptions {
    /// This will instruct other clients working on this
    /// rebase that you want a quiet rebase experience, which they may choose to
    /// provide in an application-specific manner. This has no effect upon
    /// libgit2 directly, but is provided for interoperability between Git
    /// tools.
    pub quiet: Option<bool>,
    /// This will begin an in-memory rebase,
    /// which will allow callers to step through the rebase operations and
    /// commit the rebased changes, but will not rewind HEAD or update the
    /// repository to be in a rebasing state. This will not interfere with
    /// the working directory (if there is one).
    pub inmemory: Option<bool>,
    /// Used by `finish()`, this is the name of the notes reference
    /// used to rewrite notes for rebased commits when finishing the rebase;
    /// if NULL, the contents of the configuration option `notes.rewriteRef`
    /// is examined, unless the configuration option `notes.rewrite.rebase`
    /// is set to false. If `notes.rewriteRef` is also NULL, notes will
    /// be left as they are.
    pub rewrite_notes_ref: Option<String>,
    /// Options to control how trees are merged during `next()`.
    pub merge_options: Option<MergeOptions>,
    /// Options to control how files are written during `Repository::rebase`,
    /// `next()` and `abort()`. Note that a minimum strategy of
    /// `GIT_CHECKOUT_SAFE` is defaulted in `init` and `next`, and a minimum
    /// strategy of `GIT_CHECKOUT_FORCE` is defaulted in `abort` to match git
    /// semantics.
    pub checkout_options: Option<CheckoutOptions>,
}

} // verus!
