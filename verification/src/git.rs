//! The working-copy state the workflow reads, and the cleanliness check.

use crate::error::WorkflowError;
use vstd::prelude::*;

verus! {

/// The operational state of a repository's working copy. Anything other
/// than `Clean` means an operation is in progress and branching is unsafe.
#[derive(Clone, Copy, Debug, PartialEq, Eq, Structural)]
pub enum RepoState {
    Clean,
    Merge,
    Revert,
    RevertSequence,
    CherryPick,
    CherryPickSequence,
    Bisect,
    Rebase,
    RebaseInteractive,
    RebaseMerge,
    ApplyMailbox,
    ApplyMailboxOrRebase,
}

/// Succeeds exactly on a clean working copy; any in-progress operation is
/// rejected before the workflow mutates anything.
pub fn is_repo_clean(state: &RepoState) -> (r: Result<bool, WorkflowError>)
    ensures
        state is Clean ==> r == Ok::<bool, WorkflowError>(true),
        !(state is Clean) ==> r == Err::<bool, WorkflowError>(WorkflowError::RepoNotClean),
{
    match state {
        RepoState::Clean => Ok(true),
        _ => Err(WorkflowError::RepoNotClean),
    }
}

} // verus!
