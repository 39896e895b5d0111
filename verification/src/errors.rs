//! The errors a workflow run can abort with.

use vstd::prelude::*;

verus! {

/// Why a workflow run aborted. Every step-level failure of the repository
/// engine aborts the whole workflow; the variant records which step failed.
#[derive(Clone, Copy, PartialEq, Eq, Structural, Debug)]
pub enum WorkError {
    /// A prior merge, rebase or similar operation is still in progress.
    RepositoryNotClean,
    /// HEAD is detached or otherwise not pointing at a branch ref.
    NotOnBranch,
    /// No stash snapshot with the requested identity exists.
    StashNotFound,
    /// Reapplying the stashed changes could not be done cleanly.
    RestoreConflict,
    /// A branch of the requested name already exists.
    BranchExists,
    /// A safe checkout refused to discard unknown changes.
    CheckoutConflict,
    /// The requested branch ref does not exist.
    RefNotFound,
    /// Fetching from the remote failed.
    NetworkFailure,
    /// The engine reported a mainline relationship this workflow cannot
    /// handle (distinct from the deliberate manual-merge limitation).
    UnsupportedSyncState,
}

/// The description `describe` returns for each error.
pub open spec fn description_of(e: WorkError) -> Seq<char> {
    match e {
        WorkError::RepositoryNotClean => "the repository's state is not clean"@,
        WorkError::NotOnBranch => "HEAD is not pointing to a branch"@,
        WorkError::StashNotFound => "could not find the stash by its identity"@,
        WorkError::RestoreConflict => "the stashed changes could not be reapplied cleanly"@,
        WorkError::BranchExists => "a branch with that name already exists"@,
        WorkError::CheckoutConflict => "checkout would discard local changes"@,
        WorkError::RefNotFound => "no such branch"@,
        WorkError::NetworkFailure => "fetching from the remote failed"@,
        WorkError::UnsupportedSyncState => "unsupported merge analysis result"@,
    }
}

impl WorkError {
    /// A short human-readable description.
    pub fn describe(&self) -> (r: &'static str)
        ensures
            r@ == description_of(*self),
    {
        match self {
            WorkError::RepositoryNotClean => "the repository's state is not clean",
            WorkError::NotOnBranch => "HEAD is not pointing to a branch",
            WorkError::StashNotFound => "could not find the stash by its identity",
            WorkError::RestoreConflict => "the stashed changes could not be reapplied cleanly",
            WorkError::BranchExists => "a branch with that name already exists",
            WorkError::CheckoutConflict => "checkout would discard local changes",
            WorkError::RefNotFound => "no such branch",
            WorkError::NetworkFailure => "fetching from the remote failed",
            WorkError::UnsupportedSyncState => "unsupported merge analysis result",
        }
    }
}

} // verus!
