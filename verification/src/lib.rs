//! A verified core for a `work-on <name>` branch workflow over a
//! version-control repository.
//!
//! The repository engine itself (refs, stashes, the network) is an external
//! collaborator: all of its operations are performed by a driver outside this
//! crate. What this crate provides, fully verified, is the decision logic:
//! branch-name matching and collision-free naming, stash lookup by identity,
//! and the workflow state machine that tells the driver which repository
//! operation to perform next and what to conclude from its outcome.

pub mod errors;
pub mod laws;
pub mod names;
pub mod stash;
pub mod workflow;
