//! The `work-on` workflow state machine.
//!
//! The machine never touches a repository itself. A driver performs each
//! requested [`Action`] against the real repository engine and feeds the
//! outcome back as an [`Event`]; [`State::step`] decides what happens next.
//! Every step-level failure aborts the whole run; the one designed
//! exception is a diverged mainline, which ends the run successfully with
//! manual-recovery instructions instead.

use vstd::prelude::*;

verus! {

use crate::errors::WorkError;
use crate::names::{candidate_name, find_available, first_free, matches_target};
use crate::stash::{find_stash_index, StashId};
use vstd::string::StringExecFns;

/// A commit identity: the engine's 160-bit object id as plain integers.
#[derive(Clone, Copy, PartialEq, Eq, Structural, Debug)]
pub struct CommitId {
    pub hi: u128,
    pub lo: u32,
}

/// Whether a prior repository operation (merge, rebase, ...) is mid-flight.
#[derive(Clone, Copy, PartialEq, Eq, Structural, Debug)]
pub enum OpState {
    Clean,
    InProgress,
}

/// How the local mainline tip relates to the fetched remote tip.
#[derive(Clone, Copy, PartialEq, Eq, Structural, Debug)]
pub enum SyncClass {
    /// The local mainline already holds the remote tip.
    UpToDate,
    /// The remote tip is a descendant of the local tip.
    FastForward,
    /// The tips have diverged; a real merge would be needed.
    Diverged,
    /// Any relationship the engine reports that is none of the above.
    Unsupported,
}

/// A repository operation the driver must perform next.
#[derive(Clone, PartialEq, Eq, Debug)]
pub enum Action {
    /// Report whether a merge, rebase or similar operation is mid-flight.
    QueryOperationState,
    /// Report the branch HEAD points at.
    QueryCurrentBranch,
    /// List the names of the local branches.
    QueryBranchNames,
    /// Report whether any tracked path carries uncommitted changes.
    QueryChanges,
    /// Save the uncommitted changes to a stash snapshot and report its
    /// identity.
    SaveStash,
    /// Safe-checkout the mainline branch.
    CheckoutMainline,
    /// Fetch the remote mainline and classify local against remote tip.
    FetchAndClassify,
    /// Safe-checkout the tree of the fetched remote commit, leaving all
    /// refs untouched.
    CheckoutRemoteTree(CommitId),
    /// Advance the local mainline ref and HEAD to the fetched commit.
    AdvanceRefs(CommitId),
    /// Create a branch of this name at the current HEAD commit.
    CreateBranch(String),
    /// Safe-checkout the named branch.
    CheckoutBranch(String),
    /// List the identities of the existing stash snapshots, in order.
    QueryStashes,
    /// Pop the stash entry at this index onto the working tree.
    RestoreStash(usize),
}

/// What the driver reports back after performing an action.
#[derive(Clone, PartialEq, Eq, Debug)]
pub enum Event {
    /// Answer to `QueryOperationState`.
    OperationState(OpState),
    /// Answer to `QueryCurrentBranch`: the current branch name.
    CurrentBranch(String),
    /// Answer to `QueryBranchNames`.
    BranchNames(Vec<String>),
    /// Answer to `QueryChanges`.
    Changes(bool),
    /// Answer to `SaveStash`: the identity of the new snapshot.
    StashSaved(StashId),
    /// Answer to `FetchAndClassify`: the classification and the fetched
    /// remote tip commit.
    Classified(SyncClass, CommitId),
    /// Answer to `QueryStashes`.
    StashList(Vec<StashId>),
    /// The requested action completed with nothing to report.
    Performed,
    /// The requested action failed.
    Failed(WorkError),
}

/// The waiting states of a run: each names the action whose event the
/// machine expects next and carries what later steps still need.
#[derive(Clone, PartialEq, Eq, Debug)]
pub enum State {
    AwaitOpState { name: String },
    AwaitBranch { name: String },
    AwaitBranchNames { name: String },
    AwaitChanges { target: String },
    AwaitStashSave { target: String },
    AwaitMainlineCheckout { target: String, stash: Option<StashId> },
    AwaitSync { target: String, stash: Option<StashId> },
    AwaitRemoteTreeCheckout { target: String, stash: Option<StashId>, remote: CommitId },
    AwaitAdvance { target: String, stash: Option<StashId>, remote: CommitId },
    AwaitBranchCreate { target: String, stash: Option<StashId> },
    AwaitFeatureCheckout { target: String, stash: Option<StashId> },
    AwaitStashList { target: String, id: StashId },
    AwaitRestore { target: String, id: StashId },
}

/// How a run ends when it does not abort.
#[derive(Clone, PartialEq, Eq, Debug)]
pub enum Outcome {
    /// The working tree ended on the fresh feature branch `target`, synced
    /// with the remote mainline, with any stashed changes restored.
    Completed { target: String },
    /// The current branch already named the feature: nothing was touched.
    AlreadyOnTarget { branch: String },
    /// The mainlines diverged. The run stops on the mainline; the stash,
    /// if one was taken, stays saved; the operator follows `instructions`.
    ManualMergeRequired { target: String, stash: Option<StashId>, instructions: Vec<String> },
}

/// The result of one step of the machine.
#[derive(Clone, PartialEq, Eq, Debug)]
pub enum Step {
    /// The run continues: the driver performs `1` and feeds the resulting
    /// event to `0`.
    Next(State, Action),
    /// The run finished.
    Stop(Outcome),
    /// The run aborted. The stash, if one was taken, stays saved (it is
    /// never restored onto an unknown state) and is reported here.
    Abort { error: WorkError, stash: Option<StashId> },
}

/// The stash identity a state still holds, if changes were stashed.
pub open spec fn stash_of(s: State) -> Option<StashId> {
    match s {
        State::AwaitOpState { .. } => None,
        State::AwaitBranch { .. } => None,
        State::AwaitBranchNames { .. } => None,
        State::AwaitChanges { .. } => None,
        State::AwaitStashSave { .. } => None,
        State::AwaitMainlineCheckout { stash, .. } => stash,
        State::AwaitSync { stash, .. } => stash,
        State::AwaitRemoteTreeCheckout { stash, .. } => stash,
        State::AwaitAdvance { stash, .. } => stash,
        State::AwaitBranchCreate { stash, .. } => stash,
        State::AwaitFeatureCheckout { stash, .. } => stash,
        State::AwaitStashList { id, .. } => Some(id),
        State::AwaitRestore { id, .. } => Some(id),
    }
}

/// `event` is a well-formed answer to the action `state` is waiting on.
/// A `Failed` event is accepted everywhere: any step may fail.
pub open spec fn accepts(s: State, e: Event) -> bool {
    match e {
        Event::Failed(_) => true,
        Event::OperationState(_) => s is AwaitOpState,
        Event::CurrentBranch(_) => s is AwaitBranch,
        Event::BranchNames(list) => s is AwaitBranchNames && list@.len() + 2 <= usize::MAX,
        Event::Changes(_) => s is AwaitChanges,
        Event::StashSaved(_) => s is AwaitStashSave,
        Event::Classified(_, _) => s is AwaitSync,
        Event::StashList(_) => s is AwaitStashList,
        Event::Performed => {
            ||| s is AwaitMainlineCheckout
            ||| s is AwaitRemoteTreeCheckout
            ||| s is AwaitAdvance
            ||| s is AwaitBranchCreate
            ||| s is AwaitFeatureCheckout
            ||| s is AwaitRestore
        },
    }
}

/// The five manual-recovery commands for a diverged mainline: merge the
/// remote mainline, resolve, commit, create and switch to the feature
/// branch by its computed name, and pop the stash.
pub open spec fn manual_merge_lines(lines: Seq<String>, target: Seq<char>) -> bool {
    &&& lines.len() == 5
    &&& lines[0]@ == "git merge origin/master"@
    &&& lines[1]@ == "git mergetool"@
    &&& lines[2]@ == "git commit -a -m 'Merged changes'"@
    &&& lines[3]@ == "git checkout -b "@ + target
    &&& lines[4]@ == "git stash pop"@
}

/// Builds the manual-recovery commands for the feature branch `target`.
pub fn manual_merge_instructions(target: &String) -> (r: Vec<String>)
    ensures
        manual_merge_lines(r@, target@),
{
    let mut v: Vec<String> = Vec::new();
    v.push(String::from_str("git merge origin/master"));
    v.push(String::from_str("git mergetool"));
    v.push(String::from_str("git commit -a -m 'Merged changes'"));
    let mut co = String::from_str("git checkout -b ");
    co.append(target.as_str());
    v.push(co);
    v.push(String::from_str("git stash pop"));
    v
}

/// The transition relation of the machine: `step_rel(pre, event, post)`
/// holds exactly when feeding `event` to a machine in `pre` may yield
/// `post`. It pins every transition the workflow makes:
/// an operation in progress aborts before anything is touched; a current
/// branch that already names the feature ends the run untouched; the
/// target name is the first free candidate, fixed before any mutation;
/// changes are stashed only if present; refs are advanced only to the
/// fetched remote commit, and only after its tree checked out safely; a
/// diverged mainline ends the run with the recovery instructions, the
/// branch not created and the stash not restored; the restore targets the
/// snapshot with the saved identity, never a position; and any failure
/// aborts with the stash left saved.
pub open spec fn step_rel(pre: State, event: Event, post: Step) -> bool {
    match (pre, event) {
        (s, Event::Failed(e)) => post == (Step::Abort { error: e, stash: stash_of(s) }),
        (State::AwaitOpState { name }, Event::OperationState(op)) => {
            if op == OpState::Clean {
                post == Step::Next(State::AwaitBranch { name }, Action::QueryCurrentBranch)
            } else {
                post == (Step::Abort { error: WorkError::RepositoryNotClean, stash: None })
            }
        },
        (State::AwaitBranch { name }, Event::CurrentBranch(b)) => {
            if matches_target(b@, name@) {
                post == Step::Stop(Outcome::AlreadyOnTarget { branch: b })
            } else {
                post == Step::Next(State::AwaitBranchNames { name }, Action::QueryBranchNames)
            }
        },
        (State::AwaitBranchNames { name }, Event::BranchNames(list)) => {
            match post {
                Step::Next(st, act) => {
                    &&& act == Action::QueryChanges
                    &&& st matches State::AwaitChanges { target }
                    &&& exists|i: nat|
                        i <= list@.len() + 1 && first_free(list@, name@, i) && target@
                            == candidate_name(name@, i)
                },
                _ => false,
            }
        },
        (State::AwaitChanges { target }, Event::Changes(ch)) => {
            if ch {
                post == Step::Next(State::AwaitStashSave { target }, Action::SaveStash)
            } else {
                post == Step::Next(
                    State::AwaitMainlineCheckout { target, stash: None },
                    Action::CheckoutMainline,
                )
            }
        },
        (State::AwaitStashSave { target }, Event::StashSaved(id)) => {
            post == Step::Next(
                State::AwaitMainlineCheckout { target, stash: Some(id) },
                Action::CheckoutMainline,
            )
        },
        (State::AwaitMainlineCheckout { target, stash }, Event::Performed) => {
            post == Step::Next(State::AwaitSync { target, stash }, Action::FetchAndClassify)
        },
        (State::AwaitSync { target, stash }, Event::Classified(class, remote)) => {
            match class {
                SyncClass::UpToDate => post == Step::Next(
                    State::AwaitBranchCreate { target, stash },
                    Action::CreateBranch(target),
                ),
                SyncClass::FastForward => post == Step::Next(
                    State::AwaitRemoteTreeCheckout { target, stash, remote },
                    Action::CheckoutRemoteTree(remote),
                ),
                SyncClass::Diverged => match post {
                    Step::Stop(o) => {
                        &&& o matches Outcome::ManualMergeRequired {
                            target: t,
                            stash: st,
                            instructions,
                        }
                        &&& t == target
                        &&& st == stash
                        &&& manual_merge_lines(instructions@, target@)
                    },
                    _ => false,
                },
                SyncClass::Unsupported => post == (Step::Abort {
                    error: WorkError::UnsupportedSyncState,
                    stash,
                }),
            }
        },
        (State::AwaitRemoteTreeCheckout { target, stash, remote }, Event::Performed) => {
            post == Step::Next(
                State::AwaitAdvance { target, stash, remote },
                Action::AdvanceRefs(remote),
            )
        },
        (State::AwaitAdvance { target, stash, remote: _ }, Event::Performed) => {
            post == Step::Next(
                State::AwaitBranchCreate { target, stash },
                Action::CreateBranch(target),
            )
        },
        (State::AwaitBranchCreate { target, stash }, Event::Performed) => {
            post == Step::Next(
                State::AwaitFeatureCheckout { target, stash },
                Action::CheckoutBranch(target),
            )
        },
        (State::AwaitFeatureCheckout { target, stash }, Event::Performed) => {
            match stash {
                Some(id) => post == Step::Next(
                    State::AwaitStashList { target, id },
                    Action::QueryStashes,
                ),
                None => post == Step::Stop(Outcome::Completed { target }),
            }
        },
        (State::AwaitStashList { target, id }, Event::StashList(list)) => {
            match post {
                Step::Next(st, act) => {
                    &&& st == (State::AwaitRestore { target, id })
                    &&& act matches Action::RestoreStash(k)
                    &&& k < list@.len()
                    &&& list@[k as int] == id
                    &&& forall|j: int| 0 <= j < k ==> list@[j] != id
                },
                Step::Abort { error, stash } => {
                    &&& error == WorkError::StashNotFound
                    &&& stash == Some(id)
                    &&& forall|j: int| 0 <= j < list@.len() ==> list@[j] != id
                },
                _ => false,
            }
        },
        (State::AwaitRestore { target, id: _ }, Event::Performed) => {
            post == Step::Stop(Outcome::Completed { target })
        },
        _ => false,
    }
}

/// Begins a `work-on` run for the feature `name`. The driver performs the
/// returned action against the repository and feeds the resulting event to
/// [`State::step`], repeating until the machine stops or aborts.
pub fn work_on_start(name: String) -> (r: (State, Action))
    ensures
        r.0 == (State::AwaitOpState { name }),
        r.1 == Action::QueryOperationState,
{
    (State::AwaitOpState { name }, Action::QueryOperationState)
}

impl State {
    /// The stash identity this state still holds, if changes were stashed.
    pub fn stash_context(&self) -> (r: Option<StashId>)
        ensures
            r == stash_of(*self),
    {
        match self {
            State::AwaitOpState { .. } => None,
            State::AwaitBranch { .. } => None,
            State::AwaitBranchNames { .. } => None,
            State::AwaitChanges { .. } => None,
            State::AwaitStashSave { .. } => None,
            State::AwaitMainlineCheckout { stash, .. } => *stash,
            State::AwaitSync { stash, .. } => *stash,
            State::AwaitRemoteTreeCheckout { stash, .. } => *stash,
            State::AwaitAdvance { stash, .. } => *stash,
            State::AwaitBranchCreate { stash, .. } => *stash,
            State::AwaitFeatureCheckout { stash, .. } => *stash,
            State::AwaitStashList { id, .. } => Some(*id),
            State::AwaitRestore { id, .. } => Some(*id),
        }
    }

    /// One step of the workflow: consumes the event the driver reported
    /// for the pending action and decides what happens next.
    pub fn step(self, event: Event) -> (r: Step)
        requires
            accepts(self, event),
        ensures
            step_rel(self, event, r),
    {
        match (self, event) {
            (s, Event::Failed(e)) => {
                let stash = s.stash_context();
                Step::Abort { error: e, stash }
            },
            (State::AwaitOpState { name }, Event::OperationState(op)) => {
                if op == OpState::Clean {
                    Step::Next(State::AwaitBranch { name }, Action::QueryCurrentBranch)
                } else {
                    Step::Abort { error: WorkError::RepositoryNotClean, stash: None }
                }
            },
            (State::AwaitBranch { name }, Event::CurrentBranch(b)) => {
                if crate::names::branch_matches(b.as_str(), name.as_str()) {
                    Step::Stop(Outcome::AlreadyOnTarget { branch: b })
                } else {
                    Step::Next(State::AwaitBranchNames { name }, Action::QueryBranchNames)
                }
            },
            (State::AwaitBranchNames { name }, Event::BranchNames(list)) => {
                let target = find_available(&list, &name);
                Step::Next(State::AwaitChanges { target }, Action::QueryChanges)
            },
            (State::AwaitChanges { target }, Event::Changes(ch)) => {
                if ch {
                    Step::Next(State::AwaitStashSave { target }, Action::SaveStash)
                } else {
                    Step::Next(
                        State::AwaitMainlineCheckout { target, stash: None },
                        Action::CheckoutMainline,
                    )
                }
            },
            (State::AwaitStashSave { target }, Event::StashSaved(id)) => Step::Next(
                State::AwaitMainlineCheckout { target, stash: Some(id) },
                Action::CheckoutMainline,
            ),
            (State::AwaitMainlineCheckout { target, stash }, Event::Performed) => Step::Next(
                State::AwaitSync { target, stash },
                Action::FetchAndClassify,
            ),
            (State::AwaitSync { target, stash }, Event::Classified(class, remote)) => {
                match class {
                    SyncClass::UpToDate => {
                        let branch_action = Action::CreateBranch(target.clone());
                        Step::Next(State::AwaitBranchCreate { target, stash }, branch_action)
                    },
                    SyncClass::FastForward => Step::Next(
                        State::AwaitRemoteTreeCheckout { target, stash, remote },
                        Action::CheckoutRemoteTree(remote),
                    ),
                    SyncClass::Diverged => {
                        let instructions = manual_merge_instructions(&target);
                        Step::Stop(Outcome::ManualMergeRequired { target, stash, instructions })
                    },
                    SyncClass::Unsupported => Step::Abort {
                        error: WorkError::UnsupportedSyncState,
                        stash,
                    },
                }
            },
            (State::AwaitRemoteTreeCheckout { target, stash, remote }, Event::Performed) => {
                Step::Next(State::AwaitAdvance { target, stash, remote }, Action::AdvanceRefs(remote))
            },
            (State::AwaitAdvance { target, stash, remote: _ }, Event::Performed) => {
                let branch_action = Action::CreateBranch(target.clone());
                Step::Next(State::AwaitBranchCreate { target, stash }, branch_action)
            },
            (State::AwaitBranchCreate { target, stash }, Event::Performed) => {
                let checkout_action = Action::CheckoutBranch(target.clone());
                Step::Next(State::AwaitFeatureCheckout { target, stash }, checkout_action)
            },
            (State::AwaitFeatureCheckout { target, stash }, Event::Performed) => match stash {
                Some(id) => Step::Next(
                    State::AwaitStashList { target, id },
                    Action::QueryStashes,
                ),
                None => Step::Stop(Outcome::Completed { target }),
            },
            (State::AwaitStashList { target, id }, Event::StashList(list)) => {
                match find_stash_index(&list, id) {
                    Some(k) => Step::Next(
                        State::AwaitRestore { target, id },
                        Action::RestoreStash(k),
                    ),
                    None => Step::Abort { error: WorkError::StashNotFound, stash: Some(id) },
                }
            },
            (State::AwaitRestore { target, id: _ }, Event::Performed) => Step::Stop(
                Outcome::Completed { target },
            ),
            // No other pairing answers a pending action: the `accepts`
            // precondition rules them all out.
            _ => {
                proof {
                    assert(false);
                }
                Step::Abort { error: WorkError::RepositoryNotClean, stash: None }
            },
        }
    }
}

} // verus!
