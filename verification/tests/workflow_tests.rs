use gut::errors::WorkError;
use gut::stash::StashId;
use gut::workflow::{
    work_on_start, Action, CommitId, Event, OpState, Outcome, State, Step, SyncClass,
};

fn sid(n: u32) -> StashId {
    StashId { hi: n as u128, lo: n }
}

fn cid(n: u32) -> CommitId {
    CommitId { hi: n as u128, lo: n }
}

/// Runs the machine: `start`, then one `step` per event, and returns the
/// actions requested along the way and the final step.
fn drive(name: &str, events: Vec<Event>) -> (Vec<Action>, Step) {
    let (mut state, first) = work_on_start(String::from(name));
    let mut actions = vec![first];
    let mut events = events;
    let n = events.len();
    for (i, ev) in events.drain(..).enumerate() {
        match state.step(ev) {
            Step::Next(st, act) => {
                actions.push(act.clone());
                state = st;
            }
            done => {
                assert_eq!(i, n - 1, "machine stopped before all events were consumed");
                return (actions, done);
            }
        }
    }
    panic!("machine did not stop");
}

#[test]
fn unclean_repository_aborts_before_touching_anything() {
    let (actions, last) = drive(
        "feature",
        vec![Event::OperationState(OpState::InProgress)],
    );
    assert_eq!(actions, vec![Action::QueryOperationState]);
    assert_eq!(
        last,
        Step::Abort { error: WorkError::RepositoryNotClean, stash: None }
    );
}

#[test]
fn matching_branch_is_a_no_op() {
    let (actions, last) = drive(
        "feature",
        vec![
            Event::OperationState(OpState::Clean),
            Event::CurrentBranch(String::from("feature-w3")),
        ],
    );
    assert_eq!(
        actions,
        vec![Action::QueryOperationState, Action::QueryCurrentBranch]
    );
    assert_eq!(
        last,
        Step::Stop(Outcome::AlreadyOnTarget { branch: String::from("feature-w3") })
    );
}

#[test]
fn exactly_matching_branch_is_a_no_op() {
    let (_, last) = drive(
        "feature",
        vec![
            Event::OperationState(OpState::Clean),
            Event::CurrentBranch(String::from("feature")),
        ],
    );
    assert_eq!(
        last,
        Step::Stop(Outcome::AlreadyOnTarget { branch: String::from("feature") })
    );
}

#[test]
fn fast_forward_scenario_creates_branch_from_remote_tip() {
    // Local mainline at commit A, remote at descendant commit B, on branch
    // "topic" with no uncommitted changes: checkout mainline, fast-forward
    // to B, create "feature" from B, check it out, done.
    let b = cid(0xb);
    let (actions, last) = drive(
        "feature",
        vec![
            Event::OperationState(OpState::Clean),
            Event::CurrentBranch(String::from("topic")),
            Event::BranchNames(vec![String::from("master"), String::from("topic")]),
            Event::Changes(false),
            Event::Performed,
            Event::Classified(SyncClass::FastForward, b),
            Event::Performed,
            Event::Performed,
            Event::Performed,
            Event::Performed,
        ],
    );
    assert_eq!(
        actions,
        vec![
            Action::QueryOperationState,
            Action::QueryCurrentBranch,
            Action::QueryBranchNames,
            Action::QueryChanges,
            Action::CheckoutMainline,
            Action::FetchAndClassify,
            Action::CheckoutRemoteTree(b),
            Action::AdvanceRefs(b),
            Action::CreateBranch(String::from("feature")),
            Action::CheckoutBranch(String::from("feature")),
        ]
    );
    assert_eq!(
        last,
        Step::Stop(Outcome::Completed { target: String::from("feature") })
    );
}

#[test]
fn up_to_date_scenario_with_stash_round_trip() {
    let id = sid(7);
    let (actions, last) = drive(
        "feature",
        vec![
            Event::OperationState(OpState::Clean),
            Event::CurrentBranch(String::from("topic")),
            Event::BranchNames(vec![String::from("master")]),
            Event::Changes(true),
            Event::StashSaved(id),
            Event::Performed,
            Event::Classified(SyncClass::UpToDate, cid(1)),
            Event::Performed,
            Event::Performed,
            // Another stash was created in between: the machine must pick
            // the saved identity by value, not the most recent entry.
            Event::StashList(vec![sid(9), id, sid(3)]),
            Event::Performed,
        ],
    );
    assert_eq!(
        actions,
        vec![
            Action::QueryOperationState,
            Action::QueryCurrentBranch,
            Action::QueryBranchNames,
            Action::QueryChanges,
            Action::SaveStash,
            Action::CheckoutMainline,
            Action::FetchAndClassify,
            Action::CreateBranch(String::from("feature")),
            Action::CheckoutBranch(String::from("feature")),
            Action::QueryStashes,
            Action::RestoreStash(1),
        ]
    );
    assert_eq!(
        last,
        Step::Stop(Outcome::Completed { target: String::from("feature") })
    );
}

#[test]
fn colliding_names_probe_to_next_free_candidate() {
    let (actions, _) = drive(
        "base",
        vec![
            Event::OperationState(OpState::Clean),
            Event::CurrentBranch(String::from("other")),
            Event::BranchNames(vec![String::from("base"), String::from("base-w1")]),
            Event::Changes(false),
            Event::Performed,
            Event::Classified(SyncClass::UpToDate, cid(1)),
            Event::Performed,
            Event::Performed,
        ],
    );
    assert_eq!(actions[6], Action::CreateBranch(String::from("base-w2")));
    assert_eq!(actions[7], Action::CheckoutBranch(String::from("base-w2")));
}

#[test]
fn diverged_mainline_stops_with_the_five_recovery_commands() {
    let id = sid(4);
    let (actions, last) = drive(
        "feature",
        vec![
            Event::OperationState(OpState::Clean),
            Event::CurrentBranch(String::from("topic")),
            Event::BranchNames(vec![String::from("feature"), String::from("master")]),
            Event::Changes(true),
            Event::StashSaved(id),
            Event::Performed,
            Event::Classified(SyncClass::Diverged, cid(2)),
        ],
    );
    // No branch creation, no restore was ever requested.
    for a in &actions {
        assert!(!matches!(a, Action::CreateBranch(_)));
        assert!(!matches!(a, Action::RestoreStash(_)));
    }
    match last {
        Step::Stop(Outcome::ManualMergeRequired { target, stash, instructions }) => {
            assert_eq!(target, "feature-w1");
            assert_eq!(stash, Some(id));
            assert_eq!(
                instructions,
                vec![
                    String::from("git merge origin/master"),
                    String::from("git mergetool"),
                    String::from("git commit -a -m 'Merged changes'"),
                    String::from("git checkout -b feature-w1"),
                    String::from("git stash pop"),
                ]
            );
        }
        other => panic!("expected manual-merge outcome, got {:?}", other),
    }
}

#[test]
fn unsupported_classification_aborts() {
    let (_, last) = drive(
        "feature",
        vec![
            Event::OperationState(OpState::Clean),
            Event::CurrentBranch(String::from("topic")),
            Event::BranchNames(vec![]),
            Event::Changes(false),
            Event::Performed,
            Event::Classified(SyncClass::Unsupported, cid(2)),
        ],
    );
    assert_eq!(
        last,
        Step::Abort { error: WorkError::UnsupportedSyncState, stash: None }
    );
}

#[test]
fn network_failure_aborts_and_reports_the_stash_still_saved() {
    let id = sid(11);
    let (_, last) = drive(
        "feature",
        vec![
            Event::OperationState(OpState::Clean),
            Event::CurrentBranch(String::from("topic")),
            Event::BranchNames(vec![]),
            Event::Changes(true),
            Event::StashSaved(id),
            Event::Performed,
            Event::Failed(WorkError::NetworkFailure),
        ],
    );
    assert_eq!(
        last,
        Step::Abort { error: WorkError::NetworkFailure, stash: Some(id) }
    );
}

#[test]
fn missing_stash_identity_aborts_with_stash_not_found() {
    let id = sid(5);
    let (_, last) = drive(
        "feature",
        vec![
            Event::OperationState(OpState::Clean),
            Event::CurrentBranch(String::from("topic")),
            Event::BranchNames(vec![]),
            Event::Changes(true),
            Event::StashSaved(id),
            Event::Performed,
            Event::Classified(SyncClass::UpToDate, cid(1)),
            Event::Performed,
            Event::Performed,
            Event::StashList(vec![sid(8), sid(9)]),
        ],
    );
    assert_eq!(
        last,
        Step::Abort { error: WorkError::StashNotFound, stash: Some(id) }
    );
}

#[test]
fn restore_conflict_aborts_with_the_stash_reported() {
    let id = sid(6);
    let (_, last) = drive(
        "feature",
        vec![
            Event::OperationState(OpState::Clean),
            Event::CurrentBranch(String::from("topic")),
            Event::BranchNames(vec![]),
            Event::Changes(true),
            Event::StashSaved(id),
            Event::Performed,
            Event::Classified(SyncClass::UpToDate, cid(1)),
            Event::Performed,
            Event::Performed,
            Event::StashList(vec![id]),
            Event::Failed(WorkError::RestoreConflict),
        ],
    );
    assert_eq!(
        last,
        Step::Abort { error: WorkError::RestoreConflict, stash: Some(id) }
    );
}

#[test]
fn diverged_mainline_without_a_stash_reports_none_saved() {
    let (_, last) = drive(
        "feature",
        vec![
            Event::OperationState(OpState::Clean),
            Event::CurrentBranch(String::from("topic")),
            Event::BranchNames(vec![]),
            Event::Changes(false),
            Event::Performed,
            Event::Classified(SyncClass::Diverged, cid(2)),
        ],
    );
    match last {
        Step::Stop(Outcome::ManualMergeRequired { target, stash, instructions }) => {
            assert_eq!(target, "feature");
            assert_eq!(stash, None);
            assert_eq!(instructions.len(), 5);
        }
        other => panic!("expected manual-merge outcome, got {:?}", other),
    }
}

#[test]
fn not_on_branch_aborts() {
    let (_, last) = drive(
        "feature",
        vec![
            Event::OperationState(OpState::Clean),
            Event::Failed(WorkError::NotOnBranch),
        ],
    );
    assert_eq!(
        last,
        Step::Abort { error: WorkError::NotOnBranch, stash: None }
    );
}

#[test]
fn checkout_conflict_after_fast_forward_keeps_refs_untouched() {
    // The tree checkout of the remote commit fails: the machine aborts
    // without ever requesting the ref advance.
    let (actions, last) = drive(
        "feature",
        vec![
            Event::OperationState(OpState::Clean),
            Event::CurrentBranch(String::from("topic")),
            Event::BranchNames(vec![]),
            Event::Changes(false),
            Event::Performed,
            Event::Classified(SyncClass::FastForward, cid(3)),
            Event::Failed(WorkError::CheckoutConflict),
        ],
    );
    for a in &actions {
        assert!(!matches!(a, Action::AdvanceRefs(_)));
    }
    assert_eq!(
        last,
        Step::Abort { error: WorkError::CheckoutConflict, stash: None }
    );
}
