//! The workflow's guarantees, stated and proved over the transition
//! relation of the machine.

use vstd::prelude::*;

verus! {

use crate::errors::WorkError;
use crate::names::matches_target;
use crate::stash::StashId;
use crate::workflow::{
    manual_merge_lines, stash_of, step_rel, Action, Event, OpState, Outcome, State, Step,
    SyncClass,
};

/// Whether an action changes repository state (refs, stash entries, the
/// working tree, or remote-tracking refs), as opposed to a read-only query.
pub open spec fn mutates(a: Action) -> bool {
    match a {
        Action::QueryOperationState => false,
        Action::QueryCurrentBranch => false,
        Action::QueryBranchNames => false,
        Action::QueryChanges => false,
        Action::QueryStashes => false,
        Action::SaveStash => true,
        Action::CheckoutMainline => true,
        Action::FetchAndClassify => true,
        Action::CheckoutRemoteTree(_) => true,
        Action::AdvanceRefs(_) => true,
        Action::CreateBranch(_) => true,
        Action::CheckoutBranch(_) => true,
        Action::RestoreStash(_) => true,
    }
}

/// `steps` is a run of the machine from `init`: each entry holds the state
/// the machine was in, the event the driver fed to it, and the step it
/// yielded; consecutive entries chain through `Next`, so a run can only
/// continue past a step that did not stop or abort.
pub open spec fn valid_run(init: State, steps: Seq<(State, Event, Step)>) -> bool {
    &&& steps.len() > 0 ==> steps[0].0 == init
    &&& forall|i: int|
        0 <= i < steps.len() ==> step_rel(#[trigger] steps[i].0, steps[i].1, steps[i].2)
    &&& forall|i: int|
        0 <= i < steps.len() - 1 ==> {
            &&& (#[trigger] steps[i].2) matches Step::Next(st, _)
            &&& steps[i + 1].0 == st
        }
}

/// When the repository reports a prior operation still in progress, the
/// run aborts at its very first step with `RepositoryNotClean`: no stash
/// was taken, and the only action the machine ever requested — the initial
/// operation-state query — is read-only, so neither stash nor refs were
/// touched.
pub proof fn law_not_clean_aborts(name: String, steps: Seq<(State, Event, Step)>)
    requires
        valid_run(State::AwaitOpState { name }, steps),
        steps.len() > 0,
        steps[0].1 == Event::OperationState(OpState::InProgress),
    ensures
        steps.len() == 1,
        steps[0].2 == (Step::Abort {
            error: WorkError::RepositoryNotClean,
            stash: None::<StashId>,
        }),
        !mutates(Action::QueryOperationState),
{
    assert(step_rel(steps[0].0, steps[0].1, steps[0].2));
    if steps.len() > 1 {
        assert(steps[0].2 matches Step::Next(st, _) && steps[1].0 == st);
    }
}

/// When the current branch already names the feature (exactly or with a
/// `-w<digits>` suffix), the run ends successfully at its second step with
/// `AlreadyOnTarget`, and the two actions it requested were both read-only
/// queries: no stash was created, no branch touched, no network fetch
/// requested.
pub proof fn law_already_on_target(name: String, steps: Seq<(State, Event, Step)>)
    requires
        valid_run(State::AwaitOpState { name }, steps),
        steps.len() >= 2,
        steps[0].1 == Event::OperationState(OpState::Clean),
        steps[1].1 matches Event::CurrentBranch(b) && matches_target(b@, name@),
    ensures
        steps.len() == 2,
        steps[0].2 == Step::Next(
            (State::AwaitBranch { name }),
            Action::QueryCurrentBranch,
        ),
        !mutates(Action::QueryCurrentBranch),
        steps[1].1 matches Event::CurrentBranch(b) ==> steps[1].2 == Step::Stop(
            (Outcome::AlreadyOnTarget { branch: b }),
        ),
{
    assert(step_rel(steps[0].0, steps[0].1, steps[0].2));
    assert(steps[0].2 matches Step::Next(st, _) && steps[1].0 == st);
    assert(step_rel(steps[1].0, steps[1].1, steps[1].2));
    if steps.len() > 2 {
        assert(steps[1].2 matches Step::Next(st, _) && steps[2].0 == st);
    }
}

/// Refs are only ever advanced to the fetched remote commit, and only from
/// the state entered after that commit's tree was checked out safely: a
/// fast-forward never rewrites local commits, it moves the mainline ref
/// and HEAD to the remote tip alone, and only after the working-tree
/// checkout succeeded.
pub proof fn law_advance_refs_only_after_tree_checkout(pre: State, event: Event, post: Step)
    requires
        step_rel(pre, event, post),
        post matches Step::Next(_, a) && a matches Action::AdvanceRefs(_),
    ensures
        pre is AwaitRemoteTreeCheckout,
        event == Event::Performed,
        post matches Step::Next(_, a) ==> (a matches Action::AdvanceRefs(c) ==> (pre matches
            State::AwaitRemoteTreeCheckout { remote, .. } ==> c == remote)),
{
}

/// The tree-checkout state that precedes a ref advance is entered only on
/// a `FastForward` classification, and for the very commit the
/// classification reported as the fetched remote tip — the commit the
/// engine judged a descendant of the local mainline tip.
pub proof fn law_tree_checkout_only_on_fast_forward(pre: State, event: Event, post: Step)
    requires
        step_rel(pre, event, post),
        post matches Step::Next(st, _) && st is AwaitRemoteTreeCheckout,
    ensures
        pre is AwaitSync,
        event matches Event::Classified(cl, c) && cl == SyncClass::FastForward,
        post matches Step::Next(st, _) ==> (st matches State::AwaitRemoteTreeCheckout {
            remote,
            ..
        } ==> (event matches Event::Classified(_, c) ==> c == remote)),
{
}

/// On a `Diverged` classification the run stops successfully: no branch is
/// created, no stash restore is requested, the stash identity (if any) is
/// reported as still saved, and the outcome carries the five
/// manual-recovery commands naming the computed target branch.
pub proof fn law_diverged_stops_with_instructions(pre: State, event: Event, post: Step)
    requires
        step_rel(pre, event, post),
        pre is AwaitSync,
        event matches Event::Classified(cl, _) && cl == SyncClass::Diverged,
    ensures
        post is Stop,
        pre matches State::AwaitSync { target, stash } ==> (post matches Step::Stop(o) ==> {
            &&& o matches Outcome::ManualMergeRequired { target: t, stash: st, instructions }
            &&& t == target
            &&& st == stash
            &&& manual_merge_lines(instructions@, target@)
        }),
{
}

proof fn lemma_step_stash_provenance(pre: State, event: Event, post: Step)
    requires
        step_rel(pre, event, post),
    ensures
        post matches Step::Next(st, _) ==> (stash_of(st) matches Some(id) ==> (stash_of(pre)
            == Some(id) || event == Event::StashSaved(id))),
{
}

/// Any stash identity the machine carries was reported by the driver as
/// the identity of the snapshot saved earlier in the same run: the machine
/// never invents, swaps or forgets it. Together with
/// `law_restore_targets_saved_identity` this pins the round trip: the
/// snapshot the restore pops is the very snapshot the save created.
pub proof fn law_stash_identity_comes_from_save(
    name: String,
    steps: Seq<(State, Event, Step)>,
    k: int,
    id: StashId,
)
    requires
        valid_run(State::AwaitOpState { name }, steps),
        0 <= k < steps.len(),
        stash_of(steps[k].0) == Some(id),
    ensures
        exists|j: int| 0 <= j < k && (#[trigger] steps[j].1) == Event::StashSaved(id),
    decreases k,
{
    if k == 0 {
        assert(steps[0].0 == (State::AwaitOpState { name }));
        assert(false);
    } else {
        assert(step_rel(steps[k - 1].0, steps[k - 1].1, steps[k - 1].2));
        assert(steps[k - 1].2 matches Step::Next(st, _) && steps[k].0 == st);
        lemma_step_stash_provenance(steps[k - 1].0, steps[k - 1].1, steps[k - 1].2);
        if stash_of(steps[k - 1].0) == Some(id) {
            law_stash_identity_comes_from_save(name, steps, k - 1, id);
            let j = choose|j: int| 0 <= j < k - 1 && steps[j].1 == Event::StashSaved(id);
            assert(0 <= j < k && steps[j].1 == Event::StashSaved(id));
        } else {
            assert(steps[k - 1].1 == Event::StashSaved(id));
        }
    }
}

proof fn lemma_step_preserves_stash(pre: State, event: Event, post: Step, id: StashId)
    requires
        step_rel(pre, event, post),
        stash_of(pre) == Some(id),
    ensures
        post matches Step::Next(st, _) ==> stash_of(st) == Some(id),
{
}

proof fn lemma_into_restore_requests_restore(pre: State, event: Event, post: Step)
    requires
        step_rel(pre, event, post),
        post matches Step::Next(st, _) && st is AwaitRestore,
    ensures
        post matches Step::Next(_, a) ==> a is RestoreStash,
{
}

proof fn lemma_stash_persists(
    name: String,
    steps: Seq<(State, Event, Step)>,
    j: int,
    m: int,
    id: StashId,
)
    requires
        valid_run(State::AwaitOpState { name }, steps),
        0 <= j < m < steps.len(),
        steps[j].1 == Event::StashSaved(id),
    ensures
        stash_of(steps[m].0) == Some(id),
    decreases m,
{
    assert(step_rel(steps[m - 1].0, steps[m - 1].1, steps[m - 1].2));
    assert(steps[m - 1].2 matches Step::Next(st, _) && steps[m].0 == st);
    if m == j + 1 {
        assert(step_rel(steps[j].0, steps[j].1, steps[j].2));
    } else {
        lemma_stash_persists(name, steps, j, m - 1, id);
        lemma_step_preserves_stash(steps[m - 1].0, steps[m - 1].1, steps[m - 1].2, id);
    }
}

/// A run that saved a stash and ran to completion also requested the
/// restore: the machine never reports `Completed` with the snapshot still
/// left behind. (Together with `law_restore_targets_saved_identity` and
/// `law_stash_identity_comes_from_save`, the snapshot restored is the very
/// snapshot saved: the stash round-trips through a completed run.)
pub proof fn law_completed_run_restores_stash(
    name: String,
    steps: Seq<(State, Event, Step)>,
    j: int,
    id: StashId,
)
    requires
        valid_run(State::AwaitOpState { name }, steps),
        0 <= j < steps.len(),
        steps[j].1 == Event::StashSaved(id),
        steps[steps.len() - 1].2 matches Step::Stop(o) && o is Completed,
    ensures
        exists|k: int|
            {
                &&& 0 <= k < steps.len()
                &&& (#[trigger] steps[k].2) matches Step::Next(_, a)
                &&& a is RestoreStash
            },
{
    let last = steps.len() - 1;
    assert(step_rel(steps[j].0, steps[j].1, steps[j].2));
    assert(j < last);
    lemma_stash_persists(name, steps, j, last, id);
    assert(step_rel(steps[last].0, steps[last].1, steps[last].2));
    assert(steps[last].0 is AwaitRestore);
    assert(steps[last - 1].2 matches Step::Next(st, _) && steps[last].0 == st);
    lemma_into_restore_requests_restore(steps[last - 1].0, steps[last - 1].1, steps[last - 1].2);
    assert(steps[last - 1].2 matches Step::Next(_, a) && a is RestoreStash);
}

/// A stash restore is requested only for the snapshot whose identity was
/// saved earlier in the same run: the index handed to the driver names the
/// first stash entry equal to that identity, never merely the most recent
/// entry, so the restore reapplies exactly the changes that were stashed.
pub proof fn law_restore_targets_saved_identity(pre: State, event: Event, post: Step)
    requires
        step_rel(pre, event, post),
        post matches Step::Next(_, a) && a is RestoreStash,
    ensures
        pre is AwaitStashList,
        event is StashList,
        pre matches State::AwaitStashList { id, .. } ==> (event matches Event::StashList(
            list,
        ) ==> (post matches Step::Next(_, a) ==> (a matches Action::RestoreStash(k) ==> {
            &&& k < list@.len()
            &&& list@[k as int] == id
            &&& forall|j: int| 0 <= j < k ==> list@[j] != id
        }))),
{
}

} // verus!
