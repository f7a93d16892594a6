//! Applying a stash. The first attempt restores the index as well; where it
//! fails for another reason than a conflict, a second attempt restores the
//! working tree only. An attempt that fails because there is nothing left to
//! apply counts as success. The stash is never dropped here.

use vstd::prelude::*;
use vstd::string::*;
use crate::error::{GitError, GitErrorView};
use crate::reply::{unexpected_reply_text, Reply, ReplyView};
use crate::stash::{
    find_stash, records_view, stash_answers, stash_not_found, StashRecord, StashRecordView,
};
use crate::text::{contains, occurs_in};

verus! {

/// Where applying a stash stands.
#[derive(Clone, Copy, Debug, PartialEq, Eq, Structural)]
pub enum ApplyStage {
    /// Waiting for the attempt that restores the index too.
    Applying,
    /// Waiting for the attempt that restores the working tree only.
    Retrying,
    Finished,
}

/// How applying a stash ended when it did not fail.
#[derive(Clone, Copy, Debug, PartialEq, Eq, Structural)]
pub enum ApplyOutcome {
    /// The changes of the stash are back.
    Applied,
    /// There was nothing left to apply.
    AlreadyApplied,
}

/// The next thing to do on the repository.
#[derive(Clone, Copy, Debug, PartialEq, Eq, Structural)]
pub enum ApplyAction {
    /// Apply the stash at position `index` of the list.
    Apply { index: usize, reinstate_index: bool },
    /// Nothing is left to do: the state holds the outcome.
    Finish,
}

/// Applying a stash, in progress.
#[derive(Debug, Clone, PartialEq, Eq)]
pub struct ApplyState {
    pub stage: ApplyStage,
    /// Position of the stash in the list.
    pub index: usize,
    pub id: String,
    pub message: String,
    /// How it ended, once it has.
    pub outcome: Option<Result<ApplyOutcome, GitError>>,
}

pub struct ApplyStateView {
    pub stage: ApplyStage,
    pub index: usize,
    pub id: Seq<char>,
    pub message: Seq<char>,
    pub outcome: Option<Result<ApplyOutcome, GitErrorView>>,
}

impl View for ApplyState {
    type V = ApplyStateView;

    open spec fn view(&self) -> ApplyStateView {
        ApplyStateView {
            stage: self.stage,
            index: self.index,
            id: self.id@,
            message: self.message@,
            outcome: match self.outcome {
                None => None,
                Some(Ok(o)) => Some(Ok(o)),
                Some(Err(e)) => Some(Err(e@)),
            },
        }
    }
}

/// A failed attempt that means that nothing is left to apply.
pub open spec fn apply_failure_is_benign(reason: Seq<char>) -> bool {
    occurs_in("already applied"@, reason) || occurs_in("nothing to commit"@, reason)
}

/// A failed attempt that speaks of conflicting paths.
pub open spec fn apply_failure_is_conflict(reason: Seq<char>) -> bool {
    occurs_in("conflict"@, reason)
}

/// How the stash is named in what is shown.
pub open spec fn stash_title(id: Seq<char>, message: Seq<char>) -> Seq<char> {
    id + " ("@ + message + ")"@
}

/// The text of a conflict met at the first attempt.
pub open spec fn apply_conflict_text(s: ApplyStateView, reason: Seq<char>) -> Seq<char> {
    "Failed to apply stash "@ + stash_title(s.id, s.message) + ": Conflicts detected. Error: "@
        + reason + ". Please resolve conflicts manually."@
}

/// The text of a failure of the second attempt.
pub open spec fn apply_failure_text(s: ApplyStateView, reason: Seq<char>) -> Seq<char> {
    "Failed to apply stash "@ + stash_title(s.id, s.message) + ": "@ + reason
        + ". This may be because the stash has already been applied, there are conflicts, or the working directory is in an unexpected state."@
}

/// The text shown when applying did not fail.
pub open spec fn apply_outcome_text(s: ApplyStateView, o: ApplyOutcome) -> Seq<char> {
    match o {
        ApplyOutcome::Applied => "Successfully applied stash: "@ + stash_title(s.id, s.message),
        ApplyOutcome::AlreadyApplied => "Stash "@ + stash_title(s.id, s.message)
            + " has already been applied or there are no changes to apply"@,
    }
}

/// The state in which applying begins, given the list and the id or prefix
/// asked for: waiting for the first attempt on the record that answers, or
/// finished with `StashNotFound` where none does, then under the text that
/// was asked for instead of an id.
pub open spec fn apply_initial(
    records: Seq<StashRecordView>,
    wanted: Seq<char>,
    s: ApplyStateView,
) -> bool {
    if exists|i: int| stash_answers(records, wanted, i) {
        &&& s.stage == ApplyStage::Applying
        &&& stash_answers(records, wanted, s.index as int)
        &&& s.id == records[s.index as int].id
        &&& s.message == records[s.index as int].message
        &&& s.outcome is None
    } else {
        &&& s.stage == ApplyStage::Finished
        &&& s.index == 0
        &&& s.id == wanted
        &&& s.message == "unknown"@
        &&& s.outcome == Some(Err::<ApplyOutcome, GitErrorView>(stash_not_found(records, wanted)))
    }
}

/// The action that state `s` is waiting for.
pub open spec fn apply_pending(s: ApplyStateView) -> ApplyAction {
    match s.stage {
        ApplyStage::Applying => ApplyAction::Apply { index: s.index, reinstate_index: true },
        ApplyStage::Retrying => ApplyAction::Apply { index: s.index, reinstate_index: false },
        ApplyStage::Finished => ApplyAction::Finish,
    }
}

/// `s` ended with `outcome`.
pub open spec fn apply_stop(
    s: ApplyStateView,
    outcome: Result<ApplyOutcome, GitErrorView>,
) -> ApplyStateView {
    ApplyStateView { stage: ApplyStage::Finished, outcome: Some(outcome), ..s }
}

/// The failure with which the second attempt ends for `reason`: a conflict
/// where the reason speaks of one.
pub open spec fn apply_final_failure(s: ApplyStateView, reason: Seq<char>) -> GitErrorView {
    if apply_failure_is_conflict(reason) {
        GitErrorView::StashConflict { detail: apply_failure_text(s, reason) }
    } else {
        GitErrorView::RepositoryUnavailable { detail: apply_failure_text(s, reason) }
    }
}

/// The state that follows `s` when its attempt is answered with `r`.
pub open spec fn apply_next(s: ApplyStateView, r: ReplyView) -> ApplyStateView {
    match (s.stage, r) {
        (ApplyStage::Finished, _) => s,
        (_, ReplyView::Done) => apply_stop(s, Ok(ApplyOutcome::Applied)),
        (ApplyStage::Applying, ReplyView::Failed(reason)) => if apply_failure_is_benign(reason) {
            apply_stop(s, Ok(ApplyOutcome::AlreadyApplied))
        } else if apply_failure_is_conflict(reason) {
            apply_stop(
                s,
                Err(GitErrorView::StashConflict { detail: apply_conflict_text(s, reason) }),
            )
        } else {
            ApplyStateView { stage: ApplyStage::Retrying, ..s }
        },
        (ApplyStage::Retrying, ReplyView::Failed(reason)) => if apply_failure_is_benign(reason) {
            apply_stop(s, Ok(ApplyOutcome::AlreadyApplied))
        } else {
            apply_stop(s, Err(apply_final_failure(s, reason)))
        },
        _ => apply_stop(
            s,
            Err(GitErrorView::RepositoryUnavailable { detail: unexpected_reply_text() }),
        ),
    }
}

fn title(state: &ApplyState) -> (r: String)
    ensures
        r@ == stash_title(state.id@, state.message@),
{
    let mut r = state.id.clone();
    r.append(" (");
    r.append(state.message.as_str());
    r.append(")");
    r
}

fn conflict_text(state: &ApplyState, reason: &String) -> (r: String)
    ensures
        r@ == apply_conflict_text(state@, reason@),
{
    let mut r = "Failed to apply stash ".to_owned();
    let t = title(state);
    r.append(t.as_str());
    r.append(": Conflicts detected. Error: ");
    r.append(reason.as_str());
    r.append(". Please resolve conflicts manually.");
    r
}

fn failure_text(state: &ApplyState, reason: &String) -> (r: String)
    ensures
        r@ == apply_failure_text(state@, reason@),
{
    let mut r = "Failed to apply stash ".to_owned();
    let t = title(state);
    r.append(t.as_str());
    r.append(": ");
    r.append(reason.as_str());
    r.append(
        ". This may be because the stash has already been applied, there are conflicts, or the working directory is in an unexpected state.",
    );
    r
}

fn is_benign(reason: &String) -> (r: bool)
    ensures
        r == apply_failure_is_benign(reason@),
{
    contains(reason.as_str(), "already applied") || contains(reason.as_str(), "nothing to commit")
}

fn stop(state: ApplyState, outcome: Result<ApplyOutcome, GitError>) -> (n: ApplyState)
    ensures
        n@ == apply_stop(
            state@,
            match outcome {
                Ok(o) => Ok(o),
                Err(e) => Err(e@),
            },
        ),
{
    let mut n = state;
    n.stage = ApplyStage::Finished;
    n.outcome = Some(outcome);
    n
}

/// Begins to apply the stash that answers to `wanted`, an id or the
/// beginning of one.
pub fn apply_begin(records: &Vec<StashRecord>, wanted: &str) -> (s: ApplyState)
    ensures
        apply_initial(records_view(records@), wanted@, s@),
{
    match find_stash(records, wanted) {
        Ok(i) => {
            proof {
                assert(records_view(records@)[i as int] == records@[i as int]@);
            }
            ApplyState {
                stage: ApplyStage::Applying,
                index: i,
                id: records[i].id.clone(),
                message: records[i].message.clone(),
                outcome: None,
            }
        },
        Err(e) => ApplyState {
            stage: ApplyStage::Finished,
            index: 0,
            id: wanted.to_owned(),
            message: "unknown".to_owned(),
            outcome: Some(Err(e)),
        },
    }
}

/// The action that applying is waiting for.
pub fn apply_request(state: &ApplyState) -> (a: ApplyAction)
    ensures
        a == apply_pending(state@),
{
    match state.stage {
        ApplyStage::Applying => ApplyAction::Apply { index: state.index, reinstate_index: true },
        ApplyStage::Retrying => ApplyAction::Apply { index: state.index, reinstate_index: false },
        ApplyStage::Finished => ApplyAction::Finish,
    }
}

/// The state after the pending attempt was answered with `reply`.
pub fn apply_advance(state: ApplyState, reply: Reply) -> (n: ApplyState)
    ensures
        n@ == apply_next(state@, reply@),
{
    let mut s = state;
    if s.stage == ApplyStage::Finished {
        return s;
    }
    match reply {
        Reply::Done => stop(s, Ok(ApplyOutcome::Applied)),
        Reply::Failed(reason) => {
            if is_benign(&reason) {
                stop(s, Ok(ApplyOutcome::AlreadyApplied))
            } else if s.stage == ApplyStage::Applying {
                if contains(reason.as_str(), "conflict") {
                    let detail = conflict_text(&s, &reason);
                    stop(s, Err(GitError::StashConflict { detail }))
                } else {
                    s.stage = ApplyStage::Retrying;
                    s
                }
            } else {
                let detail = failure_text(&s, &reason);
                if contains(reason.as_str(), "conflict") {
                    stop(s, Err(GitError::StashConflict { detail }))
                } else {
                    stop(s, Err(GitError::RepositoryUnavailable { detail }))
                }
            }
        },
        _ => stop(
            s,
            Err(
                GitError::RepositoryUnavailable {
                    detail: "Unexpected reply from the repository".to_owned(),
                },
            ),
        ),
    }
}

/// The text shown when applying did not fail.
pub fn apply_message(state: &ApplyState, outcome: ApplyOutcome) -> (r: String)
    ensures
        r@ == apply_outcome_text(state@, outcome),
{
    let t = title(state);
    match outcome {
        ApplyOutcome::Applied => {
            let mut r = "Successfully applied stash: ".to_owned();
            r.append(t.as_str());
            r
        },
        ApplyOutcome::AlreadyApplied => {
            let mut r = "Stash ".to_owned();
            r.append(t.as_str());
            r.append(" has already been applied or there are no changes to apply");
            r
        },
    }
}

/// Applying ends after two attempts at most, and after one where that one
/// succeeds, meets a conflict, or finds nothing left to apply. An attempt
/// that finds nothing left to apply makes it a success.
pub proof fn law_apply_tries_at_most_twice(s: ApplyStateView, first: ReplyView, second: ReplyView)
    requires
        s.stage == ApplyStage::Applying,
    ensures
        apply_next(apply_next(s, first), second).stage == ApplyStage::Finished,
        apply_next(s, first).stage == ApplyStage::Retrying ==> (first matches ReplyView::Failed(
            reason,
        ) && !apply_failure_is_benign(reason) && !apply_failure_is_conflict(reason)),
        forall|reason: Seq<char>|
            apply_failure_is_benign(reason) ==> (#[trigger] apply_next(
                s,
                ReplyView::Failed(reason),
            )).outcome == Some(Ok::<ApplyOutcome, GitErrorView>(ApplyOutcome::AlreadyApplied)),
{
}

} // verus!
