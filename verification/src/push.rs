//! Pushing: send the current branch to `origin` under its own name and, once
//! that has succeeded, give the branch an upstream if it has none.
//!
//! The decisions are a state machine, driven like the one for pulling.

use vstd::prelude::*;
use vstd::string::*;
use crate::error::{transfer_error, transfer_failure, GitError, GitErrorView};
use crate::reply::{as_failure, unexpected_reply_text, Reply, ReplyView};
use crate::text::{contains, join2, occurs_in};

verus! {

/// Where a push stands: which action it is waiting for.
#[derive(Clone, Copy, Debug, PartialEq, Eq, Structural)]
pub enum PushStage {
    Opening,
    ReadingHead,
    FindingRemote,
    Pushing,
    FindingBranch,
    CheckingUpstream,
    SettingUpstream,
    Finished,
}

/// What became of the branch's upstream after a push.
#[derive(Debug, Clone, PartialEq, Eq)]
pub enum UpstreamChange {
    /// The branch had an upstream already.
    Kept,
    /// The branch had none and now follows the remote branch of its name.
    Established,
    /// The branch had none and setting one failed.
    NotEstablished { reason: String },
    /// The local branch could not be looked up.
    Skipped,
}

pub enum UpstreamChangeView {
    Kept,
    Established,
    NotEstablished { reason: Seq<char> },
    Skipped,
}

impl View for UpstreamChange {
    type V = UpstreamChangeView;

    open spec fn view(&self) -> UpstreamChangeView {
        match *self {
            UpstreamChange::Kept => UpstreamChangeView::Kept,
            UpstreamChange::Established => UpstreamChangeView::Established,
            UpstreamChange::NotEstablished { reason } => UpstreamChangeView::NotEstablished {
                reason: reason@,
            },
            UpstreamChange::Skipped => UpstreamChangeView::Skipped,
        }
    }
}

/// A push that succeeded.
#[derive(Debug, Clone, PartialEq, Eq)]
pub struct PushOutcome {
    pub branch: String,
    pub upstream: UpstreamChange,
}

pub struct PushOutcomeView {
    pub branch: Seq<char>,
    pub upstream: UpstreamChangeView,
}

impl View for PushOutcome {
    type V = PushOutcomeView;

    open spec fn view(&self) -> PushOutcomeView {
        PushOutcomeView { branch: self.branch@, upstream: self.upstream@ }
    }
}

/// The next thing to do on the repository.
#[derive(Debug, Clone, PartialEq, Eq)]
pub enum PushAction {
    OpenRepository,
    /// Read the short name of what HEAD points at.
    ReadHead,
    /// Look up the remote and report its URL.
    FindRemote { name: String },
    Push { refspec: String },
    /// Look up the local branch.
    FindBranch { name: String },
    /// Report whether the branch found last has an upstream.
    ReadUpstream,
    /// Make the branch found last follow `name`.
    SetUpstream { name: String },
    /// Nothing is left to do: the state holds the outcome.
    Finish,
}

pub enum PushActionView {
    OpenRepository,
    ReadHead,
    FindRemote { name: Seq<char> },
    Push { refspec: Seq<char> },
    FindBranch { name: Seq<char> },
    ReadUpstream,
    SetUpstream { name: Seq<char> },
    Finish,
}

impl View for PushAction {
    type V = PushActionView;

    open spec fn view(&self) -> PushActionView {
        match *self {
            PushAction::OpenRepository => PushActionView::OpenRepository,
            PushAction::ReadHead => PushActionView::ReadHead,
            PushAction::FindRemote { name } => PushActionView::FindRemote { name: name@ },
            PushAction::Push { refspec } => PushActionView::Push { refspec: refspec@ },
            PushAction::FindBranch { name } => PushActionView::FindBranch { name: name@ },
            PushAction::ReadUpstream => PushActionView::ReadUpstream,
            PushAction::SetUpstream { name } => PushActionView::SetUpstream { name: name@ },
            PushAction::Finish => PushActionView::Finish,
        }
    }
}

/// A push in progress.
#[derive(Debug, Clone, PartialEq, Eq)]
pub struct PushState {
    pub stage: PushStage,
    /// Short name of the current branch.
    pub branch: String,
    /// URL of the remote, empty while unknown.
    pub url: String,
    /// Whether the remote has accepted the branch.
    pub pushed: bool,
    /// How the push ended, once it has.
    pub outcome: Option<Result<PushOutcome, GitError>>,
}

pub struct PushStateView {
    pub stage: PushStage,
    pub branch: Seq<char>,
    pub url: Seq<char>,
    pub pushed: bool,
    pub outcome: Option<Result<PushOutcomeView, GitErrorView>>,
}

impl View for PushState {
    type V = PushStateView;

    open spec fn view(&self) -> PushStateView {
        PushStateView {
            stage: self.stage,
            branch: self.branch@,
            url: self.url@,
            pushed: self.pushed,
            outcome: match self.outcome {
                None => None,
                Some(Ok(o)) => Some(Ok(o@)),
                Some(Err(e)) => Some(Err(e@)),
            },
        }
    }
}

/// The refspec that sends `branch` to the remote branch of the same name.
pub open spec fn push_refspec(branch: Seq<char>) -> Seq<char> {
    "refs/heads/"@ + branch + ":refs/heads/"@ + branch
}

/// The remote branch that `branch` follows once it was pushed.
pub open spec fn upstream_name(branch: Seq<char>) -> Seq<char> {
    "origin/"@ + branch
}

/// The text shown for a successful push.
pub open spec fn push_outcome_text(o: PushOutcomeView) -> Seq<char> {
    "Successfully pushed to origin/"@ + o.branch
}

/// The state in which every push begins.
pub open spec fn push_initial() -> PushStateView {
    PushStateView {
        stage: PushStage::Opening,
        branch: Seq::empty(),
        url: Seq::empty(),
        pushed: false,
        outcome: None,
    }
}

/// The action that a push in state `s` is waiting for.
pub open spec fn push_pending(s: PushStateView) -> PushActionView {
    match s.stage {
        PushStage::Opening => PushActionView::OpenRepository,
        PushStage::ReadingHead => PushActionView::ReadHead,
        PushStage::FindingRemote => PushActionView::FindRemote { name: "origin"@ },
        PushStage::Pushing => PushActionView::Push { refspec: push_refspec(s.branch) },
        PushStage::FindingBranch => PushActionView::FindBranch { name: s.branch },
        PushStage::CheckingUpstream => PushActionView::ReadUpstream,
        PushStage::SettingUpstream => PushActionView::SetUpstream {
            name: upstream_name(s.branch),
        },
        PushStage::Finished => PushActionView::Finish,
    }
}

/// `s` ended with `outcome`.
pub open spec fn push_stop(
    s: PushStateView,
    outcome: Result<PushOutcomeView, GitErrorView>,
) -> PushStateView {
    PushStateView { stage: PushStage::Finished, outcome: Some(outcome), ..s }
}

/// `s` ended well, with `upstream` as what became of the upstream.
pub open spec fn push_succeed(s: PushStateView, upstream: UpstreamChangeView) -> PushStateView {
    push_stop(s, Ok(PushOutcomeView { branch: s.branch, upstream }))
}

/// The failure reported when the action that `s` waits for fails with
/// `reason`, for the stages up to the push itself.
pub open spec fn push_failure(s: PushStateView, reason: Seq<char>, refused: bool) -> GitErrorView {
    match s.stage {
        PushStage::Opening => GitErrorView::RepositoryUnavailable {
            detail: "Failed to open repository: "@ + reason,
        },
        PushStage::ReadingHead => GitErrorView::RefNotFound {
            detail: "Failed to get HEAD: "@ + reason,
        },
        PushStage::FindingRemote => GitErrorView::RepositoryUnavailable {
            detail: "Failed to find remote 'origin': "@ + reason,
        },
        _ => transfer_failure("Failed to push: "@, reason, s.url, push_refspec(s.branch), refused),
    }
}

/// The state that follows `s` when its action is answered with `r`.
///
/// Up to the push itself a failure ends the run with that failure. Once the
/// remote has accepted the branch the run ends well whatever follows: the
/// upstream is looked after on a best-effort basis.
pub open spec fn push_react(s: PushStateView, r: ReplyView, refused: bool) -> PushStateView {
    match s.stage {
        PushStage::Finished => s,
        PushStage::FindingBranch => match r {
            ReplyView::Done => PushStateView { stage: PushStage::CheckingUpstream, ..s },
            _ => push_succeed(s, UpstreamChangeView::Skipped),
        },
        PushStage::CheckingUpstream => match r {
            ReplyView::Flag(true) => push_succeed(s, UpstreamChangeView::Kept),
            _ => PushStateView { stage: PushStage::SettingUpstream, ..s },
        },
        PushStage::SettingUpstream => match r {
            ReplyView::Done => push_succeed(s, UpstreamChangeView::Established),
            ReplyView::Failed(reason) => push_succeed(
                s,
                UpstreamChangeView::NotEstablished { reason },
            ),
            _ => push_succeed(
                s,
                UpstreamChangeView::NotEstablished { reason: unexpected_reply_text() },
            ),
        },
        _ => match (s.stage, r) {
            (_, ReplyView::Failed(reason)) => push_stop(s, Err(push_failure(s, reason, refused))),
            (PushStage::Opening, ReplyView::Done) => PushStateView {
                stage: PushStage::ReadingHead,
                ..s
            },
            (PushStage::ReadingHead, ReplyView::Text(name)) => PushStateView {
                stage: PushStage::FindingRemote,
                branch: name,
                ..s
            },
            (PushStage::ReadingHead, ReplyView::Nothing) => PushStateView {
                stage: PushStage::FindingRemote,
                branch: "main"@,
                ..s
            },
            (PushStage::FindingRemote, ReplyView::Text(url)) => PushStateView {
                stage: PushStage::Pushing,
                url,
                ..s
            },
            (PushStage::FindingRemote, ReplyView::Nothing) => PushStateView {
                stage: PushStage::Pushing,
                ..s
            },
            (PushStage::Pushing, ReplyView::Done) => PushStateView {
                stage: PushStage::FindingBranch,
                pushed: true,
                ..s
            },
            _ => push_stop(
                s,
                Err(GitErrorView::RepositoryUnavailable { detail: unexpected_reply_text() }),
            ),
        },
    }
}

/// The state that follows `s` when its action is answered with `r`. A
/// refusal counts as a failure with the same reason; where the transfer
/// itself was refused, the run ends with `AuthenticationExhausted` instead of
/// `NetworkFailure`.
pub open spec fn push_next(s: PushStateView, r: ReplyView) -> PushStateView {
    push_react(s, as_failure(r), r is Refused)
}

/// What to try after a push failed, chosen by what the reason speaks of:
/// credentials, the network, or a rejection by the remote.
pub open spec fn push_advice_text(reason: Seq<char>) -> Seq<char> {
    if occurs_in("authentication"@, reason) {
        "建议：检查Git凭据配置，确保有推送权限"@
    } else if occurs_in("network"@, reason) || occurs_in("timeout"@, reason) {
        "建议：检查网络连接，或尝试使用代理"@
    } else if occurs_in("rejected"@, reason) {
        "建议：远程仓库可能已更新，请先拉取最新更改"@
    } else {
        "建议：查看详细错误信息，或尝试使用命令行推送"@
    }
}

impl PushOutcome {
    /// The text shown for this outcome.
    pub fn message(&self) -> (r: String)
        ensures
            r@ == push_outcome_text(self@),
    {
        join2("Successfully pushed to origin/", self.branch.as_str())
    }
}

/// What to try after a push failed with `reason`.
pub fn push_advice(reason: &str) -> (r: String)
    ensures
        r@ == push_advice_text(reason@),
{
    if contains(reason, "authentication") {
        "建议：检查Git凭据配置，确保有推送权限".to_owned()
    } else if contains(reason, "network") || contains(reason, "timeout") {
        "建议：检查网络连接，或尝试使用代理".to_owned()
    } else if contains(reason, "rejected") {
        "建议：远程仓库可能已更新，请先拉取最新更改".to_owned()
    } else {
        "建议：查看详细错误信息，或尝试使用命令行推送".to_owned()
    }
}

/// The state in which a push begins: it waits for the repository to be
/// opened.
pub fn push_begin() -> (s: PushState)
    ensures
        s@ == push_initial(),
{
    PushState {
        stage: PushStage::Opening,
        branch: String::new(),
        url: String::new(),
        pushed: false,
        outcome: None,
    }
}

fn branch_refspec(branch: &String) -> (r: String)
    ensures
        r@ == push_refspec(branch@),
{
    let mut r = "refs/heads/".to_owned();
    r.append(branch.as_str());
    r.append(":refs/heads/");
    r.append(branch.as_str());
    r
}

/// The action that the push is waiting for.
pub fn push_request(state: &PushState) -> (a: PushAction)
    ensures
        a@ == push_pending(state@),
{
    match state.stage {
        PushStage::Opening => PushAction::OpenRepository,
        PushStage::ReadingHead => PushAction::ReadHead,
        PushStage::FindingRemote => PushAction::FindRemote { name: "origin".to_owned() },
        PushStage::Pushing => PushAction::Push { refspec: branch_refspec(&state.branch) },
        PushStage::FindingBranch => PushAction::FindBranch { name: state.branch.clone() },
        PushStage::CheckingUpstream => PushAction::ReadUpstream,
        PushStage::SettingUpstream => PushAction::SetUpstream {
            name: join2("origin/", state.branch.as_str()),
        },
        PushStage::Finished => PushAction::Finish,
    }
}

fn stop(state: PushState, outcome: Result<PushOutcome, GitError>) -> (n: PushState)
    ensures
        n@ == push_stop(
            state@,
            match outcome {
                Ok(o) => Ok(o@),
                Err(e) => Err(e@),
            },
        ),
{
    let mut n = state;
    n.stage = PushStage::Finished;
    n.outcome = Some(outcome);
    n
}

fn succeed(state: PushState, upstream: UpstreamChange) -> (n: PushState)
    ensures
        n@ == push_succeed(state@, upstream@),
{
    let branch = state.branch.clone();
    stop(state, Ok(PushOutcome { branch, upstream }))
}

fn goto(state: PushState, stage: PushStage) -> (n: PushState)
    ensures
        n@ == (PushStateView { stage, ..state@ }),
{
    let mut n = state;
    n.stage = stage;
    n
}

fn confused(state: PushState) -> (n: PushState)
    ensures
        n@ == push_stop(
            state@,
            Err(GitErrorView::RepositoryUnavailable { detail: unexpected_reply_text() }),
        ),
{
    stop(
        state,
        Err(
            GitError::RepositoryUnavailable {
                detail: "Unexpected reply from the repository".to_owned(),
            },
        ),
    )
}

fn failure_of(state: &PushState, reason: &String, refused: bool) -> (e: GitError)
    ensures
        e@ == push_failure(state@, reason@, refused),
{
    match state.stage {
        PushStage::Opening => GitError::RepositoryUnavailable {
            detail: join2("Failed to open repository: ", reason.as_str()),
        },
        PushStage::ReadingHead => GitError::RefNotFound {
            detail: join2("Failed to get HEAD: ", reason.as_str()),
        },
        PushStage::FindingRemote => GitError::RepositoryUnavailable {
            detail: join2("Failed to find remote 'origin': ", reason.as_str()),
        },
        _ => {
            let refspec = branch_refspec(&state.branch);
            transfer_error(
                "Failed to push: ",
                reason.as_str(),
                state.url.as_str(),
                refspec.as_str(),
                refused,
            )
        },
    }
}

/// The state after the pending action was answered with `reply`.
pub fn push_advance(state: PushState, reply: Reply) -> (n: PushState)
    ensures
        n@ == push_next(state@, reply@),
{
    match reply {
        Reply::Refused(reason) => react(state, Reply::Failed(reason), true),
        other => react(state, other, false),
    }
}

fn react(state: PushState, reply: Reply, refused: bool) -> (n: PushState)
    requires
        !(reply is Refused),
    ensures
        n@ == push_react(state@, reply@, refused),
{
    let mut s = state;
    match s.stage {
        PushStage::Finished => s,
        PushStage::FindingBranch => match reply {
            Reply::Done => goto(s, PushStage::CheckingUpstream),
            _ => succeed(s, UpstreamChange::Skipped),
        },
        PushStage::CheckingUpstream => match reply {
            Reply::Flag(true) => succeed(s, UpstreamChange::Kept),
            _ => goto(s, PushStage::SettingUpstream),
        },
        PushStage::SettingUpstream => match reply {
            Reply::Done => succeed(s, UpstreamChange::Established),
            Reply::Failed(reason) => succeed(s, UpstreamChange::NotEstablished { reason }),
            _ => succeed(
                s,
                UpstreamChange::NotEstablished {
                    reason: "Unexpected reply from the repository".to_owned(),
                },
            ),
        },
        PushStage::Opening => match reply {
            Reply::Failed(reason) => {
                let e = failure_of(&s, &reason, refused);
                stop(s, Err(e))
            },
            Reply::Done => goto(s, PushStage::ReadingHead),
            _ => confused(s),
        },
        PushStage::ReadingHead => match reply {
            Reply::Failed(reason) => {
                let e = failure_of(&s, &reason, refused);
                stop(s, Err(e))
            },
            Reply::Text(name) => {
                s.branch = name;
                goto(s, PushStage::FindingRemote)
            },
            Reply::Nothing => {
                s.branch = "main".to_owned();
                goto(s, PushStage::FindingRemote)
            },
            _ => confused(s),
        },
        PushStage::FindingRemote => match reply {
            Reply::Failed(reason) => {
                let e = failure_of(&s, &reason, refused);
                stop(s, Err(e))
            },
            Reply::Text(url) => {
                s.url = url;
                goto(s, PushStage::Pushing)
            },
            Reply::Nothing => goto(s, PushStage::Pushing),
            _ => confused(s),
        },
        PushStage::Pushing => match reply {
            Reply::Failed(reason) => {
                let e = failure_of(&s, &reason, refused);
                stop(s, Err(e))
            },
            Reply::Done => {
                s.pushed = true;
                goto(s, PushStage::FindingBranch)
            },
            _ => confused(s),
        },
    }
}

/// The state of a push that received `replies`, in this order, from its
/// beginning.
pub open spec fn push_after(replies: Seq<ReplyView>) -> PushStateView
    decreases replies.len(),
{
    if replies.len() == 0 {
        push_initial()
    } else {
        push_next(push_after(replies.drop_last()), replies.last())
    }
}

/// What a push has learned fits the stage it is at: it looks after the
/// upstream only once the remote has accepted the branch, and it ends well
/// only then.
pub open spec fn push_consistent(s: PushStateView) -> bool {
    &&& s.stage == PushStage::Finished <==> s.outcome is Some
    &&& s.stage == PushStage::FindingBranch || s.stage == PushStage::CheckingUpstream || s.stage
        == PushStage::SettingUpstream ==> s.pushed
    &&& s.stage == PushStage::Opening || s.stage == PushStage::ReadingHead || s.stage
        == PushStage::FindingRemote || s.stage == PushStage::Pushing ==> !s.pushed
    &&& (s.outcome matches Some(Ok(o)) ==> s.pushed && o.branch == s.branch)
    &&& (s.outcome matches Some(Err(e)) ==> !s.pushed)
}

/// Every state that a push can reach is consistent.
pub proof fn lemma_push_runs_are_consistent(replies: Seq<ReplyView>)
    ensures
        push_consistent(push_after(replies)),
    decreases replies.len(),
{
    if replies.len() > 0 {
        lemma_push_runs_are_consistent(replies.drop_last());
    }
}

/// The upstream is set only after the push itself has succeeded, and then to
/// the remote branch of the same name. The remote accepts the branch only by
/// its answer to the request to push it. A branch that has an upstream keeps
/// it: nothing is set again.
pub proof fn law_upstream_follows_push(replies: Seq<ReplyView>, r: ReplyView)
    ensures
        ({
            let s = push_after(replies);
            &&& push_pending(s) is SetUpstream ==> s.pushed && push_pending(s)
                == (PushActionView::SetUpstream { name: upstream_name(s.branch) })
            &&& !s.pushed && push_next(s, r).pushed ==> push_pending(s) == (PushActionView::Push {
                refspec: push_refspec(s.branch),
            }) && r == ReplyView::Done
            &&& s.pushed ==> push_next(s, r).pushed
            &&& s.stage == PushStage::CheckingUpstream ==> push_next(s, ReplyView::Flag(true)).outcome
                == Some(
                Ok::<PushOutcomeView, GitErrorView>(
                    PushOutcomeView { branch: s.branch, upstream: UpstreamChangeView::Kept },
                ),
            )
        }),
{
    lemma_push_runs_are_consistent(replies);
}

/// A push ends well exactly when the remote has accepted the branch: what
/// happens to the upstream afterwards never turns it into a failure, and
/// a failure before leaves the upstream alone.
pub proof fn law_push_outcome_follows_remote(replies: Seq<ReplyView>)
    ensures
        ({
            let s = push_after(replies);
            s.stage == PushStage::Finished ==> (s.outcome matches Some(outcome) && (outcome is Ok
                <==> s.pushed))
        }),
{
    lemma_push_runs_are_consistent(replies);
}

} // verus!
