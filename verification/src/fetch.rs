//! Fetching: bring the remote-tracking references of `origin` up to date.
//! Neither the working tree nor a local branch is touched: the only action
//! that writes is the fetch itself.

use vstd::prelude::*;
use vstd::string::*;
use crate::error::{transfer_error, transfer_failure, GitError, GitErrorView};
use crate::reply::{as_failure, unexpected_reply_text, Reply, ReplyView};
use crate::text::join2;

verus! {

/// Where a fetch stands: which action it is waiting for.
#[derive(Clone, Copy, Debug, PartialEq, Eq, Structural)]
pub enum FetchStage {
    Opening,
    FindingRemote,
    Fetching,
    Finished,
}

/// The next thing to do on the repository.
#[derive(Debug, Clone, PartialEq, Eq)]
pub enum FetchAction {
    OpenRepository,
    /// Look up the remote and report its URL.
    FindRemote { name: String },
    /// Fetch what the remote's configured refspecs name.
    FetchConfigured,
    /// Nothing is left to do: the state holds the outcome.
    Finish,
}

pub enum FetchActionView {
    OpenRepository,
    FindRemote { name: Seq<char> },
    FetchConfigured,
    Finish,
}

impl View for FetchAction {
    type V = FetchActionView;

    open spec fn view(&self) -> FetchActionView {
        match *self {
            FetchAction::OpenRepository => FetchActionView::OpenRepository,
            FetchAction::FindRemote { name } => FetchActionView::FindRemote { name: name@ },
            FetchAction::FetchConfigured => FetchActionView::FetchConfigured,
            FetchAction::Finish => FetchActionView::Finish,
        }
    }
}

/// A fetch in progress.
#[derive(Debug, Clone, PartialEq, Eq)]
pub struct FetchState {
    pub stage: FetchStage,
    /// URL of the remote, empty while unknown.
    pub url: String,
    /// How the fetch ended, once it has: `Ok` when the remote was fetched.
    pub outcome: Option<Result<(), GitError>>,
}

pub struct FetchStateView {
    pub stage: FetchStage,
    pub url: Seq<char>,
    pub outcome: Option<Result<(), GitErrorView>>,
}

impl View for FetchState {
    type V = FetchStateView;

    open spec fn view(&self) -> FetchStateView {
        FetchStateView {
            stage: self.stage,
            url: self.url@,
            outcome: match self.outcome {
                None => None,
                Some(Ok(o)) => Some(Ok(())),
                Some(Err(e)) => Some(Err(e@)),
            },
        }
    }
}

/// The state in which every fetch begins.
pub open spec fn fetch_initial() -> FetchStateView {
    FetchStateView { stage: FetchStage::Opening, url: Seq::empty(), outcome: None }
}

/// The action that a fetch in state `s` is waiting for.
pub open spec fn fetch_pending(s: FetchStateView) -> FetchActionView {
    match s.stage {
        FetchStage::Opening => FetchActionView::OpenRepository,
        FetchStage::FindingRemote => FetchActionView::FindRemote { name: "origin"@ },
        FetchStage::Fetching => FetchActionView::FetchConfigured,
        FetchStage::Finished => FetchActionView::Finish,
    }
}

/// The failure reported when the action that `s` waits for fails with
/// `reason`.
pub open spec fn fetch_failure(s: FetchStateView, reason: Seq<char>, refused: bool) -> GitErrorView {
    match s.stage {
        FetchStage::Opening => GitErrorView::RepositoryUnavailable {
            detail: "Failed to open repository: "@ + reason,
        },
        FetchStage::FindingRemote => GitErrorView::RepositoryUnavailable {
            detail: "Failed to find remote 'origin': "@ + reason,
        },
        _ => transfer_failure("Failed to fetch: "@, reason, s.url, Seq::empty(), refused),
    }
}

/// `s` ended with `outcome`.
pub open spec fn fetch_stop(s: FetchStateView, outcome: Result<(), GitErrorView>) -> FetchStateView {
    FetchStateView { stage: FetchStage::Finished, outcome: Some(outcome), ..s }
}

/// The state that follows `s` when its action is answered with `r`.
pub open spec fn fetch_react(s: FetchStateView, r: ReplyView, refused: bool) -> FetchStateView {
    match (s.stage, r) {
        (FetchStage::Finished, _) => s,
        (_, ReplyView::Failed(reason)) => fetch_stop(s, Err(fetch_failure(s, reason, refused))),
        (FetchStage::Opening, ReplyView::Done) => FetchStateView {
            stage: FetchStage::FindingRemote,
            ..s
        },
        (FetchStage::FindingRemote, ReplyView::Text(url)) => FetchStateView {
            stage: FetchStage::Fetching,
            url,
            ..s
        },
        (FetchStage::FindingRemote, ReplyView::Nothing) => FetchStateView {
            stage: FetchStage::Fetching,
            ..s
        },
        (FetchStage::Fetching, ReplyView::Done) => fetch_stop(s, Ok(())),
        _ => fetch_stop(
            s,
            Err(GitErrorView::RepositoryUnavailable { detail: unexpected_reply_text() }),
        ),
    }
}

/// The state that follows `s` when its action is answered with `r`. A
/// refusal counts as a failure with the same reason; where the transfer
/// itself was refused, the run ends with `AuthenticationExhausted` instead of
/// `NetworkFailure`.
pub open spec fn fetch_next(s: FetchStateView, r: ReplyView) -> FetchStateView {
    fetch_react(s, as_failure(r), r is Refused)
}

/// The state in which a fetch begins: it waits for the repository to be
/// opened.
pub fn fetch_begin() -> (s: FetchState)
    ensures
        s@ == fetch_initial(),
{
    FetchState { stage: FetchStage::Opening, url: String::new(), outcome: None }
}

/// The action that the fetch is waiting for.
pub fn fetch_request(state: &FetchState) -> (a: FetchAction)
    ensures
        a@ == fetch_pending(state@),
{
    match state.stage {
        FetchStage::Opening => FetchAction::OpenRepository,
        FetchStage::FindingRemote => FetchAction::FindRemote { name: "origin".to_owned() },
        FetchStage::Fetching => FetchAction::FetchConfigured,
        FetchStage::Finished => FetchAction::Finish,
    }
}

fn stop(state: FetchState, outcome: Result<(), GitError>) -> (n: FetchState)
    ensures
        n@ == fetch_stop(
            state@,
            match outcome {
                Ok(o) => Ok(()),
                Err(e) => Err(e@),
            },
        ),
{
    let mut n = state;
    n.stage = FetchStage::Finished;
    n.outcome = Some(outcome);
    n
}

fn goto(state: FetchState, stage: FetchStage) -> (n: FetchState)
    ensures
        n@ == (FetchStateView { stage, ..state@ }),
{
    let mut n = state;
    n.stage = stage;
    n
}

fn failure_of(state: &FetchState, reason: &String, refused: bool) -> (e: GitError)
    ensures
        e@ == fetch_failure(state@, reason@, refused),
{
    match state.stage {
        FetchStage::Opening => GitError::RepositoryUnavailable {
            detail: join2("Failed to open repository: ", reason.as_str()),
        },
        FetchStage::FindingRemote => GitError::RepositoryUnavailable {
            detail: join2("Failed to find remote 'origin': ", reason.as_str()),
        },
        _ => {
            proof {
                reveal_strlit("");
                assert(""@ =~= Seq::<char>::empty());
            }
            transfer_error("Failed to fetch: ", reason.as_str(), state.url.as_str(), "", refused)
        },
    }
}

/// The state after the pending action was answered with `reply`.
pub fn fetch_advance(state: FetchState, reply: Reply) -> (n: FetchState)
    ensures
        n@ == fetch_next(state@, reply@),
{
    match reply {
        Reply::Refused(reason) => react(state, Reply::Failed(reason), true),
        other => react(state, other, false),
    }
}

fn react(state: FetchState, reply: Reply, refused: bool) -> (n: FetchState)
    requires
        !(reply is Refused),
    ensures
        n@ == fetch_react(state@, reply@, refused),
{
    let mut s = state;
    if s.stage == FetchStage::Finished {
        return s;
    }
    match reply {
        Reply::Failed(reason) => {
            let e = failure_of(&s, &reason, refused);
            stop(s, Err(e))
        },
        Reply::Done => {
            if s.stage == FetchStage::Opening {
                goto(s, FetchStage::FindingRemote)
            } else if s.stage == FetchStage::Fetching {
                stop(s, Ok(()))
            } else {
                confused(s)
            }
        },
        Reply::Text(url) => {
            if s.stage == FetchStage::FindingRemote {
                s.url = url;
                goto(s, FetchStage::Fetching)
            } else {
                confused(s)
            }
        },
        Reply::Nothing => {
            if s.stage == FetchStage::FindingRemote {
                goto(s, FetchStage::Fetching)
            } else {
                confused(s)
            }
        },
        _ => confused(s),
    }
}

fn confused(state: FetchState) -> (n: FetchState)
    ensures
        n@ == fetch_stop(
            state@,
            Err(GitErrorView::RepositoryUnavailable { detail: unexpected_reply_text() }),
        ),
{
    stop(
        state,
        Err(
            GitError::RepositoryUnavailable {
                detail: "Unexpected reply from the repository".to_owned(),
            },
        ),
    )
}

/// The state of a fetch that received `replies`, in this order, from its
/// beginning.
pub open spec fn fetch_after(replies: Seq<ReplyView>) -> FetchStateView
    decreases replies.len(),
{
    if replies.len() == 0 {
        fetch_initial()
    } else {
        fetch_next(fetch_after(replies.drop_last()), replies.last())
    }
}

/// A fetch ends well only by the acknowledgement of the fetch itself, and it
/// holds an outcome exactly when it has finished.
pub proof fn law_fetch_succeeds_by_fetching(replies: Seq<ReplyView>, r: ReplyView)
    ensures
        ({
            let s = fetch_after(replies);
            &&& s.stage == FetchStage::Finished <==> s.outcome is Some
            &&& s.stage != FetchStage::Finished && fetch_next(s, r).outcome == Some(
                Ok::<(), GitErrorView>(()),
            ) ==> fetch_pending(s) == FetchActionView::FetchConfigured && r == ReplyView::Done
        }),
    decreases replies.len(),
{
    if replies.len() > 0 {
        law_fetch_succeeds_by_fetching(replies.drop_last(), replies.last());
    }
}

} // verus!
