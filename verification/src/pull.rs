//! Pulling: fetch the branch from `origin`, then bring the local branch up to
//! it, by moving the branch pointer where local history is an ancestor of the
//! fetched commit, and by a two-parent merge commit where the two diverged.
//!
//! The decisions are a state machine. The caller carries out the action that
//! `pull_request` names, reports the result with `pull_advance`, and stops
//! when the action is `Finish`; the state then holds the outcome.

use vstd::prelude::*;
use vstd::string::*;
use crate::error::{transfer_error, transfer_failure, GitError, GitErrorView};
use crate::reply::{as_failure, unexpected_reply_text, Reply, ReplyView};
use crate::text::{join2, join3};

verus! {

/// Where a pull stands: which action it is waiting for.
#[derive(Clone, Copy, Debug, PartialEq, Eq, Structural)]
pub enum PullStage {
    Opening,
    ReadingHead,
    FindingRemote,
    Fetching,
    ResolvingRemote,
    ResolvingLocal,
    ReadingIndex,
    DiffingWorktree,
    CountingChanges,
    LoadingRemoteCommit,
    LoadingLocalCommit,
    FindingMergeBase,
    FindingHeadRef,
    MovingHead,
    Merging,
    WritingTree,
    LoadingTree,
    Signing,
    Committing,
    Finished,
}

/// How a pull ended when it succeeded.
#[derive(Debug, Clone, PartialEq, Eq)]
pub enum PullOutcome {
    /// The fetched commit is the local head already.
    UpToDate,
    /// The branch pointer was moved to the fetched commit.
    FastForwarded { to: String },
    /// A merge commit was created.
    Merged { commit: String },
}

pub enum PullOutcomeView {
    UpToDate,
    FastForwarded { to: Seq<char> },
    Merged { commit: Seq<char> },
}

impl View for PullOutcome {
    type V = PullOutcomeView;

    open spec fn view(&self) -> PullOutcomeView {
        match *self {
            PullOutcome::UpToDate => PullOutcomeView::UpToDate,
            PullOutcome::FastForwarded { to } => PullOutcomeView::FastForwarded { to: to@ },
            PullOutcome::Merged { commit } => PullOutcomeView::Merged { commit: commit@ },
        }
    }
}

/// The next thing to do on the repository.
#[derive(Debug, Clone, PartialEq, Eq)]
pub enum PullAction {
    OpenRepository,
    /// Read the short name of what HEAD points at.
    ReadHead,
    /// Look up the remote and report its URL.
    FindRemote { name: String },
    Fetch { refspec: String },
    /// Resolve a reference to the id of its commit.
    ResolveReference { name: String },
    ReadIndex,
    /// Compare the index with the working tree.
    DiffWorktree,
    /// Count the files that the comparison found changed.
    CountChangedFiles,
    LoadCommit { id: String },
    FindMergeBase { one: String, two: String },
    /// Look up the reference that `name` leads to: `name` itself where it
    /// points at a commit, else the reference at the end of the symbolic
    /// references that begin with it. For `HEAD` that is the current branch.
    FollowReference { name: String },
    /// Point the reference found last at `id`.
    SetTarget { id: String, reflog: String },
    /// Merge two commits in memory and report whether paths conflict.
    MergeCommits { ours: String, theirs: String },
    /// Write the merged index as a tree and report its id.
    WriteTree,
    LoadTree { id: String },
    MakeSignature { name: String, email: String },
    /// Create a commit and report its id.
    Commit {
        update_ref: String,
        message: String,
        tree: String,
        first_parent: String,
        second_parent: String,
    },
    /// Nothing is left to do: the state holds the outcome.
    Finish,
}

pub enum PullActionView {
    OpenRepository,
    ReadHead,
    FindRemote { name: Seq<char> },
    Fetch { refspec: Seq<char> },
    ResolveReference { name: Seq<char> },
    ReadIndex,
    DiffWorktree,
    CountChangedFiles,
    LoadCommit { id: Seq<char> },
    FindMergeBase { one: Seq<char>, two: Seq<char> },
    FollowReference { name: Seq<char> },
    SetTarget { id: Seq<char>, reflog: Seq<char> },
    MergeCommits { ours: Seq<char>, theirs: Seq<char> },
    WriteTree,
    LoadTree { id: Seq<char> },
    MakeSignature { name: Seq<char>, email: Seq<char> },
    Commit {
        update_ref: Seq<char>,
        message: Seq<char>,
        tree: Seq<char>,
        first_parent: Seq<char>,
        second_parent: Seq<char>,
    },
    Finish,
}

impl View for PullAction {
    type V = PullActionView;

    open spec fn view(&self) -> PullActionView {
        match *self {
            PullAction::OpenRepository => PullActionView::OpenRepository,
            PullAction::ReadHead => PullActionView::ReadHead,
            PullAction::FindRemote { name } => PullActionView::FindRemote { name: name@ },
            PullAction::Fetch { refspec } => PullActionView::Fetch { refspec: refspec@ },
            PullAction::ResolveReference { name } => PullActionView::ResolveReference {
                name: name@,
            },
            PullAction::ReadIndex => PullActionView::ReadIndex,
            PullAction::DiffWorktree => PullActionView::DiffWorktree,
            PullAction::CountChangedFiles => PullActionView::CountChangedFiles,
            PullAction::LoadCommit { id } => PullActionView::LoadCommit { id: id@ },
            PullAction::FindMergeBase { one, two } => PullActionView::FindMergeBase {
                one: one@,
                two: two@,
            },
            PullAction::FollowReference { name } => PullActionView::FollowReference { name: name@ },
            PullAction::SetTarget { id, reflog } => PullActionView::SetTarget {
                id: id@,
                reflog: reflog@,
            },
            PullAction::MergeCommits { ours, theirs } => PullActionView::MergeCommits {
                ours: ours@,
                theirs: theirs@,
            },
            PullAction::WriteTree => PullActionView::WriteTree,
            PullAction::LoadTree { id } => PullActionView::LoadTree { id: id@ },
            PullAction::MakeSignature { name, email } => PullActionView::MakeSignature {
                name: name@,
                email: email@,
            },
            PullAction::Commit { update_ref, message, tree, first_parent, second_parent } => {
                PullActionView::Commit {
                    update_ref: update_ref@,
                    message: message@,
                    tree: tree@,
                    first_parent: first_parent@,
                    second_parent: second_parent@,
                }
            },
            PullAction::Finish => PullActionView::Finish,
        }
    }
}

/// A pull in progress: the stage it is at and what it has learned so far.
#[derive(Debug, Clone, PartialEq, Eq)]
pub struct PullState {
    pub stage: PullStage,
    /// Short name of the current branch.
    pub branch: String,
    /// URL of the remote, empty while unknown.
    pub url: String,
    /// Id of the fetched commit.
    pub remote_tip: String,
    /// Id of the commit that HEAD pointed at when the pull began.
    pub local_head: String,
    /// Number of files that differ between index and working tree.
    pub files_changed: usize,
    /// The merge base of local head and fetched commit, if one was reported.
    pub merge_base: Option<String>,
    /// Id of the merged tree.
    pub tree: String,
    /// How the pull ended, once it has.
    pub outcome: Option<Result<PullOutcome, GitError>>,
}

pub struct PullStateView {
    pub stage: PullStage,
    pub branch: Seq<char>,
    pub url: Seq<char>,
    pub remote_tip: Seq<char>,
    pub local_head: Seq<char>,
    pub files_changed: nat,
    pub merge_base: Option<Seq<char>>,
    pub tree: Seq<char>,
    pub outcome: Option<Result<PullOutcomeView, GitErrorView>>,
}

/// The view of an outcome, or of its absence.
pub open spec fn pull_outcome_view(
    outcome: Option<Result<PullOutcome, GitError>>,
) -> Option<Result<PullOutcomeView, GitErrorView>> {
    match outcome {
        None => None,
        Some(Ok(o)) => Some(Ok(o@)),
        Some(Err(e)) => Some(Err(e@)),
    }
}

impl View for PullState {
    type V = PullStateView;

    open spec fn view(&self) -> PullStateView {
        PullStateView {
            stage: self.stage,
            branch: self.branch@,
            url: self.url@,
            remote_tip: self.remote_tip@,
            local_head: self.local_head@,
            files_changed: self.files_changed as nat,
            merge_base: match self.merge_base {
                Some(b) => Some(b@),
                None => None,
            },
            tree: self.tree@,
            outcome: pull_outcome_view(self.outcome),
        }
    }
}

/// The refspec that fetches `branch` into its remote-tracking reference.
pub open spec fn fetch_refspec(branch: Seq<char>) -> Seq<char> {
    "refs/heads/"@ + branch + ":refs/remotes/origin/"@ + branch
}

/// The remote-tracking reference of `branch`.
pub open spec fn tracking_ref(branch: Seq<char>) -> Seq<char> {
    "refs/remotes/origin/"@ + branch
}

/// The message of the commit that merges the fetched `branch`.
pub open spec fn merge_message(branch: Seq<char>) -> Seq<char> {
    "Merge branch 'origin/"@ + branch + "'"@
}

/// The text shown for a successful pull.
pub open spec fn pull_outcome_text(o: PullOutcomeView) -> Seq<char> {
    match o {
        PullOutcomeView::UpToDate => "Already up to date"@,
        PullOutcomeView::FastForwarded { to } => "Successfully pulled (fast-forward)"@,
        PullOutcomeView::Merged { commit } => "Successfully pulled and merged (commit: "@ + commit
            + ")"@,
    }
}

/// The state in which every pull begins.
pub open spec fn pull_initial() -> PullStateView {
    PullStateView {
        stage: PullStage::Opening,
        branch: Seq::empty(),
        url: Seq::empty(),
        remote_tip: Seq::empty(),
        local_head: Seq::empty(),
        files_changed: 0,
        merge_base: None,
        tree: Seq::empty(),
        outcome: None,
    }
}

/// The action that a pull in state `s` is waiting for.
pub open spec fn pull_pending(s: PullStateView) -> PullActionView {
    match s.stage {
        PullStage::Opening => PullActionView::OpenRepository,
        PullStage::ReadingHead => PullActionView::ReadHead,
        PullStage::FindingRemote => PullActionView::FindRemote { name: "origin"@ },
        PullStage::Fetching => PullActionView::Fetch { refspec: fetch_refspec(s.branch) },
        PullStage::ResolvingRemote => PullActionView::ResolveReference {
            name: tracking_ref(s.branch),
        },
        PullStage::ResolvingLocal => PullActionView::ResolveReference { name: "HEAD"@ },
        PullStage::ReadingIndex => PullActionView::ReadIndex,
        PullStage::DiffingWorktree => PullActionView::DiffWorktree,
        PullStage::CountingChanges => PullActionView::CountChangedFiles,
        PullStage::LoadingRemoteCommit => PullActionView::LoadCommit { id: s.remote_tip },
        PullStage::LoadingLocalCommit => PullActionView::LoadCommit { id: s.local_head },
        PullStage::FindingMergeBase => PullActionView::FindMergeBase {
            one: s.local_head,
            two: s.remote_tip,
        },
        PullStage::FindingHeadRef => PullActionView::FollowReference { name: "HEAD"@ },
        PullStage::MovingHead => PullActionView::SetTarget {
            id: s.remote_tip,
            reflog: "Fast-forward merge"@,
        },
        PullStage::Merging => PullActionView::MergeCommits {
            ours: s.local_head,
            theirs: s.remote_tip,
        },
        PullStage::WritingTree => PullActionView::WriteTree,
        PullStage::LoadingTree => PullActionView::LoadTree { id: s.tree },
        PullStage::Signing => PullActionView::MakeSignature {
            name: "GitLite User"@,
            email: "gitlite@example.com"@,
        },
        PullStage::Committing => PullActionView::Commit {
            update_ref: "HEAD"@,
            message: merge_message(s.branch),
            tree: s.tree,
            first_parent: s.local_head,
            second_parent: s.remote_tip,
        },
        PullStage::Finished => PullActionView::Finish,
    }
}

/// What is put before the repository's reason when the action of `stage`
/// fails.
pub open spec fn pull_failure_prefix(stage: PullStage) -> Seq<char> {
    match stage {
        PullStage::Opening => "Failed to open repository: "@,
        PullStage::ReadingHead => "Failed to get HEAD: "@,
        PullStage::FindingRemote => "Failed to find remote 'origin': "@,
        PullStage::Fetching => "Failed to fetch: "@,
        PullStage::ResolvingRemote => "Failed to get remote branch reference: "@,
        PullStage::ResolvingLocal => "Failed to get local HEAD reference: "@,
        PullStage::ReadingIndex => "Failed to get index: "@,
        PullStage::DiffingWorktree => "Failed to create diff: "@,
        PullStage::CountingChanges => "Failed to get diff stats: "@,
        PullStage::LoadingRemoteCommit => "Failed to find remote commit: "@,
        PullStage::LoadingLocalCommit => "Failed to find local commit: "@,
        PullStage::FindingMergeBase => "Failed to find merge base: "@,
        PullStage::FindingHeadRef => "Failed to find HEAD reference: "@,
        PullStage::MovingHead => "Failed to fast-forward: "@,
        PullStage::Merging => "Failed to merge: "@,
        PullStage::WritingTree => "Failed to write merge tree: "@,
        PullStage::LoadingTree => "Failed to find merge tree: "@,
        PullStage::Signing => "Failed to create signature: "@,
        PullStage::Committing => "Failed to create merge commit: "@,
        PullStage::Finished => Seq::empty(),
    }
}

/// Whether the action of `stage` looks up a reference or a commit.
pub open spec fn pull_stage_reads_ref(stage: PullStage) -> bool {
    stage == PullStage::ReadingHead || stage == PullStage::ResolvingRemote || stage
        == PullStage::ResolvingLocal || stage == PullStage::LoadingRemoteCommit || stage
        == PullStage::LoadingLocalCommit || stage == PullStage::FindingHeadRef
}

/// The failure reported when the action that `s` waits for fails with
/// `reason`; `refused` tells whether the remote accepted no credential.
pub open spec fn pull_failure(s: PullStateView, reason: Seq<char>, refused: bool) -> GitErrorView {
    if s.stage == PullStage::Fetching {
        transfer_failure(
            pull_failure_prefix(s.stage),
            reason,
            s.url,
            fetch_refspec(s.branch),
            refused,
        )
    } else if pull_stage_reads_ref(s.stage) {
        GitErrorView::RefNotFound { detail: pull_failure_prefix(s.stage) + reason }
    } else {
        GitErrorView::RepositoryUnavailable { detail: pull_failure_prefix(s.stage) + reason }
    }
}

/// `s` ended with `outcome`.
pub open spec fn pull_stop(
    s: PullStateView,
    outcome: Result<PullOutcomeView, GitErrorView>,
) -> PullStateView {
    PullStateView { stage: PullStage::Finished, outcome: Some(outcome), ..s }
}

/// `s` moved on to `stage`.
pub open spec fn pull_goto(s: PullStateView, stage: PullStage) -> PullStateView {
    PullStateView { stage, ..s }
}

/// `s` ended because the reply does not answer its action.
pub open spec fn pull_confused(s: PullStateView) -> PullStateView {
    pull_stop(s, Err(GitErrorView::RepositoryUnavailable { detail: unexpected_reply_text() }))
}

/// The text of the failure reported for a merge that left conflicts.
pub open spec fn merge_conflict_text(branch: Seq<char>) -> Seq<char> {
    "Failed to merge: conflicts with 'origin/"@ + branch + "'"@
}

/// The state after the action that `s` waits for succeeded with reply `r`.
pub open spec fn pull_progress(s: PullStateView, r: ReplyView) -> PullStateView {
    match (s.stage, r) {
        (PullStage::Opening, ReplyView::Done) => pull_goto(s, PullStage::ReadingHead),
        (PullStage::ReadingHead, ReplyView::Text(name)) => PullStateView {
            stage: PullStage::FindingRemote,
            branch: name,
            ..s
        },
        (PullStage::ReadingHead, ReplyView::Nothing) => PullStateView {
            stage: PullStage::FindingRemote,
            branch: "main"@,
            ..s
        },
        (PullStage::FindingRemote, ReplyView::Text(url)) => PullStateView {
            stage: PullStage::Fetching,
            url,
            ..s
        },
        (PullStage::FindingRemote, ReplyView::Nothing) => pull_goto(s, PullStage::Fetching),
        (PullStage::Fetching, ReplyView::Done) => pull_goto(s, PullStage::ResolvingRemote),
        (PullStage::ResolvingRemote, ReplyView::Text(id)) => PullStateView {
            stage: PullStage::ResolvingLocal,
            remote_tip: id,
            ..s
        },
        (PullStage::ResolvingLocal, ReplyView::Text(id)) => if id == s.remote_tip {
            pull_stop(PullStateView { local_head: id, ..s }, Ok(PullOutcomeView::UpToDate))
        } else {
            PullStateView { stage: PullStage::ReadingIndex, local_head: id, ..s }
        },
        (PullStage::ReadingIndex, ReplyView::Done) => pull_goto(s, PullStage::DiffingWorktree),
        (PullStage::DiffingWorktree, ReplyView::Done) => pull_goto(s, PullStage::CountingChanges),
        (PullStage::CountingChanges, ReplyView::Count(n)) => if n > 0 {
            pull_stop(PullStateView { files_changed: n, ..s }, Err(GitErrorView::UncommittedChanges))
        } else {
            PullStateView { stage: PullStage::LoadingRemoteCommit, files_changed: n, ..s }
        },
        (PullStage::LoadingRemoteCommit, ReplyView::Done) => pull_goto(
            s,
            PullStage::LoadingLocalCommit,
        ),
        (PullStage::LoadingLocalCommit, ReplyView::Done) => pull_goto(
            s,
            PullStage::FindingMergeBase,
        ),
        (PullStage::FindingMergeBase, ReplyView::Text(base)) => if base == s.local_head {
            PullStateView { stage: PullStage::FindingHeadRef, merge_base: Some(base), ..s }
        } else {
            PullStateView { stage: PullStage::Merging, merge_base: Some(base), ..s }
        },
        (PullStage::FindingMergeBase, ReplyView::Nothing) => PullStateView {
            stage: PullStage::Merging,
            merge_base: None,
            ..s
        },
        (PullStage::FindingHeadRef, ReplyView::Done) => pull_goto(s, PullStage::MovingHead),
        (PullStage::MovingHead, ReplyView::Done) => pull_stop(
            s,
            Ok(PullOutcomeView::FastForwarded { to: s.remote_tip }),
        ),
        (PullStage::Merging, ReplyView::Flag(conflicts)) => if conflicts {
            pull_stop(s, Err(GitErrorView::MergeConflict { detail: merge_conflict_text(s.branch) }))
        } else {
            pull_goto(s, PullStage::WritingTree)
        },
        (PullStage::WritingTree, ReplyView::Text(id)) => PullStateView {
            stage: PullStage::LoadingTree,
            tree: id,
            ..s
        },
        (PullStage::LoadingTree, ReplyView::Done) => pull_goto(s, PullStage::Signing),
        (PullStage::Signing, ReplyView::Done) => pull_goto(s, PullStage::Committing),
        (PullStage::Committing, ReplyView::Text(id)) => pull_stop(
            s,
            Ok(PullOutcomeView::Merged { commit: id }),
        ),
        _ => pull_confused(s),
    }
}

/// The state that follows `s` when its action is answered with `r`, a
/// refusal being handed in as a failure with `refused` set.
pub open spec fn pull_react(s: PullStateView, r: ReplyView, refused: bool) -> PullStateView {
    if s.stage == PullStage::Finished {
        s
    } else {
        match r {
            ReplyView::Failed(reason) => if s.stage == PullStage::FindingMergeBase {
                PullStateView { stage: PullStage::Merging, merge_base: None, ..s }
            } else {
                pull_stop(s, Err(pull_failure(s, reason, refused)))
            },
            _ => pull_progress(s, r),
        }
    }
}

/// The state that follows `s` when its action is answered with `r`.
///
/// A finished pull stays as it is. A failed action ends the pull with the
/// failure of its stage, except the search for a merge base: without a merge
/// base the histories count as diverged. A fetch that fails because the
/// remote accepted no credential ends the pull with
/// `AuthenticationExhausted`, any other failed fetch with `NetworkFailure`.
pub open spec fn pull_next(s: PullStateView, r: ReplyView) -> PullStateView {
    pull_react(s, as_failure(r), r is Refused)
}

impl PullOutcome {
    /// The text shown for this outcome.
    pub fn message(&self) -> (r: String)
        ensures
            r@ == pull_outcome_text(self@),
    {
        match self {
            PullOutcome::UpToDate => "Already up to date".to_owned(),
            PullOutcome::FastForwarded { to } => "Successfully pulled (fast-forward)".to_owned(),
            PullOutcome::Merged { commit } => join3(
                "Successfully pulled and merged (commit: ",
                commit.as_str(),
                ")",
            ),
        }
    }
}

/// The state in which a pull begins: it waits for the repository to be
/// opened.
pub fn pull_begin() -> (s: PullState)
    ensures
        s@ == pull_initial(),
{
    PullState {
        stage: PullStage::Opening,
        branch: String::new(),
        url: String::new(),
        remote_tip: String::new(),
        local_head: String::new(),
        files_changed: 0,
        merge_base: None,
        tree: String::new(),
        outcome: None,
    }
}

fn branch_refspec(branch: &String) -> (r: String)
    ensures
        r@ == fetch_refspec(branch@),
{
    let mut r = "refs/heads/".to_owned();
    r.append(branch.as_str());
    r.append(":refs/remotes/origin/");
    r.append(branch.as_str());
    r
}

/// The action that the pull is waiting for.
pub fn pull_request(state: &PullState) -> (a: PullAction)
    ensures
        a@ == pull_pending(state@),
{
    match state.stage {
        PullStage::Opening => PullAction::OpenRepository,
        PullStage::ReadingHead => PullAction::ReadHead,
        PullStage::FindingRemote => PullAction::FindRemote { name: "origin".to_owned() },
        PullStage::Fetching => PullAction::Fetch { refspec: branch_refspec(&state.branch) },
        PullStage::ResolvingRemote => PullAction::ResolveReference {
            name: join2("refs/remotes/origin/", state.branch.as_str()),
        },
        PullStage::ResolvingLocal => PullAction::ResolveReference { name: "HEAD".to_owned() },
        PullStage::ReadingIndex => PullAction::ReadIndex,
        PullStage::DiffingWorktree => PullAction::DiffWorktree,
        PullStage::CountingChanges => PullAction::CountChangedFiles,
        PullStage::LoadingRemoteCommit => PullAction::LoadCommit { id: state.remote_tip.clone() },
        PullStage::LoadingLocalCommit => PullAction::LoadCommit { id: state.local_head.clone() },
        PullStage::FindingMergeBase => PullAction::FindMergeBase {
            one: state.local_head.clone(),
            two: state.remote_tip.clone(),
        },
        PullStage::FindingHeadRef => PullAction::FollowReference { name: "HEAD".to_owned() },
        PullStage::MovingHead => PullAction::SetTarget {
            id: state.remote_tip.clone(),
            reflog: "Fast-forward merge".to_owned(),
        },
        PullStage::Merging => PullAction::MergeCommits {
            ours: state.local_head.clone(),
            theirs: state.remote_tip.clone(),
        },
        PullStage::WritingTree => PullAction::WriteTree,
        PullStage::LoadingTree => PullAction::LoadTree { id: state.tree.clone() },
        PullStage::Signing => PullAction::MakeSignature {
            name: "GitLite User".to_owned(),
            email: "gitlite@example.com".to_owned(),
        },
        PullStage::Committing => PullAction::Commit {
            update_ref: "HEAD".to_owned(),
            message: join3("Merge branch 'origin/", state.branch.as_str(), "'"),
            tree: state.tree.clone(),
            first_parent: state.local_head.clone(),
            second_parent: state.remote_tip.clone(),
        },
        PullStage::Finished => PullAction::Finish,
    }
}

fn failure_prefix(stage: PullStage) -> (r: &'static str)
    ensures
        r@ == pull_failure_prefix(stage),
{
    match stage {
        PullStage::Opening => "Failed to open repository: ",
        PullStage::ReadingHead => "Failed to get HEAD: ",
        PullStage::FindingRemote => "Failed to find remote 'origin': ",
        PullStage::Fetching => "Failed to fetch: ",
        PullStage::ResolvingRemote => "Failed to get remote branch reference: ",
        PullStage::ResolvingLocal => "Failed to get local HEAD reference: ",
        PullStage::ReadingIndex => "Failed to get index: ",
        PullStage::DiffingWorktree => "Failed to create diff: ",
        PullStage::CountingChanges => "Failed to get diff stats: ",
        PullStage::LoadingRemoteCommit => "Failed to find remote commit: ",
        PullStage::LoadingLocalCommit => "Failed to find local commit: ",
        PullStage::FindingMergeBase => "Failed to find merge base: ",
        PullStage::FindingHeadRef => "Failed to find HEAD reference: ",
        PullStage::MovingHead => "Failed to fast-forward: ",
        PullStage::Merging => "Failed to merge: ",
        PullStage::WritingTree => "Failed to write merge tree: ",
        PullStage::LoadingTree => "Failed to find merge tree: ",
        PullStage::Signing => "Failed to create signature: ",
        PullStage::Committing => "Failed to create merge commit: ",
        PullStage::Finished => {
            proof {
                reveal_strlit("");
            }
            ""
        },
    }
}

fn reads_ref(stage: PullStage) -> (r: bool)
    ensures
        r == pull_stage_reads_ref(stage),
{
    match stage {
        PullStage::ReadingHead => true,
        PullStage::ResolvingRemote => true,
        PullStage::ResolvingLocal => true,
        PullStage::LoadingRemoteCommit => true,
        PullStage::LoadingLocalCommit => true,
        PullStage::FindingHeadRef => true,
        _ => false,
    }
}

fn failure_of(state: &PullState, reason: &String, refused: bool) -> (e: GitError)
    ensures
        e@ == pull_failure(state@, reason@, refused),
{
    let prefix = failure_prefix(state.stage);
    if state.stage == PullStage::Fetching {
        let refspec = branch_refspec(&state.branch);
        transfer_error(prefix, reason.as_str(), state.url.as_str(), refspec.as_str(), refused)
    } else if reads_ref(state.stage) {
        GitError::RefNotFound { detail: join2(prefix, reason.as_str()) }
    } else {
        GitError::RepositoryUnavailable { detail: join2(prefix, reason.as_str()) }
    }
}

fn stop(state: PullState, outcome: Result<PullOutcome, GitError>) -> (n: PullState)
    ensures
        n@ == pull_stop(
            state@,
            match outcome {
                Ok(o) => Ok(o@),
                Err(e) => Err(e@),
            },
        ),
{
    let mut n = state;
    n.stage = PullStage::Finished;
    n.outcome = Some(outcome);
    n
}

fn goto(state: PullState, stage: PullStage) -> (n: PullState)
    ensures
        n@ == pull_goto(state@, stage),
{
    let mut n = state;
    n.stage = stage;
    n
}

fn confused(state: PullState) -> (n: PullState)
    ensures
        n@ == pull_confused(state@),
{
    stop(
        state,
        Err(
            GitError::RepositoryUnavailable {
                detail: "Unexpected reply from the repository".to_owned(),
            },
        ),
    )
}

fn progress(state: PullState, reply: Reply) -> (n: PullState)
    requires
        !(reply is Failed),
        !(reply is Refused),
        state.stage != PullStage::Finished,
    ensures
        n@ == pull_progress(state@, reply@),
{
    let mut s = state;
    match s.stage {
        PullStage::Opening => match reply {
            Reply::Done => goto(s, PullStage::ReadingHead),
            _ => confused(s),
        },
        PullStage::ReadingHead => match reply {
            Reply::Text(name) => {
                s.branch = name;
                goto(s, PullStage::FindingRemote)
            },
            Reply::Nothing => {
                s.branch = "main".to_owned();
                goto(s, PullStage::FindingRemote)
            },
            _ => confused(s),
        },
        PullStage::FindingRemote => match reply {
            Reply::Text(url) => {
                s.url = url;
                goto(s, PullStage::Fetching)
            },
            Reply::Nothing => goto(s, PullStage::Fetching),
            _ => confused(s),
        },
        PullStage::Fetching => match reply {
            Reply::Done => goto(s, PullStage::ResolvingRemote),
            _ => confused(s),
        },
        PullStage::ResolvingRemote => match reply {
            Reply::Text(id) => {
                s.remote_tip = id;
                goto(s, PullStage::ResolvingLocal)
            },
            _ => confused(s),
        },
        PullStage::ResolvingLocal => match reply {
            Reply::Text(id) => {
                let same = id == s.remote_tip;
                s.local_head = id;
                if same {
                    stop(s, Ok(PullOutcome::UpToDate))
                } else {
                    goto(s, PullStage::ReadingIndex)
                }
            },
            _ => confused(s),
        },
        PullStage::ReadingIndex => match reply {
            Reply::Done => goto(s, PullStage::DiffingWorktree),
            _ => confused(s),
        },
        PullStage::DiffingWorktree => match reply {
            Reply::Done => goto(s, PullStage::CountingChanges),
            _ => confused(s),
        },
        PullStage::CountingChanges => match reply {
            Reply::Count(n) => {
                s.files_changed = n;
                if n > 0 {
                    stop(s, Err(GitError::UncommittedChanges))
                } else {
                    goto(s, PullStage::LoadingRemoteCommit)
                }
            },
            _ => confused(s),
        },
        PullStage::LoadingRemoteCommit => match reply {
            Reply::Done => goto(s, PullStage::LoadingLocalCommit),
            _ => confused(s),
        },
        PullStage::LoadingLocalCommit => match reply {
            Reply::Done => goto(s, PullStage::FindingMergeBase),
            _ => confused(s),
        },
        PullStage::FindingMergeBase => match reply {
            Reply::Text(base) => {
                let ancestor = base == s.local_head;
                s.merge_base = Some(base);
                if ancestor {
                    goto(s, PullStage::FindingHeadRef)
                } else {
                    goto(s, PullStage::Merging)
                }
            },
            Reply::Nothing => {
                s.merge_base = None;
                goto(s, PullStage::Merging)
            },
            _ => confused(s),
        },
        PullStage::FindingHeadRef => match reply {
            Reply::Done => goto(s, PullStage::MovingHead),
            _ => confused(s),
        },
        PullStage::MovingHead => match reply {
            Reply::Done => {
                let to = s.remote_tip.clone();
                stop(s, Ok(PullOutcome::FastForwarded { to }))
            },
            _ => confused(s),
        },
        PullStage::Merging => match reply {
            Reply::Flag(conflicts) => {
                if conflicts {
                    let detail = join3(
                        "Failed to merge: conflicts with 'origin/",
                        s.branch.as_str(),
                        "'",
                    );
                    stop(s, Err(GitError::MergeConflict { detail }))
                } else {
                    goto(s, PullStage::WritingTree)
                }
            },
            _ => confused(s),
        },
        PullStage::WritingTree => match reply {
            Reply::Text(id) => {
                s.tree = id;
                goto(s, PullStage::LoadingTree)
            },
            _ => confused(s),
        },
        PullStage::LoadingTree => match reply {
            Reply::Done => goto(s, PullStage::Signing),
            _ => confused(s),
        },
        PullStage::Signing => match reply {
            Reply::Done => goto(s, PullStage::Committing),
            _ => confused(s),
        },
        PullStage::Committing => match reply {
            Reply::Text(id) => stop(s, Ok(PullOutcome::Merged { commit: id })),
            _ => confused(s),
        },
        PullStage::Finished => s,
    }
}

fn fail(state: PullState, reason: String, refused: bool) -> (n: PullState)
    requires
        state.stage != PullStage::Finished,
    ensures
        n@ == pull_react(state@, ReplyView::Failed(reason@), refused),
{
    if state.stage == PullStage::FindingMergeBase {
        let mut s = state;
        s.merge_base = None;
        goto(s, PullStage::Merging)
    } else {
        let e = failure_of(&state, &reason, refused);
        stop(state, Err(e))
    }
}

/// The state after the pending action was answered with `reply`.
pub fn pull_advance(state: PullState, reply: Reply) -> (n: PullState)
    ensures
        n@ == pull_next(state@, reply@),
{
    if state.stage == PullStage::Finished {
        return state;
    }
    match reply {
        Reply::Failed(reason) => fail(state, reason, false),
        Reply::Refused(reason) => fail(state, reason, true),
        other => progress(state, other),
    }
}

} // verus!
