//! The records exchanged with callers, each with the mathematical view that
//! the contracts speak of.

use vstd::prelude::*;

verus! {

/// One commit as shown in a history listing.
#[derive(Debug, Clone, PartialEq, Eq)]
pub struct CommitInfo {
    pub id: String,
    pub message: String,
    pub author: String,
    pub email: String,
    pub date: String,
    pub short_id: String,
}

pub struct CommitInfoView {
    pub id: Seq<char>,
    pub message: Seq<char>,
    pub author: Seq<char>,
    pub email: Seq<char>,
    pub date: Seq<char>,
    pub short_id: Seq<char>,
}

impl View for CommitInfo {
    type V = CommitInfoView;

    open spec fn view(&self) -> CommitInfoView {
        CommitInfoView {
            id: self.id@,
            message: self.message@,
            author: self.author@,
            email: self.email@,
            date: self.date@,
            short_id: self.short_id@,
        }
    }
}

/// One branch of a repository.
#[derive(Debug, Clone, PartialEq, Eq)]
pub struct BranchInfo {
    pub name: String,
    pub is_current: bool,
    pub is_remote: bool,
}

pub struct BranchInfoView {
    pub name: Seq<char>,
    pub is_current: bool,
    pub is_remote: bool,
}

impl View for BranchInfo {
    type V = BranchInfoView;

    open spec fn view(&self) -> BranchInfoView {
        BranchInfoView { name: self.name@, is_current: self.is_current, is_remote: self.is_remote }
    }
}

/// One changed path with the kind of change and its line counts.
#[derive(Debug, Clone, PartialEq, Eq)]
pub struct FileChange {
    pub path: String,
    pub status: String,
    pub additions: i32,
    pub deletions: i32,
}

pub struct FileChangeView {
    pub path: Seq<char>,
    pub status: Seq<char>,
    pub additions: int,
    pub deletions: int,
}

impl View for FileChange {
    type V = FileChangeView;

    open spec fn view(&self) -> FileChangeView {
        FileChangeView {
            path: self.path@,
            status: self.status@,
            additions: self.additions as int,
            deletions: self.deletions as int,
        }
    }
}

/// The three-way partition of the paths that differ somewhere between the
/// last commit, the index and the working tree.
#[derive(Debug, Clone, PartialEq, Eq)]
pub struct WorkspaceStatus {
    pub staged_files: Vec<FileChange>,
    pub unstaged_files: Vec<FileChange>,
    pub untracked_files: Vec<String>,
}

pub struct WorkspaceStatusView {
    pub staged_files: Seq<FileChangeView>,
    pub unstaged_files: Seq<FileChangeView>,
    pub untracked_files: Seq<Seq<char>>,
}

impl View for WorkspaceStatus {
    type V = WorkspaceStatusView;

    open spec fn view(&self) -> WorkspaceStatusView {
        WorkspaceStatusView {
            staged_files: changes_view(self.staged_files@),
            unstaged_files: changes_view(self.unstaged_files@),
            untracked_files: texts_view(self.untracked_files@),
        }
    }
}

/// One saved snapshot of uncommitted work.
#[derive(Debug, Clone, PartialEq, Eq)]
pub struct StashInfo {
    pub id: String,
    pub message: String,
    pub timestamp: String,
    pub branch: String,
}

pub struct StashInfoView {
    pub id: Seq<char>,
    pub message: Seq<char>,
    pub timestamp: Seq<char>,
    pub branch: Seq<char>,
}

impl View for StashInfo {
    type V = StashInfoView;

    open spec fn view(&self) -> StashInfoView {
        StashInfoView {
            id: self.id@,
            message: self.message@,
            timestamp: self.timestamp@,
            branch: self.branch@,
        }
    }
}

/// A commit together with the files it changed.
#[derive(Debug, Clone, PartialEq, Eq)]
pub struct CommitDiff {
    pub commit: CommitInfo,
    pub files: Vec<FileChange>,
}

pub struct CommitDiffView {
    pub commit: CommitInfoView,
    pub files: Seq<FileChangeView>,
}

impl View for CommitDiff {
    type V = CommitDiffView;

    open spec fn view(&self) -> CommitDiffView {
        CommitDiffView { commit: self.commit@, files: changes_view(self.files@) }
    }
}

/// One entry of the list of recently opened repositories.
#[derive(Debug, Clone, PartialEq, Eq)]
pub struct RecentRepo {
    pub path: String,
    pub name: String,
    pub last_opened: String,
}

pub struct RecentRepoView {
    pub path: Seq<char>,
    pub name: Seq<char>,
    pub last_opened: Seq<char>,
}

impl View for RecentRepo {
    type V = RecentRepoView;

    open spec fn view(&self) -> RecentRepoView {
        RecentRepoView { path: self.path@, name: self.name@, last_opened: self.last_opened@ }
    }
}

/// What is shown of a repository when it is opened.
#[derive(Debug, Clone, PartialEq, Eq)]
pub struct RepoInfo {
    pub path: String,
    pub current_branch: String,
    pub branches: Vec<BranchInfo>,
    pub commits: Vec<CommitInfo>,
    pub ahead: u32,
    pub behind: u32,
    pub remote_url: Option<String>,
}

pub struct RepoInfoView {
    pub path: Seq<char>,
    pub current_branch: Seq<char>,
    pub branches: Seq<BranchInfoView>,
    pub commits: Seq<CommitInfoView>,
    pub ahead: nat,
    pub behind: nat,
    pub remote_url: Option<Seq<char>>,
}

impl View for RepoInfo {
    type V = RepoInfoView;

    open spec fn view(&self) -> RepoInfoView {
        RepoInfoView {
            path: self.path@,
            current_branch: self.current_branch@,
            branches: self.branches@.map_values(|b: BranchInfo| b@),
            commits: commits_view(self.commits@),
            ahead: self.ahead as nat,
            behind: self.behind as nat,
            remote_url: text_option_view(self.remote_url),
        }
    }
}

/// The views of a sequence of file changes.
pub open spec fn changes_view(changes: Seq<FileChange>) -> Seq<FileChangeView> {
    changes.map_values(|c: FileChange| c@)
}

/// The views of a sequence of commits.
pub open spec fn commits_view(commits: Seq<CommitInfo>) -> Seq<CommitInfoView> {
    commits.map_values(|c: CommitInfo| c@)
}

/// The views of a sequence of strings.
pub open spec fn texts_view(texts: Seq<String>) -> Seq<Seq<char>> {
    texts.map_values(|t: String| t@)
}

/// The view of an optional string.
pub open spec fn text_option_view(text: Option<String>) -> Option<Seq<char>> {
    match text {
        Some(t) => Some(t@),
        None => None,
    }
}

} // verus!
