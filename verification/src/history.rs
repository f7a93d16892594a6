//! What is shown of a repository's history: pages of commits, the files of
//! one commit, and the summary given when a repository is opened.

use vstd::prelude::*;
use vstd::string::*;
use crate::error::{GitError, GitErrorView};
use crate::model::{
    changes_view, commits_view, text_option_view, BranchInfo, BranchInfoView, CommitInfo,
    CommitInfoView, FileChange, FileChangeView, RepoInfo, RepoInfoView,
};
use crate::status::{
    change_of, deltas_view, make_change, ChangeKind, DeltaEntry, DeltaEntryView, DeltaKind,
};
use crate::text::{first_line, first_line_of, join2, leading, leading_chars};

verus! {

/// The text of a time, given in seconds since the first of January 1970,
/// written in UTC after `pattern`; nothing where the calendar cannot hold the
/// seconds.
pub uninterp spec fn utc_time_text(seconds: int, pattern: Seq<char>) -> Option<Seq<char>>;

/// The pattern after which the time of a commit is written: year, month and
/// day with hyphens, then hour, minute and second with colons.
pub open spec fn commit_date_pattern() -> Seq<char> {
    "%Y-%m-%d %H:%M:%S"@
}

/// `chrono::DateTime::from_timestamp` with no nanoseconds, then
/// `DateTime::format` with `pattern` and the `Display` text of what it gives.
/// The time zone is UTC, so the text depends on seconds and pattern alone.
/// The pattern is held to the one of commit dates: `Display` fails on a
/// pattern that is not well formed.
#[verifier::external_body]
fn format_utc(seconds: i64, pattern: &str) -> (r: Option<String>)
    requires
        pattern@ == commit_date_pattern(),
    ensures
        text_option_view(r) == utc_time_text(seconds as int, pattern@),
{
    match chrono::DateTime::from_timestamp(seconds, 0) {
        Some(time) => Some(time.format(pattern).to_string()),
        None => None,
    }
}

/// The text of a time where there is one, else that of the first second of
/// 1970, else that second written out.
pub open spec fn text_or_epoch(time: Option<Seq<char>>, epoch: Option<Seq<char>>) -> Seq<char> {
    match time {
        Some(t) => t,
        None => match epoch {
            Some(e) => e,
            None => "1970-01-01 00:00:00"@,
        },
    }
}

/// The text of a commit's time: the time in UTC as year, month, day, hour,
/// minute and second, and the first second of 1970 where the calendar cannot
/// hold the seconds.
pub open spec fn commit_date_text(seconds: int) -> Seq<char> {
    text_or_epoch(
        utc_time_text(seconds, commit_date_pattern()),
        utc_time_text(0, commit_date_pattern()),
    )
}

/// A commit as read from the repository: what is missing there is `None`.
#[derive(Debug, Clone, PartialEq, Eq)]
pub struct RawCommit {
    pub id: String,
    pub message: Option<String>,
    pub author_name: Option<String>,
    pub author_email: Option<String>,
    /// Time of the commit in seconds since the first of January 1970.
    pub seconds: i64,
}

pub struct RawCommitView {
    pub id: Seq<char>,
    pub message: Option<Seq<char>>,
    pub author_name: Option<Seq<char>>,
    pub author_email: Option<Seq<char>>,
    pub seconds: int,
}

impl View for RawCommit {
    type V = RawCommitView;

    open spec fn view(&self) -> RawCommitView {
        RawCommitView {
            id: self.id@,
            message: text_option_view(self.message),
            author_name: text_option_view(self.author_name),
            author_email: text_option_view(self.author_email),
            seconds: self.seconds as int,
        }
    }
}

/// `text`, or `fallback` where there is none.
pub open spec fn text_or(text: Option<Seq<char>>, fallback: Seq<char>) -> Seq<char> {
    match text {
        Some(t) => t,
        None => fallback,
    }
}

/// How a commit is shown under a given text for its time: the first line of
/// its message, the first seven characters of its id as the short id, and a
/// stand-in for each part that is missing.
pub open spec fn commit_shown_dated(raw: RawCommitView, date: Seq<char>) -> CommitInfoView {
    CommitInfoView {
        id: raw.id,
        message: first_line_of(text_or(raw.message, "No message"@)),
        author: text_or(raw.author_name, "Unknown"@),
        email: text_or(raw.author_email, Seq::empty()),
        date,
        short_id: leading(raw.id, 7),
    }
}

/// How a commit is shown, its time as the text of its seconds.
pub open spec fn commit_shown(raw: RawCommitView) -> CommitInfoView {
    commit_shown_dated(raw, commit_date_text(raw.seconds))
}

/// The part of a history walk that makes one page.
#[derive(Clone, Copy, Debug, PartialEq, Eq, Structural)]
pub struct PageCursor {
    /// How many commits the page holds at most.
    pub limit: usize,
    /// How many commits come before the page.
    pub offset: usize,
    /// How many commits were passed over so far.
    pub skipped: usize,
    /// How many commits were taken so far.
    pub taken: usize,
}

/// What to do with the next commit of the walk.
#[derive(Clone, Copy, Debug, PartialEq, Eq, Structural)]
pub enum PageStep {
    /// Pass over it, unread.
    Skip,
    /// Read it and add it to the page.
    Take,
    /// The page is full: end the walk.
    Stop,
}

/// What is done with the commit at position `k` of the walk, counted from
/// zero: the page is made of the positions from `offset` up to, and not
/// including, `offset + limit`.
pub open spec fn page_decision(limit: int, offset: int, k: int) -> PageStep {
    if k < offset {
        PageStep::Skip
    } else if k - offset < limit {
        PageStep::Take
    } else {
        PageStep::Stop
    }
}

/// The cursor after `k` commits of the walk were passed to it, none of them
/// after the end of the page.
pub open spec fn cursor_at(limit: usize, offset: usize, k: int) -> PageCursor {
    PageCursor {
        limit,
        offset,
        skipped: (if k < offset { k } else { offset as int }) as usize,
        taken: (if k < offset { 0 } else { k - offset }) as usize,
    }
}

/// What the cursor says of the next commit.
pub open spec fn cursor_decision(c: PageCursor) -> PageStep {
    if c.skipped < c.offset {
        PageStep::Skip
    } else if c.taken < c.limit {
        PageStep::Take
    } else {
        PageStep::Stop
    }
}

/// The cursor after the next commit was dealt with.
pub open spec fn cursor_moved(c: PageCursor) -> PageCursor {
    match cursor_decision(c) {
        PageStep::Skip => PageCursor { skipped: (c.skipped + 1) as usize, ..c },
        PageStep::Take => PageCursor { taken: (c.taken + 1) as usize, ..c },
        PageStep::Stop => c,
    }
}

/// How many commits are ahead of the upstream and how many behind it: the
/// counts of the graph where there is an upstream, none where there is not.
/// A count beyond the largest number that fits is shown as that number.
pub open spec fn divergence_shown(counts: Option<(usize, usize)>) -> (nat, nat) {
    match counts {
        Some((ahead, behind)) => (
            if ahead <= u32::MAX { ahead as nat } else { u32::MAX as nat },
            if behind <= u32::MAX { behind as nat } else { u32::MAX as nat },
        ),
        None => (0, 0),
    }
}

/// How a file of a commit's diff is listed: under the path of the new side
/// unless that is missing or empty, then under that of the old side; with one
/// added line, or one deleted line for a deleted file.
pub open spec fn commit_change(d: DeltaEntryView) -> FileChangeView {
    let new_path = text_or(d.new_path, Seq::empty());
    let old_path = text_or(d.old_path, Seq::empty());
    let path = if new_path.len() == 0 { old_path } else { new_path };
    match d.kind {
        DeltaKind::Added => change_of(path, ChangeKind::Added, 1, 0),
        DeltaKind::Modified => change_of(path, ChangeKind::Modified, 1, 0),
        DeltaKind::Deleted => change_of(path, ChangeKind::Deleted, 0, 1),
        DeltaKind::Renamed => change_of(path, ChangeKind::Renamed, 1, 0),
        DeltaKind::Copied => change_of(path, ChangeKind::Copied, 1, 0),
        _ => change_of(path, ChangeKind::Unknown, 1, 0),
    }
}

/// How many commits the summary of a repository holds at most.
pub const SUMMARY_COMMITS: usize = 50;

/// The commits of a summary: the first fifty of those at hand.
pub open spec fn summary_commits(commits: Seq<CommitInfoView>) -> Seq<CommitInfoView> {
    if commits.len() <= SUMMARY_COMMITS {
        commits
    } else {
        commits.take(SUMMARY_COMMITS as int)
    }
}

/// How a local branch is listed: under its name, or as `unknown` where the
/// name cannot be read; current where its name is that of the current branch.
pub open spec fn branch_shown(name: Option<Seq<char>>, current: Seq<char>) -> BranchInfoView {
    BranchInfoView {
        name: text_or(name, "unknown"@),
        is_current: text_or(name, "unknown"@) == current,
        is_remote: false,
    }
}

/// What is shown of a repository: of its history the first fifty commits
/// at most.
pub open spec fn repository_shown(
    path: Seq<char>,
    head: Option<Seq<char>>,
    branch_names: Seq<Option<Seq<char>>>,
    commits: Seq<CommitInfoView>,
    counts: Option<(usize, usize)>,
    remote_url: Option<Seq<char>>,
) -> RepoInfoView {
    RepoInfoView {
        path,
        current_branch: text_or(head, "detached"@),
        branches: branch_names.map_values(
            |n: Option<Seq<char>>| branch_shown(n, text_or(head, "detached"@)),
        ),
        commits: summary_commits(commits),
        ahead: divergence_shown(counts).0,
        behind: divergence_shown(counts).1,
        remote_url,
    }
}

/// How HEAD is set after a checkout.
#[derive(Debug, Clone, PartialEq, Eq)]
pub enum HeadUpdate {
    /// HEAD follows the reference of this name.
    Attach { reference: String },
    /// HEAD points at the commit of this id, detached.
    Detach { id: String },
}

pub enum HeadUpdateView {
    Attach { reference: Seq<char> },
    Detach { id: Seq<char> },
}

impl View for HeadUpdate {
    type V = HeadUpdateView;

    open spec fn view(&self) -> HeadUpdateView {
        match *self {
            HeadUpdate::Attach { reference } => HeadUpdateView::Attach { reference: reference@ },
            HeadUpdate::Detach { id } => HeadUpdateView::Detach { id: id@ },
        }
    }
}

fn or_text(text: &Option<String>, fallback: &str) -> (r: String)
    ensures
        r@ == text_or(text_option_view(*text), fallback@),
{
    match text {
        Some(t) => t.clone(),
        None => fallback.to_owned(),
    }
}

/// How a commit is shown under `date` as the text of its time.
pub fn commit_info_dated(raw: &RawCommit, date: String) -> (info: CommitInfo)
    ensures
        info@ == commit_shown_dated(raw@, date@),
{
    let message = or_text(&raw.message, "No message");
    let email = match &raw.author_email {
        Some(e) => e.clone(),
        None => String::new(),
    };
    CommitInfo {
        id: raw.id.clone(),
        message: first_line(message.as_str()),
        author: or_text(&raw.author_name, "Unknown"),
        email,
        date,
        short_id: leading_chars(raw.id.as_str(), 7),
    }
}

/// The text of a time where there is one, else that of the first second of
/// 1970, else that second written out.
pub fn date_or_epoch(time: Option<String>, epoch: Option<String>) -> (r: String)
    ensures
        r@ == text_or_epoch(text_option_view(time), text_option_view(epoch)),
{
    match time {
        Some(t) => t,
        None => match epoch {
            Some(e) => e,
            None => "1970-01-01 00:00:00".to_owned(),
        },
    }
}

/// The text of a commit's time.
pub fn commit_date(seconds: i64) -> (r: String)
    ensures
        r@ == commit_date_text(seconds as int),
{
    match format_utc(seconds, "%Y-%m-%d %H:%M:%S") {
        Some(t) => t,
        None => date_or_epoch(None, format_utc(0, "%Y-%m-%d %H:%M:%S")),
    }
}

/// How a commit is shown.
pub fn make_commit_info(raw: &RawCommit) -> (info: CommitInfo)
    ensures
        info@ == commit_shown(raw@),
{
    commit_info_dated(raw, commit_date(raw.seconds))
}

/// The cursor for the page of `limit` commits after the first `offset`
/// ones: fifty where no limit is given, from the beginning where no offset
/// is.
pub fn page_begin(limit: Option<usize>, offset: Option<usize>) -> (c: PageCursor)
    ensures
        c == cursor_at(
            match limit {
                Some(l) => l,
                None => 50usize,
            },
            match offset {
                Some(o) => o,
                None => 0usize,
            },
            0,
        ),
{
    let limit = match limit {
        Some(l) => l,
        None => 50,
    };
    let offset = match offset {
        Some(o) => o,
        None => 0,
    };
    PageCursor { limit, offset, skipped: 0, taken: 0 }
}

/// The cursor for the history shown in the summary of a repository: the
/// first fifty commits.
pub fn summary_page() -> (c: PageCursor)
    ensures
        c == cursor_at(SUMMARY_COMMITS, 0, 0),
{
    PageCursor { limit: SUMMARY_COMMITS, offset: 0, skipped: 0, taken: 0 }
}

/// What to do with the next commit of the walk; the cursor moves on
/// accordingly.
pub fn page_step(cursor: &mut PageCursor) -> (step: PageStep)
    ensures
        step == cursor_decision(*old(cursor)),
        *final(cursor) == cursor_moved(*old(cursor)),
{
    if cursor.skipped < cursor.offset {
        cursor.skipped = cursor.skipped + 1;
        PageStep::Skip
    } else if cursor.taken < cursor.limit {
        cursor.taken = cursor.taken + 1;
        PageStep::Take
    } else {
        PageStep::Stop
    }
}

/// The page is a window of the walk. Passed the commits of a walk one by
/// one, the cursor skips the commit at position `k` where `k` is below the
/// offset, takes it where it is one of the `limit` positions from the offset
/// on, and stops at the first position after those.
pub proof fn law_page_is_a_window(limit: usize, offset: usize, k: int)
    requires
        0 <= k <= offset + limit,
    ensures
        cursor_decision(cursor_at(limit, offset, k)) == page_decision(
            limit as int,
            offset as int,
            k,
        ),
        k < offset + limit ==> cursor_moved(cursor_at(limit, offset, k)) == cursor_at(
            limit,
            offset,
            k + 1,
        ),
        k == offset + limit ==> cursor_moved(cursor_at(limit, offset, k)) == cursor_at(
            limit,
            offset,
            k,
        ),
{
}

fn shown_count(n: usize) -> (r: u32)
    ensures
        r as nat == (if n <= u32::MAX { n as nat } else { u32::MAX as nat }),
{
    if n > 4294967295 {
        4294967295u32
    } else {
        n as u32
    }
}

/// How many commits the branch is ahead of its upstream and how many behind
/// it: the two counts of the commit graph, or zero and zero where the branch
/// has no upstream.
pub fn ahead_behind(counts: Option<(usize, usize)>) -> (r: (u32, u32))
    ensures
        (r.0 as nat, r.1 as nat) == divergence_shown(counts),
        counts is None ==> r == (0u32, 0u32),
        counts matches Some(c) ==> (c.0 <= u32::MAX && c.1 <= u32::MAX ==> r.0 == c.0 && r.1
            == c.1),
{
    match counts {
        Some((ahead, behind)) => (shown_count(ahead), shown_count(behind)),
        None => (0, 0),
    }
}

/// How a file of a commit's diff is listed.
pub fn commit_file(delta: &DeltaEntry) -> (c: FileChange)
    ensures
        c@ == commit_change(delta@),
{
    let new_path = match &delta.new_path {
        Some(p) => p.clone(),
        None => String::new(),
    };
    let path = if new_path.as_str().unicode_len() == 0 {
        match &delta.old_path {
            Some(p) => p.clone(),
            None => String::new(),
        }
    } else {
        new_path
    };
    match delta.kind {
        DeltaKind::Added => make_change(path, ChangeKind::Added, 1, 0),
        DeltaKind::Modified => make_change(path, ChangeKind::Modified, 1, 0),
        DeltaKind::Deleted => make_change(path, ChangeKind::Deleted, 0, 1),
        DeltaKind::Renamed => make_change(path, ChangeKind::Renamed, 1, 0),
        DeltaKind::Copied => make_change(path, ChangeKind::Copied, 1, 0),
        _ => make_change(path, ChangeKind::Unknown, 1, 0),
    }
}

/// The files that a commit changed, one for each delta of its diff against
/// its first parent, in the order of the diff.
pub fn commit_files(deltas: &Vec<DeltaEntry>) -> (files: Vec<FileChange>)
    ensures
        changes_view(files@) == deltas_view(deltas@).map_values(
            |d: DeltaEntryView| commit_change(d),
        ),
{
    let mut files: Vec<FileChange> = Vec::new();
    let mut i: usize = 0;
    while i < deltas.len()
        invariant
            i <= deltas.len(),
            files@.len() == i,
            forall|j: int| 0 <= j < i ==> (#[trigger] files@[j])@ == commit_change(deltas@[j]@),
        decreases deltas.len() - i,
    {
        files.push(commit_file(&deltas[i]));
        i += 1;
    }
    proof {
        assert(changes_view(files@) =~= deltas_view(deltas@).map_values(
            |d: DeltaEntryView| commit_change(d),
        ));
    }
    files
}

/// What is shown of a repository: its path, the short name of what HEAD
/// points at (`detached` where it has none), its local branches, the first
/// fifty commits of its history at most, how far the current branch is from
/// its upstream, and the URL of `origin`.
pub fn repository_info(
    path: &str,
    head: Option<String>,
    branch_names: &Vec<Option<String>>,
    commits: Vec<CommitInfo>,
    counts: Option<(usize, usize)>,
    remote_url: Option<String>,
) -> (info: RepoInfo)
    ensures
        info@ == repository_shown(
            path@,
            text_option_view(head),
            branch_names@.map_values(|n: Option<String>| text_option_view(n)),
            commits_view(commits@),
            counts,
            text_option_view(remote_url),
        ),
{
    let current_branch = or_text(&head, "detached");
    let mut branches: Vec<BranchInfo> = Vec::new();
    let mut i: usize = 0;
    while i < branch_names.len()
        invariant
            i <= branch_names.len(),
            branches@.len() == i,
            current_branch@ == text_or(text_option_view(head), "detached"@),
            forall|j: int|
                0 <= j < i ==> (#[trigger] branches@[j])@ == branch_shown(
                    text_option_view(branch_names@[j]),
                    current_branch@,
                ),
        decreases branch_names.len() - i,
    {
        let name = or_text(&branch_names[i], "unknown");
        let is_current = name == current_branch;
        branches.push(BranchInfo { name, is_current, is_remote: false });
        i += 1;
    }
    let (ahead, behind) = ahead_behind(counts);
    let ghost handed = commits_view(commits@);
    let mut commits = commits;
    if commits.len() > SUMMARY_COMMITS {
        commits.truncate(SUMMARY_COMMITS);
    }
    proof {
        assert(commits_view(commits@) =~= summary_commits(handed));
    }
    let info = RepoInfo {
        path: path.to_owned(),
        current_branch,
        branches,
        commits,
        ahead,
        behind,
        remote_url,
    };
    proof {
        let names = branch_names@.map_values(|n: Option<String>| text_option_view(n));
        assert(info@.branches =~= names.map_values(
            |n: Option<Seq<char>>| branch_shown(n, text_or(text_option_view(head), "detached"@)),
        ));
    }
    info
}

/// How HEAD is set after the working tree was brought to a revision: it
/// follows the reference where the revision names one, and points at the
/// commit itself where it does not.
pub fn plan_checkout(reference: Option<String>, id: String) -> (r: HeadUpdate)
    ensures
        r@ == (match reference {
            Some(name) => HeadUpdateView::Attach { reference: name@ },
            None => HeadUpdateView::Detach { id: id@ },
        }),
{
    match reference {
        Some(name) => HeadUpdate::Attach { reference: name },
        None => HeadUpdate::Detach { id },
    }
}

/// The failure of a checkout whose revision could not be found.
pub fn checkout_failure(reason: &str) -> (e: GitError)
    ensures
        e@ == (GitErrorView::RefNotFound { detail: "Failed to find branch: "@ + reason@ }),
{
    GitError::RefNotFound { detail: join2("Failed to find branch: ", reason) }
}

/// The text shown after a checkout of `revision`.
pub fn checkout_message(revision: &str) -> (r: String)
    ensures
        r@ == "Successfully checked out to "@ + revision@,
{
    join2("Successfully checked out to ", revision)
}

/// Whether a commit can be made: `NothingStaged` where the index is empty.
pub fn check_staged(index_entries: usize) -> (r: Result<(), GitError>)
    ensures
        r is Ok <==> index_entries > 0,
        r matches Err(e) ==> e@ == GitErrorView::NothingStaged,
{
    if index_entries == 0 {
        Err(GitError::NothingStaged)
    } else {
        Ok(())
    }
}

/// The text shown after a commit with id `id` was made.
pub fn commit_message(id: &str) -> (r: String)
    ensures
        r@ == "Successfully committed with ID: "@ + id@,
{
    join2("Successfully committed with ID: ", id)
}

/// The text shown after `file` was staged.
pub fn staged_message(file: &str) -> (r: String)
    ensures
        r@ == "Successfully staged "@ + file@,
{
    join2("Successfully staged ", file)
}

/// The text shown after `file` was taken out of the index.
pub fn unstaged_message(file: &str) -> (r: String)
    ensures
        r@ == "Successfully unstaged "@ + file@,
{
    join2("Successfully unstaged ", file)
}

} // verus!
