//! The status classifier: from the per-path status flags and from the two
//! diffs (last commit against index, index against working tree) to the lists
//! of staged, unstaged and untracked paths.
//!
//! The signals may contradict each other; they are reconciled by precedence.
//! The flags come first, entry by entry, then the diffs, delta by delta. In
//! the staged list the first candidate for a path is kept. On the side of the
//! working tree the first signal for a path decides whether the path is an
//! unstaged change or untracked, so that no path is both.

use vstd::prelude::*;
use vstd::string::*;
use crate::error::{GitError, GitErrorView};
use crate::model::{
    changes_view, text_option_view, texts_view, FileChange, FileChangeView, WorkspaceStatus,
    WorkspaceStatusView,
};
use crate::text::{forward_slashes, join2, with_forward_slashes};

verus! {

/// The kinds of change that a listing names.
#[derive(Clone, Copy, Debug, PartialEq, Eq, Structural)]
pub enum ChangeKind {
    Added,
    Modified,
    Deleted,
    Renamed,
    Copied,
    Unknown,
}

/// What the repository says of one path: how the index differs from the last
/// commit (`index_*`) and how the working tree differs from the index
/// (`wt_*`).
#[derive(Clone, Copy, Debug, PartialEq, Eq, Structural)]
pub struct StatusFlags {
    pub index_new: bool,
    pub index_modified: bool,
    pub index_deleted: bool,
    pub index_renamed: bool,
    pub index_typechange: bool,
    pub wt_new: bool,
    pub wt_modified: bool,
    pub wt_deleted: bool,
    pub wt_typechange: bool,
    pub wt_renamed: bool,
    pub ignored: bool,
    pub conflicted: bool,
}

/// One path with its flags, and whether the last commit holds the path
/// (false in a repository without commits).
#[derive(Debug, Clone, PartialEq, Eq)]
pub struct StatusEntry {
    pub path: String,
    pub flags: StatusFlags,
    pub tracked_in_head: bool,
}

pub struct StatusEntryView {
    pub path: Seq<char>,
    pub flags: StatusFlags,
    pub tracked_in_head: bool,
}

impl View for StatusEntry {
    type V = StatusEntryView;

    open spec fn view(&self) -> StatusEntryView {
        StatusEntryView {
            path: self.path@,
            flags: self.flags,
            tracked_in_head: self.tracked_in_head,
        }
    }
}

/// The kinds of difference that a diff reports for one file.
#[derive(Clone, Copy, Debug, PartialEq, Eq, Structural)]
pub enum DeltaKind {
    Unmodified,
    Added,
    Deleted,
    Modified,
    Renamed,
    Copied,
    Ignored,
    Untracked,
    Typechange,
    Unreadable,
    Conflicted,
}

/// One file of a diff: its path on the new side and on the old side, as far
/// as each exists, and the kind of difference.
#[derive(Debug, Clone, PartialEq, Eq)]
pub struct DeltaEntry {
    pub new_path: Option<String>,
    pub old_path: Option<String>,
    pub kind: DeltaKind,
}

pub struct DeltaEntryView {
    pub new_path: Option<Seq<char>>,
    pub old_path: Option<Seq<char>>,
    pub kind: DeltaKind,
}

impl View for DeltaEntry {
    type V = DeltaEntryView;

    open spec fn view(&self) -> DeltaEntryView {
        DeltaEntryView {
            new_path: text_option_view(self.new_path),
            old_path: text_option_view(self.old_path),
            kind: self.kind,
        }
    }
}

/// What one signal says of a path on the side of the working tree.
pub enum WorktreeSignal {
    /// Nothing to list.
    Quiet,
    /// The path is changed and not staged.
    Unstaged(FileChangeView),
    /// The path is new to the repository.
    Untracked(Seq<char>),
}

/// The views of a sequence of status entries.
pub open spec fn entries_view(entries: Seq<StatusEntry>) -> Seq<StatusEntryView> {
    entries.map_values(|e: StatusEntry| e@)
}

/// The views of a sequence of deltas.
pub open spec fn deltas_view(deltas: Seq<DeltaEntry>) -> Seq<DeltaEntryView> {
    deltas.map_values(|d: DeltaEntry| d@)
}

/// The word by which a kind of change is listed.
pub open spec fn change_label(kind: ChangeKind) -> Seq<char> {
    match kind {
        ChangeKind::Added => "added"@,
        ChangeKind::Modified => "modified"@,
        ChangeKind::Deleted => "deleted"@,
        ChangeKind::Renamed => "renamed"@,
        ChangeKind::Copied => "copied"@,
        ChangeKind::Unknown => "unknown"@,
    }
}

/// The listing of `path` as changed in the way of `kind`.
pub open spec fn change_of(
    path: Seq<char>,
    kind: ChangeKind,
    additions: int,
    deletions: int,
) -> FileChangeView {
    FileChangeView { path, status: change_label(kind), additions, deletions }
}

/// What the index flags of an entry propose for the staged list. Of several
/// flags the first in the order new, modified, deleted, renamed decides.
pub open spec fn staged_by_flags(e: StatusEntryView) -> Option<FileChangeView> {
    if e.flags.index_new {
        Some(change_of(e.path, ChangeKind::Added, 1, 0))
    } else if e.flags.index_modified {
        Some(change_of(e.path, ChangeKind::Modified, 1, 0))
    } else if e.flags.index_deleted {
        Some(change_of(e.path, ChangeKind::Deleted, 0, 1))
    } else if e.flags.index_renamed {
        Some(change_of(e.path, ChangeKind::Renamed, 1, 0))
    } else {
        None
    }
}

/// What the working-tree flags of an entry propose.
///
/// A file that is new in the working tree is untracked, unless the last
/// commit holds its path and the index has not dropped it: then it counts as
/// modified. A deletion staged over a file that exists again is thus shown as
/// staged deletion and untracked file. A modification or deletion that the
/// index flags show as well is left to the diff.
pub open spec fn worktree_by_flags(e: StatusEntryView) -> WorktreeSignal {
    if e.flags.wt_new {
        if e.tracked_in_head && !e.flags.index_deleted {
            WorktreeSignal::Unstaged(change_of(e.path, ChangeKind::Modified, 1, 0))
        } else {
            WorktreeSignal::Untracked(e.path)
        }
    } else if e.flags.wt_modified {
        if !e.flags.index_modified {
            WorktreeSignal::Unstaged(change_of(e.path, ChangeKind::Modified, 1, 0))
        } else {
            WorktreeSignal::Quiet
        }
    } else if e.flags.wt_deleted {
        if !e.flags.index_deleted {
            WorktreeSignal::Unstaged(change_of(e.path, ChangeKind::Deleted, 0, 1))
        } else {
            WorktreeSignal::Quiet
        }
    } else if e.flags.wt_typechange {
        WorktreeSignal::Unstaged(change_of(e.path, ChangeKind::Modified, 1, 0))
    } else {
        WorktreeSignal::Quiet
    }
}

/// The path under which a delta is listed: that of the new side, else that of
/// the old side, else the empty path; with forward slashes.
pub open spec fn delta_path(d: DeltaEntryView) -> Seq<char> {
    match d.new_path {
        Some(p) => forward_slashes(p),
        None => match d.old_path {
            Some(p) => forward_slashes(p),
            None => Seq::empty(),
        },
    }
}

/// Whether a delta tells of a difference at all: an unmodified file and an
/// ignored one are none.
pub open spec fn delta_tells(kind: DeltaKind) -> bool {
    kind != DeltaKind::Unmodified && kind != DeltaKind::Ignored
}

/// The kind of change under which a delta is listed: its own kind where the
/// file was added, modified, deleted or renamed, and modified for a copy, a
/// change of type, an unreadable or a conflicted file.
pub open spec fn delta_change(kind: DeltaKind) -> ChangeKind {
    match kind {
        DeltaKind::Added => ChangeKind::Added,
        DeltaKind::Deleted => ChangeKind::Deleted,
        DeltaKind::Renamed => ChangeKind::Renamed,
        DeltaKind::Modified => ChangeKind::Modified,
        DeltaKind::Copied => ChangeKind::Modified,
        DeltaKind::Typechange => ChangeKind::Modified,
        DeltaKind::Unreadable => ChangeKind::Modified,
        DeltaKind::Conflicted => ChangeKind::Modified,
        DeltaKind::Unmodified => ChangeKind::Modified,
        DeltaKind::Ignored => ChangeKind::Modified,
        DeltaKind::Untracked => ChangeKind::Modified,
    }
}

/// What a delta between last commit and index proposes for the staged list:
/// a staged change, unless the delta tells of no difference or of an
/// untracked file.
pub open spec fn staged_by_delta(d: DeltaEntryView) -> Option<FileChangeView> {
    if d.kind == DeltaKind::Untracked || !delta_tells(d.kind) {
        None
    } else {
        Some(change_of(delta_path(d), delta_change(d.kind), 1, 0))
    }
}

/// What a delta between index and working tree proposes: an untracked path,
/// an unstaged change, or nothing where it tells of no difference.
pub open spec fn worktree_by_delta(d: DeltaEntryView) -> WorktreeSignal {
    if d.kind == DeltaKind::Untracked {
        WorktreeSignal::Untracked(delta_path(d))
    } else if !delta_tells(d.kind) {
        WorktreeSignal::Quiet
    } else {
        WorktreeSignal::Unstaged(change_of(delta_path(d), delta_change(d.kind), 1, 0))
    }
}

/// The staged changes that the flags propose, in the order of the entries.
pub open spec fn staged_flag_candidates(entries: Seq<StatusEntryView>) -> Seq<FileChangeView>
    decreases entries.len(),
{
    if entries.len() == 0 {
        Seq::empty()
    } else {
        let before = staged_flag_candidates(entries.drop_last());
        match staged_by_flags(entries.last()) {
            Some(c) => before.push(c),
            None => before,
        }
    }
}

/// The staged changes that a diff proposes, in the order of its deltas.
pub open spec fn staged_delta_candidates(deltas: Seq<DeltaEntryView>) -> Seq<FileChangeView>
    decreases deltas.len(),
{
    if deltas.len() == 0 {
        Seq::empty()
    } else {
        let before = staged_delta_candidates(deltas.drop_last());
        match staged_by_delta(deltas.last()) {
            Some(c) => before.push(c),
            None => before,
        }
    }
}

/// Some change in `changes` is listed under `path`.
pub open spec fn lists_path(changes: Seq<FileChangeView>, path: Seq<char>) -> bool {
    exists|i: int| 0 <= i < changes.len() && (#[trigger] changes[i]).path == path
}

/// Of the changes in `candidates`, the first for each path, in their order.
pub open spec fn first_per_path(candidates: Seq<FileChangeView>) -> Seq<FileChangeView>
    decreases candidates.len(),
{
    if candidates.len() == 0 {
        Seq::empty()
    } else {
        let kept = first_per_path(candidates.drop_last());
        if lists_path(kept, candidates.last().path) {
            kept
        } else {
            kept.push(candidates.last())
        }
    }
}

/// All candidates for the staged list, those of the flags first.
pub open spec fn staged_candidates(
    entries: Seq<StatusEntryView>,
    staged_deltas: Seq<DeltaEntryView>,
) -> Seq<FileChangeView> {
    staged_flag_candidates(entries) + staged_delta_candidates(staged_deltas)
}

/// All signals on the working tree in the order of their precedence: those
/// of the flags, entry by entry, then those of the diff, delta by delta.
pub open spec fn worktree_signals(
    entries: Seq<StatusEntryView>,
    worktree_deltas: Seq<DeltaEntryView>,
) -> Seq<WorktreeSignal> {
    entries.map_values(|e: StatusEntryView| worktree_by_flags(e)) + worktree_deltas.map_values(
        |d: DeltaEntryView| worktree_by_delta(d),
    )
}

/// The two lists of the working tree.
pub struct WorktreeLists {
    pub unstaged: Seq<FileChangeView>,
    pub untracked: Seq<Seq<char>>,
}

/// `path` stands in one of the two lists.
pub open spec fn lists_either(lists: WorktreeLists, path: Seq<char>) -> bool {
    lists_path(lists.unstaged, path) || lists.untracked.contains(path)
}

/// The two lists that the signals make, reconciled: for each path the first
/// signal decides whether the path is an unstaged change or untracked, and
/// every later signal for that path is passed over, whatever it says.
pub open spec fn worktree_lists(signals: Seq<WorktreeSignal>) -> WorktreeLists
    decreases signals.len(),
{
    if signals.len() == 0 {
        WorktreeLists { unstaged: Seq::empty(), untracked: Seq::empty() }
    } else {
        let before = worktree_lists(signals.drop_last());
        match signals.last() {
            WorktreeSignal::Quiet => before,
            WorktreeSignal::Unstaged(c) => if lists_either(before, c.path) {
                before
            } else {
                WorktreeLists { unstaged: before.unstaged.push(c), ..before }
            },
            WorktreeSignal::Untracked(p) => if lists_either(before, p) {
                before
            } else {
                WorktreeLists { untracked: before.untracked.push(p), ..before }
            },
        }
    }
}

/// The status of a working copy. The staged list holds the first candidate
/// for each path; the unstaged and the untracked list hold, for each path,
/// what the first signal on the working tree says of it, so that no path
/// stands in both.
pub open spec fn classification(
    entries: Seq<StatusEntryView>,
    staged_deltas: Seq<DeltaEntryView>,
    worktree_deltas: Seq<DeltaEntryView>,
) -> WorkspaceStatusView {
    WorkspaceStatusView {
        staged_files: first_per_path(staged_candidates(entries, staged_deltas)),
        unstaged_files: worktree_lists(worktree_signals(entries, worktree_deltas)).unstaged,
        untracked_files: worktree_lists(worktree_signals(entries, worktree_deltas)).untracked,
    }
}

impl ChangeKind {
    /// The word by which this kind of change is listed.
    pub fn label(self) -> (r: String)
        ensures
            r@ == change_label(self),
    {
        match self {
            ChangeKind::Added => "added".to_owned(),
            ChangeKind::Modified => "modified".to_owned(),
            ChangeKind::Deleted => "deleted".to_owned(),
            ChangeKind::Renamed => "renamed".to_owned(),
            ChangeKind::Copied => "copied".to_owned(),
            ChangeKind::Unknown => "unknown".to_owned(),
        }
    }
}

/// The listing of `path` as changed in the way of `kind`.
pub fn make_change(path: String, kind: ChangeKind, additions: i32, deletions: i32) -> (c:
    FileChange)
    ensures
        c@ == change_of(path@, kind, additions as int, deletions as int),
{
    FileChange { path, status: kind.label(), additions, deletions }
}

/// Whether the last commit has to be searched for the path of an entry with
/// these flags: only a file that is new in the working tree needs it.
pub fn needs_head_lookup(flags: StatusFlags) -> (r: bool)
    ensures
        r == flags.wt_new,
{
    flags.wt_new
}

/// The path under which a delta is listed.
pub fn path_of_delta(delta: &DeltaEntry) -> (r: String)
    ensures
        r@ == delta_path(delta@),
{
    match &delta.new_path {
        Some(p) => with_forward_slashes(p.as_str()),
        None => match &delta.old_path {
            Some(p) => with_forward_slashes(p.as_str()),
            None => String::new(),
        },
    }
}

/// The kind of change under which a delta is listed.
pub fn change_of_delta(kind: DeltaKind) -> (r: ChangeKind)
    ensures
        r == delta_change(kind),
{
    match kind {
        DeltaKind::Added => ChangeKind::Added,
        DeltaKind::Deleted => ChangeKind::Deleted,
        DeltaKind::Renamed => ChangeKind::Renamed,
        _ => ChangeKind::Modified,
    }
}

/// Whether a delta tells of a difference at all.
pub fn tells_of_difference(kind: DeltaKind) -> (r: bool)
    ensures
        r == delta_tells(kind),
{
    kind != DeltaKind::Unmodified && kind != DeltaKind::Ignored
}

/// The view of a change, or of its absence.
pub open spec fn change_option_view(change: Option<FileChange>) -> Option<FileChangeView> {
    match change {
        Some(c) => Some(c@),
        None => None,
    }
}

/// What one signal proposes for the working tree, with the values at hand.
pub enum Proposal {
    Quiet,
    Unstaged(FileChange),
    Untracked(String),
}

impl View for Proposal {
    type V = WorktreeSignal;

    open spec fn view(&self) -> WorktreeSignal {
        match *self {
            Proposal::Quiet => WorktreeSignal::Quiet,
            Proposal::Unstaged(c) => WorktreeSignal::Unstaged(c@),
            Proposal::Untracked(p) => WorktreeSignal::Untracked(p@),
        }
    }
}

fn has_change_for(list: &Vec<FileChange>, path: &String) -> (r: bool)
    ensures
        r == lists_path(changes_view(list@), path@),
{
    let mut i: usize = 0;
    while i < list.len()
        invariant
            i <= list.len(),
            forall|j: int| 0 <= j < i ==> (#[trigger] changes_view(list@)[j]).path != path@,
        decreases list.len() - i,
    {
        if list[i].path == *path {
            assert(changes_view(list@)[i as int].path == path@);
            return true;
        }
        i += 1;
    }
    false
}

fn has_path(list: &Vec<String>, path: &String) -> (r: bool)
    ensures
        r == texts_view(list@).contains(path@),
{
    let mut i: usize = 0;
    while i < list.len()
        invariant
            i <= list.len(),
            forall|j: int| 0 <= j < i ==> #[trigger] texts_view(list@)[j] != path@,
        decreases list.len() - i,
    {
        if list[i] == *path {
            assert(texts_view(list@)[i as int] == path@);
            return true;
        }
        i += 1;
    }
    false
}

/// What the index flags of `entry` propose for the staged list.
fn staged_of_flags(entry: &StatusEntry) -> (r: Option<FileChange>)
    ensures
        change_option_view(r) == staged_by_flags(entry@),
{
    let flags = entry.flags;
    if flags.index_new {
        Some(make_change(entry.path.clone(), ChangeKind::Added, 1, 0))
    } else if flags.index_modified {
        Some(make_change(entry.path.clone(), ChangeKind::Modified, 1, 0))
    } else if flags.index_deleted {
        Some(make_change(entry.path.clone(), ChangeKind::Deleted, 0, 1))
    } else if flags.index_renamed {
        Some(make_change(entry.path.clone(), ChangeKind::Renamed, 1, 0))
    } else {
        None
    }
}

/// What the working-tree flags of `entry` propose.
fn worktree_of_flags(entry: &StatusEntry) -> (r: Proposal)
    ensures
        r@ == worktree_by_flags(entry@),
{
    let flags = entry.flags;
    if flags.wt_new {
        if entry.tracked_in_head && !flags.index_deleted {
            Proposal::Unstaged(make_change(entry.path.clone(), ChangeKind::Modified, 1, 0))
        } else {
            Proposal::Untracked(entry.path.clone())
        }
    } else if flags.wt_modified {
        if !flags.index_modified {
            Proposal::Unstaged(make_change(entry.path.clone(), ChangeKind::Modified, 1, 0))
        } else {
            Proposal::Quiet
        }
    } else if flags.wt_deleted {
        if !flags.index_deleted {
            Proposal::Unstaged(make_change(entry.path.clone(), ChangeKind::Deleted, 0, 1))
        } else {
            Proposal::Quiet
        }
    } else if flags.wt_typechange {
        Proposal::Unstaged(make_change(entry.path.clone(), ChangeKind::Modified, 1, 0))
    } else {
        Proposal::Quiet
    }
}

/// What a delta between last commit and index proposes for the staged list.
fn staged_of_delta(delta: &DeltaEntry) -> (r: Option<FileChange>)
    ensures
        change_option_view(r) == staged_by_delta(delta@),
{
    if delta.kind == DeltaKind::Untracked || !tells_of_difference(delta.kind) {
        None
    } else {
        Some(make_change(path_of_delta(delta), change_of_delta(delta.kind), 1, 0))
    }
}

/// What a delta between index and working tree proposes.
fn worktree_of_delta(delta: &DeltaEntry) -> (r: Proposal)
    ensures
        r@ == worktree_by_delta(delta@),
{
    if delta.kind == DeltaKind::Untracked {
        Proposal::Untracked(path_of_delta(delta))
    } else if !tells_of_difference(delta.kind) {
        Proposal::Quiet
    } else {
        Proposal::Unstaged(make_change(path_of_delta(delta), change_of_delta(delta.kind), 1, 0))
    }
}

/// Lists a candidate for the staged list unless its path is listed already.
fn take_staged(
    staged: &mut Vec<FileChange>,
    candidate: Option<FileChange>,
    Ghost(before): Ghost<Seq<FileChangeView>>,
)
    requires
        changes_view(old(staged)@) == first_per_path(before),
    ensures
        changes_view(final(staged)@) == first_per_path(
            match change_option_view(candidate) {
                Some(c) => before.push(c),
                None => before,
            },
        ),
{
    match candidate {
        Some(c) => {
            proof {
                assert(before.push(c@).drop_last() =~= before);
            }
            if !has_change_for(staged, &c.path) {
                staged.push(c);
                proof {
                    assert(changes_view(staged@) =~= changes_view(old(staged)@).push(c@));
                }
            }
        },
        None => {},
    }
}

/// Lists what a signal on the working tree proposes unless an earlier signal
/// has decided on its path.
fn take_signal(
    unstaged: &mut Vec<FileChange>,
    untracked: &mut Vec<String>,
    proposal: Proposal,
    Ghost(before): Ghost<Seq<WorktreeSignal>>,
)
    requires
        changes_view(old(unstaged)@) == worktree_lists(before).unstaged,
        texts_view(old(untracked)@) == worktree_lists(before).untracked,
    ensures
        changes_view(final(unstaged)@) == worktree_lists(before.push(proposal@)).unstaged,
        texts_view(final(untracked)@) == worktree_lists(before.push(proposal@)).untracked,
{
    proof {
        assert(before.push(proposal@).drop_last() =~= before);
    }
    match proposal {
        Proposal::Quiet => {},
        Proposal::Unstaged(c) => {
            if !has_change_for(unstaged, &c.path) && !has_path(untracked, &c.path) {
                unstaged.push(c);
                proof {
                    assert(changes_view(unstaged@) =~= changes_view(old(unstaged)@).push(c@));
                }
            }
        },
        Proposal::Untracked(p) => {
            if !has_change_for(unstaged, &p) && !has_path(untracked, &p) {
                untracked.push(p);
                proof {
                    assert(texts_view(untracked@) =~= texts_view(old(untracked)@).push(p@));
                }
            }
        },
    }
}

/// The status of a working copy, from the entries of its status listing, the
/// deltas between last commit and index, and the deltas between index and
/// working tree.
pub fn classify(
    entries: &Vec<StatusEntry>,
    staged_deltas: &Vec<DeltaEntry>,
    worktree_deltas: &Vec<DeltaEntry>,
) -> (status: WorkspaceStatus)
    ensures
        status@ == classification(
            entries_view(entries@),
            deltas_view(staged_deltas@),
            deltas_view(worktree_deltas@),
        ),
{
    let ghost ev = entries_view(entries@);
    let ghost sv = deltas_view(staged_deltas@);
    let ghost wv = deltas_view(worktree_deltas@);
    let ghost signals = worktree_signals(ev, wv);
    let mut staged: Vec<FileChange> = Vec::new();
    let mut unstaged: Vec<FileChange> = Vec::new();
    let mut untracked: Vec<String> = Vec::new();
    proof {
        assert(changes_view(staged@) =~= first_per_path(staged_flag_candidates(ev.take(0))));
        assert(signals.take(0) =~= Seq::<WorktreeSignal>::empty());
        assert(changes_view(unstaged@) =~= worktree_lists(signals.take(0)).unstaged);
        assert(texts_view(untracked@) =~= worktree_lists(signals.take(0)).untracked);
    }
    let mut i: usize = 0;
    while i < entries.len()
        invariant
            i <= entries.len(),
            ev == entries_view(entries@),
            signals == worktree_signals(ev, wv),
            changes_view(staged@) == first_per_path(staged_flag_candidates(ev.take(i as int))),
            changes_view(unstaged@) == worktree_lists(signals.take(i as int)).unstaged,
            texts_view(untracked@) == worktree_lists(signals.take(i as int)).untracked,
        decreases entries.len() - i,
    {
        let entry = &entries[i];
        proof {
            assert(ev.take(i + 1).drop_last() =~= ev.take(i as int));
            assert(ev.take(i + 1).last() == entry@);
            assert(signals[i as int] == worktree_by_flags(entry@));
            assert(signals.take(i + 1) =~= signals.take(i as int).push(signals[i as int]));
        }
        take_staged(
            &mut staged,
            staged_of_flags(entry),
            Ghost(staged_flag_candidates(ev.take(i as int))),
        );
        take_signal(
            &mut unstaged,
            &mut untracked,
            worktree_of_flags(entry),
            Ghost(signals.take(i as int)),
        );
        i += 1;
    }
    proof {
        assert(ev.take(entries@.len() as int) =~= ev);
        assert(staged_flag_candidates(ev) + staged_delta_candidates(sv.take(0))
            =~= staged_flag_candidates(ev));
    }
    let mut j: usize = 0;
    while j < staged_deltas.len()
        invariant
            j <= staged_deltas.len(),
            sv == deltas_view(staged_deltas@),
            changes_view(staged@) == first_per_path(
                staged_flag_candidates(ev) + staged_delta_candidates(sv.take(j as int)),
            ),
        decreases staged_deltas.len() - j,
    {
        let delta = &staged_deltas[j];
        let candidate = staged_of_delta(delta);
        proof {
            assert(sv.take(j + 1).drop_last() =~= sv.take(j as int));
            assert(sv.take(j + 1).last() == delta@);
            let before = staged_flag_candidates(ev) + staged_delta_candidates(sv.take(j as int));
            match change_option_view(candidate) {
                Some(c) => {
                    assert(staged_flag_candidates(ev) + staged_delta_candidates(
                        sv.take(j as int),
                    ).push(c) =~= before.push(c));
                },
                None => {},
            }
        }
        take_staged(
            &mut staged,
            candidate,
            Ghost(staged_flag_candidates(ev) + staged_delta_candidates(sv.take(j as int))),
        );
        j += 1;
    }
    let ghost n = entries@.len() as int;
    let mut k: usize = 0;
    while k < worktree_deltas.len()
        invariant
            k <= worktree_deltas.len(),
            n == entries@.len(),
            n == ev.len(),
            wv == deltas_view(worktree_deltas@),
            signals == worktree_signals(ev, wv),
            changes_view(unstaged@) == worktree_lists(signals.take(n + k)).unstaged,
            texts_view(untracked@) == worktree_lists(signals.take(n + k)).untracked,
        decreases worktree_deltas.len() - k,
    {
        let delta = &worktree_deltas[k];
        proof {
            assert(wv[k as int] == delta@);
            assert(signals[n + k] == worktree_by_delta(delta@));
            assert(signals.take(n + k + 1) =~= signals.take(n + k).push(signals[n + k]));
        }
        take_signal(
            &mut unstaged,
            &mut untracked,
            worktree_of_delta(delta),
            Ghost(signals.take(n + k)),
        );
        k += 1;
    }
    proof {
        assert(sv.take(staged_deltas@.len() as int) =~= sv);
        assert(signals.take(n + worktree_deltas@.len()) =~= signals);
    }
    WorkspaceStatus { staged_files: staged, unstaged_files: unstaged, untracked_files: untracked }
}

/// What the repository yielded for a status: each of the three readings, or
/// the reason why it could not be made.
pub open spec fn readings_failure(
    entries: Result<Vec<StatusEntry>, String>,
    staged_deltas: Result<Vec<DeltaEntry>, String>,
    worktree_deltas: Result<Vec<DeltaEntry>, String>,
) -> Option<GitErrorView> {
    match (entries, staged_deltas, worktree_deltas) {
        (Err(reason), _, _) => Some(
            GitErrorView::RepositoryUnavailable { detail: "Failed to get statuses: "@ + reason@ },
        ),
        (Ok(_), Err(reason), _) => Some(
            GitErrorView::RepositoryUnavailable {
                detail: "Failed to create HEAD->index diff: "@ + reason@,
            },
        ),
        (Ok(_), Ok(_), Err(reason)) => Some(
            GitErrorView::RepositoryUnavailable {
                detail: "Failed to create index->workdir diff: "@ + reason@,
            },
        ),
        (Ok(_), Ok(_), Ok(_)) => None,
    }
}

/// The status of a working copy, all or nothing: the classification where
/// all three readings could be made, and `RepositoryUnavailable` with the
/// reason of the first that could not, with no part of a result beside it.
pub fn classify_readings(
    entries: Result<Vec<StatusEntry>, String>,
    staged_deltas: Result<Vec<DeltaEntry>, String>,
    worktree_deltas: Result<Vec<DeltaEntry>, String>,
) -> (r: Result<WorkspaceStatus, GitError>)
    ensures
        match r {
            Ok(status) => {
                &&& entries matches Ok(e) && staged_deltas matches Ok(s) && worktree_deltas matches Ok(
                    w,
                ) && status@ == classification(
                    entries_view(e@),
                    deltas_view(s@),
                    deltas_view(w@),
                )
            },
            Err(failure) => readings_failure(entries, staged_deltas, worktree_deltas) == Some(
                failure@,
            ),
        },
{
    let entries = match entries {
        Ok(e) => e,
        Err(reason) => {
            return Err(
                GitError::RepositoryUnavailable {
                    detail: join2("Failed to get statuses: ", reason.as_str()),
                },
            );
        },
    };
    let staged_deltas = match staged_deltas {
        Ok(s) => s,
        Err(reason) => {
            return Err(
                GitError::RepositoryUnavailable {
                    detail: join2("Failed to create HEAD->index diff: ", reason.as_str()),
                },
            );
        },
    };
    let worktree_deltas = match worktree_deltas {
        Ok(w) => w,
        Err(reason) => {
            return Err(
                GitError::RepositoryUnavailable {
                    detail: join2("Failed to create index->workdir diff: ", reason.as_str()),
                },
            );
        },
    };
    Ok(classify(&entries, &staged_deltas, &worktree_deltas))
}

} // verus!
