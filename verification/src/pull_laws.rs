//! What holds of every pull, whatever the repository answers.

use vstd::prelude::*;
use crate::error::GitErrorView;
use crate::graph::{is_ancestor, is_merge_base, law_merge_base_tells_ancestry, CommitGraph};
use crate::pull::{
    merge_conflict_text, merge_message, pull_initial, pull_next, pull_pending, PullActionView,
    PullOutcomeView, PullStage, PullStateView,
};
use crate::reply::ReplyView;

verus! {

/// The state of a pull that received `replies`, in this order, from its
/// beginning.
pub open spec fn pull_after(replies: Seq<ReplyView>) -> PullStateView
    decreases replies.len(),
{
    if replies.len() == 0 {
        pull_initial()
    } else {
        pull_next(pull_after(replies.drop_last()), replies.last())
    }
}

/// The state of a pull that was in state `s` and then received `more`.
pub open spec fn pull_continue(s: PullStateView, more: Seq<ReplyView>) -> PullStateView
    decreases more.len(),
{
    if more.len() == 0 {
        s
    } else {
        pull_next(pull_continue(s, more.drop_last()), more.last())
    }
}

/// How far a stage is from the beginning. Every step leads to a stage that
/// is further.
pub open spec fn pull_rank(stage: PullStage) -> nat {
    match stage {
        PullStage::Opening => 0,
        PullStage::ReadingHead => 1,
        PullStage::FindingRemote => 2,
        PullStage::Fetching => 3,
        PullStage::ResolvingRemote => 4,
        PullStage::ResolvingLocal => 5,
        PullStage::ReadingIndex => 6,
        PullStage::DiffingWorktree => 7,
        PullStage::CountingChanges => 8,
        PullStage::LoadingRemoteCommit => 9,
        PullStage::LoadingLocalCommit => 10,
        PullStage::FindingMergeBase => 11,
        PullStage::FindingHeadRef => 12,
        PullStage::MovingHead => 13,
        PullStage::Merging => 14,
        PullStage::WritingTree => 15,
        PullStage::LoadingTree => 16,
        PullStage::Signing => 17,
        PullStage::Committing => 18,
        PullStage::Finished => 19,
    }
}

/// The actions that move the local branch or add a commit.
pub open spec fn pull_action_changes_history(a: PullActionView) -> bool {
    a is SetTarget || a is Commit
}

/// A stage on the way of a fast-forward.
pub open spec fn pull_fast_forwarding(stage: PullStage) -> bool {
    stage == PullStage::FindingHeadRef || stage == PullStage::MovingHead
}

/// A stage on the way of a merge commit.
pub open spec fn pull_merging(stage: PullStage) -> bool {
    stage == PullStage::Merging || stage == PullStage::WritingTree || stage
        == PullStage::LoadingTree || stage == PullStage::Signing || stage == PullStage::Committing
}

/// What a pull has learned fits the stage it is at: it goes past the
/// comparison of the two commits only when they differ, past the count of
/// changed files only when there is none, towards a fast-forward only when
/// the merge base is the local head, towards a merge commit only when it is
/// not; and it holds an outcome exactly when it has finished.
pub open spec fn pull_consistent(s: PullStateView) -> bool {
    &&& s.stage == PullStage::Finished <==> s.outcome is Some
    &&& s.stage != PullStage::Finished && pull_rank(s.stage) >= 6 ==> s.local_head
        != s.remote_tip
    &&& s.stage != PullStage::Finished && pull_rank(s.stage) >= 9 ==> s.files_changed == 0
    &&& pull_fast_forwarding(s.stage) ==> s.merge_base == Some(s.local_head)
    &&& pull_merging(s.stage) ==> s.merge_base != Some(s.local_head)
    &&& s.outcome == Some(
        Ok::<PullOutcomeView, GitErrorView>(PullOutcomeView::UpToDate),
    ) ==> s.local_head == s.remote_tip
    &&& forall|to: Seq<char>|
        s.outcome == Some(
            Ok::<PullOutcomeView, GitErrorView>(PullOutcomeView::FastForwarded { to }),
        ) ==> {
            &&& to == s.remote_tip
            &&& s.merge_base == Some(s.local_head)
            &&& s.files_changed == 0
            &&& s.local_head != s.remote_tip
        }
    &&& forall|commit: Seq<char>|
        s.outcome == Some(
            Ok::<PullOutcomeView, GitErrorView>(PullOutcomeView::Merged { commit }),
        ) ==> {
            &&& s.merge_base != Some(s.local_head)
            &&& s.files_changed == 0
            &&& s.local_head != s.remote_tip
        }
}

/// A step keeps the bookkeeping consistent.
pub proof fn lemma_pull_step_keeps_consistency(s: PullStateView, r: ReplyView)
    requires
        pull_consistent(s),
    ensures
        pull_consistent(pull_next(s, r)),
{
}

/// Every step of an unfinished pull leads to a later stage; a finished pull
/// stays as it is.
pub proof fn lemma_pull_step_goes_forward(s: PullStateView, r: ReplyView)
    ensures
        s.stage != PullStage::Finished ==> pull_rank(pull_next(s, r).stage) > pull_rank(s.stage),
        s.stage == PullStage::Finished ==> pull_next(s, r) == s,
{
}

/// Every state that a pull can reach is consistent.
pub proof fn lemma_pull_runs_are_consistent(replies: Seq<ReplyView>)
    ensures
        pull_consistent(pull_after(replies)),
    decreases replies.len(),
{
    if replies.len() > 0 {
        lemma_pull_runs_are_consistent(replies.drop_last());
        lemma_pull_step_keeps_consistency(pull_after(replies.drop_last()), replies.last());
    }
}

/// A pull is never at an earlier stage than it was before.
pub proof fn lemma_pull_earlier_states_rank_lower(replies: Seq<ReplyView>, i: int)
    requires
        0 <= i <= replies.len(),
    ensures
        pull_rank(pull_after(replies.take(i)).stage) <= pull_rank(pull_after(replies).stage),
        i < replies.len() && pull_after(replies.take(i)).stage != PullStage::Finished
            ==> pull_rank(pull_after(replies.take(i)).stage) < pull_rank(
            pull_after(replies).stage,
        ),
    decreases replies.len() - i,
{
    if i == replies.len() {
        assert(replies.take(i) =~= replies);
    } else {
        let shorter = replies.drop_last();
        assert(shorter.take(i) =~= replies.take(i));
        lemma_pull_earlier_states_rank_lower(shorter, i);
        lemma_pull_step_goes_forward(pull_after(shorter), replies.last());
    }
}

/// Dirty guard. When the count of changed files comes back above zero, the
/// pull ends with `UncommittedChanges`; up to then it has asked for nothing
/// that moves the branch or adds a commit, and it asks for nothing
/// afterwards.
pub proof fn law_dirty_tree_stops_pull(
    replies: Seq<ReplyView>,
    files_changed: nat,
    i: int,
    more: Seq<ReplyView>,
)
    requires
        pull_after(replies).stage == PullStage::CountingChanges,
        files_changed > 0,
        0 <= i <= replies.len(),
    ensures
        pull_next(pull_after(replies), ReplyView::Count(files_changed)).outcome == Some(
            Err::<PullOutcomeView, GitErrorView>(GitErrorView::UncommittedChanges),
        ),
        !pull_action_changes_history(pull_pending(pull_after(replies.take(i)))),
        pull_pending(
            pull_continue(pull_next(pull_after(replies), ReplyView::Count(files_changed)), more),
        ) == PullActionView::Finish,
{
    lemma_pull_earlier_states_rank_lower(replies, i);
    let end = pull_next(pull_after(replies), ReplyView::Count(files_changed));
    lemma_pull_finished_stays(end, more);
}

/// A finished pull stays as it is, whatever it is told.
pub proof fn lemma_pull_finished_stays(s: PullStateView, more: Seq<ReplyView>)
    requires
        s.stage == PullStage::Finished,
    ensures
        pull_continue(s, more) == s,
    decreases more.len(),
{
    if more.len() > 0 {
        lemma_pull_finished_stays(s, more.drop_last());
    }
}

/// A pull that is told that the merge base is the local head stays on the
/// way of a fast-forward: it never merges, and it ends in a failure or with
/// the branch at the fetched commit.
pub open spec fn pull_fast_forward_only(t: PullStateView, remote_tip: Seq<char>) -> bool {
    &&& t.remote_tip == remote_tip
    &&& pull_fast_forwarding(t.stage) || t.stage == PullStage::Finished
    &&& t.stage == PullStage::Finished ==> (t.outcome matches Some(outcome) && (outcome is Err
        || outcome == Ok::<PullOutcomeView, GitErrorView>(
        PullOutcomeView::FastForwarded { to: remote_tip },
    )))
}

/// Fast-forward law. When the repository names the local head as the merge
/// base, that is when local history is an ancestor of the fetched commit, the
/// pull never asks for a merge or a commit, whatever follows, and where it
/// succeeds it has moved the branch to the fetched commit.
pub proof fn law_fast_forward_creates_no_commit(
    replies: Seq<ReplyView>,
    more: Seq<ReplyView>,
)
    requires
        pull_after(replies).stage == PullStage::FindingMergeBase,
    ensures
        ({
            let s = pull_after(replies);
            let t = pull_continue(pull_next(s, ReplyView::Text(s.local_head)), more);
            &&& pull_consistent(t)
            &&& pull_fast_forward_only(t, s.remote_tip)
            &&& !(pull_pending(t) is Commit)
            &&& !(pull_pending(t) is MergeCommits)
            &&& forall|o: PullOutcomeView|
                t.outcome == Some(Ok::<PullOutcomeView, GitErrorView>(o)) ==> o
                    == (PullOutcomeView::FastForwarded { to: s.remote_tip })
        }),
    decreases more.len(),
{
    let s = pull_after(replies);
    lemma_pull_runs_are_consistent(replies);
    if more.len() > 0 {
        law_fast_forward_creates_no_commit(replies, more.drop_last());
    }
}

/// A pull that is told of another merge base, or of none, stays on the way
/// of a merge commit: it never moves the branch pointer directly.
pub open spec fn pull_merge_only(t: PullStateView) -> bool {
    &&& pull_merging(t.stage) || t.stage == PullStage::Finished
    &&& t.stage == PullStage::Finished ==> (t.outcome matches Some(outcome) && (outcome is Err
        || (outcome matches Ok(o) && o is Merged)))
}

/// Merge law, first part. When the merge base is not the local head, the
/// pull never moves the branch pointer directly, whatever follows, and where
/// it succeeds it has created a merge commit.
pub proof fn law_diverged_histories_are_merged(
    replies: Seq<ReplyView>,
    base: ReplyView,
    more: Seq<ReplyView>,
)
    requires
        pull_after(replies).stage == PullStage::FindingMergeBase,
        base != ReplyView::Text(pull_after(replies).local_head),
        base is Text || base is Nothing || base is Failed || base is Refused,
    ensures
        ({
            let t = pull_continue(pull_next(pull_after(replies), base), more);
            &&& pull_consistent(t)
            &&& pull_merge_only(t)
            &&& !(pull_pending(t) is SetTarget)
        }),
    decreases more.len(),
{
    lemma_pull_runs_are_consistent(replies);
    if more.len() > 0 {
        law_diverged_histories_are_merged(replies, base, more.drop_last());
    }
}

/// Merge law, second part. A pull ends with a merge only by the answer to
/// its request for a commit, and that request names the local head and the
/// fetched commit as the two parents, in this order, under the message that
/// names the branch. The pull had found the tree clean and the histories
/// diverged.
pub proof fn law_merge_commit_has_both_parents(
    replies: Seq<ReplyView>,
    r: ReplyView,
    commit: Seq<char>,
)
    requires
        pull_after(replies).stage != PullStage::Finished,
        pull_next(pull_after(replies), r).outcome == Some(
            Ok::<PullOutcomeView, GitErrorView>(PullOutcomeView::Merged { commit }),
        ),
    ensures
        ({
            let s = pull_after(replies);
            &&& r == ReplyView::Text(commit)
            &&& pull_pending(s) == (PullActionView::Commit {
                update_ref: "HEAD"@,
                message: merge_message(s.branch),
                tree: s.tree,
                first_parent: s.local_head,
                second_parent: s.remote_tip,
            })
            &&& s.local_head != s.remote_tip
            &&& s.files_changed == 0
            &&& s.merge_base != Some(s.local_head)
        }),
{
    lemma_pull_runs_are_consistent(replies);
}

/// Merge law, third part. A pull asks for a commit at most once.
pub proof fn law_at_most_one_commit(replies: Seq<ReplyView>, i: int, j: int)
    requires
        0 <= i < j <= replies.len(),
        pull_pending(pull_after(replies.take(i))) is Commit,
    ensures
        !(pull_pending(pull_after(replies.take(j))) is Commit),
{
    let upto = replies.take(j);
    assert(upto.take(i) =~= replies.take(i));
    lemma_pull_earlier_states_rank_lower(upto, i);
}

/// A merge that leaves conflicts ends the pull with `MergeConflict`, before
/// any commit was asked for.
pub proof fn law_conflicts_stop_before_commit(replies: Seq<ReplyView>, i: int)
    requires
        pull_after(replies).stage == PullStage::Merging,
        0 <= i <= replies.len(),
    ensures
        pull_next(pull_after(replies), ReplyView::Flag(true)).outcome == Some(
            Err::<PullOutcomeView, GitErrorView>(
                GitErrorView::MergeConflict {
                    detail: merge_conflict_text(pull_after(replies).branch),
                },
            ),
        ),
        !pull_action_changes_history(pull_pending(pull_after(replies.take(i)))),
{
    lemma_pull_earlier_states_rank_lower(replies, i);
    lemma_pull_runs_are_consistent(replies.take(i));
    let early = pull_after(replies.take(i));
    if early.stage == PullStage::MovingHead {
        // a fast-forward in progress never turns into a merge
        lemma_pull_fast_forward_never_merges(replies, i);
    }
}

/// A pull that was moving the branch pointer is not merging later.
pub proof fn lemma_pull_fast_forward_never_merges(replies: Seq<ReplyView>, i: int)
    requires
        0 <= i <= replies.len(),
        pull_fast_forwarding(pull_after(replies.take(i)).stage),
    ensures
        !pull_merging(pull_after(replies).stage),
    decreases replies.len() - i,
{
    if i == replies.len() {
        assert(replies.take(i) =~= replies);
    } else {
        let shorter = replies.drop_last();
        assert(shorter.take(i) =~= replies.take(i));
        lemma_pull_fast_forward_never_merges(shorter, i);
        lemma_pull_earlier_states_rank_lower(shorter, i);
    }
}

/// Fast-forward law, second part. A pull ends with a fast-forward only by
/// the acknowledgement of its request to point the branch at the fetched
/// commit. The pull had found the tree clean and local history an ancestor of
/// the fetched commit.
pub proof fn law_fast_forward_moves_head_to_fetched_commit(
    replies: Seq<ReplyView>,
    r: ReplyView,
    to: Seq<char>,
)
    requires
        pull_after(replies).stage != PullStage::Finished,
        pull_next(pull_after(replies), r).outcome == Some(
            Ok::<PullOutcomeView, GitErrorView>(PullOutcomeView::FastForwarded { to }),
        ),
    ensures
        ({
            let s = pull_after(replies);
            &&& r == ReplyView::Done
            &&& to == s.remote_tip
            &&& pull_pending(s) == (PullActionView::SetTarget {
                id: s.remote_tip,
                reflog: "Fast-forward merge"@,
            })
            &&& s.local_head != s.remote_tip
            &&& s.files_changed == 0
            &&& s.merge_base == Some(s.local_head)
        }),
{
    lemma_pull_runs_are_consistent(replies);
}

/// A pull ends as up to date exactly when the local head is the fetched
/// commit, and then it has asked for nothing that moves the branch or adds a
/// commit.
pub proof fn law_up_to_date_changes_nothing(replies: Seq<ReplyView>, id: Seq<char>, i: int)
    requires
        pull_after(replies).stage == PullStage::ResolvingLocal,
        0 <= i <= replies.len(),
    ensures
        pull_next(pull_after(replies), ReplyView::Text(id)).outcome == Some(
            Ok::<PullOutcomeView, GitErrorView>(PullOutcomeView::UpToDate),
        ) <==> id == pull_after(replies).remote_tip,
        !pull_action_changes_history(pull_pending(pull_after(replies.take(i)))),
{
    lemma_pull_earlier_states_rank_lower(replies, i);
    lemma_pull_runs_are_consistent(replies);
}

/// Fast-forward law, over the commit graph. Where the local head is an
/// ancestor of the fetched commit and the repository names a merge base of
/// the two, the pull never asks for a merge or a commit, whatever follows,
/// and where it succeeds it has moved the branch to the fetched commit.
pub proof fn law_ancestor_is_fast_forwarded(
    g: CommitGraph,
    replies: Seq<ReplyView>,
    base: Seq<char>,
    more: Seq<ReplyView>,
)
    requires
        pull_after(replies).stage == PullStage::FindingMergeBase,
        is_merge_base(g, base, pull_after(replies).local_head, pull_after(replies).remote_tip),
        is_ancestor(g, pull_after(replies).local_head, pull_after(replies).remote_tip),
    ensures
        ({
            let s = pull_after(replies);
            let t = pull_continue(pull_next(s, ReplyView::Text(base)), more);
            &&& !(pull_pending(t) is Commit)
            &&& !(pull_pending(t) is MergeCommits)
            &&& forall|o: PullOutcomeView|
                t.outcome == Some(Ok::<PullOutcomeView, GitErrorView>(o)) ==> o
                    == (PullOutcomeView::FastForwarded { to: s.remote_tip })
        }),
{
    let s = pull_after(replies);
    law_merge_base_tells_ancestry(g, s.local_head, s.remote_tip, base);
    law_fast_forward_creates_no_commit(replies, more);
}

/// Merge law, over the commit graph. Where the local head is no ancestor of
/// the fetched commit, whatever merge base the repository names, the pull
/// never moves the branch pointer directly, and where it succeeds it has
/// created a merge commit.
pub proof fn law_diverged_is_merged(
    g: CommitGraph,
    replies: Seq<ReplyView>,
    base: Seq<char>,
    more: Seq<ReplyView>,
)
    requires
        pull_after(replies).stage == PullStage::FindingMergeBase,
        is_merge_base(g, base, pull_after(replies).local_head, pull_after(replies).remote_tip),
        !is_ancestor(g, pull_after(replies).local_head, pull_after(replies).remote_tip),
    ensures
        ({
            let t = pull_continue(pull_next(pull_after(replies), ReplyView::Text(base)), more);
            &&& pull_merge_only(t)
            &&& !(pull_pending(t) is SetTarget)
        }),
{
    let s = pull_after(replies);
    law_merge_base_tells_ancestry(g, s.local_head, s.remote_tip, base);
    law_diverged_histories_are_merged(replies, ReplyView::Text(base), more);
}

} // verus!
