//! What holds of every classification.

use vstd::prelude::*;
use crate::model::{FileChangeView, WorkspaceStatusView};
use crate::status::{
    classification, first_per_path, lists_either, lists_path, staged_by_flags, staged_candidates,
    staged_flag_candidates, worktree_by_flags, worktree_lists, worktree_signals, DeltaEntryView,
    StatusEntryView, WorktreeLists, WorktreeSignal,
};

verus! {

/// No two changes of `changes` are listed under the same path.
pub open spec fn paths_distinct(changes: Seq<FileChangeView>) -> bool {
    forall|i: int, j: int|
        0 <= i < j < changes.len() ==> (#[trigger] changes[i]).path != (#[trigger] changes[j]).path
}

/// The path that a signal speaks of, where it proposes anything.
pub open spec fn signal_path(signal: WorktreeSignal) -> Option<Seq<char>> {
    match signal {
        WorktreeSignal::Quiet => None,
        WorktreeSignal::Unstaged(c) => Some(c.path),
        WorktreeSignal::Untracked(p) => Some(p),
    }
}

/// Some signal proposes something for `path`.
pub open spec fn proposed(signals: Seq<WorktreeSignal>, path: Seq<char>) -> bool {
    exists|i: int| 0 <= i < signals.len() && signal_path(#[trigger] signals[i]) == Some(path)
}

/// The signal at position `i` is the first that speaks of `path`.
pub open spec fn first_signal_for(signals: Seq<WorktreeSignal>, path: Seq<char>, i: int) -> bool {
    &&& 0 <= i < signals.len()
    &&& signal_path(signals[i]) == Some(path)
    &&& forall|j: int| 0 <= j < i ==> signal_path(#[trigger] signals[j]) != Some(path)
}

/// The two lists hold what the signal says: the change among the unstaged
/// ones, or the path among the untracked ones.
pub open spec fn lists_hold(lists: WorktreeLists, signal: WorktreeSignal) -> bool {
    match signal {
        WorktreeSignal::Quiet => false,
        WorktreeSignal::Unstaged(c) => lists.unstaged.contains(c),
        WorktreeSignal::Untracked(p) => lists.untracked.contains(p),
    }
}

/// No path stands in both lists, and none twice in one.
pub open spec fn lists_consistent(lists: WorktreeLists) -> bool {
    &&& paths_distinct(lists.unstaged)
    &&& lists.untracked.no_duplicates()
    &&& forall|path: Seq<char>|
        !(lists_path(lists.unstaged, path) && lists.untracked.contains(path))
}

/// What is kept of the candidates: a path is listed exactly when some
/// candidate has it, every kept change is a candidate, and no path is listed
/// twice.
pub proof fn lemma_first_per_path(candidates: Seq<FileChangeView>)
    ensures
        paths_distinct(first_per_path(candidates)),
        forall|path: Seq<char>|
            lists_path(first_per_path(candidates), path) <==> lists_path(candidates, path),
        forall|i: int|
            0 <= i < first_per_path(candidates).len() ==> candidates.contains(
                #[trigger] first_per_path(candidates)[i],
            ),
        first_per_path(candidates).len() <= candidates.len(),
    decreases candidates.len(),
{
    if candidates.len() > 0 {
        let shorter = candidates.drop_last();
        let last = candidates.last();
        let kept = first_per_path(shorter);
        let all = first_per_path(candidates);
        lemma_first_per_path(shorter);
        assert forall|path: Seq<char>| lists_path(all, path) <==> lists_path(
            candidates,
            path,
        ) by {
            if lists_path(all, path) {
                let i = choose|i: int| 0 <= i < all.len() && (#[trigger] all[i]).path == path;
                if i < kept.len() {
                    assert(kept[i].path == path);
                    assert(lists_path(shorter, path));
                    let j = choose|j: int|
                        0 <= j < shorter.len() && (#[trigger] shorter[j]).path == path;
                    assert(candidates[j].path == path);
                } else {
                    assert(candidates[candidates.len() - 1].path == path);
                }
            }
            if lists_path(candidates, path) {
                let j = choose|j: int|
                    0 <= j < candidates.len() && (#[trigger] candidates[j]).path == path;
                if j < shorter.len() {
                    assert(shorter[j].path == path);
                    assert(lists_path(shorter, path));
                    assert(lists_path(kept, path));
                    let i = choose|i: int| 0 <= i < kept.len() && (#[trigger] kept[i]).path == path;
                    assert(all[i].path == path);
                } else if lists_path(kept, last.path) {
                    let i = choose|i: int|
                        0 <= i < kept.len() && (#[trigger] kept[i]).path == last.path;
                    assert(all[i].path == path);
                } else {
                    assert(all[all.len() - 1].path == path);
                }
            }
        }
        assert forall|i: int| 0 <= i < all.len() implies candidates.contains(
            #[trigger] all[i],
        ) by {
            if i < kept.len() {
                assert(shorter.contains(kept[i]));
                let j = choose|j: int| 0 <= j < shorter.len() && shorter[j] == kept[i];
                assert(candidates[j] == all[i]);
            } else {
                assert(candidates[candidates.len() - 1] == all[i]);
            }
        }
        assert forall|i: int, j: int| 0 <= i < j < all.len() implies (#[trigger] all[i]).path != (
        #[trigger] all[j]).path by {
            if j < kept.len() {
                assert(kept[i].path != kept[j].path);
            } else {
                assert(kept[i].path != last.path);
            }
        }
    }
}

/// What the signals on the working tree come to: the lists are consistent,
/// a path stands in one of them exactly when some signal speaks of it, and
/// the first signal that speaks of a path is the one the lists hold.
pub proof fn lemma_worktree_lists(signals: Seq<WorktreeSignal>)
    ensures
        lists_consistent(worktree_lists(signals)),
        forall|path: Seq<char>|
            lists_either(worktree_lists(signals), path) <==> proposed(signals, path),
        forall|path: Seq<char>, i: int|
            #[trigger] first_signal_for(signals, path, i) ==> lists_hold(
                worktree_lists(signals),
                signals[i],
            ),
    decreases signals.len(),
{
    let lists = worktree_lists(signals);
    if signals.len() > 0 {
        let shorter = signals.drop_last();
        let last = signals.last();
        let before = worktree_lists(shorter);
        lemma_worktree_lists(shorter);
        // the lists only grow
        assert forall|c: FileChangeView| before.unstaged.contains(c) implies lists.unstaged.contains(
            c,
        ) by {
            let k = choose|k: int| 0 <= k < before.unstaged.len() && before.unstaged[k] == c;
            assert(lists.unstaged[k] == c);
        }
        assert forall|p: Seq<char>| before.untracked.contains(p) implies lists.untracked.contains(
            p,
        ) by {
            let k = choose|k: int| 0 <= k < before.untracked.len() && before.untracked[k] == p;
            assert(lists.untracked[k] == p);
        }
        assert forall|path: Seq<char>| lists_path(before.unstaged, path) implies lists_path(
            lists.unstaged,
            path,
        ) by {
            let k = choose|k: int|
                0 <= k < before.unstaged.len() && (#[trigger] before.unstaged[k]).path == path;
            assert(lists.unstaged[k].path == path);
        }
        // what is new in the lists is what the last signal says
        assert forall|path: Seq<char>| lists_path(lists.unstaged, path) implies lists_path(
            before.unstaged,
            path,
        ) || (signal_path(last) == Some(path) && last is Unstaged && !lists_either(before, path)) by {
            let k = choose|k: int|
                0 <= k < lists.unstaged.len() && (#[trigger] lists.unstaged[k]).path == path;
            if k < before.unstaged.len() {
                assert(before.unstaged[k].path == path);
            }
        }
        assert forall|path: Seq<char>| lists.untracked.contains(path) implies before.untracked.contains(
        path) || (signal_path(last) == Some(path) && last is Untracked && !lists_either(
            before,
            path,
        )) by {
            let k = choose|k: int| 0 <= k < lists.untracked.len() && lists.untracked[k] == path;
            if k < before.untracked.len() {
                assert(before.untracked[k] == path);
            }
        }
        if lists != before {
            match last {
                WorktreeSignal::Unstaged(c) => {
                    assert(lists.unstaged[lists.unstaged.len() - 1] == c);
                    assert(lists_path(lists.unstaged, c.path));
                    assert(lists.unstaged.contains(c));
                },
                WorktreeSignal::Untracked(p) => {
                    assert(lists.untracked[lists.untracked.len() - 1] == p);
                    assert(lists.untracked.contains(p));
                },
                WorktreeSignal::Quiet => {},
            }
        }
        assert forall|path: Seq<char>| lists_either(lists, path) <==> proposed(signals, path) by {
            if lists_either(lists, path) {
                if lists_either(before, path) {
                    assert(proposed(shorter, path));
                    let k = choose|k: int|
                        0 <= k < shorter.len() && signal_path(#[trigger] shorter[k]) == Some(path);
                    assert(signal_path(signals[k]) == Some(path));
                } else {
                    assert(signal_path(signals[signals.len() - 1]) == Some(path));
                }
            }
            if proposed(signals, path) {
                let k = choose|k: int|
                    0 <= k < signals.len() && signal_path(#[trigger] signals[k]) == Some(path);
                if k < shorter.len() {
                    assert(signal_path(shorter[k]) == Some(path));
                    assert(proposed(shorter, path));
                    assert(lists_either(before, path));
                } else if !lists_either(before, path) {
                    assert(lists != before);
                }
            }
        }
        assert forall|path: Seq<char>, i: int| #[trigger]
            first_signal_for(signals, path, i) implies lists_hold(lists, signals[i]) by {
            if i < shorter.len() {
                assert(shorter[i] == signals[i]);
                assert forall|j: int| 0 <= j < i implies signal_path(#[trigger] shorter[j]) != Some(
                    path,
                ) by {
                    assert(shorter[j] == signals[j]);
                }
                assert(first_signal_for(shorter, path, i));
                assert(lists_hold(before, shorter[i]));
            } else {
                if proposed(shorter, path) {
                    let k = choose|k: int|
                        0 <= k < shorter.len() && signal_path(#[trigger] shorter[k]) == Some(path);
                    assert(signals[k] == shorter[k]);
                }
                assert(!lists_either(before, path));
            }
        }
        assert(paths_distinct(lists.unstaged)) by {
            assert forall|i: int, j: int| 0 <= i < j < lists.unstaged.len() implies (
            #[trigger] lists.unstaged[i]).path != (#[trigger] lists.unstaged[j]).path by {
                if j < before.unstaged.len() {
                    assert(before.unstaged[i].path != before.unstaged[j].path);
                } else {
                    assert(before.unstaged[i].path == lists.unstaged[i].path);
                    assert(lists_path(before.unstaged, before.unstaged[i].path));
                }
            }
        }
        assert(lists.untracked.no_duplicates()) by {
            assert forall|i: int, j: int|
                0 <= i < lists.untracked.len() && 0 <= j < lists.untracked.len() && i
                    != j implies lists.untracked[i] != lists.untracked[j] by {
                if i < before.untracked.len() && j < before.untracked.len() {
                    assert(before.untracked[i] != before.untracked[j]);
                } else if i < before.untracked.len() {
                    assert(before.untracked.contains(before.untracked[i]));
                } else {
                    assert(before.untracked.contains(before.untracked[j]));
                }
            }
        }
    }
}

/// De-duplication. In the status of any working copy a path is listed at
/// most once among the staged changes, at most once among the unstaged
/// changes, and at most once among the untracked paths.
pub proof fn law_each_path_listed_once(
    entries: Seq<StatusEntryView>,
    staged_deltas: Seq<DeltaEntryView>,
    worktree_deltas: Seq<DeltaEntryView>,
)
    ensures
        paths_distinct(classification(entries, staged_deltas, worktree_deltas).staged_files),
        paths_distinct(classification(entries, staged_deltas, worktree_deltas).unstaged_files),
        classification(entries, staged_deltas, worktree_deltas).untracked_files.no_duplicates(),
{
    lemma_first_per_path(staged_candidates(entries, staged_deltas));
    lemma_worktree_lists(worktree_signals(entries, worktree_deltas));
}

/// Exclusivity. In the status of any working copy, whatever the signals say
/// and however they contradict each other, no path is listed both as
/// untracked and among the unstaged changes.
pub proof fn law_untracked_and_unstaged_exclude(
    entries: Seq<StatusEntryView>,
    staged_deltas: Seq<DeltaEntryView>,
    worktree_deltas: Seq<DeltaEntryView>,
    path: Seq<char>,
)
    ensures
        !(classification(entries, staged_deltas, worktree_deltas).untracked_files.contains(path)
            && lists_path(
            classification(entries, staged_deltas, worktree_deltas).unstaged_files,
            path,
        )),
{
    lemma_worktree_lists(worktree_signals(entries, worktree_deltas));
}

/// A path is listed as staged exactly when some signal proposes it as
/// staged, and it is listed as unstaged or as untracked exactly when some
/// signal on the working tree speaks of it.
pub proof fn law_listed_iff_proposed(
    entries: Seq<StatusEntryView>,
    staged_deltas: Seq<DeltaEntryView>,
    worktree_deltas: Seq<DeltaEntryView>,
    path: Seq<char>,
)
    ensures
        lists_path(classification(entries, staged_deltas, worktree_deltas).staged_files, path)
            <==> lists_path(staged_candidates(entries, staged_deltas), path),
        (lists_path(classification(entries, staged_deltas, worktree_deltas).unstaged_files, path)
            || classification(entries, staged_deltas, worktree_deltas).untracked_files.contains(
            path,
        )) <==> proposed(worktree_signals(entries, worktree_deltas), path),
{
    lemma_first_per_path(staged_candidates(entries, staged_deltas));
    lemma_worktree_lists(worktree_signals(entries, worktree_deltas));
}

/// Precedence. Of the signals on the working tree that speak of one path,
/// the first decides: the path is untracked where that signal says so, and
/// then not among the unstaged changes; it is the unstaged change that the
/// signal names where it names one, and then not untracked.
pub proof fn law_first_signal_decides(
    entries: Seq<StatusEntryView>,
    staged_deltas: Seq<DeltaEntryView>,
    worktree_deltas: Seq<DeltaEntryView>,
    path: Seq<char>,
    i: int,
)
    requires
        first_signal_for(worktree_signals(entries, worktree_deltas), path, i),
    ensures
        ({
            let status = classification(entries, staged_deltas, worktree_deltas);
            match worktree_signals(entries, worktree_deltas)[i] {
                WorktreeSignal::Untracked(p) => status.untracked_files.contains(path)
                    && !lists_path(status.unstaged_files, path),
                WorktreeSignal::Unstaged(c) => status.unstaged_files.contains(c)
                    && !status.untracked_files.contains(path),
                WorktreeSignal::Quiet => false,
            }
        }),
{
    let signals = worktree_signals(entries, worktree_deltas);
    let lists = worktree_lists(signals);
    lemma_worktree_lists(signals);
    assert(lists_hold(lists, signals[i]));
    match signals[i] {
        WorktreeSignal::Unstaged(c) => {
            let k = choose|k: int| 0 <= k < lists.unstaged.len() && lists.unstaged[k] == c;
            assert(lists.unstaged[k].path == path);
            assert(lists_path(lists.unstaged, path));
        },
        _ => {},
    }
}

/// Idempotence. The status is determined by what the repository reports:
/// two classifications of the same reports are the same.
pub proof fn law_classification_is_determined(
    entries: Seq<StatusEntryView>,
    staged_deltas: Seq<DeltaEntryView>,
    worktree_deltas: Seq<DeltaEntryView>,
    first: WorkspaceStatusView,
    second: WorkspaceStatusView,
)
    requires
        first == classification(entries, staged_deltas, worktree_deltas),
        second == classification(entries, staged_deltas, worktree_deltas),
    ensures
        first == second,
{
}

/// What the index flags propose is among the candidates for the staged list.
pub proof fn lemma_flag_candidates_cover(entries: Seq<StatusEntryView>, i: int)
    requires
        0 <= i < entries.len(),
    ensures
        staged_by_flags(entries[i]) is Some ==> lists_path(
            staged_flag_candidates(entries),
            entries[i].path,
        ),
    decreases entries.len(),
{
    let shorter = entries.drop_last();
    let staged = staged_flag_candidates(entries);
    if i == entries.len() - 1 {
        if staged_by_flags(entries[i]) is Some {
            assert(staged[staged.len() - 1].path == entries[i].path);
        }
    } else {
        lemma_flag_candidates_cover(shorter, i);
        assert(shorter[i] == entries[i]);
        if staged_by_flags(entries[i]) is Some {
            let before = staged_flag_candidates(shorter);
            let j = choose|j: int|
                0 <= j < before.len() && (#[trigger] before[j]).path == entries[i].path;
            assert(staged[j].path == entries[i].path);
        }
    }
}

/// The tie-break for a deletion staged over a file that exists again. Where
/// the index has dropped a path that the last commit holds, and the working
/// tree has a new file there, the path is listed among the staged changes
/// and, no earlier entry speaking of it, as untracked and not as an unstaged
/// change.
pub proof fn law_recreated_file_is_staged_and_untracked(
    entries: Seq<StatusEntryView>,
    staged_deltas: Seq<DeltaEntryView>,
    worktree_deltas: Seq<DeltaEntryView>,
    i: int,
)
    requires
        0 <= i < entries.len(),
        entries[i].flags.index_deleted,
        entries[i].flags.wt_new,
        entries[i].tracked_in_head,
        forall|j: int| 0 <= j < i ==> (#[trigger] entries[j]).path != entries[i].path,
    ensures
        lists_path(
            classification(entries, staged_deltas, worktree_deltas).staged_files,
            entries[i].path,
        ),
        classification(entries, staged_deltas, worktree_deltas).untracked_files.contains(
            entries[i].path,
        ),
        !lists_path(
            classification(entries, staged_deltas, worktree_deltas).unstaged_files,
            entries[i].path,
        ),
{
    let path = entries[i].path;
    lemma_flag_candidates_cover(entries, i);
    law_listed_iff_proposed(entries, staged_deltas, worktree_deltas, path);
    let staged = staged_flag_candidates(entries);
    let j = choose|j: int| 0 <= j < staged.len() && (#[trigger] staged[j]).path == path;
    assert(staged_candidates(entries, staged_deltas)[j].path == path);
    let signals = worktree_signals(entries, worktree_deltas);
    assert(signals[i] == worktree_by_flags(entries[i]));
    assert forall|k: int| 0 <= k < i implies signal_path(#[trigger] signals[k]) != Some(path) by {
        assert(signals[k] == worktree_by_flags(entries[k]));
        assert(entries[k].path != path);
    }
    assert(first_signal_for(signals, path, i));
    law_first_signal_decides(entries, staged_deltas, worktree_deltas, path, i);
}

} // verus!
