use gitlite::model::FileChange;
use gitlite::status::{
    change_of_delta, classify, make_change, needs_head_lookup, path_of_delta,
    tells_of_difference, ChangeKind, DeltaEntry, DeltaKind, StatusEntry, StatusFlags,
};

fn no_flags() -> StatusFlags {
    StatusFlags {
        index_new: false,
        index_modified: false,
        index_deleted: false,
        index_renamed: false,
        index_typechange: false,
        wt_new: false,
        wt_modified: false,
        wt_deleted: false,
        wt_typechange: false,
        wt_renamed: false,
        ignored: false,
        conflicted: false,
    }
}

fn entry(path: &str, flags: StatusFlags, tracked_in_head: bool) -> StatusEntry {
    StatusEntry { path: path.to_string(), flags, tracked_in_head }
}

fn delta(path: &str, kind: DeltaKind) -> DeltaEntry {
    DeltaEntry { new_path: Some(path.to_string()), old_path: Some(path.to_string()), kind }
}

fn change(path: &str, status: &str, additions: i32, deletions: i32) -> FileChange {
    FileChange { path: path.to_string(), status: status.to_string(), additions, deletions }
}

#[test]
fn clean_working_copy_lists_nothing() {
    let status = classify(&vec![], &vec![], &vec![]);
    assert!(status.staged_files.is_empty());
    assert!(status.unstaged_files.is_empty());
    assert!(status.untracked_files.is_empty());
}

#[test]
fn staged_new_file_is_listed_as_added() {
    let entries = vec![entry("a.txt", StatusFlags { index_new: true, ..no_flags() }, false)];
    let staged = vec![delta("a.txt", DeltaKind::Added)];
    let status = classify(&entries, &staged, &vec![]);
    assert_eq!(status.staged_files, vec![change("a.txt", "added", 1, 0)]);
    assert!(status.unstaged_files.is_empty());
    assert!(status.untracked_files.is_empty());
}

#[test]
fn further_edit_of_a_staged_file_is_unstaged_too() {
    let entries = vec![entry(
        "a.txt",
        StatusFlags { index_new: true, wt_modified: true, ..no_flags() },
        false,
    )];
    let staged = vec![delta("a.txt", DeltaKind::Added)];
    let worktree = vec![delta("a.txt", DeltaKind::Modified)];
    let status = classify(&entries, &staged, &worktree);
    assert_eq!(status.staged_files, vec![change("a.txt", "added", 1, 0)]);
    assert_eq!(status.unstaged_files, vec![change("a.txt", "modified", 1, 0)]);
    assert!(status.untracked_files.is_empty());
}

#[test]
fn deletion_staged_over_a_recreated_file_shows_as_deleted_and_untracked() {
    let entries = vec![entry(
        "old.txt",
        StatusFlags { index_deleted: true, wt_new: true, ..no_flags() },
        true,
    )];
    let staged = vec![delta("old.txt", DeltaKind::Deleted)];
    let worktree = vec![delta("old.txt", DeltaKind::Untracked)];
    let status = classify(&entries, &staged, &worktree);
    assert_eq!(status.staged_files, vec![change("old.txt", "deleted", 0, 1)]);
    assert!(status.unstaged_files.is_empty());
    assert_eq!(status.untracked_files, vec!["old.txt".to_string()]);
}

#[test]
fn new_file_unknown_to_the_last_commit_is_untracked() {
    let entries = vec![entry("n.txt", StatusFlags { wt_new: true, ..no_flags() }, false)];
    let status = classify(&entries, &vec![], &vec![]);
    assert!(status.staged_files.is_empty());
    assert!(status.unstaged_files.is_empty());
    assert_eq!(status.untracked_files, vec!["n.txt".to_string()]);
}

#[test]
fn new_file_known_to_the_last_commit_counts_as_modified() {
    let entries = vec![entry("n.txt", StatusFlags { wt_new: true, ..no_flags() }, true)];
    let status = classify(&entries, &vec![], &vec![]);
    assert_eq!(status.unstaged_files, vec![change("n.txt", "modified", 1, 0)]);
    assert!(status.untracked_files.is_empty());
}

#[test]
fn index_flags_are_taken_in_their_order() {
    let entries = vec![
        entry("m", StatusFlags { index_modified: true, index_deleted: true, ..no_flags() }, true),
        entry("d", StatusFlags { index_deleted: true, index_renamed: true, ..no_flags() }, true),
        entry("r", StatusFlags { index_renamed: true, ..no_flags() }, true),
        entry("t", StatusFlags { index_typechange: true, ..no_flags() }, true),
    ];
    let status = classify(&entries, &vec![], &vec![]);
    assert_eq!(
        status.staged_files,
        vec![
            change("m", "modified", 1, 0),
            change("d", "deleted", 0, 1),
            change("r", "renamed", 1, 0),
        ]
    );
}

#[test]
fn working_tree_flags_give_unstaged_changes() {
    let entries = vec![
        entry("m", StatusFlags { wt_modified: true, ..no_flags() }, true),
        entry("d", StatusFlags { wt_deleted: true, ..no_flags() }, true),
        entry("t", StatusFlags { wt_typechange: true, ..no_flags() }, true),
        entry("both", StatusFlags { wt_modified: true, index_modified: true, ..no_flags() }, true),
        entry("gone", StatusFlags { wt_deleted: true, index_deleted: true, ..no_flags() }, true),
    ];
    let status = classify(&entries, &vec![], &vec![]);
    assert_eq!(
        status.unstaged_files,
        vec![
            change("m", "modified", 1, 0),
            change("d", "deleted", 0, 1),
            change("t", "modified", 1, 0),
        ]
    );
}

#[test]
fn diff_completes_what_the_flags_leave_out() {
    let entries = vec![entry(
        "both",
        StatusFlags { wt_modified: true, index_modified: true, ..no_flags() },
        true,
    )];
    let staged = vec![delta("both", DeltaKind::Modified), delta("typ", DeltaKind::Typechange)];
    let worktree = vec![delta("both", DeltaKind::Modified), delta("gone", DeltaKind::Deleted)];
    let status = classify(&entries, &staged, &worktree);
    assert_eq!(
        status.staged_files,
        vec![change("both", "modified", 1, 0), change("typ", "modified", 1, 0)]
    );
    assert_eq!(
        status.unstaged_files,
        vec![change("both", "modified", 1, 0), change("gone", "deleted", 1, 0)]
    );
}

#[test]
fn each_path_is_listed_once() {
    let entries = vec![
        entry("a", StatusFlags { index_new: true, wt_modified: true, ..no_flags() }, false),
        entry("a", StatusFlags { index_modified: true, wt_deleted: true, ..no_flags() }, false),
        entry("u", StatusFlags { wt_new: true, ..no_flags() }, false),
        entry("u", StatusFlags { wt_new: true, ..no_flags() }, false),
    ];
    let staged = vec![delta("a", DeltaKind::Deleted), delta("b", DeltaKind::Added)];
    let worktree = vec![
        delta("a", DeltaKind::Deleted),
        delta("u", DeltaKind::Untracked),
        delta("v", DeltaKind::Untracked),
        delta("v", DeltaKind::Untracked),
    ];
    let status = classify(&entries, &staged, &worktree);
    assert_eq!(status.staged_files, vec![change("a", "added", 1, 0), change("b", "added", 1, 0)]);
    assert_eq!(status.unstaged_files, vec![change("a", "modified", 1, 0)]);
    assert_eq!(status.untracked_files, vec!["u".to_string(), "v".to_string()]);
}

#[test]
fn agreeing_signals_keep_untracked_and_unstaged_apart() {
    let entries = vec![
        entry("new", StatusFlags { wt_new: true, ..no_flags() }, false),
        entry("mod", StatusFlags { wt_modified: true, ..no_flags() }, true),
    ];
    let worktree = vec![delta("new", DeltaKind::Untracked), delta("mod", DeltaKind::Modified)];
    let status = classify(&entries, &vec![], &worktree);
    for path in &status.untracked_files {
        assert!(status.unstaged_files.iter().all(|c| &c.path != path));
    }
    assert_eq!(status.untracked_files, vec!["new".to_string()]);
    assert_eq!(status.unstaged_files, vec![change("mod", "modified", 1, 0)]);
}

#[test]
fn first_signal_decides_between_untracked_and_unstaged() {
    let entries = vec![entry("x", StatusFlags { wt_new: true, ..no_flags() }, false)];
    let worktree = vec![delta("x", DeltaKind::Modified)];
    let status = classify(&entries, &vec![], &worktree);
    assert_eq!(status.untracked_files, vec!["x".to_string()]);
    assert!(status.unstaged_files.is_empty());

    let entries = vec![entry("y", StatusFlags { wt_modified: true, ..no_flags() }, true)];
    let worktree = vec![delta("y", DeltaKind::Untracked)];
    let status = classify(&entries, &vec![], &worktree);
    assert_eq!(status.unstaged_files, vec![change("y", "modified", 1, 0)]);
    assert!(status.untracked_files.is_empty());

    let worktree = vec![delta("z", DeltaKind::Untracked), delta("z", DeltaKind::Deleted)];
    let status = classify(&vec![], &vec![], &worktree);
    assert_eq!(status.untracked_files, vec!["z".to_string()]);
    assert!(status.unstaged_files.is_empty());

    let entries = vec![
        entry("w", StatusFlags { wt_deleted: true, ..no_flags() }, true),
        entry("w", StatusFlags { wt_new: true, ..no_flags() }, false),
    ];
    let status = classify(&entries, &vec![], &vec![]);
    assert_eq!(status.unstaged_files, vec![change("w", "deleted", 0, 1)]);
    assert!(status.untracked_files.is_empty());
}

#[test]
fn contradicting_signals_never_list_a_path_on_both_sides() {
    let kinds = [
        DeltaKind::Untracked,
        DeltaKind::Modified,
        DeltaKind::Deleted,
        DeltaKind::Added,
        DeltaKind::Ignored,
    ];
    let flag_sets = [
        StatusFlags { wt_new: true, ..no_flags() },
        StatusFlags { wt_modified: true, ..no_flags() },
        StatusFlags { wt_deleted: true, index_deleted: true, ..no_flags() },
        StatusFlags { wt_new: true, index_deleted: true, ..no_flags() },
    ];
    for flags in flag_sets {
        for in_head in [false, true] {
            for first in kinds {
                for second in kinds {
                    let entries = vec![entry("p", flags, in_head), entry("q", flags, !in_head)];
                    let worktree = vec![delta("p", first), delta("q", second), delta("p", second)];
                    let status = classify(&entries, &vec![], &worktree);
                    for path in &status.untracked_files {
                        assert!(status.unstaged_files.iter().all(|c| &c.path != path));
                    }
                }
            }
        }
    }
}

#[test]
fn delta_without_a_difference_lists_nothing() {
    let deltas = vec![delta("same", DeltaKind::Unmodified), delta("ign", DeltaKind::Ignored)];
    let status = classify(&vec![], &deltas, &deltas);
    assert!(status.staged_files.is_empty());
    assert!(status.unstaged_files.is_empty());
    assert!(status.untracked_files.is_empty());
    assert!(!tells_of_difference(DeltaKind::Unmodified));
    assert!(!tells_of_difference(DeltaKind::Ignored));
    assert!(tells_of_difference(DeltaKind::Typechange));
    assert!(tells_of_difference(DeltaKind::Untracked));
}

#[test]
fn classification_is_repeatable() {
    let entries = vec![
        entry("a", StatusFlags { index_new: true, wt_modified: true, ..no_flags() }, false),
        entry("u", StatusFlags { wt_new: true, ..no_flags() }, false),
    ];
    let staged = vec![delta("a", DeltaKind::Added)];
    let worktree = vec![delta("a", DeltaKind::Modified), delta("u", DeltaKind::Untracked)];
    let first = classify(&entries, &staged, &worktree);
    let second = classify(&entries, &staged, &worktree);
    assert_eq!(first, second);
}

#[test]
fn untracked_delta_is_never_staged() {
    let staged = vec![delta("u", DeltaKind::Untracked)];
    let status = classify(&vec![], &staged, &vec![]);
    assert!(status.staged_files.is_empty());
    assert!(status.untracked_files.is_empty());
}

#[test]
fn delta_is_listed_under_its_new_path_with_forward_slashes() {
    let both = DeltaEntry {
        new_path: Some("dir\\new.txt".to_string()),
        old_path: Some("dir\\old.txt".to_string()),
        kind: DeltaKind::Renamed,
    };
    assert_eq!(path_of_delta(&both), "dir/new.txt");
    let old_only =
        DeltaEntry { new_path: None, old_path: Some("a\\b".to_string()), kind: DeltaKind::Deleted };
    assert_eq!(path_of_delta(&old_only), "a/b");
    let neither = DeltaEntry { new_path: None, old_path: None, kind: DeltaKind::Modified };
    assert_eq!(path_of_delta(&neither), "");
    let status = classify(&vec![], &vec![], &vec![both]);
    assert_eq!(status.unstaged_files, vec![change("dir/new.txt", "renamed", 1, 0)]);
}

#[test]
fn other_kinds_of_delta_count_as_modified() {
    assert_eq!(change_of_delta(DeltaKind::Added), ChangeKind::Added);
    assert_eq!(change_of_delta(DeltaKind::Modified), ChangeKind::Modified);
    assert_eq!(change_of_delta(DeltaKind::Deleted), ChangeKind::Deleted);
    assert_eq!(change_of_delta(DeltaKind::Renamed), ChangeKind::Renamed);
    assert_eq!(change_of_delta(DeltaKind::Copied), ChangeKind::Modified);
    assert_eq!(change_of_delta(DeltaKind::Typechange), ChangeKind::Modified);
    assert_eq!(change_of_delta(DeltaKind::Conflicted), ChangeKind::Modified);
    assert_eq!(change_of_delta(DeltaKind::Unreadable), ChangeKind::Modified);
}

#[test]
fn kinds_have_their_labels() {
    assert_eq!(ChangeKind::Added.label(), "added");
    assert_eq!(ChangeKind::Modified.label(), "modified");
    assert_eq!(ChangeKind::Deleted.label(), "deleted");
    assert_eq!(ChangeKind::Renamed.label(), "renamed");
    assert_eq!(ChangeKind::Copied.label(), "copied");
    assert_eq!(ChangeKind::Unknown.label(), "unknown");
    assert_eq!(
        make_change("p".to_string(), ChangeKind::Copied, 3, 4),
        change("p", "copied", 3, 4)
    );
}

#[test]
fn only_new_files_need_a_look_at_the_last_commit() {
    assert!(needs_head_lookup(StatusFlags { wt_new: true, ..no_flags() }));
    assert!(!needs_head_lookup(StatusFlags { wt_modified: true, index_new: true, ..no_flags() }));
}
