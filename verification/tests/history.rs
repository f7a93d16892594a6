use gitlite::error::GitError;
use gitlite::history::{
    ahead_behind, check_staged, checkout_failure, checkout_message, commit_date, commit_file,
    commit_files, commit_info_dated, commit_message, date_or_epoch, make_commit_info, page_begin,
    page_step, plan_checkout, repository_info, staged_message, summary_page, unstaged_message,
    HeadUpdate, PageCursor, PageStep, RawCommit, SUMMARY_COMMITS,
};
use gitlite::model::{BranchInfo, CommitInfo, FileChange};
use gitlite::objects::{is_object_id, parse_commit_id};
use gitlite::status::{DeltaEntry, DeltaKind};

fn raw(seconds: i64) -> RawCommit {
    RawCommit {
        id: "0123456789abcdef0123456789abcdef01234567".to_string(),
        message: Some("Add parser\n\nWith tests.\n".to_string()),
        author_name: Some("Ann".to_string()),
        author_email: Some("ann@example.org".to_string()),
        seconds,
    }
}

fn delta(new_path: Option<&str>, old_path: Option<&str>, kind: DeltaKind) -> DeltaEntry {
    DeltaEntry {
        new_path: new_path.map(|p| p.to_string()),
        old_path: old_path.map(|p| p.to_string()),
        kind,
    }
}

fn change(path: &str, status: &str, additions: i32, deletions: i32) -> FileChange {
    FileChange { path: path.to_string(), status: status.to_string(), additions, deletions }
}

fn taken_positions(limit: Option<usize>, offset: Option<usize>, walk: usize) -> Vec<usize> {
    let mut cursor = page_begin(limit, offset);
    let mut taken = Vec::new();
    for position in 0..walk {
        match page_step(&mut cursor) {
            PageStep::Skip => {}
            PageStep::Take => taken.push(position),
            PageStep::Stop => break,
        }
    }
    taken
}

#[test]
fn commit_is_shown_with_subject_short_id_and_date() {
    let info = make_commit_info(&raw(1700000000));
    assert_eq!(
        info,
        CommitInfo {
            id: "0123456789abcdef0123456789abcdef01234567".to_string(),
            message: "Add parser".to_string(),
            author: "Ann".to_string(),
            email: "ann@example.org".to_string(),
            date: "2023-11-14 22:13:20".to_string(),
            short_id: "0123456".to_string(),
        }
    );
}

#[test]
fn commit_date_is_written_in_utc() {
    assert_eq!(make_commit_info(&raw(0)).date, "1970-01-01 00:00:00");
    assert_eq!(make_commit_info(&raw(86399)).date, "1970-01-01 23:59:59");
    assert_eq!(make_commit_info(&raw(-1)).date, "1969-12-31 23:59:59");
    assert_eq!(make_commit_info(&raw(951782400)).date, "2000-02-29 00:00:00");
    assert_eq!(make_commit_info(&raw(i64::MAX)).date, "1970-01-01 00:00:00");
}

#[test]
fn time_beyond_the_calendar_reads_as_the_first_second() {
    assert_eq!(commit_date(i64::MAX), "1970-01-01 00:00:00");
    assert_eq!(commit_date(i64::MIN), "1970-01-01 00:00:00");
    assert_eq!(commit_date(1), "1970-01-01 00:00:01");
    assert_eq!(date_or_epoch(Some("t".to_string()), Some("e".to_string())), "t");
    assert_eq!(date_or_epoch(Some("t".to_string()), None), "t");
    assert_eq!(date_or_epoch(None, Some("e".to_string())), "e");
    assert_eq!(date_or_epoch(None, None), "1970-01-01 00:00:00");
}

#[test]
fn summary_holds_fifty_commits_at_most() {
    assert_eq!(SUMMARY_COMMITS, 50);
    assert_eq!(summary_page(), PageCursor { limit: 50, offset: 0, skipped: 0, taken: 0 });
    let many: Vec<CommitInfo> = (0..60).map(|i| make_commit_info(&raw(i))).collect();
    let info = repository_info("p", None, &vec![], many.clone(), None, None);
    assert_eq!(info.commits, many[..50].to_vec());
    let few: Vec<CommitInfo> = many[..50].to_vec();
    let info = repository_info("p", None, &vec![], few.clone(), None, None);
    assert_eq!(info.commits, few);
}

#[test]
fn unknown_revision_is_a_missing_reference() {
    assert_eq!(
        checkout_failure("revspec 'nope' not found"),
        GitError::RefNotFound {
            detail: "Failed to find branch: revspec 'nope' not found".to_string()
        }
    );
}

#[test]
fn missing_parts_of_a_commit_have_stand_ins() {
    let bare = RawCommit {
        id: "abc".to_string(),
        message: None,
        author_name: None,
        author_email: None,
        seconds: 0,
    };
    let info = commit_info_dated(&bare, "then".to_string());
    assert_eq!(
        info,
        CommitInfo {
            id: "abc".to_string(),
            message: "No message".to_string(),
            author: "Unknown".to_string(),
            email: "".to_string(),
            date: "then".to_string(),
            short_id: "abc".to_string(),
        }
    );
    let empty = RawCommit { message: Some("".to_string()), ..bare };
    assert_eq!(commit_info_dated(&empty, "d".to_string()).message, "");
}

#[test]
fn page_defaults_to_the_first_fifty() {
    assert_eq!(page_begin(None, None), PageCursor { limit: 50, offset: 0, skipped: 0, taken: 0 });
    assert_eq!(taken_positions(None, None, 120), (0..50).collect::<Vec<usize>>());
    assert_eq!(taken_positions(None, None, 7), (0..7).collect::<Vec<usize>>());
}

#[test]
fn page_is_the_window_after_the_offset() {
    assert_eq!(taken_positions(Some(3), Some(4), 20), vec![4, 5, 6]);
    assert_eq!(taken_positions(Some(3), Some(4), 6), vec![4, 5]);
    assert_eq!(taken_positions(Some(3), Some(4), 4), Vec::<usize>::new());
    assert_eq!(taken_positions(Some(0), Some(0), 5), Vec::<usize>::new());
    assert_eq!(taken_positions(Some(2), None, 5), vec![0, 1]);
    assert_eq!(taken_positions(None, Some(118), 120), vec![118, 119]);
}

#[test]
fn full_page_stops_the_walk() {
    let mut cursor = page_begin(Some(1), Some(1));
    assert_eq!(page_step(&mut cursor), PageStep::Skip);
    assert_eq!(page_step(&mut cursor), PageStep::Take);
    assert_eq!(page_step(&mut cursor), PageStep::Stop);
    assert_eq!(page_step(&mut cursor), PageStep::Stop);
    assert_eq!(cursor, PageCursor { limit: 1, offset: 1, skipped: 1, taken: 1 });
}

#[test]
fn branch_without_upstream_is_neither_ahead_nor_behind() {
    assert_eq!(ahead_behind(None), (0, 0));
}

#[test]
fn counts_of_the_graph_are_shown_as_they_are() {
    assert_eq!(ahead_behind(Some((3, 5))), (3, 5));
    assert_eq!(ahead_behind(Some((0, 0))), (0, 0));
    assert_eq!(ahead_behind(Some((1, 0))), (1, 0));
    assert_eq!(ahead_behind(Some((4294967295, 7))), (4294967295, 7));
}

#[test]
fn files_of_a_commit_are_listed_by_kind() {
    let deltas = vec![
        delta(Some("a"), Some("a"), DeltaKind::Added),
        delta(Some("m"), Some("m"), DeltaKind::Modified),
        delta(Some("d"), Some("d"), DeltaKind::Deleted),
        delta(Some("new"), Some("old"), DeltaKind::Renamed),
        delta(Some("copy"), Some("orig"), DeltaKind::Copied),
        delta(Some("t"), Some("t"), DeltaKind::Typechange),
    ];
    assert_eq!(
        commit_files(&deltas),
        vec![
            change("a", "added", 1, 0),
            change("m", "modified", 1, 0),
            change("d", "deleted", 0, 1),
            change("new", "renamed", 1, 0),
            change("copy", "copied", 1, 0),
            change("t", "unknown", 1, 0),
        ]
    );
    assert_eq!(commit_files(&vec![]), vec![]);
}

#[test]
fn file_without_a_new_path_is_listed_under_the_old_one() {
    assert_eq!(
        commit_file(&delta(None, Some("gone"), DeltaKind::Deleted)),
        change("gone", "deleted", 0, 1)
    );
    assert_eq!(
        commit_file(&delta(Some(""), Some("gone"), DeltaKind::Deleted)),
        change("gone", "deleted", 0, 1)
    );
    assert_eq!(commit_file(&delta(None, None, DeltaKind::Added)), change("", "added", 1, 0));
    assert_eq!(
        commit_file(&delta(Some("dir\\f"), None, DeltaKind::Modified)),
        change("dir\\f", "modified", 1, 0)
    );
}

#[test]
fn repository_is_shown_with_its_branches() {
    let commits = vec![make_commit_info(&raw(0))];
    let info = repository_info(
        "/work/repo",
        Some("main".to_string()),
        &vec![Some("dev".to_string()), Some("main".to_string()), None],
        commits.clone(),
        Some((2, 1)),
        Some("https://example.com/r.git".to_string()),
    );
    assert_eq!(info.path, "/work/repo");
    assert_eq!(info.current_branch, "main");
    assert_eq!(
        info.branches,
        vec![
            BranchInfo { name: "dev".to_string(), is_current: false, is_remote: false },
            BranchInfo { name: "main".to_string(), is_current: true, is_remote: false },
            BranchInfo { name: "unknown".to_string(), is_current: false, is_remote: false },
        ]
    );
    assert_eq!(info.commits, commits);
    assert_eq!((info.ahead, info.behind), (2, 1));
    assert_eq!(info.remote_url, Some("https://example.com/r.git".to_string()));
}

#[test]
fn head_without_a_name_is_shown_as_detached() {
    let info = repository_info("p", None, &vec![Some("detached".to_string())], vec![], None, None);
    assert_eq!(info.current_branch, "detached");
    assert!(info.branches[0].is_current);
    assert_eq!((info.ahead, info.behind), (0, 0));
    assert_eq!(info.remote_url, None);
}

#[test]
fn checkout_follows_a_reference_or_detaches() {
    assert_eq!(
        plan_checkout(Some("refs/heads/dev".to_string()), "abc".to_string()),
        HeadUpdate::Attach { reference: "refs/heads/dev".to_string() }
    );
    assert_eq!(
        plan_checkout(None, "abc".to_string()),
        HeadUpdate::Detach { id: "abc".to_string() }
    );
    assert_eq!(checkout_message("dev"), "Successfully checked out to dev");
}

#[test]
fn commit_needs_something_staged() {
    assert_eq!(check_staged(0), Err(GitError::NothingStaged));
    assert_eq!(check_staged(1), Ok(()));
    assert_eq!(check_staged(usize::MAX), Ok(()));
    assert_eq!(GitError::NothingStaged.message(), "No files staged for commit");
    assert_eq!(commit_message("abc123"), "Successfully committed with ID: abc123");
    assert_eq!(staged_message("a.txt"), "Successfully staged a.txt");
    assert_eq!(unstaged_message("a.txt"), "Successfully unstaged a.txt");
}

#[test]
fn well_formed_ids_are_accepted() {
    let full = "0123456789abcdef0123456789ABCDEF01234567";
    let oid = parse_commit_id(full).unwrap();
    assert_eq!(oid.to_string(), "0123456789abcdef0123456789abcdef01234567");
    assert!(parse_commit_id("a").is_ok());
    assert!(is_object_id("abc123"));
    assert!(is_object_id(full));
}

#[test]
fn malformed_ids_are_refused() {
    for bad in ["", "xyz", "12 34", "0123456789abcdef0123456789abcdef012345678", "abcé"] {
        assert!(!is_object_id(bad));
        match parse_commit_id(bad) {
            Err(GitError::RefNotFound { detail }) => {
                assert!(detail.starts_with("Invalid commit ID: "));
                assert!(detail.len() > "Invalid commit ID: ".len());
            }
            other => panic!("{:?}", other.map(|o| o.to_string())),
        }
    }
}
