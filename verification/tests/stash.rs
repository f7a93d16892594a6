use gitlite::error::GitError;
use gitlite::model::StashInfo;
use gitlite::reply::Reply;
use gitlite::stash::{
    check_stashable, find_stash, find_stash_exact, find_stash_to_drop, origin_of_stash,
    signing_identity, stash_created_message, stash_dropped_message, stash_list, Identity,
    StashRecord,
};
use gitlite::stash_apply::{
    apply_advance, apply_begin, apply_message, apply_request, ApplyAction, ApplyOutcome,
    ApplyStage,
};
use gitlite::status::{StatusEntry, StatusFlags};

const FIRST: &str = "aaaa1111aaaa1111aaaa1111aaaa1111aaaa1111";
const SECOND: &str = "aaaa2222aaaa2222aaaa2222aaaa2222aaaa2222";
const THIRD: &str = "bbbb3333bbbb3333bbbb3333bbbb3333bbbb3333";

fn record(id: &str, message: &str, seconds: Option<i64>) -> StashRecord {
    StashRecord { id: id.to_string(), message: message.to_string(), seconds }
}

fn three() -> Vec<StashRecord> {
    vec![
        record(FIRST, "On main: wip", Some(1700000000)),
        record(SECOND, "On main: older", Some(1600000000)),
        record(THIRD, "On dev: oldest", None),
    ]
}

fn not_found(wanted: &str) -> GitError {
    GitError::StashNotFound {
        requested: wanted.to_string(),
        available: vec![
            format!("{}: On main: wip", FIRST),
            format!("{}: On main: older", SECOND),
            format!("{}: On dev: oldest", THIRD),
        ],
    }
}

fn flags() -> StatusFlags {
    StatusFlags {
        index_new: false,
        index_modified: false,
        index_deleted: false,
        index_renamed: false,
        index_typechange: false,
        wt_new: false,
        wt_modified: false,
        wt_deleted: false,
        wt_typechange: false,
        wt_renamed: false,
        ignored: false,
        conflicted: false,
    }
}

fn entry(flags: StatusFlags) -> StatusEntry {
    StatusEntry { path: "p".to_string(), flags, tracked_in_head: true }
}

#[test]
fn stashes_are_listed_most_recent_first() {
    let list = stash_list(&three());
    assert_eq!(
        list,
        vec![
            StashInfo {
                id: FIRST.to_string(),
                message: "On main: wip".to_string(),
                timestamp: "1700000000".to_string(),
                branch: "main".to_string(),
            },
            StashInfo {
                id: SECOND.to_string(),
                message: "On main: older".to_string(),
                timestamp: "1600000000".to_string(),
                branch: "main".to_string(),
            },
            StashInfo {
                id: THIRD.to_string(),
                message: "On dev: oldest".to_string(),
                timestamp: "0".to_string(),
                branch: "dev".to_string(),
            },
        ]
    );
}

#[test]
fn record_with_a_malformed_id_is_left_out() {
    let records = vec![
        record("not-hex", "a", Some(1)),
        record("", "b", Some(2)),
        record("ABCDEF0123", "c", Some(-5)),
        record("aaaa1111aaaa1111aaaa1111aaaa1111aaaa11112", "too long", Some(3)),
        record("abcé", "d", Some(4)),
    ];
    let list = stash_list(&records);
    assert_eq!(
        list,
        vec![StashInfo {
            id: "ABCDEF0123".to_string(),
            message: "c".to_string(),
            timestamp: "-5".to_string(),
            branch: "unknown".to_string(),
        }]
    );
}

#[test]
fn stash_is_listed_under_the_branch_it_was_made_on() {
    assert_eq!(origin_of_stash("On main: wip"), Some("main".to_string()));
    assert_eq!(origin_of_stash("WIP on dev: 1a2b3c4 Add parser"), Some("dev".to_string()));
    assert_eq!(origin_of_stash("On feature/x: a: b"), Some("feature/x".to_string()));
    assert_eq!(origin_of_stash("On (no branch): x"), Some("(no branch)".to_string()));
    assert_eq!(origin_of_stash("WIP on : x"), Some("".to_string()));
    assert_eq!(origin_of_stash("On main"), None);
    assert_eq!(origin_of_stash("on main: x"), None);
    assert_eq!(origin_of_stash("saved by hand"), None);
    assert_eq!(origin_of_stash(""), None);
    let records = vec![
        record(FIRST, "WIP on topic: 1a2b3c4 Start", Some(5)),
        record(SECOND, "On main: before lunch", Some(4)),
        record(THIRD, "saved by hand", Some(3)),
    ];
    let branches: Vec<String> = stash_list(&records).into_iter().map(|s| s.branch).collect();
    assert_eq!(branches, vec!["topic", "main", "unknown"]);
}

#[test]
fn stash_is_found_by_its_full_id() {
    assert_eq!(find_stash(&three(), FIRST), Ok(0));
    assert_eq!(find_stash(&three(), SECOND), Ok(1));
    assert_eq!(find_stash(&three(), THIRD), Ok(2));
    assert_eq!(find_stash_exact(&three(), SECOND), Some(1));
    assert_eq!(find_stash_exact(&three(), "aaaa2222"), None);
}

#[test]
fn stash_is_found_by_a_prefix_that_only_it_has() {
    assert_eq!(find_stash(&three(), "bbbb"), Ok(2));
    assert_eq!(find_stash(&three(), "aaaa2"), Ok(1));
    assert_eq!(find_stash(&three(), "b"), Ok(2));
}

#[test]
fn ambiguous_prefix_finds_nothing() {
    assert_eq!(find_stash(&three(), "aaaa"), Err(not_found("aaaa")));
    assert_eq!(find_stash(&three(), ""), Err(not_found("")));
}

#[test]
fn absent_id_finds_nothing_and_lists_what_there_is() {
    assert_eq!(find_stash(&three(), "cccc"), Err(not_found("cccc")));
    let e = find_stash(&three(), "cccc").unwrap_err();
    assert_eq!(
        e.message(),
        format!(
            "Stash not found: cccc. Available stashes: [{}: On main: wip, {}: On main: older, {}: On dev: oldest]",
            FIRST, SECOND, THIRD
        )
    );
    assert_eq!(
        find_stash(&vec![], "a"),
        Err(GitError::StashNotFound { requested: "a".to_string(), available: vec![] })
    );
}

#[test]
fn exact_id_wins_over_longer_ids_that_begin_with_it() {
    let records = vec![record("abcd", "long", None), record("ab", "short", None)];
    assert_eq!(find_stash(&records, "ab"), Ok(1));
    assert_eq!(find_stash(&records, "abc"), Ok(0));
    assert!(find_stash(&records, "a").is_err());
    let only = vec![record("abcd", "one", None)];
    assert_eq!(find_stash(&only, ""), Ok(0));
}

#[test]
fn stash_created_last_is_found_by_the_id_returned() {
    let mut records = three();
    records.insert(0, record("cccc4444cccc4444cccc4444cccc4444cccc4444", "new", Some(1)));
    assert_eq!(find_stash(&records, "cccc4444cccc4444cccc4444cccc4444cccc4444"), Ok(0));
    assert_eq!(
        stash_created_message("cccc4444"),
        "Successfully created stash: cccc4444"
    );
}

#[test]
fn drop_needs_the_full_id() {
    assert_eq!(find_stash_to_drop(&three(), THIRD), Ok(2));
    assert_eq!(find_stash_to_drop(&three(), "bbbb"), Err(not_found("bbbb")));
    assert_eq!(stash_dropped_message(THIRD), format!("Successfully deleted stash: {}", THIRD));
}

#[test]
fn nothing_changed_means_nothing_to_stash() {
    assert_eq!(check_stashable(&vec![]), Err(GitError::NothingToStash));
    assert_eq!(
        check_stashable(&vec![entry(flags()), entry(StatusFlags { ignored: true, ..flags() })]),
        Err(GitError::NothingToStash)
    );
    assert_eq!(GitError::NothingToStash.message(), "No changes to stash");
}

#[test]
fn any_change_in_tree_or_index_can_be_stashed() {
    let changed = vec![
        StatusFlags { wt_new: true, ..flags() },
        StatusFlags { wt_modified: true, ..flags() },
        StatusFlags { wt_deleted: true, ..flags() },
        StatusFlags { wt_typechange: true, ..flags() },
        StatusFlags { wt_renamed: true, ..flags() },
        StatusFlags { index_new: true, ..flags() },
        StatusFlags { index_modified: true, ..flags() },
        StatusFlags { index_deleted: true, ..flags() },
        StatusFlags { index_renamed: true, ..flags() },
        StatusFlags { index_typechange: true, ..flags() },
        StatusFlags { conflicted: true, ..flags() },
        StatusFlags { index_typechange: true, ignored: true, ..flags() },
    ];
    for f in changed {
        assert_eq!(check_stashable(&vec![entry(flags()), entry(f)]), Ok(()));
    }
}

#[test]
fn identity_falls_back_to_the_default() {
    let own = Identity { name: "Ann".to_string(), email: "ann@example.org".to_string() };
    assert_eq!(signing_identity(Some(own.clone())), own);
    assert_eq!(
        signing_identity(None),
        Identity { name: "GitLite User".to_string(), email: "gitlite@example.com".to_string() }
    );
}

#[test]
fn apply_restores_the_index_first() {
    let state = apply_begin(&three(), "bbbb");
    assert_eq!(state.stage, ApplyStage::Applying);
    assert_eq!(state.index, 2);
    assert_eq!(state.id, THIRD);
    assert_eq!(state.message, "On dev: oldest");
    assert_eq!(apply_request(&state), ApplyAction::Apply { index: 2, reinstate_index: true });
    let done = apply_advance(state, Reply::Done);
    assert_eq!(done.outcome, Some(Ok(ApplyOutcome::Applied)));
    assert_eq!(apply_request(&done), ApplyAction::Finish);
    assert_eq!(
        apply_message(&done, ApplyOutcome::Applied),
        format!("Successfully applied stash: {} (On dev: oldest)", THIRD)
    );
}

#[test]
fn apply_of_an_unknown_stash_ends_at_once() {
    let state = apply_begin(&three(), "ffff");
    assert_eq!(state.stage, ApplyStage::Finished);
    assert_eq!(state.outcome, Some(Err(not_found("ffff"))));
    assert_eq!(apply_request(&state), ApplyAction::Finish);
}

#[test]
fn nothing_left_to_apply_is_a_success() {
    for reason in ["stash already applied", "nothing to commit, working tree clean"] {
        let state = apply_advance(apply_begin(&three(), FIRST), Reply::Failed(reason.to_string()));
        assert_eq!(state.outcome, Some(Ok(ApplyOutcome::AlreadyApplied)));
        assert_eq!(
            apply_message(&state, ApplyOutcome::AlreadyApplied),
            format!(
                "Stash {} (On main: wip) has already been applied or there are no changes to apply",
                FIRST
            )
        );
    }
}

#[test]
fn conflict_ends_the_apply_without_a_retry() {
    let state =
        apply_advance(apply_begin(&three(), FIRST), Reply::Failed("1 conflict prevents checkout".to_string()));
    assert_eq!(state.stage, ApplyStage::Finished);
    assert_eq!(
        state.outcome,
        Some(Err(GitError::StashConflict {
            detail: format!(
                "Failed to apply stash {} (On main: wip): Conflicts detected. Error: 1 conflict prevents checkout. Please resolve conflicts manually.",
                FIRST
            )
        }))
    );
}

#[test]
fn other_failure_is_retried_without_the_index() {
    let state =
        apply_advance(apply_begin(&three(), SECOND), Reply::Failed("index is locked".to_string()));
    assert_eq!(state.stage, ApplyStage::Retrying);
    assert_eq!(apply_request(&state), ApplyAction::Apply { index: 1, reinstate_index: false });
    let done = apply_advance(state.clone(), Reply::Done);
    assert_eq!(done.outcome, Some(Ok(ApplyOutcome::Applied)));
    let benign = apply_advance(state.clone(), Reply::Failed("already applied".to_string()));
    assert_eq!(benign.outcome, Some(Ok(ApplyOutcome::AlreadyApplied)));
    let failed = apply_advance(state.clone(), Reply::Failed("still locked".to_string()));
    assert_eq!(
        failed.outcome,
        Some(Err(GitError::RepositoryUnavailable {
            detail: format!(
                "Failed to apply stash {} (On main: older): still locked. This may be because the stash has already been applied, there are conflicts, or the working directory is in an unexpected state.",
                SECOND
            )
        }))
    );
    let conflict = apply_advance(state, Reply::Failed("merge conflict".to_string()));
    assert!(matches!(conflict.outcome, Some(Err(GitError::StashConflict { .. }))));
}

#[test]
fn apply_ignores_what_comes_after_its_end() {
    let done = apply_advance(apply_begin(&three(), FIRST), Reply::Done);
    assert_eq!(apply_advance(done.clone(), Reply::Failed("x".to_string())), done);
    let odd = apply_advance(apply_begin(&three(), FIRST), Reply::Count(1));
    assert_eq!(
        odd.outcome,
        Some(Err(GitError::RepositoryUnavailable {
            detail: "Unexpected reply from the repository".to_string()
        }))
    );
}
