use gitlite::error::GitError;
use gitlite::pull::{
    pull_advance, pull_begin, pull_request, PullAction, PullOutcome, PullStage, PullState,
};
use gitlite::reply::Reply;

fn text(s: &str) -> Reply {
    Reply::Text(s.to_string())
}

fn run(replies: Vec<Reply>) -> PullState {
    let mut state = pull_begin();
    for reply in replies {
        state = pull_advance(state, reply);
    }
    state
}

fn actions(replies: Vec<Reply>) -> Vec<PullAction> {
    let mut state = pull_begin();
    let mut seen = vec![pull_request(&state)];
    for reply in replies {
        state = pull_advance(state, reply);
        seen.push(pull_request(&state));
    }
    seen
}

fn up_to_merge_base(local: &str, remote: &str) -> Vec<Reply> {
    vec![
        Reply::Done,
        text("main"),
        text("https://example.com/repo.git"),
        Reply::Done,
        text(remote),
        text(local),
        Reply::Done,
        Reply::Done,
        Reply::Count(0),
        Reply::Done,
        Reply::Done,
    ]
}

fn moves_history(action: &PullAction) -> bool {
    matches!(action, PullAction::SetTarget { .. } | PullAction::Commit { .. })
}

#[test]
fn pull_begins_by_opening_the_repository() {
    let state = pull_begin();
    assert_eq!(state.stage, PullStage::Opening);
    assert_eq!(state.outcome, None);
    assert_eq!(pull_request(&state), PullAction::OpenRepository);
}

#[test]
fn pull_fetches_the_current_branch_from_origin() {
    let seen = actions(vec![Reply::Done, text("feature"), text("url"), Reply::Done]);
    assert_eq!(
        seen,
        vec![
            PullAction::OpenRepository,
            PullAction::ReadHead,
            PullAction::FindRemote { name: "origin".to_string() },
            PullAction::Fetch {
                refspec: "refs/heads/feature:refs/remotes/origin/feature".to_string()
            },
            PullAction::ResolveReference { name: "refs/remotes/origin/feature".to_string() },
        ]
    );
}

#[test]
fn head_without_a_name_pulls_main() {
    let state = run(vec![Reply::Done, Reply::Nothing, Reply::Nothing]);
    assert_eq!(state.branch, "main");
    assert_eq!(state.url, "");
    assert_eq!(
        pull_request(&state),
        PullAction::Fetch { refspec: "refs/heads/main:refs/remotes/origin/main".to_string() }
    );
}

#[test]
fn equal_commits_mean_up_to_date() {
    let replies =
        vec![Reply::Done, text("main"), text("url"), Reply::Done, text("abc"), text("abc")];
    let seen = actions(replies.clone());
    assert!(seen.iter().all(|a| !moves_history(a)));
    let state = run(replies);
    assert_eq!(state.stage, PullStage::Finished);
    assert_eq!(state.outcome, Some(Ok(PullOutcome::UpToDate)));
    assert_eq!(pull_request(&state), PullAction::Finish);
    assert_eq!(PullOutcome::UpToDate.message(), "Already up to date");
}

#[test]
fn up_to_date_wins_over_a_dirty_tree() {
    let state = run(vec![Reply::Done, text("main"), text("url"), Reply::Done, text("a"), text("a")]);
    assert_eq!(state.outcome, Some(Ok(PullOutcome::UpToDate)));
}

#[test]
fn dirty_tree_stops_the_pull() {
    let replies = vec![
        Reply::Done,
        text("main"),
        text("url"),
        Reply::Done,
        text("remote1"),
        text("local1"),
        Reply::Done,
        Reply::Done,
        Reply::Count(2),
    ];
    let seen = actions(replies.clone());
    assert!(seen.iter().all(|a| !moves_history(a)));
    assert_eq!(seen.last(), Some(&PullAction::Finish));
    let state = run(replies);
    assert_eq!(state.outcome, Some(Err(GitError::UncommittedChanges)));
    assert_eq!(state.files_changed, 2);
    let later = pull_advance(state.clone(), Reply::Done);
    assert_eq!(later, state);
}

#[test]
fn ancestor_is_fast_forwarded() {
    let mut replies = up_to_merge_base("local1", "remote1");
    replies.push(text("local1"));
    replies.push(Reply::Done);
    let seen = actions(replies.clone());
    assert_eq!(
        seen[seen.len() - 2..].to_vec(),
        vec![
            PullAction::FollowReference { name: "HEAD".to_string() },
            PullAction::SetTarget {
                id: "remote1".to_string(),
                reflog: "Fast-forward merge".to_string()
            },
        ]
    );
    replies.push(Reply::Done);
    let all = actions(replies.clone());
    assert!(all.iter().all(|a| !matches!(a, PullAction::Commit { .. })));
    assert!(all.iter().all(|a| !matches!(a, PullAction::MergeCommits { .. })));
    let state = run(replies);
    assert_eq!(state.outcome, Some(Ok(PullOutcome::FastForwarded { to: "remote1".to_string() })));
    assert_eq!(
        PullOutcome::FastForwarded { to: "remote1".to_string() }.message(),
        "Successfully pulled (fast-forward)"
    );
}

#[test]
fn diverged_branches_get_a_merge_commit_with_both_parents() {
    let mut replies = up_to_merge_base("local1", "remote1");
    replies.extend(vec![
        text("base0"),
        Reply::Flag(false),
        text("tree9"),
        Reply::Done,
        Reply::Done,
    ]);
    let seen = actions(replies.clone());
    assert_eq!(
        seen[seen.len() - 5..].to_vec(),
        vec![
            PullAction::MergeCommits { ours: "local1".to_string(), theirs: "remote1".to_string() },
            PullAction::WriteTree,
            PullAction::LoadTree { id: "tree9".to_string() },
            PullAction::MakeSignature {
                name: "GitLite User".to_string(),
                email: "gitlite@example.com".to_string()
            },
            PullAction::Commit {
                update_ref: "HEAD".to_string(),
                message: "Merge branch 'origin/main'".to_string(),
                tree: "tree9".to_string(),
                first_parent: "local1".to_string(),
                second_parent: "remote1".to_string(),
            },
        ]
    );
    let commits = seen.iter().filter(|a| matches!(a, PullAction::Commit { .. })).count();
    assert_eq!(commits, 1);
    assert!(seen.iter().all(|a| !matches!(a, PullAction::SetTarget { .. })));
    replies.push(text("merge7"));
    let state = run(replies);
    assert_eq!(state.outcome, Some(Ok(PullOutcome::Merged { commit: "merge7".to_string() })));
    assert_eq!(
        PullOutcome::Merged { commit: "merge7".to_string() }.message(),
        "Successfully pulled and merged (commit: merge7)"
    );
}

#[test]
fn missing_merge_base_counts_as_diverged() {
    let mut without = up_to_merge_base("l", "r");
    without.push(Reply::Nothing);
    let state = run(without);
    assert_eq!(state.stage, PullStage::Merging);
    assert_eq!(state.merge_base, None);
    let mut failed = up_to_merge_base("l", "r");
    failed.push(Reply::Failed("no merge base found".to_string()));
    let state = run(failed);
    assert_eq!(state.stage, PullStage::Merging);
    assert_eq!(state.outcome, None);
}

#[test]
fn conflicts_stop_before_any_commit() {
    let mut replies = up_to_merge_base("l", "r");
    replies.push(text("base"));
    replies.push(Reply::Flag(true));
    let seen = actions(replies.clone());
    assert!(seen.iter().all(|a| !moves_history(a)));
    let state = run(replies);
    assert_eq!(
        state.outcome,
        Some(Err(GitError::MergeConflict {
            detail: "Failed to merge: conflicts with 'origin/main'".to_string()
        }))
    );
}

#[test]
fn failed_open_is_reported() {
    let state = run(vec![Reply::Failed("not a repository".to_string())]);
    assert_eq!(
        state.outcome,
        Some(Err(GitError::RepositoryUnavailable {
            detail: "Failed to open repository: not a repository".to_string()
        }))
    );
}

#[test]
fn failed_lookups_are_reported_as_missing_references() {
    let state = run(vec![Reply::Done, Reply::Failed("unborn".to_string())]);
    assert_eq!(
        state.outcome,
        Some(Err(GitError::RefNotFound { detail: "Failed to get HEAD: unborn".to_string() }))
    );
    let state = run(vec![
        Reply::Done,
        text("main"),
        text("url"),
        Reply::Done,
        Reply::Failed("gone".to_string()),
    ]);
    assert_eq!(
        state.outcome,
        Some(Err(GitError::RefNotFound {
            detail: "Failed to get remote branch reference: gone".to_string()
        }))
    );
    let state = run(vec![
        Reply::Done,
        text("main"),
        text("url"),
        Reply::Done,
        text("r"),
        Reply::Failed("gone".to_string()),
    ]);
    assert_eq!(
        state.outcome,
        Some(Err(GitError::RefNotFound {
            detail: "Failed to get local HEAD reference: gone".to_string()
        }))
    );
}

#[test]
fn failed_fetch_names_remote_and_refspec() {
    let state = run(vec![
        Reply::Done,
        text("dev"),
        text("https://example.com/r.git"),
        Reply::Failed("connection reset".to_string()),
    ]);
    assert_eq!(
        state.outcome,
        Some(Err(GitError::NetworkFailure {
            detail: "Failed to fetch: connection reset".to_string(),
            url: "https://example.com/r.git".to_string(),
            refspec: "refs/heads/dev:refs/remotes/origin/dev".to_string(),
        }))
    );
}

#[test]
fn refused_credentials_are_told_apart() {
    let state = run(vec![
        Reply::Done,
        text("dev"),
        text("ssh://host/r.git"),
        Reply::Refused("agent has no key".to_string()),
    ]);
    assert_eq!(
        state.outcome,
        Some(Err(GitError::AuthenticationExhausted {
            detail: "Failed to fetch: agent has no key".to_string(),
            url: "ssh://host/r.git".to_string(),
            refspec: "refs/heads/dev:refs/remotes/origin/dev".to_string(),
        }))
    );
    let state = run(vec![
        Reply::Done,
        text("dev"),
        text("ssh://host/r.git"),
        Reply::Failed("authentication server unreachable".to_string()),
    ]);
    assert!(matches!(state.outcome, Some(Err(GitError::NetworkFailure { .. }))));
}

#[test]
fn refusal_elsewhere_is_a_failure_of_that_step() {
    let state = run(vec![Reply::Refused("denied".to_string())]);
    assert_eq!(
        state.outcome,
        Some(Err(GitError::RepositoryUnavailable {
            detail: "Failed to open repository: denied".to_string()
        }))
    );
    let mut replies = up_to_merge_base("l", "r");
    replies.push(Reply::Refused("denied".to_string()));
    assert_eq!(run(replies).stage, PullStage::Merging);
}

#[test]
fn later_failures_carry_their_step() {
    let cases: Vec<(usize, &str)> = vec![
        (6, "Failed to get index: x"),
        (7, "Failed to create diff: x"),
        (8, "Failed to get diff stats: x"),
    ];
    for (steps, expected) in cases {
        let mut replies = up_to_merge_base("l", "r");
        replies.truncate(steps);
        replies.push(Reply::Failed("x".to_string()));
        let state = run(replies);
        assert_eq!(
            state.outcome,
            Some(Err(GitError::RepositoryUnavailable { detail: expected.to_string() }))
        );
    }
    let commit_cases: Vec<(usize, &str)> =
        vec![(9, "Failed to find remote commit: x"), (10, "Failed to find local commit: x")];
    for (steps, expected) in commit_cases {
        let mut replies = up_to_merge_base("l", "r");
        replies.truncate(steps);
        replies.push(Reply::Failed("x".to_string()));
        let state = run(replies);
        assert_eq!(
            state.outcome,
            Some(Err(GitError::RefNotFound { detail: expected.to_string() }))
        );
    }
}

#[test]
fn failures_on_the_way_of_a_fast_forward() {
    let mut replies = up_to_merge_base("l", "r");
    replies.push(text("l"));
    replies.push(Reply::Failed("x".to_string()));
    assert_eq!(
        run(replies).outcome,
        Some(Err(GitError::RefNotFound { detail: "Failed to find HEAD reference: x".to_string() }))
    );
    let mut replies = up_to_merge_base("l", "r");
    replies.push(text("l"));
    replies.push(Reply::Done);
    replies.push(Reply::Failed("locked".to_string()));
    assert_eq!(
        run(replies).outcome,
        Some(Err(GitError::RepositoryUnavailable {
            detail: "Failed to fast-forward: locked".to_string()
        }))
    );
}

#[test]
fn failures_on_the_way_of_a_merge() {
    let steps: Vec<(Vec<Reply>, &str)> = vec![
        (vec![], "Failed to merge: x"),
        (vec![Reply::Flag(false)], "Failed to write merge tree: x"),
        (vec![Reply::Flag(false), text("t")], "Failed to find merge tree: x"),
        (vec![Reply::Flag(false), text("t"), Reply::Done], "Failed to create signature: x"),
        (
            vec![Reply::Flag(false), text("t"), Reply::Done, Reply::Done],
            "Failed to create merge commit: x",
        ),
    ];
    for (more, expected) in steps {
        let mut replies = up_to_merge_base("l", "r");
        replies.push(text("other"));
        replies.extend(more);
        replies.push(Reply::Failed("x".to_string()));
        assert_eq!(
            run(replies).outcome,
            Some(Err(GitError::RepositoryUnavailable { detail: expected.to_string() }))
        );
    }
}

#[test]
fn reply_of_the_wrong_kind_ends_the_pull() {
    let state = run(vec![Reply::Count(3)]);
    assert_eq!(
        state.outcome,
        Some(Err(GitError::RepositoryUnavailable {
            detail: "Unexpected reply from the repository".to_string()
        }))
    );
    let state = run(vec![Reply::Done, Reply::Flag(true)]);
    assert_eq!(state.stage, PullStage::Finished);
}
