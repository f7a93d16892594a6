use gitlite::error::{transfer_error, GitError};

#[test]
fn plain_failures_show_their_detail() {
    assert_eq!(
        GitError::RepositoryUnavailable { detail: "Failed to open repository: x".to_string() }
            .message(),
        "Failed to open repository: x"
    );
    assert_eq!(
        GitError::RefNotFound { detail: "Failed to get HEAD: x".to_string() }.message(),
        "Failed to get HEAD: x"
    );
    assert_eq!(GitError::StashConflict { detail: "c".to_string() }.message(), "c");
}

#[test]
fn unmet_conditions_are_put_as_advice() {
    assert_eq!(GitError::NothingStaged.message(), "No files staged for commit");
    assert_eq!(GitError::NothingToStash.message(), "No changes to stash");
    assert_eq!(
        GitError::UncommittedChanges.message(),
        "Cannot pull: You have uncommitted changes. Please commit or stash them first."
    );
}

#[test]
fn transfer_failures_name_remote_and_refspec() {
    let e = GitError::NetworkFailure {
        detail: "Failed to fetch: timed out".to_string(),
        url: "https://h/r.git".to_string(),
        refspec: "refs/heads/m:refs/remotes/origin/m".to_string(),
    };
    assert_eq!(
        e.message(),
        "Failed to fetch: timed out | url=https://h/r.git refspec=refs/heads/m:refs/remotes/origin/m"
    );
    let e = GitError::AuthenticationExhausted {
        detail: "Failed to push: authentication required".to_string(),
        url: "u".to_string(),
        refspec: "r".to_string(),
    };
    assert_eq!(
        e.message(),
        "Failed to push: authentication required | url=u refspec=r. Check your credentials."
    );
}

#[test]
fn conflicts_come_with_a_hint() {
    assert_eq!(
        GitError::MergeConflict { detail: "Failed to merge: conflicts with 'origin/m'".to_string() }
            .message(),
        "Failed to merge: conflicts with 'origin/m'. Resolve the conflicts by hand."
    );
}

#[test]
fn missing_stash_lists_the_ones_there_are() {
    let e = GitError::StashNotFound {
        requested: "ab".to_string(),
        available: vec!["c1: one".to_string(), "c2: two".to_string(), "c3: three".to_string()],
    };
    assert_eq!(
        e.message(),
        "Stash not found: ab. Available stashes: [c1: one, c2: two, c3: three]"
    );
    let single =
        GitError::StashNotFound { requested: "ab".to_string(), available: vec!["c".to_string()] };
    assert_eq!(single.message(), "Stash not found: ab. Available stashes: [c]");
    let none = GitError::StashNotFound { requested: "".to_string(), available: vec![] };
    assert_eq!(none.message(), "Stash not found: . Available stashes: []");
}

#[test]
fn transfer_failure_is_told_by_the_refusal() {
    assert_eq!(
        transfer_error("Failed to push: ", "no key accepted", "u", "r", true),
        GitError::AuthenticationExhausted {
            detail: "Failed to push: no key accepted".to_string(),
            url: "u".to_string(),
            refspec: "r".to_string(),
        }
    );
    assert_eq!(
        transfer_error("Failed to push: ", "authentication server unreachable", "u", "r", false),
        GitError::NetworkFailure {
            detail: "Failed to push: authentication server unreachable".to_string(),
            url: "u".to_string(),
            refspec: "r".to_string(),
        }
    );
}
