use gitlite::credentials::{
    choose_strategy, conclude_negotiation, no_method_message, ssh_username, strategies,
    CredentialOffer, CredentialStrategy,
};
use gitlite::error::GitError;
use gitlite::fetch::{fetch_advance, fetch_begin, fetch_request, FetchAction, FetchStage};
use gitlite::push::{
    push_advance, push_advice, push_begin, push_request, PushAction, PushOutcome, PushStage,
    PushState, UpstreamChange,
};
use gitlite::reply::Reply;

fn text(s: &str) -> Reply {
    Reply::Text(s.to_string())
}

fn push_run(replies: Vec<Reply>) -> PushState {
    let mut state = push_begin();
    for reply in replies {
        state = push_advance(state, reply);
    }
    state
}

fn push_actions(replies: Vec<Reply>) -> Vec<PushAction> {
    let mut state = push_begin();
    let mut seen = vec![push_request(&state)];
    for reply in replies {
        state = push_advance(state, reply);
        seen.push(push_request(&state));
    }
    seen
}

fn offer(default: bool, ssh_key: bool, user_pass_plaintext: bool) -> CredentialOffer {
    CredentialOffer { default, ssh_key, user_pass_plaintext }
}

#[test]
fn push_sends_the_branch_under_its_own_name() {
    let seen = push_actions(vec![Reply::Done, text("topic"), text("url")]);
    assert_eq!(
        seen,
        vec![
            PushAction::OpenRepository,
            PushAction::ReadHead,
            PushAction::FindRemote { name: "origin".to_string() },
            PushAction::Push { refspec: "refs/heads/topic:refs/heads/topic".to_string() },
        ]
    );
}

#[test]
fn push_gives_a_branch_without_upstream_one() {
    let replies =
        vec![Reply::Done, text("topic"), text("url"), Reply::Done, Reply::Done, Reply::Flag(false)];
    let seen = push_actions(replies.clone());
    assert_eq!(
        seen[4..].to_vec(),
        vec![
            PushAction::FindBranch { name: "topic".to_string() },
            PushAction::ReadUpstream,
            PushAction::SetUpstream { name: "origin/topic".to_string() },
        ]
    );
    let mut replies = replies;
    replies.push(Reply::Done);
    let state = push_run(replies);
    assert_eq!(
        state.outcome,
        Some(Ok(PushOutcome {
            branch: "topic".to_string(),
            upstream: UpstreamChange::Established
        }))
    );
}

#[test]
fn push_leaves_an_existing_upstream_alone() {
    let replies =
        vec![Reply::Done, text("topic"), text("url"), Reply::Done, Reply::Done, Reply::Flag(true)];
    let seen = push_actions(replies.clone());
    assert!(seen.iter().all(|a| !matches!(a, PushAction::SetUpstream { .. })));
    let state = push_run(replies);
    assert_eq!(
        state.outcome,
        Some(Ok(PushOutcome { branch: "topic".to_string(), upstream: UpstreamChange::Kept }))
    );
    let outcome = PushOutcome { branch: "topic".to_string(), upstream: UpstreamChange::Kept };
    assert_eq!(outcome.message(), "Successfully pushed to origin/topic");
}

#[test]
fn upstream_is_never_set_before_the_push_succeeded() {
    let failures = vec![
        vec![Reply::Failed("x".to_string())],
        vec![Reply::Done, Reply::Failed("x".to_string())],
        vec![Reply::Done, text("b"), Reply::Failed("x".to_string())],
        vec![Reply::Done, text("b"), text("u"), Reply::Failed("rejected".to_string())],
    ];
    for replies in failures {
        let seen = push_actions(replies.clone());
        assert!(seen.iter().all(|a| !matches!(a, PushAction::SetUpstream { .. })));
        let state = push_run(replies);
        assert!(!state.pushed);
        assert!(matches!(state.outcome, Some(Err(_))));
    }
}

#[test]
fn trouble_with_the_upstream_does_not_fail_the_push() {
    let base = vec![Reply::Done, text("b"), text("u"), Reply::Done];
    let mut lookup_failed = base.clone();
    lookup_failed.push(Reply::Failed("no such branch".to_string()));
    assert_eq!(
        push_run(lookup_failed).outcome,
        Some(Ok(PushOutcome { branch: "b".to_string(), upstream: UpstreamChange::Skipped }))
    );
    let mut unreadable = base.clone();
    unreadable.extend(vec![Reply::Done, Reply::Failed("no upstream".to_string())]);
    assert_eq!(push_run(unreadable).stage, PushStage::SettingUpstream);
    let mut set_failed = base.clone();
    set_failed.extend(vec![Reply::Done, Reply::Flag(false), Reply::Failed("locked".to_string())]);
    assert_eq!(
        push_run(set_failed).outcome,
        Some(Ok(PushOutcome {
            branch: "b".to_string(),
            upstream: UpstreamChange::NotEstablished { reason: "locked".to_string() }
        }))
    );
}

#[test]
fn failed_push_names_remote_and_refspec() {
    let state = push_run(vec![
        Reply::Done,
        text("b"),
        text("https://h/r.git"),
        Reply::Failed("network unreachable".to_string()),
    ]);
    assert_eq!(
        state.outcome,
        Some(Err(GitError::NetworkFailure {
            detail: "Failed to push: network unreachable".to_string(),
            url: "https://h/r.git".to_string(),
            refspec: "refs/heads/b:refs/heads/b".to_string(),
        }))
    );
    let state = push_run(vec![
        Reply::Done,
        text("b"),
        Reply::Nothing,
        Reply::Refused("no key accepted".to_string()),
    ]);
    assert_eq!(
        state.outcome,
        Some(Err(GitError::AuthenticationExhausted {
            detail: "Failed to push: no key accepted".to_string(),
            url: "".to_string(),
            refspec: "refs/heads/b:refs/heads/b".to_string(),
        }))
    );
}

#[test]
fn early_push_failures_carry_their_step() {
    assert_eq!(
        push_run(vec![Reply::Failed("x".to_string())]).outcome,
        Some(Err(GitError::RepositoryUnavailable {
            detail: "Failed to open repository: x".to_string()
        }))
    );
    assert_eq!(
        push_run(vec![Reply::Done, Reply::Failed("x".to_string())]).outcome,
        Some(Err(GitError::RefNotFound { detail: "Failed to get HEAD: x".to_string() }))
    );
    assert_eq!(
        push_run(vec![Reply::Done, Reply::Nothing, Reply::Failed("x".to_string())]).outcome,
        Some(Err(GitError::RepositoryUnavailable {
            detail: "Failed to find remote 'origin': x".to_string()
        }))
    );
    assert_eq!(
        push_run(vec![Reply::Flag(true)]).outcome,
        Some(Err(GitError::RepositoryUnavailable {
            detail: "Unexpected reply from the repository".to_string()
        }))
    );
}

#[test]
fn advice_follows_the_reason() {
    assert_eq!(push_advice("authentication failed"), "建议：检查Git凭据配置，确保有推送权限");
    assert_eq!(push_advice("network is down"), "建议：检查网络连接，或尝试使用代理");
    assert_eq!(push_advice("timeout after 30s"), "建议：检查网络连接，或尝试使用代理");
    assert_eq!(push_advice("push rejected"), "建议：远程仓库可能已更新，请先拉取最新更改");
    assert_eq!(push_advice("disk full"), "建议：查看详细错误信息，或尝试使用命令行推送");
    assert_eq!(
        push_advice("rejected: authentication"),
        "建议：检查Git凭据配置，确保有推送权限"
    );
}

#[test]
fn fetch_only_fetches() {
    let mut state = fetch_begin();
    let mut seen = vec![fetch_request(&state)];
    for reply in vec![Reply::Done, text("https://h/r.git"), Reply::Done] {
        state = fetch_advance(state, reply);
        seen.push(fetch_request(&state));
    }
    assert_eq!(
        seen,
        vec![
            FetchAction::OpenRepository,
            FetchAction::FindRemote { name: "origin".to_string() },
            FetchAction::FetchConfigured,
            FetchAction::Finish,
        ]
    );
    assert_eq!(state.stage, FetchStage::Finished);
    assert_eq!(state.outcome, Some(Ok(())));
    assert_eq!(fetch_advance(state.clone(), Reply::Done), state);
}

#[test]
fn failed_fetch_is_a_network_failure() {
    let mut state = fetch_begin();
    for reply in
        vec![Reply::Done, text("https://h/r.git"), Reply::Failed("timed out".to_string())]
    {
        state = fetch_advance(state, reply);
    }
    assert_eq!(
        state.outcome,
        Some(Err(GitError::NetworkFailure {
            detail: "Failed to fetch: timed out".to_string(),
            url: "https://h/r.git".to_string(),
            refspec: "".to_string(),
        }))
    );
    let state = fetch_advance(fetch_begin(), Reply::Failed("x".to_string()));
    assert_eq!(
        state.outcome,
        Some(Err(GitError::RepositoryUnavailable {
            detail: "Failed to open repository: x".to_string()
        }))
    );
    let state =
        fetch_advance(fetch_advance(fetch_begin(), Reply::Done), Reply::Failed("x".to_string()));
    assert_eq!(
        state.outcome,
        Some(Err(GitError::RepositoryUnavailable {
            detail: "Failed to find remote 'origin': x".to_string()
        }))
    );
    let refused = fetch_advance(
        fetch_advance(fetch_advance(fetch_begin(), Reply::Done), Reply::Nothing),
        Reply::Refused("no credential".to_string()),
    );
    assert_eq!(
        refused.outcome,
        Some(Err(GitError::AuthenticationExhausted {
            detail: "Failed to fetch: no credential".to_string(),
            url: "".to_string(),
            refspec: "".to_string(),
        }))
    );
    let state = fetch_advance(fetch_begin(), Reply::Count(1));
    assert_eq!(
        state.outcome,
        Some(Err(GitError::RepositoryUnavailable {
            detail: "Unexpected reply from the repository".to_string()
        }))
    );
}

#[test]
fn strategies_are_tried_in_order() {
    assert_eq!(
        strategies(),
        vec![CredentialStrategy::Ambient, CredentialStrategy::SshAgent, CredentialStrategy::Helper]
    );
    assert_eq!(choose_strategy(offer(true, true, true)), Some(CredentialStrategy::Ambient));
    assert_eq!(choose_strategy(offer(false, true, true)), Some(CredentialStrategy::SshAgent));
    assert_eq!(choose_strategy(offer(false, false, true)), Some(CredentialStrategy::Helper));
    assert_eq!(choose_strategy(offer(true, false, false)), Some(CredentialStrategy::Ambient));
    assert_eq!(choose_strategy(offer(false, false, false)), None);
}

#[test]
fn agent_user_falls_back_to_git() {
    assert_eq!(ssh_username(Some("alice")), "alice");
    assert_eq!(ssh_username(None), "git");
}

#[test]
fn negotiation_does_not_cascade() {
    assert_eq!(
        conclude_negotiation(Some(CredentialStrategy::SshAgent), true, "u"),
        Ok(CredentialStrategy::SshAgent)
    );
    let exhausted = GitError::AuthenticationExhausted {
        detail: "No authentication method available".to_string(),
        url: "u".to_string(),
        refspec: "".to_string(),
    };
    assert_eq!(
        conclude_negotiation(Some(CredentialStrategy::Ambient), false, "u"),
        Err(exhausted.clone())
    );
    assert_eq!(conclude_negotiation(None, true, "u"), Err(exhausted.clone()));
    assert_eq!(conclude_negotiation(None, false, "u"), Err(exhausted));
    assert_eq!(no_method_message(), "No authentication method available");
}
