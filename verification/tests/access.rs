use gitlite::access::{Access, AccessLedger};
use gitlite::error::GitError;
use gitlite::status::{classify_readings, DeltaEntry, DeltaKind};

#[test]
fn readers_share_a_repository() {
    let mut ledger = AccessLedger::new();
    assert!(ledger.enter("/a", Access::Read));
    assert!(ledger.enter("/a", Access::Read));
    assert!(ledger.enter("/b", Access::Read));
    assert_eq!(ledger.readers, vec!["/a", "/a", "/b"]);
    assert!(ledger.writers.is_empty());
}

#[test]
fn writer_waits_for_readers_and_writers() {
    let mut ledger = AccessLedger::new();
    assert!(ledger.enter("/a", Access::Read));
    assert!(!ledger.enter("/a", Access::Write));
    assert!(ledger.enter("/b", Access::Write));
    assert!(!ledger.enter("/b", Access::Write));
    assert!(!ledger.enter("/b", Access::Read));
    assert_eq!(ledger.readers, vec!["/a"]);
    assert_eq!(ledger.writers, vec!["/b"]);
    ledger.release("/a", Access::Read);
    assert!(ledger.enter("/a", Access::Write));
    ledger.release("/b", Access::Write);
    assert!(ledger.enter("/b", Access::Read));
    assert_eq!(ledger.readers, vec!["/b"]);
    assert_eq!(ledger.writers, vec!["/a"]);
}

#[test]
fn release_strikes_one_operation_off() {
    let mut ledger = AccessLedger::new();
    assert!(ledger.enter("/a", Access::Read));
    assert!(ledger.enter("/b", Access::Read));
    assert!(ledger.enter("/a", Access::Read));
    ledger.release("/a", Access::Read);
    assert_eq!(ledger.readers, vec!["/b", "/a"]);
    assert!(!ledger.enter("/a", Access::Write));
    ledger.release("/a", Access::Read);
    ledger.release("/a", Access::Read);
    ledger.release("/c", Access::Write);
    assert_eq!(ledger.readers, vec!["/b"]);
    assert!(ledger.enter("/a", Access::Write));
}

#[test]
fn status_is_all_or_nothing() {
    let deltas = vec![DeltaEntry {
        new_path: Some("a".to_string()),
        old_path: None,
        kind: DeltaKind::Modified,
    }];
    let status = classify_readings(Ok(vec![]), Ok(vec![]), Ok(deltas.clone())).unwrap();
    assert_eq!(status.unstaged_files.len(), 1);
    assert_eq!(
        classify_readings(Err("locked".to_string()), Ok(vec![]), Ok(deltas.clone())),
        Err(GitError::RepositoryUnavailable {
            detail: "Failed to get statuses: locked".to_string()
        })
    );
    assert_eq!(
        classify_readings(Ok(vec![]), Err("x".to_string()), Err("y".to_string())),
        Err(GitError::RepositoryUnavailable {
            detail: "Failed to create HEAD->index diff: x".to_string()
        })
    );
    assert_eq!(
        classify_readings(Ok(vec![]), Ok(vec![]), Err("y".to_string())),
        Err(GitError::RepositoryUnavailable {
            detail: "Failed to create index->workdir diff: y".to_string()
        })
    );
}
