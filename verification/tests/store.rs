use echidnabot::adapters::Platform;
use echidnabot::dispatcher::ProverKind;
use echidnabot::error::Error;
use echidnabot::scheduler::{JobId, JobResult, ProofJob};
use echidnabot::store::{MemoryStore, ProofJobRecord, ProofResultRecord, Repository};

fn repo(id: u128, platform: Platform, owner: &str, name: &str) -> Repository {
    Repository::with_id(id, 0, platform, owner.to_string(), name.to_string())
}

fn record(id: u128, repo_id: u128, queued_at: i64) -> ProofJobRecord {
    ProofJobRecord::from_job(ProofJob::with_id(
        JobId(id),
        queued_at,
        repo_id,
        "c".to_string(),
        ProverKind::Coq,
        vec![],
    ))
}

fn result(job_id: u128) -> ProofResultRecord {
    ProofResultRecord {
        job_id: JobId(job_id),
        result: JobResult {
            success: true,
            message: String::new(),
            prover_output: String::new(),
            duration_ms: 1,
            verified_files: vec![],
            failed_files: vec![],
        },
    }
}

#[test]
fn register_get_delete_get() {
    let mut store = MemoryStore::new();
    assert!(store.health_check());
    store.create_repository(repo(1, Platform::GitHub, "acme", "thm")).unwrap();
    let found = store.get_repository_by_name(Platform::GitHub, "acme", "thm").unwrap();
    assert_eq!(found.id, 1);
    assert_eq!(store.get_repository(1).unwrap().name, "thm");
    store.delete_repository(1).unwrap();
    assert!(store.get_repository_by_name(Platform::GitHub, "acme", "thm").is_none());
    assert!(store.get_repository(1).is_none());
    assert!(store.delete_repository(1).is_ok());
}

#[test]
fn at_most_one_row_per_natural_key() {
    let mut store = MemoryStore::new();
    store.create_repository(repo(1, Platform::GitHub, "acme", "thm")).unwrap();
    assert!(matches!(
        store.create_repository(repo(2, Platform::GitHub, "acme", "thm")),
        Err(Error::Sqlx(_))
    ));
    assert!(matches!(
        store.create_repository(repo(1, Platform::GitHub, "acme", "other")),
        Err(Error::Sqlx(_))
    ));
    store.create_repository(repo(2, Platform::GitLab, "acme", "thm")).unwrap();
    store.create_repository(repo(3, Platform::GitHub, "acme", "Thm")).unwrap();
    assert_eq!(store.list_repositories(None).len(), 3);
    assert_eq!(store.list_repositories(Some(Platform::GitHub)).len(), 2);
    assert_eq!(store.list_repositories(Some(Platform::Codeberg)).len(), 0);
    assert_eq!(store.get_repository_by_name(Platform::GitLab, "acme", "thm").unwrap().id, 2);
}

#[test]
fn update_replaces_the_row_and_keeps_keys_unique() {
    let mut store = MemoryStore::new();
    store.create_repository(repo(1, Platform::GitHub, "acme", "a")).unwrap();
    store.create_repository(repo(2, Platform::GitHub, "acme", "b")).unwrap();
    let mut changed = repo(1, Platform::GitHub, "acme", "a");
    changed.enabled = false;
    store.update_repository(changed).unwrap();
    assert!(!store.get_repository(1).unwrap().enabled);
    assert!(matches!(
        store.update_repository(repo(1, Platform::GitHub, "acme", "b")),
        Err(Error::Sqlx(_))
    ));
    assert_eq!(store.get_repository(1).unwrap().name, "a");
    store.update_repository(repo(1, Platform::GitHub, "acme", "c")).unwrap();
    assert_eq!(store.get_repository(1).unwrap().name, "c");
    store.update_repository(repo(9, Platform::GitHub, "x", "y")).unwrap();
    assert!(store.get_repository(9).is_none());
    assert_eq!(store.list_repositories(None).len(), 2);
}

#[test]
fn delete_cascades_to_jobs_and_results() {
    let mut store = MemoryStore::new();
    store.create_repository(repo(1, Platform::GitHub, "o", "a")).unwrap();
    store.create_repository(repo(2, Platform::GitHub, "o", "b")).unwrap();
    store.create_job(record(10, 1, 100)).unwrap();
    store.create_job(record(11, 2, 200)).unwrap();
    store.create_job(record(12, 1, 300)).unwrap();
    store.save_result(result(10)).unwrap();
    store.save_result(result(11)).unwrap();
    store.save_result(result(12)).unwrap();
    store.delete_repository(1).unwrap();
    assert!(store.get_job(JobId(10)).is_none());
    assert!(store.get_job(JobId(12)).is_none());
    assert_eq!(store.get_job(JobId(11)).unwrap().repo_id, 2);
    assert!(store.get_result_for_job(JobId(10)).is_none());
    assert!(store.get_result_for_job(JobId(12)).is_none());
    assert!(store.get_result_for_job(JobId(11)).is_some());
    assert!(store.list_jobs_for_repo(1, 10).is_empty());
    assert_eq!(store.list_repositories(None).len(), 1);
}

#[test]
fn jobs_are_listed_most_recent_first() {
    let mut store = MemoryStore::new();
    for (id, at) in [(1u128, 50i64), (2, 10), (3, 90), (4, 50), (5, 70)] {
        store.create_job(record(id, 1, at)).unwrap();
    }
    store.create_job(record(6, 2, 99)).unwrap();
    let listed: Vec<i64> = store.list_jobs_for_repo(1, 10).iter().map(|j| j.queued_at).collect();
    assert_eq!(listed, vec![90, 70, 50, 50, 10]);
    let ids: Vec<u128> = store.list_jobs_for_repo(1, 10).iter().map(|j| j.id.0).collect();
    assert_eq!(ids, vec![3, 5, 4, 1, 2]);
    let top: Vec<u128> = store.list_jobs_for_repo(1, 2).iter().map(|j| j.id.0).collect();
    assert_eq!(top, vec![3, 5]);
    assert!(store.list_jobs_for_repo(1, 0).is_empty());
    assert!(store.list_jobs_for_repo(3, 5).is_empty());
}

#[test]
fn new_repositories_have_the_defaults() {
    let r = Repository::new(Platform::Codeberg, "o".to_string(), "n".to_string());
    assert_eq!(r.enabled_provers, vec![ProverKind::Metamath]);
    assert!(r.enabled && r.check_on_push && r.check_on_pr && r.auto_comment);
    assert_eq!(r.webhook_secret, None);
    assert_eq!(r.last_checked_commit, None);
    assert_eq!(r.created_at, r.updated_at);
    let other = Repository::new(Platform::Codeberg, "o".to_string(), "n".to_string());
    assert_ne!(r.id, other.id);
}

#[test]
fn records_carry_the_job() {
    let job = ProofJob::with_id(JobId(4), 8, 2, "sha".to_string(), ProverKind::Lean, vec!["a".to_string()]);
    let r = ProofJobRecord::from_job(job);
    assert_eq!((r.id, r.repo_id, r.commit_sha.as_str(), r.prover, r.queued_at), (JobId(4), 2, "sha", ProverKind::Lean, 8));
    assert_eq!(r.file_paths, vec!["a".to_string()]);
}

#[test]
fn a_job_has_one_result() {
    let mut store = MemoryStore::new();
    store.save_result(result(1)).unwrap();
    assert!(matches!(store.save_result(result(1)), Err(Error::Sqlx(_))));
    store.save_result(result(2)).unwrap();
    assert!(store.get_result_for_job(JobId(1)).is_some());
    assert!(store.get_result_for_job(JobId(2)).is_some());
    assert!(store.get_result_for_job(JobId(3)).is_none());
}
