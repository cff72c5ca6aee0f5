use echidnabot::dispatcher::ProverKind;
use echidnabot::scheduler::job_queue::JobScheduler;
use echidnabot::scheduler::{JobId, JobPriority, JobResult, JobStatus, ProofJob};
use uuid::Uuid;

fn job(repo: u128, commit: &str, prover: ProverKind, priority: JobPriority) -> ProofJob {
    ProofJob::new(repo, commit.to_string(), prover, vec![]).with_priority(priority)
}

#[test]
fn test_enqueue_and_start() {
    let mut scheduler = JobScheduler::new(2, 10);
    let job1 = ProofJob::new(
        Uuid::new_v4().as_u128(),
        "abc123".to_string(),
        ProverKind::Metamath,
        vec!["test.mm".to_string()],
    );
    let job2 = ProofJob::new(
        Uuid::new_v4().as_u128(),
        "def456".to_string(),
        ProverKind::Metamath,
        vec!["test2.mm".to_string()],
    );
    assert!(scheduler.enqueue(job1).unwrap().is_some());
    assert!(scheduler.enqueue(job2).unwrap().is_some());
    let started = scheduler.try_start_next();
    assert!(started.is_some());
    assert_eq!(started.unwrap().status, JobStatus::Running);
    let stats = scheduler.stats();
    assert_eq!(stats.running, 1);
    assert_eq!(stats.queued, 1);
}

#[test]
fn test_duplicate_detection() {
    let mut scheduler = JobScheduler::new(2, 10);
    let repo_id = Uuid::new_v4().as_u128();
    let job1 = ProofJob::new(
        repo_id,
        "abc123".to_string(),
        ProverKind::Metamath,
        vec!["test.mm".to_string()],
    );
    let job2 = ProofJob::new(
        repo_id,
        "abc123".to_string(),
        ProverKind::Metamath,
        vec!["test.mm".to_string()],
    );
    assert!(scheduler.enqueue(job1).unwrap().is_some());
    assert!(scheduler.enqueue(job2).unwrap().is_none());
}

#[test]
fn test_priority_ordering() {
    let mut scheduler = JobScheduler::new(1, 10);
    let repo_id = Uuid::new_v4().as_u128();
    let low_priority = ProofJob::new(
        repo_id,
        "low".to_string(),
        ProverKind::Metamath,
        vec!["low.mm".to_string()],
    )
    .with_priority(JobPriority::Low);
    let high_priority = ProofJob::new(
        repo_id,
        "high".to_string(),
        ProverKind::Lean,
        vec!["high.lean".to_string()],
    )
    .with_priority(JobPriority::High);
    scheduler.enqueue(low_priority).unwrap();
    scheduler.enqueue(high_priority).unwrap();
    let started = scheduler.try_start_next().unwrap();
    assert_eq!(started.commit_sha, "high");
}

#[test]
fn duplicate_rejection_ignores_the_file_list() {
    let mut scheduler = JobScheduler::new(1, 10);
    assert!(scheduler.enqueue(job(1, "c2", ProverKind::Metamath, JobPriority::Normal)).unwrap().is_some());
    let other_files = ProofJob::new(1, "c2".to_string(), ProverKind::Metamath, vec!["x.mm".to_string()]);
    assert_eq!(scheduler.enqueue(other_files).unwrap(), None);
    assert!(scheduler.enqueue(job(1, "c2", ProverKind::Lean, JobPriority::Normal)).unwrap().is_some());
    assert!(scheduler.enqueue(job(2, "c2", ProverKind::Metamath, JobPriority::Normal)).unwrap().is_some());
    assert!(scheduler.enqueue(job(1, "c3", ProverKind::Metamath, JobPriority::Normal)).unwrap().is_some());
    assert_eq!(scheduler.stats().queued, 4);
}

#[test]
fn priority_preemption() {
    let mut scheduler = JobScheduler::new(1, 10);
    scheduler.enqueue(job(1, "c3", ProverKind::Metamath, JobPriority::Low)).unwrap();
    let critical = job(1, "c4", ProverKind::Metamath, JobPriority::Critical);
    let id = critical.id;
    assert_eq!(scheduler.enqueue(critical).unwrap(), Some(id));
    let started = scheduler.try_start_next().unwrap();
    assert_eq!(started.commit_sha, "c4");
    assert_eq!(started.priority, JobPriority::Critical);
    assert_eq!(started.id, id);
}

#[test]
fn strict_priority_and_fifo_within_a_class() {
    let mut scheduler = JobScheduler::new(10, 10);
    let order = [
        ("n1", JobPriority::Normal),
        ("l1", JobPriority::Low),
        ("h1", JobPriority::High),
        ("n2", JobPriority::Normal),
        ("c1", JobPriority::Critical),
        ("h2", JobPriority::High),
        ("l2", JobPriority::Low),
    ];
    for (commit, priority) in order {
        scheduler.enqueue(job(1, commit, ProverKind::Coq, priority)).unwrap();
    }
    let mut started = Vec::new();
    while let Some(j) = scheduler.try_start_next() {
        started.push(j.commit_sha);
    }
    assert_eq!(started, vec!["c1", "h1", "h2", "n1", "n2", "l1", "l2"]);
}

#[test]
fn concurrency_never_exceeds_the_limit() {
    let mut scheduler = JobScheduler::new(2, 10);
    for i in 0..5 {
        scheduler.enqueue(job(1, &format!("c{}", i), ProverKind::Coq, JobPriority::Normal)).unwrap();
    }
    let a = scheduler.try_start_next().unwrap();
    let _b = scheduler.try_start_next().unwrap();
    assert!(scheduler.try_start_next().is_none());
    assert!(!scheduler.has_capacity());
    assert_eq!(scheduler.active_count(), 2);
    assert_eq!(scheduler.stats().queued, 3);
    assert!(scheduler.complete_job(a.id, true, "ok".to_string()).is_some());
    assert!(scheduler.has_capacity());
    assert!(scheduler.try_start_next().is_some());
    assert!(scheduler.try_start_next().is_none());
    assert_eq!(scheduler.active_count(), 2);
}

#[test]
fn zero_concurrency_starts_nothing() {
    let mut scheduler = JobScheduler::new(0, 10);
    scheduler.enqueue(job(1, "c", ProverKind::Coq, JobPriority::Normal)).unwrap();
    assert!(scheduler.try_start_next().is_none());
    assert_eq!(scheduler.stats().queued, 1);
}

#[test]
fn empty_queue_yields_none() {
    let mut scheduler = JobScheduler::new(2, 10);
    assert!(scheduler.try_start_next().is_none());
    let stats = scheduler.stats();
    assert_eq!((stats.queued, stats.running, stats.max_concurrent, stats.max_queue_size), (0, 0, 2, 10));
}

#[test]
fn full_queue_drops_silently() {
    let mut scheduler = JobScheduler::new(1, 2);
    assert!(scheduler.enqueue(job(1, "a", ProverKind::Coq, JobPriority::Low)).unwrap().is_some());
    assert!(scheduler.enqueue(job(1, "b", ProverKind::Coq, JobPriority::Low)).unwrap().is_some());
    assert_eq!(scheduler.enqueue(job(1, "c", ProverKind::Coq, JobPriority::Critical)).unwrap(), None);
    assert_eq!(scheduler.stats().queued, 2);
    let mut none = JobScheduler::new(1, 0);
    assert_eq!(none.enqueue(job(1, "a", ProverKind::Coq, JobPriority::Low)).unwrap(), None);
}

#[test]
fn rerun_after_start_is_allowed() {
    let mut scheduler = JobScheduler::new(2, 10);
    scheduler.enqueue(job(1, "c", ProverKind::Coq, JobPriority::Normal)).unwrap();
    scheduler.try_start_next().unwrap();
    assert!(scheduler.enqueue(job(1, "c", ProverKind::Coq, JobPriority::Normal)).unwrap().is_some());
}

#[test]
fn completion_reports_the_duration() {
    let mut scheduler = JobScheduler::new(2, 10);
    let j = job(1, "c", ProverKind::Coq, JobPriority::Normal);
    let id = j.id;
    scheduler.enqueue(j).unwrap();
    let started = scheduler.try_start_next_at(5_000).unwrap();
    assert_eq!(started.started_at, Some(5_000));
    let (done, result) = scheduler.complete_job_at(id, false, "boom".to_string(), 7_500).unwrap();
    assert_eq!(done.status, JobStatus::Failed);
    assert_eq!(done.completed_at, Some(7_500));
    assert_eq!(done.error_message, Some("boom".to_string()));
    assert_eq!(done.duration_ms(), Some(2_500));
    assert!(!result.success);
    assert_eq!(result.message, "boom");
    assert_eq!(result.duration_ms, 2_500);
    assert!(result.prover_output.is_empty());
    assert_eq!(scheduler.stats().running, 0);
    assert!(scheduler.complete_job_at(id, true, String::new(), 8_000).is_none());
    assert!(scheduler.complete_job(JobId(42), true, String::new()).is_none());
}

#[test]
fn success_completes_without_an_error_message() {
    let mut scheduler = JobScheduler::new(1, 10);
    let j = job(1, "c", ProverKind::Coq, JobPriority::Normal);
    let id = j.id;
    scheduler.enqueue(j).unwrap();
    scheduler.try_start_next_at(10).unwrap();
    let (done, result) = scheduler.complete_job_at(id, true, "fine".to_string(), 5).unwrap();
    assert_eq!(done.status, JobStatus::Completed);
    assert_eq!(done.error_message, None);
    assert_eq!(result.duration_ms, 0);
    assert!(result.success);
}

#[test]
fn only_waiting_jobs_can_be_cancelled() {
    let mut scheduler = JobScheduler::new(1, 10);
    let first = job(1, "a", ProverKind::Coq, JobPriority::Normal);
    let second = job(1, "b", ProverKind::Coq, JobPriority::Normal);
    let (id1, id2) = (first.id, second.id);
    scheduler.enqueue(first).unwrap();
    scheduler.enqueue(second).unwrap();
    scheduler.try_start_next().unwrap();
    assert!(!scheduler.cancel_job(id1));
    assert_eq!(scheduler.stats().running, 1);
    let cancelled = scheduler.cancel_job_at(id2, 99).unwrap();
    assert_eq!(cancelled.status, JobStatus::Cancelled);
    assert_eq!(cancelled.completed_at, Some(99));
    assert_eq!(scheduler.stats().queued, 0);
    assert!(!scheduler.cancel_job(id2));
    assert!(!scheduler.cancel_job(JobId(1)));
}

#[test]
fn conservation_of_jobs() {
    let mut scheduler = JobScheduler::new(2, 4);
    let (mut accepted, mut completed, mut cancelled) = (0usize, 0usize, 0usize);
    let mut ids = Vec::new();
    for i in 0..6 {
        let j = job(1, &format!("c{}", i % 5), ProverKind::Coq, JobPriority::Normal);
        let id = j.id;
        if scheduler.enqueue(j).unwrap().is_some() {
            accepted += 1;
            ids.push(id);
        }
        let s = scheduler.stats();
        assert_eq!(s.queued + s.running, accepted - completed - cancelled);
    }
    assert_eq!(accepted, 4);
    let a = scheduler.try_start_next().unwrap();
    scheduler.try_start_next().unwrap();
    if scheduler.cancel_job(ids[3]) {
        cancelled += 1;
    }
    if scheduler.complete_job(a.id, true, String::new()).is_some() {
        completed += 1;
    }
    if scheduler.complete_job(a.id, true, String::new()).is_some() {
        completed += 1;
    }
    let s = scheduler.stats();
    assert_eq!((cancelled, completed), (1, 1));
    assert_eq!(s.queued + s.running, accepted - completed - cancelled);
}

#[test]
fn jobs_are_found_by_id_and_by_repository() {
    let mut scheduler = JobScheduler::new(1, 10);
    let a = job(1, "a", ProverKind::Coq, JobPriority::Normal);
    let b = job(2, "b", ProverKind::Coq, JobPriority::Normal);
    let c = job(1, "c", ProverKind::Coq, JobPriority::Low);
    let (ida, idb) = (a.id, b.id);
    scheduler.enqueue(a).unwrap();
    scheduler.enqueue(b).unwrap();
    scheduler.enqueue(c).unwrap();
    scheduler.try_start_next().unwrap();
    assert_eq!(scheduler.get_job(ida).unwrap().status, JobStatus::Running);
    assert_eq!(scheduler.get_job(idb).unwrap().status, JobStatus::Queued);
    assert!(scheduler.get_job(JobId(5)).is_none());
    let of_one: Vec<String> = scheduler.jobs_for_repo(1).into_iter().map(|j| j.commit_sha).collect();
    assert_eq!(of_one, vec!["a", "c"]);
    assert!(scheduler.jobs_for_repo(3).is_empty());
}

#[test]
fn job_lifecycle() {
    let mut j = ProofJob::with_id(JobId(9), 100, 1, "c".to_string(), ProverKind::Coq, vec![]);
    assert_eq!(j.status, JobStatus::Queued);
    assert_eq!(j.priority, JobPriority::Normal);
    assert_eq!((j.queued_at, j.started_at, j.completed_at), (100, None, None));
    assert_eq!(j.duration_ms(), None);
    assert!(!j.status.is_terminal());
    j.start_at(150);
    assert_eq!(j.status, JobStatus::Running);
    assert_eq!(j.duration_ms(), None);
    let result = JobResult {
        success: true,
        message: "ok".to_string(),
        prover_output: String::new(),
        duration_ms: 50,
        verified_files: vec![],
        failed_files: vec![],
    };
    j.complete_at(&result, 200);
    assert_eq!(j.status, JobStatus::Completed);
    assert!(j.status.is_terminal());
    assert_eq!(j.duration_ms(), Some(50));
    let mut k = ProofJob::new(1, "c".to_string(), ProverKind::Coq, vec![]);
    k.cancel();
    assert_eq!(k.status, JobStatus::Cancelled);
    assert!(k.completed_at.is_some());
    assert!(k.started_at.is_none());
    let a = ProofJob::new(1, "c".to_string(), ProverKind::Coq, vec![]);
    let b = ProofJob::new(1, "c".to_string(), ProverKind::Coq, vec![]);
    assert_ne!(a.id, b.id);
    let copy = a.clone();
    assert_eq!((copy.id, copy.commit_sha.as_str()), (a.id, "c"));
}

#[test]
fn priorities_are_totally_ordered() {
    assert!(JobPriority::Low < JobPriority::Normal);
    assert!(JobPriority::Normal < JobPriority::High);
    assert!(JobPriority::High < JobPriority::Critical);
    assert_eq!(JobPriority::Low.rank(), 0);
    assert_eq!(JobPriority::Critical.rank(), 3);
}

#[test]
fn new_identifiers_are_random_uuids() {
    for _ in 0..20 {
        let id = JobId::new();
        assert_eq!((id.0 >> 76) & 0xf, 4);
        assert_eq!((id.0 >> 62) & 0x3, 2);
        let uuid = Uuid::from_u128(id.0);
        assert_eq!(uuid.get_version_num(), 4);
        assert_eq!(id.text(), uuid.to_string());
    }
    assert_ne!(JobId::new(), JobId::new());
}
