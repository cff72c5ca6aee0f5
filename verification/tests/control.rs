use echidnabot::adapters::Platform as AdapterPlatform;
use echidnabot::api::graphql::{
    JobStatus, MutationRoot, Platform, ProofJob, ProverKind, ProverStatus, QueryRoot, QueueStats,
    RegisterRepoInput, Registration, RepoSettingsInput, Repository,
};
use echidnabot::cli::{
    find_platform, health_text, parse_platform, parse_prover, parse_prover_list, parse_repo_arg,
    parse_status_target, platform_filter, platform_slug, split, StatusTarget,
};
use echidnabot::dispatcher::echidna_client::ProverStatus as Availability;
use echidnabot::dispatcher::ProverKind as Prover;
use echidnabot::error::Error;
use echidnabot::ident::{id_text, parse_id};
use echidnabot::scheduler::job_queue::JobScheduler;
use echidnabot::scheduler::{JobId, JobPriority, JobStatus as SchedulerStatus};
use echidnabot::store::Repository as Row;

fn row() -> Row {
    let mut r = Row::with_id(5, 1, AdapterPlatform::GitHub, "acme".to_string(), "thm".to_string());
    r.enabled_provers = vec![Prover::Metamath, Prover::Lean];
    r
}

fn input(provers: Option<Vec<ProverKind>>) -> RegisterRepoInput {
    RegisterRepoInput {
        platform: Platform::GitLab,
        owner: "o".to_string(),
        name: "n".to_string(),
        webhook_secret: Some("s".to_string()),
        enabled_provers: provers,
    }
}

#[test]
fn registration_is_idempotent() {
    match MutationRoot::register_repository(Some(row()), input(None)).unwrap() {
        Registration::Existing(r) => assert_eq!((r.id, r.owner.as_str()), (5, "acme")),
        Registration::Created(_) => panic!("an existing row is returned as it is"),
    }
    match MutationRoot::register_repository(None, input(None)).unwrap() {
        Registration::Created(r) => {
            assert_eq!(r.platform, AdapterPlatform::GitLab);
            assert_eq!((r.owner.as_str(), r.name.as_str()), ("o", "n"));
            assert_eq!(r.enabled_provers, vec![Prover::Metamath]);
            assert_eq!(r.webhook_secret, Some("s".to_string()));
            assert!(r.enabled);
        }
        Registration::Existing(_) => panic!("nothing was registered before"),
    }
    match MutationRoot::register_repository(None, input(Some(vec![ProverKind::Coq, ProverKind::Z3]))).unwrap() {
        Registration::Created(r) => assert_eq!(r.enabled_provers, vec![Prover::Coq, Prover::Z3]),
        Registration::Existing(_) => panic!("nothing was registered before"),
    }
    assert!(matches!(
        MutationRoot::register_repository(None, input(Some(vec![]))),
        Err(Error::InvalidInput(_))
    ));
}

#[test]
fn manual_checks_are_critical() {
    let jobs = MutationRoot::trigger_check(&row(), None, None).unwrap();
    assert_eq!(jobs.len(), 2);
    for j in &jobs {
        assert_eq!(j.priority, JobPriority::Critical);
        assert_eq!(j.commit_sha, "HEAD");
        assert_eq!(j.repo_id, 5);
        assert!(j.file_paths.is_empty());
        assert_eq!(j.status, SchedulerStatus::Queued);
    }
    assert_eq!((jobs[0].prover, jobs[1].prover), (Prover::Metamath, Prover::Lean));
    let jobs = MutationRoot::trigger_check(&row(), Some("abc".to_string()), Some(vec![ProverKind::Agda])).unwrap();
    assert_eq!(jobs.len(), 1);
    assert_eq!((jobs[0].commit_sha.as_str(), jobs[0].prover), ("abc", Prover::Agda));
    match MutationRoot::trigger_check(&row(), None, Some(vec![])) {
        Err(Error::InvalidInput(m)) => assert_eq!(m, "No provers specified"),
        _ => panic!("a check without provers is an error"),
    }
}

#[test]
fn the_first_job_of_a_check_must_be_accepted() {
    let mut scheduler = JobScheduler::new(1, 10);
    let jobs = MutationRoot::trigger_check(&row(), None, None).unwrap();
    let first_id = jobs[0].id;
    let accepted = MutationRoot::admit_check(&mut scheduler, jobs).unwrap();
    assert_eq!(accepted.len(), 2);
    assert_eq!(accepted[0].id, first_id);
    let again = MutationRoot::trigger_check(&row(), None, None).unwrap();
    match MutationRoot::admit_check(&mut scheduler, again) {
        Err(Error::InvalidInput(m)) => assert_eq!(m, "Job already exists"),
        _ => panic!("the first job is a duplicate"),
    }
    assert_eq!(scheduler.stats().queued, 2);
    match MutationRoot::admit_check(&mut scheduler, vec![]) {
        Err(Error::InvalidInput(m)) => assert_eq!(m, "No provers specified"),
        _ => panic!("a check without jobs is an error"),
    }
    let partly = MutationRoot::trigger_check(&row(), None, Some(vec![ProverKind::Coq, ProverKind::Lean])).unwrap();
    let accepted = MutationRoot::admit_check(&mut scheduler, partly).unwrap();
    assert_eq!(accepted.len(), 1);
    assert_eq!(accepted[0].prover, Prover::Coq);
    assert_eq!(scheduler.stats().queued, 3);
}

#[test]
fn settings_are_applied_field_by_field() {
    let none = RepoSettingsInput {
        webhook_secret: None,
        enabled_provers: None,
        check_on_push: None,
        check_on_pr: None,
        auto_comment: None,
    };
    let r = MutationRoot::update_repo_settings(row(), none, 77).unwrap();
    assert_eq!(r.updated_at, 77);
    assert_eq!(r.created_at, 1);
    assert_eq!(r.enabled_provers, vec![Prover::Metamath, Prover::Lean]);
    assert!(r.check_on_push && r.check_on_pr && r.auto_comment);
    let some = RepoSettingsInput {
        webhook_secret: Some("new".to_string()),
        enabled_provers: Some(vec![ProverKind::Pvs]),
        check_on_push: Some(false),
        check_on_pr: None,
        auto_comment: Some(false),
    };
    let r = MutationRoot::update_repo_settings(row(), some, 78).unwrap();
    assert_eq!(r.webhook_secret, Some("new".to_string()));
    assert_eq!(r.enabled_provers, vec![Prover::Pvs]);
    assert!(!r.check_on_push && r.check_on_pr && !r.auto_comment);
    let empty = RepoSettingsInput {
        webhook_secret: None,
        enabled_provers: Some(vec![]),
        check_on_push: None,
        check_on_pr: None,
        auto_comment: None,
    };
    assert!(matches!(MutationRoot::update_repo_settings(row(), empty, 1), Err(Error::InvalidInput(_))));
    let r = MutationRoot::set_repo_enabled(row(), false, 80);
    assert!(!r.enabled);
    assert_eq!(r.updated_at, 80);
}

#[test]
fn vocabularies_convert() {
    let all = Prover::all();
    for p in all {
        let shown = ProverKind::from(p);
        assert_eq!(Prover::from(shown), p);
    }
    for p in [AdapterPlatform::GitHub, AdapterPlatform::GitLab, AdapterPlatform::Bitbucket, AdapterPlatform::Codeberg] {
        assert_eq!(AdapterPlatform::from(Platform::from(p)), p);
    }
    assert_eq!(JobStatus::from(SchedulerStatus::Cancelled), JobStatus::Cancelled);
    assert_eq!(JobStatus::from(SchedulerStatus::Running), JobStatus::Running);
    assert_eq!(ProverStatus::from(Availability::Degraded), ProverStatus::Degraded);
    assert_eq!(ProverKind::from(Prover::HolLight), ProverKind::HolLight);
}

#[test]
fn rows_are_shown() {
    let shown = Repository::from_store(row());
    assert_eq!(shown.id, "00000000-0000-0000-0000-000000000005");
    assert_eq!(shown.platform, Platform::GitHub);
    assert_eq!(shown.enabled_provers, vec![ProverKind::Metamath, ProverKind::Lean]);
    assert_eq!((shown.created_at, shown.updated_at), (1, 1));
    let jobs = MutationRoot::trigger_check(&row(), None, None).unwrap();
    let id = jobs[0].id;
    let shown = ProofJob::from_job(jobs.into_iter().next().unwrap());
    assert_eq!(shown.id, id.text());
    assert_eq!(shown.repo_id, "00000000-0000-0000-0000-000000000005");
    assert_eq!(shown.status, JobStatus::Queued);
    assert_eq!(shown.prover, ProverKind::Metamath);
}

#[test]
fn counts_and_limits() {
    let stats = JobScheduler::new(3, 100).stats();
    assert_eq!(
        QueueStats::from_stats(stats),
        QueueStats { queued: 0, running: 0, max_concurrent: 3, max_queue_size: 100 }
    );
    let huge = JobScheduler::new(usize::MAX, 1 << 31).stats();
    let shown = QueueStats::from_stats(huge);
    assert_eq!((shown.max_concurrent, shown.max_queue_size), (i32::MAX, i32::MAX));
    assert_eq!(QueryRoot::jobs_limit(None), 20);
    assert_eq!(QueryRoot::jobs_limit(Some(5)), 5);
    assert_eq!(QueryRoot::jobs_limit(Some(0)), 0);
    assert_eq!(QueryRoot::jobs_limit(Some(-1)), usize::MAX);
    assert_eq!(QueryRoot::jobs_limit(Some(-2)), usize::MAX - 1);
    let info = QueryRoot::prover_info(Prover::Hol4, Availability::Available);
    assert_eq!((info.kind, info.name.as_str(), info.tier, info.status), (ProverKind::Hol4, "HOL4", 3, ProverStatus::Available));
    assert_eq!(info.file_extensions, vec![".sml".to_string()]);
    assert_eq!(
        QueryRoot::availability_or_unknown(Err(Error::Http("down".to_string()))),
        Availability::Unknown
    );
    assert_eq!(QueryRoot::availability_or_unknown(Ok(Availability::Degraded)), Availability::Degraded);
}

#[test]
fn identifiers_have_a_text() {
    let text = "67e55044-10b1-426f-9247-bb680e5fe0c8";
    let value = parse_id(text).unwrap();
    assert_eq!(value, 0x67e5504410b1426f9247bb680e5fe0c8);
    assert_eq!(id_text(value), text);
    assert_eq!(JobId::parse(text), Some(JobId(value)));
    assert_eq!(JobId(value).text(), text);
    assert_eq!(id_text(0), "00000000-0000-0000-0000-000000000000");
    assert_eq!(id_text(u128::MAX), "ffffffff-ffff-ffff-ffff-ffffffffffff");
    assert_eq!(id_text(0x0123456789abcdef0123456789abcdef), "01234567-89ab-cdef-0123-456789abcdef");
    assert_eq!(id_text(1 << 127), "80000000-0000-0000-0000-000000000000");
    assert_eq!(parse_id("not-a-uuid"), None);
    assert_eq!(JobId::parse(""), None);
}

#[test]
fn command_line_vocabulary() {
    assert_eq!(parse_prover("Metamath"), Some(Prover::Metamath));
    assert_eq!(parse_prover("mm"), Some(Prover::Metamath));
    assert_eq!(parse_prover("HOL-Light"), Some(Prover::HolLight));
    assert_eq!(parse_prover("hollight"), Some(Prover::HolLight));
    assert_eq!(parse_prover("cvc5"), Some(Prover::Cvc5));
    assert_eq!(parse_prover("prolog"), None);
    assert_eq!(parse_prover(" coq"), None);
    assert_eq!(find_platform("GitLab"), Some(AdapterPlatform::GitLab));
    assert_eq!(parse_platform("codeberg").unwrap(), AdapterPlatform::Codeberg);
    match parse_platform("sourcehut") {
        Err(Error::Config(m)) => assert_eq!(m, "Unknown platform: sourcehut"),
        _ => panic!("an unknown platform is a configuration error"),
    }
    assert_eq!(platform_filter("sourcehut"), AdapterPlatform::GitHub);
    assert_eq!(platform_filter("bitbucket"), AdapterPlatform::Bitbucket);
    for p in [AdapterPlatform::GitHub, AdapterPlatform::GitLab, AdapterPlatform::Bitbucket, AdapterPlatform::Codeberg] {
        assert_eq!(find_platform(platform_slug(p)), Some(p));
    }
    assert_eq!(health_text(true), "OK");
    assert_eq!(health_text(false), "DEGRADED");
}

#[test]
fn command_line_arguments() {
    assert_eq!(parse_repo_arg("acme/thm").unwrap(), ("acme".to_string(), "thm".to_string()));
    for bad in ["acme", "a/b/c", ""] {
        match parse_repo_arg(bad) {
            Err(Error::Config(m)) => assert_eq!(m, "Repository must be in format owner/name"),
            _ => panic!("expected a configuration error"),
        }
    }
    assert_eq!(split("a,b,,c", ','), vec!["a", "b", "", "c"]);
    assert_eq!(split("", ','), vec![""]);
    assert_eq!(split(",", ','), vec!["", ""]);
    assert_eq!(split("abc", ','), vec!["abc"]);
    assert_eq!(
        parse_prover_list("metamath, Lean ,nope,,coq").unwrap(),
        vec![Prover::Metamath, Prover::Lean, Prover::Coq]
    );
    for bad in ["", "nope", " , "] {
        match parse_prover_list(bad) {
            Err(Error::Config(m)) => assert_eq!(m, "No valid provers specified"),
            _ => panic!("expected a configuration error"),
        }
    }
    match parse_status_target("67e55044-10b1-426f-9247-bb680e5fe0c8").unwrap() {
        StatusTarget::Job(id) => assert_eq!(id.0, 0x67e5504410b1426f9247bb680e5fe0c8),
        StatusTarget::Repository { .. } => panic!("a UUID names a job"),
    }
    match parse_status_target("acme/thm").unwrap() {
        StatusTarget::Repository { owner, name } => assert_eq!((owner.as_str(), name.as_str()), ("acme", "thm")),
        StatusTarget::Job(_) => panic!("owner/name names a repository"),
    }
    match parse_status_target("neither") {
        Err(Error::Config(m)) => assert_eq!(m, "Target must be a job ID (UUID) or repository (owner/name)"),
        _ => panic!("expected a configuration error"),
    }
}
