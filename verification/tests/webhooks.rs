use echidnabot::adapters::Platform;
use echidnabot::api::webhooks::{
    admit_jobs, authenticate_github, authenticate_gitlab, bitbucket_event_kind, bitbucket_repo_key, check_suite_action_is_checked,
    effective_secret, file_matches_prover, github_pr_action_is_checked,
    filter_proof_files, github_changed_files, github_event_kind, gitlab_event_kind,
    gitlab_repo_key, gitlab_token_matches, handle_bitbucket_pull_request, handle_bitbucket_push,
    handle_github_check_suite, handle_github_pull_request, handle_github_push,
    handle_github_webhook, handle_gitlab_merge_request, handle_gitlab_push,
    handle_gitlab_webhook, verify_github_signature, BitbucketChange, BitbucketEventKind,
    BitbucketPRCommit, BitbucketPRSource, BitbucketPullRequest, BitbucketPullRequestEvent,
    BitbucketPushData, BitbucketPushEvent, BitbucketRef, BitbucketRepository, BitbucketTarget,
    GitHubCheckSuite, GitHubCheckSuiteEvent, GitHubCommit, GitHubEventKind, GitHubOwner,
    GitHubPRBase, GitHubPRHead, GitHubPullRequest, GitHubPullRequestEvent, GitHubPushEvent,
    GitHubRepository, GitLabCommit, GitLabEventKind, GitLabLastCommit,
    GitLabMergeRequestAttributes, GitLabMergeRequestEvent, GitLabProject, GitLabPushEvent,
    SignatureError, WebhookOutcome,
};
use echidnabot::dispatcher::ProverKind;
use echidnabot::scheduler::job_queue::JobScheduler;
use echidnabot::scheduler::{JobPriority, JobStatus};
use echidnabot::store::Repository;
use hmac::{Hmac, Mac};
use sha2::Sha256;

fn sign(secret: &str, body: &[u8]) -> String {
    let mut mac = Hmac::<Sha256>::new_from_slice(secret.as_bytes()).unwrap();
    mac.update(body);
    hex::encode(mac.finalize().into_bytes())
}

fn acme() -> Repository {
    let mut repo = Repository::with_id(7, 1000, Platform::GitHub, "acme".to_string(), "thm".to_string());
    repo.enabled_provers = vec![ProverKind::Metamath, ProverKind::Lean];
    repo
}

fn github_repository() -> GitHubRepository {
    GitHubRepository {
        id: 1,
        name: "thm".to_string(),
        full_name: "acme/thm".to_string(),
        owner: GitHubOwner { login: "acme".to_string() },
        default_branch: None,
    }
}

fn commit(added: &[&str], modified: &[&str]) -> GitHubCommit {
    GitHubCommit {
        id: "x".to_string(),
        message: "m".to_string(),
        added: added.iter().map(|s| s.to_string()).collect(),
        modified: modified.iter().map(|s| s.to_string()).collect(),
        removed: vec![],
    }
}

fn push(commits: Vec<GitHubCommit>, after: &str) -> GitHubPushEvent {
    GitHubPushEvent {
        git_ref: "refs/heads/main".to_string(),
        after: after.to_string(),
        before: "0".to_string(),
        repository: github_repository(),
        commits,
        head_commit: None,
    }
}

#[test]
fn test_verify_github_signature() {
    let secret = "test-secret";
    let body = r#"{"test": "payload"}"#.as_bytes();
    let expected = sign(secret, body);
    let header = format!("sha256={}", expected);
    assert!(verify_github_signature(Some(&header), body, secret).is_ok());
}

#[test]
fn test_file_matches_prover() {
    assert!(file_matches_prover("test.mm", ProverKind::Metamath));
    assert!(file_matches_prover("src/proof.lean", ProverKind::Lean));
    assert!(file_matches_prover("Theorem.v", ProverKind::Coq));
    assert!(!file_matches_prover("readme.md", ProverKind::Metamath));
}

#[test]
fn test_filter_proof_files() {
    let files = vec![
        "src/main.rs".to_string(),
        "proofs/test.mm".to_string(),
        "README.md".to_string(),
        "theorems/foo.lean".to_string(),
    ];
    let provers = vec![ProverKind::Metamath, ProverKind::Lean];
    let filtered = filter_proof_files(&files, &provers);
    assert_eq!(filtered.len(), 2);
    assert!(filtered.contains(&"proofs/test.mm".to_string()));
    assert!(filtered.contains(&"theorems/foo.lean".to_string()));
}

#[test]
fn signature_rejection() {
    let body = br#"{"test":"payload"}"#;
    let zeros = format!("sha256={}", "0".repeat(64));
    assert_eq!(
        verify_github_signature(Some(&zeros), body, "test-secret"),
        Err(SignatureError::Mismatch)
    );
    assert_eq!(
        handle_github_webhook(Some("test-secret"), Some(&zeros), Some("push"), body),
        Err(WebhookOutcome::InvalidSignature)
    );
    assert_eq!(WebhookOutcome::InvalidSignature.response().status, 401);
    assert_eq!(WebhookOutcome::InvalidSignature.response().body, "Invalid signature");
    let good = format!("sha256={}", sign("test-secret", body));
    assert_eq!(
        handle_github_webhook(Some("test-secret"), Some(&good), Some("push"), body),
        Ok(GitHubEventKind::Push)
    );
    assert_eq!(WebhookOutcome::Accepted.response().status, 200);
    assert_eq!(WebhookOutcome::Accepted.response().body, "OK");
}

#[test]
fn every_differing_byte_is_rejected() {
    let body = b"payload";
    let good = sign("k", body);
    assert!(verify_github_signature(Some(&format!("sha256={}", good)), body, "k").is_ok());
    for i in 0..good.len() {
        let mut bad: Vec<char> = good.chars().collect();
        bad[i] = if bad[i] == '0' { '1' } else { '0' };
        let bad: String = bad.into_iter().collect();
        assert_eq!(
            verify_github_signature(Some(&format!("sha256={}", bad)), body, "k"),
            Err(SignatureError::Mismatch)
        );
    }
    let upper = good.to_uppercase();
    assert!(verify_github_signature(Some(&format!("sha256={}", upper)), body, "k").is_ok());
    assert!(verify_github_signature(Some(&format!("sha256={}", good)), b"payloae", "k").is_err());
    assert!(verify_github_signature(Some(&format!("sha256={}", good)), body, "K").is_err());
}

#[test]
fn signature_errors_by_kind() {
    let body = b"x";
    assert_eq!(verify_github_signature(None, body, "k"), Err(SignatureError::MissingHeader));
    assert_eq!(
        verify_github_signature(Some("sha1=abcd"), body, "k"),
        Err(SignatureError::InvalidFormat)
    );
    assert_eq!(verify_github_signature(Some(""), body, "k"), Err(SignatureError::InvalidFormat));
    assert_eq!(
        verify_github_signature(Some("sha256=xyz1"), body, "k"),
        Err(SignatureError::InvalidHex)
    );
    assert_eq!(
        verify_github_signature(Some("sha256=abc"), body, "k"),
        Err(SignatureError::InvalidHex)
    );
    assert_eq!(
        verify_github_signature(Some("sha256="), body, "k"),
        Err(SignatureError::Mismatch)
    );
    assert_eq!(
        verify_github_signature(Some("sha256=abcd"), body, "k"),
        Err(SignatureError::Mismatch)
    );
    assert_eq!(SignatureError::MissingHeader.message(), "Missing X-Hub-Signature-256 header");
    assert_eq!(SignatureError::Mismatch.message(), "Signature mismatch");
}

#[test]
fn no_secret_means_no_check() {
    assert_eq!(handle_github_webhook(None, None, Some("ping"), b""), Ok(GitHubEventKind::Ping));
    assert_eq!(handle_github_webhook(None, None, None, b""), Ok(GitHubEventKind::Other));
}

#[test]
fn gitlab_token_is_compared() {
    assert!(gitlab_token_matches(Some("s3cret"), "s3cret"));
    assert!(!gitlab_token_matches(Some("s3creT"), "s3cret"));
    assert!(!gitlab_token_matches(Some("s3cre"), "s3cret"));
    assert!(!gitlab_token_matches(None, "s3cret"));
    assert!(gitlab_token_matches(None, ""));
    assert_eq!(
        handle_gitlab_webhook(Some("s"), Some("t"), Some("Push Hook")),
        Err(WebhookOutcome::InvalidToken)
    );
    assert_eq!(WebhookOutcome::InvalidToken.response().status, 401);
    assert_eq!(WebhookOutcome::InvalidToken.response().body, "Invalid token");
    assert_eq!(
        handle_gitlab_webhook(Some("s"), Some("s"), Some("Push Hook")),
        Ok(GitLabEventKind::Push)
    );
    assert_eq!(
        handle_gitlab_webhook(None, None, Some("Merge Request Hook")),
        Ok(GitLabEventKind::MergeRequest)
    );
}

#[test]
fn events_are_classified() {
    assert_eq!(github_event_kind(Some("push")), GitHubEventKind::Push);
    assert_eq!(github_event_kind(Some("pull_request")), GitHubEventKind::PullRequest);
    assert_eq!(github_event_kind(Some("check_suite")), GitHubEventKind::CheckSuite);
    assert_eq!(github_event_kind(Some("star")), GitHubEventKind::Other);
    assert_eq!(gitlab_event_kind(Some("Tag Push Hook")), GitLabEventKind::Other);
    assert_eq!(gitlab_event_kind(None), GitLabEventKind::Other);
    assert_eq!(bitbucket_event_kind(Some("repo:push")), BitbucketEventKind::Push);
    assert_eq!(bitbucket_event_kind(Some("pullrequest:created")), BitbucketEventKind::PullRequest);
    assert_eq!(bitbucket_event_kind(Some("pullrequest:updated")), BitbucketEventKind::PullRequest);
    assert_eq!(bitbucket_event_kind(Some("pullrequest:fulfilled")), BitbucketEventKind::Other);
    assert_eq!(WebhookOutcome::InvalidPayload.response().status, 400);
    assert_eq!(WebhookOutcome::ProcessingFailed.response().status, 500);
}

#[test]
fn push_filters_by_extension() {
    let repo = acme();
    let event = push(vec![commit(&["README.md"], &["proof.mm", "lib/x.lean"])], "c0");
    let jobs = handle_github_push(Some(&repo), &event);
    assert_eq!(jobs.len(), 2);
    assert_eq!(jobs[0].prover, ProverKind::Metamath);
    assert_eq!(jobs[0].file_paths, vec!["proof.mm".to_string()]);
    assert_eq!(jobs[1].prover, ProverKind::Lean);
    assert_eq!(jobs[1].file_paths, vec!["lib/x.lean".to_string()]);
    for job in &jobs {
        assert_eq!(job.priority, JobPriority::Normal);
        assert_eq!(job.commit_sha, "c0");
        assert_eq!(job.repo_id, 7);
        assert_eq!(job.status, JobStatus::Queued);
    }
}

#[test]
fn push_without_proof_files_asks_for_nothing() {
    let repo = acme();
    let event = push(vec![commit(&["README.md"], &["src/main.rs"])], "c0");
    assert!(handle_github_push(Some(&repo), &event).is_empty());
    let event = push(vec![], "c0");
    assert!(handle_github_push(Some(&repo), &event).is_empty());
}

#[test]
fn changed_files_are_a_union() {
    let commits = vec![
        commit(&["a.mm", "b.mm"], &["a.mm"]),
        commit(&["c.mm"], &["b.mm", "d.mm"]),
    ];
    assert_eq!(github_changed_files(&commits), vec!["a.mm", "b.mm", "c.mm", "d.mm"]);
    let mut c = commit(&[], &[]);
    c.removed = vec!["gone.mm".to_string()];
    assert!(github_changed_files(&vec![c]).is_empty());
}

#[test]
fn pr_gets_high_priority_and_empty_file_list() {
    let repo = acme();
    let event = GitHubPullRequestEvent {
        action: "opened".to_string(),
        number: 1,
        pull_request: GitHubPullRequest {
            id: 1,
            number: 1,
            head: GitHubPRHead { sha: "c1".to_string(), git_ref: "f".to_string() },
            base: GitHubPRBase { git_ref: "main".to_string() },
        },
        repository: github_repository(),
    };
    let jobs = handle_github_pull_request(Some(&repo), &event);
    assert_eq!(jobs.len(), 2);
    for job in &jobs {
        assert_eq!(job.priority, JobPriority::High);
        assert!(job.file_paths.is_empty());
        assert_eq!(job.commit_sha, "c1");
    }
    assert_eq!(jobs[0].prover, ProverKind::Metamath);
    assert_eq!(jobs[1].prover, ProverKind::Lean);
    let closed = GitHubPullRequestEvent { action: "closed".to_string(), ..event };
    assert!(handle_github_pull_request(Some(&repo), &closed).is_empty());
}

#[test]
fn flags_gate_the_events() {
    let event = push(vec![commit(&["p.mm"], &[])], "c0");
    assert!(handle_github_push(None, &event).is_empty());
    let mut disabled = acme();
    disabled.enabled = false;
    assert!(handle_github_push(Some(&disabled), &event).is_empty());
    let mut no_push = acme();
    no_push.check_on_push = false;
    assert!(handle_github_push(Some(&no_push), &event).is_empty());
    let suite = GitHubCheckSuiteEvent {
        action: "requested".to_string(),
        check_suite: GitHubCheckSuite { id: 1, head_sha: "c9".to_string(), head_branch: None },
        repository: github_repository(),
    };
    let jobs = handle_github_check_suite(Some(&no_push), &suite);
    assert_eq!(jobs.len(), 2);
    assert_eq!(jobs[0].priority, JobPriority::High);
    assert!(handle_github_check_suite(Some(&disabled), &suite).is_empty());
    let done = GitHubCheckSuiteEvent { action: "completed".to_string(), ..suite };
    assert!(handle_github_check_suite(Some(&no_push), &done).is_empty());
}

#[test]
fn gitlab_events() {
    let repo = acme();
    let event = GitLabPushEvent {
        object_kind: "push".to_string(),
        git_ref: "r".to_string(),
        checkout_sha: Some("chk".to_string()),
        after: "aft".to_string(),
        before: "b".to_string(),
        project: GitLabProject {
            id: 1,
            name: "thm".to_string(),
            path_with_namespace: "acme/sub/thm".to_string(),
            default_branch: None,
        },
        commits: vec![GitLabCommit {
            id: "1".to_string(),
            message: "m".to_string(),
            added: vec!["A.MM".to_string()],
            modified: vec![],
            removed: vec![],
        }],
    };
    let jobs = handle_gitlab_push(Some(&repo), &event);
    assert_eq!(jobs.len(), 1);
    assert_eq!(jobs[0].commit_sha, "chk");
    assert_eq!(jobs[0].file_paths, vec!["A.MM".to_string()]);
    let event = GitLabPushEvent { checkout_sha: None, ..event };
    assert_eq!(handle_gitlab_push(Some(&repo), &event)[0].commit_sha, "aft");
    assert_eq!(
        gitlab_repo_key("acme/sub/thm"),
        Some(("acme".to_string(), "thm".to_string()))
    );
    assert_eq!(gitlab_repo_key("acme/thm"), Some(("acme".to_string(), "thm".to_string())));
    assert_eq!(gitlab_repo_key("acme"), None);
    let mr = |action: Option<&str>, state: &str| GitLabMergeRequestEvent {
        object_kind: "merge_request".to_string(),
        event_type: "merge_request".to_string(),
        project: GitLabProject {
            id: 1,
            name: "thm".to_string(),
            path_with_namespace: "acme/thm".to_string(),
            default_branch: None,
        },
        object_attributes: GitLabMergeRequestAttributes {
            id: 1,
            iid: 2,
            action: action.map(|a| a.to_string()),
            state: state.to_string(),
            last_commit: GitLabLastCommit { id: "lc".to_string() },
        },
    };
    assert_eq!(handle_gitlab_merge_request(Some(&repo), &mr(Some("open"), "x")).len(), 2);
    assert_eq!(handle_gitlab_merge_request(Some(&repo), &mr(Some("update"), "x")).len(), 2);
    assert_eq!(handle_gitlab_merge_request(Some(&repo), &mr(None, "opened")).len(), 2);
    assert_eq!(handle_gitlab_merge_request(Some(&repo), &mr(Some("close"), "opened")).len(), 2);
    assert!(handle_gitlab_merge_request(Some(&repo), &mr(Some("close"), "closed")).is_empty());
    assert!(handle_gitlab_merge_request(Some(&repo), &mr(None, "merged")).is_empty());
    let jobs = handle_gitlab_merge_request(Some(&repo), &mr(Some("reopen"), "x"));
    assert_eq!(jobs[0].commit_sha, "lc");
    assert_eq!(jobs[0].priority, JobPriority::High);
}

#[test]
fn bitbucket_events() {
    let repo = acme();
    let repository = || BitbucketRepository {
        uuid: "u".to_string(),
        name: "thm".to_string(),
        full_name: "acme/thm".to_string(),
    };
    let change = |hash: Option<&str>| BitbucketChange {
        new: hash.map(|h| BitbucketRef {
            ref_type: "branch".to_string(),
            name: "main".to_string(),
            target: BitbucketTarget { hash: h.to_string() },
        }),
        old: None,
    };
    let event = BitbucketPushEvent {
        push: BitbucketPushData { changes: vec![change(Some("h1")), change(Some("h2"))] },
        repository: repository(),
    };
    let jobs = handle_bitbucket_push(Some(&repo), &event);
    assert_eq!(jobs.len(), 2);
    assert_eq!(jobs[0].commit_sha, "h1");
    assert_eq!(jobs[0].priority, JobPriority::Normal);
    assert!(jobs[0].file_paths.is_empty());
    let deleted = BitbucketPushEvent {
        push: BitbucketPushData { changes: vec![change(None), change(Some("h2"))] },
        repository: repository(),
    };
    assert!(handle_bitbucket_push(Some(&repo), &deleted).is_empty());
    let empty = BitbucketPushEvent {
        push: BitbucketPushData { changes: vec![] },
        repository: repository(),
    };
    assert!(handle_bitbucket_push(Some(&repo), &empty).is_empty());
    let pr = BitbucketPullRequestEvent {
        pullrequest: BitbucketPullRequest {
            id: 3,
            source: BitbucketPRSource { commit: BitbucketPRCommit { hash: "ph".to_string() } },
        },
        repository: repository(),
    };
    let jobs = handle_bitbucket_pull_request(Some(&repo), &pr);
    assert_eq!(jobs.len(), 2);
    assert_eq!(jobs[1].commit_sha, "ph");
    assert_eq!(jobs[1].priority, JobPriority::High);
    assert_eq!(bitbucket_repo_key("acme/thm"), Some(("acme".to_string(), "thm".to_string())));
    assert_eq!(bitbucket_repo_key("acme/sub/thm"), None);
    assert_eq!(bitbucket_repo_key("acme"), None);
    assert_eq!(bitbucket_repo_key("/"), Some((String::new(), String::new())));
}

#[test]
fn replay_adds_no_job() {
    let repo = acme();
    let event = push(vec![commit(&[], &["proof.mm", "lib/x.lean"])], "c0");
    let mut scheduler = JobScheduler::new(2, 10);
    let first = admit_jobs(&mut scheduler, handle_github_push(Some(&repo), &event));
    assert_eq!(first.len(), 2);
    assert_eq!(scheduler.stats().queued, 2);
    let second = admit_jobs(&mut scheduler, handle_github_push(Some(&repo), &event));
    assert!(second.is_empty());
    assert_eq!(scheduler.stats().queued, 2);
}

#[test]
fn matching_ignores_case_and_needs_the_suffix() {
    assert!(file_matches_prover("PROOF.MM", ProverKind::Metamath));
    assert!(file_matches_prover("x.smt2", ProverKind::Z3));
    assert!(file_matches_prover("x.smt2", ProverKind::Cvc5));
    assert!(!file_matches_prover("x.mm.bak", ProverKind::Metamath));
    assert!(!file_matches_prover("mm", ProverKind::Metamath));
    assert!(file_matches_prover(".v", ProverKind::Coq));
    assert!(filter_proof_files(&[], &[ProverKind::Coq]).is_empty());
    assert!(filter_proof_files(&["a.v".to_string()], &[]).is_empty());
}

#[test]
fn actions_that_are_checked() {
    for a in ["opened", "synchronize", "reopened"] {
        assert!(github_pr_action_is_checked(a));
    }
    for a in ["closed", "Opened", "", "edited"] {
        assert!(!github_pr_action_is_checked(a));
    }
    assert!(check_suite_action_is_checked("requested"));
    assert!(check_suite_action_is_checked("rerequested"));
    assert!(!check_suite_action_is_checked("completed"));
}

#[test]
fn the_repository_secret_comes_first() {
    let mut with_secret = acme();
    with_secret.webhook_secret = Some("own".to_string());
    let without = acme();
    assert_eq!(effective_secret(Some(&with_secret), Some("global")), Some("own"));
    assert_eq!(effective_secret(Some(&with_secret), None), Some("own"));
    assert_eq!(effective_secret(Some(&without), Some("global")), Some("global"));
    assert_eq!(effective_secret(Some(&without), None), None);
    assert_eq!(effective_secret(None, Some("global")), Some("global"));
    assert_eq!(effective_secret(None, None), None);
    let body = b"{}";
    let signed = format!("sha256={}", sign("own", body));
    let secret = effective_secret(Some(&with_secret), Some("global"));
    assert_eq!(authenticate_github(secret, Some(&signed), body), Ok(()));
    assert_eq!(
        authenticate_github(Some("global"), Some(&signed), body),
        Err(WebhookOutcome::InvalidSignature)
    );
    assert_eq!(authenticate_github(None, None, body), Ok(()));
    assert_eq!(authenticate_github(secret, None, body), Err(WebhookOutcome::InvalidSignature));
    assert_eq!(authenticate_gitlab(secret, Some("own")), Ok(()));
    assert_eq!(authenticate_gitlab(secret, Some("global")), Err(WebhookOutcome::InvalidToken));
    assert_eq!(authenticate_gitlab(None, Some("anything")), Ok(()));
}
