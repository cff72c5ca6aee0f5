//! Webhook ingress: authentication, classification of events, selection of
//! files, and the jobs that an event asks for.
//!
//! Reading the request and parsing its body is the caller's part. The
//! functions here take the header values, the raw body and the parsed
//! event, and decide.

use crate::dispatcher::{extension, ProverKind};
use crate::scheduler::job_queue::{JobScheduler, QueueModel};
use crate::scheduler::{JobPriority, JobView, ProofJob};
use crate::store::Repository;
use crate::text::{
    chars_of, ends_with, has_prefix, has_suffix, lowercase, same_text, starts_with,
    string_of_range, texts,
};
use hmac::Mac;
use vstd::prelude::*;
use vstd::utf8::encode_utf8;

verus! {

// ---------------------------------------------------------------------------
// GitHub events
// ---------------------------------------------------------------------------
#[derive(Debug)]
pub struct GitHubPushEvent {
    pub git_ref: String,
    /// The commit that the reference points to after the push.
    pub after: String,
    pub before: String,
    pub repository: GitHubRepository,
    pub commits: Vec<GitHubCommit>,
    pub head_commit: Option<GitHubCommit>,
}

#[derive(Debug)]
pub struct GitHubRepository {
    pub id: u64,
    pub name: String,
    pub full_name: String,
    pub owner: GitHubOwner,
    pub default_branch: Option<String>,
}

#[derive(Debug)]
pub struct GitHubOwner {
    pub login: String,
}

#[derive(Debug)]
pub struct GitHubCommit {
    pub id: String,
    pub message: String,
    pub added: Vec<String>,
    pub modified: Vec<String>,
    pub removed: Vec<String>,
}

#[derive(Debug)]
pub struct GitHubPullRequestEvent {
    pub action: String,
    pub number: u64,
    pub pull_request: GitHubPullRequest,
    pub repository: GitHubRepository,
}

#[derive(Debug)]
pub struct GitHubPullRequest {
    pub id: u64,
    pub number: u64,
    pub head: GitHubPRHead,
    pub base: GitHubPRBase,
}

#[derive(Debug)]
pub struct GitHubPRHead {
    pub sha: String,
    pub git_ref: String,
}

#[derive(Debug)]
pub struct GitHubPRBase {
    pub git_ref: String,
}

#[derive(Debug)]
pub struct GitHubCheckSuiteEvent {
    pub action: String,
    pub check_suite: GitHubCheckSuite,
    pub repository: GitHubRepository,
}

#[derive(Debug)]
pub struct GitHubCheckSuite {
    pub id: u64,
    pub head_sha: String,
    pub head_branch: Option<String>,
}

#[derive(Debug)]
pub struct GitHubPingEvent {
    pub zen: String,
    pub hook_id: u64,
    pub repository: Option<GitHubRepository>,
}

// ---------------------------------------------------------------------------
// GitLab events
// ---------------------------------------------------------------------------
#[derive(Debug)]
pub struct GitLabPushEvent {
    pub object_kind: String,
    pub git_ref: String,
    pub checkout_sha: Option<String>,
    pub after: String,
    pub before: String,
    pub project: GitLabProject,
    pub commits: Vec<GitLabCommit>,
}

#[derive(Debug)]
pub struct GitLabProject {
    pub id: u64,
    pub name: String,
    pub path_with_namespace: String,
    pub default_branch: Option<String>,
}

#[derive(Debug)]
pub struct GitLabCommit {
    pub id: String,
    pub message: String,
    pub added: Vec<String>,
    pub modified: Vec<String>,
    pub removed: Vec<String>,
}

#[derive(Debug)]
pub struct GitLabMergeRequestEvent {
    pub object_kind: String,
    pub event_type: String,
    pub project: GitLabProject,
    pub object_attributes: GitLabMergeRequestAttributes,
}

#[derive(Debug)]
pub struct GitLabMergeRequestAttributes {
    pub id: u64,
    pub iid: u64,
    pub action: Option<String>,
    pub state: String,
    pub last_commit: GitLabLastCommit,
}

#[derive(Debug)]
pub struct GitLabLastCommit {
    pub id: String,
}

// ---------------------------------------------------------------------------
// Bitbucket events
// ---------------------------------------------------------------------------
#[derive(Debug)]
pub struct BitbucketPushEvent {
    pub push: BitbucketPushData,
    pub repository: BitbucketRepository,
}

#[derive(Debug)]
pub struct BitbucketPushData {
    pub changes: Vec<BitbucketChange>,
}

#[derive(Debug)]
pub struct BitbucketChange {
    pub new: Option<BitbucketRef>,
    pub old: Option<BitbucketRef>,
}

#[derive(Debug)]
pub struct BitbucketRef {
    pub ref_type: String,
    pub name: String,
    pub target: BitbucketTarget,
}

#[derive(Debug)]
pub struct BitbucketTarget {
    pub hash: String,
}

#[derive(Debug)]
pub struct BitbucketRepository {
    pub uuid: String,
    pub name: String,
    pub full_name: String,
}

#[derive(Debug)]
pub struct BitbucketPullRequestEvent {
    pub pullrequest: BitbucketPullRequest,
    pub repository: BitbucketRepository,
}

#[derive(Debug)]
pub struct BitbucketPullRequest {
    pub id: u64,
    pub source: BitbucketPRSource,
}

#[derive(Debug)]
pub struct BitbucketPRSource {
    pub commit: BitbucketPRCommit,
}

#[derive(Debug)]
pub struct BitbucketPRCommit {
    pub hash: String,
}

// ---------------------------------------------------------------------------
// Answers and classification
// ---------------------------------------------------------------------------
/// The answer to a webhook request.
#[derive(Debug, Clone, Copy, PartialEq, Eq)]
pub struct WebhookResponse {
    /// The HTTP status code.
    pub status: u16,
    pub body: &'static str,
}

/// How the handling of a request ended.
#[derive(Debug, Clone, Copy, PartialEq, Eq, Structural)]
pub enum WebhookOutcome {
    /// The event was handled, or deliberately ignored.
    Accepted,
    /// The signature of a GitHub request did not verify.
    InvalidSignature,
    /// The token of a GitLab request was not the secret.
    InvalidToken,
    /// The body could not be parsed as the event that the header names.
    InvalidPayload,
    /// The store or the scheduler failed.
    ProcessingFailed,
}

/// The events of GitHub that the bot knows.
#[derive(Debug, Clone, Copy, PartialEq, Eq, Structural)]
pub enum GitHubEventKind {
    Push,
    PullRequest,
    CheckSuite,
    Ping,
    Other,
}

/// The events of GitLab that the bot knows.
#[derive(Debug, Clone, Copy, PartialEq, Eq, Structural)]
pub enum GitLabEventKind {
    Push,
    MergeRequest,
    Other,
}

/// The events of Bitbucket that the bot knows.
#[derive(Debug, Clone, Copy, PartialEq, Eq, Structural)]
pub enum BitbucketEventKind {
    Push,
    PullRequest,
    Other,
}

/// Why a signature was not accepted.
#[derive(Debug, Clone, Copy, PartialEq, Eq, Structural)]
pub enum SignatureError {
    MissingHeader,
    InvalidFormat,
    InvalidHex,
    Mismatch,
}

/// The HMAC-SHA256 of `data` under `key`.
pub uninterp spec fn hmac_sha256(key: Seq<u8>, data: Seq<u8>) -> Seq<u8>;

/// The value of a hexadecimal digit, in either case.
pub open spec fn hex_value(c: char) -> Option<int> {
    if '0' <= c <= '9' {
        Some(c as int - '0' as int)
    } else if 'a' <= c <= 'f' {
        Some(c as int - 'a' as int + 10)
    } else if 'A' <= c <= 'F' {
        Some(c as int - 'A' as int + 10)
    } else {
        None
    }
}

/// The bytes that a hexadecimal text stands for: two digits per byte, the
/// high one first. A text of odd length or with another character stands
/// for nothing.
pub open spec fn hex_decoded(s: Seq<char>) -> Option<Seq<u8>>
    decreases s.len(),
{
    if s.len() == 0 {
        Some(Seq::empty())
    } else if s.len() == 1 {
        None
    } else {
        match (hex_value(s[0]), hex_value(s[1]), hex_decoded(s.skip(2))) {
            (Some(high), Some(low), Some(rest)) => Some(seq![(high * 16 + low) as u8] + rest),
            _ => None,
        }
    }
}

/// The verdict on a signature header of GitHub: the header must be there,
/// begin with `sha256=` and go on with the hexadecimal HMAC-SHA256 of the
/// body under the secret.
pub open spec fn signature_verdict(header: Option<Seq<char>>, body: Seq<u8>, secret: Seq<char>)
    -> Result<(), SignatureError> {
    match header {
        None => Err(SignatureError::MissingHeader),
        Some(h) => if !starts_with(h, "sha256="@) {
            Err(SignatureError::InvalidFormat)
        } else {
            match hex_decoded(h.skip("sha256="@.len() as int)) {
                None => Err(SignatureError::InvalidHex),
                Some(tag) => if tag == hmac_sha256(encode_utf8(secret), body) {
                    Ok(())
                } else {
                    Err(SignatureError::Mismatch)
                },
            }
        },
    }
}

/// The kind of a GitHub event, by the value of `X-GitHub-Event`.
pub open spec fn github_event_kind_of(event_type: Option<&str>) -> GitHubEventKind {
    match event_type {
        None => GitHubEventKind::Other,
        Some(t) => if t@ == "push"@ {
            GitHubEventKind::Push
        } else if t@ == "pull_request"@ {
            GitHubEventKind::PullRequest
        } else if t@ == "check_suite"@ {
            GitHubEventKind::CheckSuite
        } else if t@ == "ping"@ {
            GitHubEventKind::Ping
        } else {
            GitHubEventKind::Other
        },
    }
}

/// The kind of a GitLab event, by the value of `X-Gitlab-Event`.
pub open spec fn gitlab_event_kind_of(event_type: Option<&str>) -> GitLabEventKind {
    match event_type {
        None => GitLabEventKind::Other,
        Some(t) => if t@ == "Push Hook"@ {
            GitLabEventKind::Push
        } else if t@ == "Merge Request Hook"@ {
            GitLabEventKind::MergeRequest
        } else {
            GitLabEventKind::Other
        },
    }
}

/// The kind of a Bitbucket event, by the value of `X-Event-Key`.
pub open spec fn bitbucket_event_kind_of(event_type: Option<&str>) -> BitbucketEventKind {
    match event_type {
        None => BitbucketEventKind::Other,
        Some(t) => if t@ == "repo:push"@ {
            BitbucketEventKind::Push
        } else if t@ == "pullrequest:created"@ || t@ == "pullrequest:updated"@ {
            BitbucketEventKind::PullRequest
        } else {
            BitbucketEventKind::Other
        },
    }
}

/// `hex::decode` of the hex crate, with the error dropped: the bytes that
/// the text stands for, two digits of either case per byte; nothing for a
/// text of odd length or with another character.
#[verifier::external_body]
pub(crate) fn hex_decode(s: &str) -> (r: Option<Vec<u8>>)
    ensures
        match hex_decoded(s@) {
            Some(bytes) => r is Some && r->0@ == bytes,
            None => r is None,
        },
{
    hex::decode(s).ok()
}

/// `Hmac::<Sha256>` of the hmac crate: keyed with `key`, fed with `data`,
/// and asked by `verify_slice` whether `tag` is the code. The answer is
/// yes exactly for the code itself, which depends on key and data alone;
/// the contract gives it the name `hmac_sha256`.
#[verifier::external_body]
pub(crate) fn hmac_sha256_verify(key: &[u8], data: &[u8], tag: &[u8]) -> (r: bool)
    ensures
        r == (tag@ == hmac_sha256(key@, data@)),
{
    match hmac::Hmac::<sha2::Sha256>::new_from_slice(key) {
        Ok(mut mac) => {
            mac.update(data);
            mac.verify_slice(tag).is_ok()
        },
        Err(_) => false,
    }
}

impl SignatureError {
    /// The reason in words.
    pub fn message(&self) -> (r: &'static str)
        ensures
            r@ == match *self {
                SignatureError::MissingHeader => "Missing X-Hub-Signature-256 header"@,
                SignatureError::InvalidFormat => "Invalid signature format"@,
                SignatureError::InvalidHex => "Invalid hex in signature"@,
                SignatureError::Mismatch => "Signature mismatch"@,
            },
    {
        match self {
            SignatureError::MissingHeader => "Missing X-Hub-Signature-256 header",
            SignatureError::InvalidFormat => "Invalid signature format",
            SignatureError::InvalidHex => "Invalid hex in signature",
            SignatureError::Mismatch => "Signature mismatch",
        }
    }
}

impl WebhookOutcome {
    /// The answer that reports the outcome: 200 for what was handled or
    /// ignored, 401 for a bad signature or token, 400 for a malformed
    /// payload, 500 for a failure inside.
    pub fn response(&self) -> (r: WebhookResponse)
        ensures
            r.status == match *self {
                WebhookOutcome::Accepted => 200u16,
                WebhookOutcome::InvalidSignature | WebhookOutcome::InvalidToken => 401u16,
                WebhookOutcome::InvalidPayload => 400u16,
                WebhookOutcome::ProcessingFailed => 500u16,
            },
            r.body@ == match *self {
                WebhookOutcome::Accepted => "OK"@,
                WebhookOutcome::InvalidSignature => "Invalid signature"@,
                WebhookOutcome::InvalidToken => "Invalid token"@,
                WebhookOutcome::InvalidPayload => "Invalid payload"@,
                WebhookOutcome::ProcessingFailed => "Processing failed"@,
            },
    {
        match self {
            WebhookOutcome::Accepted => WebhookResponse { status: 200, body: "OK" },
            WebhookOutcome::InvalidSignature => WebhookResponse {
                status: 401,
                body: "Invalid signature",
            },
            WebhookOutcome::InvalidToken => WebhookResponse { status: 401, body: "Invalid token" },
            WebhookOutcome::InvalidPayload => WebhookResponse {
                status: 400,
                body: "Invalid payload",
            },
            WebhookOutcome::ProcessingFailed => WebhookResponse {
                status: 500,
                body: "Processing failed",
            },
        }
    }
}

/// Verifies the signature header of a GitHub webhook against the body and
/// the shared secret.
pub fn verify_github_signature(signature: Option<&str>, body: &[u8], secret: &str) -> (r: Result<
    (),
    SignatureError,
>)
    ensures
        r == signature_verdict(
            match signature {
                Some(s) => Some(s@),
                None => None,
            },
            body@,
            secret@,
        ),
{
    let header = match signature {
        Some(s) => s,
        None => {
            return Err(SignatureError::MissingHeader);
        },
    };
    proof {
        reveal_strlit("sha256=");
    }
    let chars = chars_of(header);
    let prefix = chars_of("sha256=");
    if !has_prefix(&chars, &prefix) {
        return Err(SignatureError::InvalidFormat);
    }
    let hex = string_of_range(&chars, prefix.len(), chars.len());
    assert(hex@ =~= header@.skip("sha256="@.len() as int));
    let tag = match hex_decode(hex.as_str()) {
        Some(t) => t,
        None => {
            return Err(SignatureError::InvalidHex);
        },
    };
    if hmac_sha256_verify(secret.as_bytes(), body, tag.as_slice()) {
        Ok(())
    } else {
        Err(SignatureError::Mismatch)
    }
}

/// Whether the token of a GitLab webhook is the configured secret. A
/// missing header counts as the empty token. The comparison looks at every
/// character, whether or not an earlier one differed.
pub fn gitlab_token_matches(token: Option<&str>, secret: &str) -> (r: bool)
    ensures
        r == (match token {
            Some(t) => t@,
            None => Seq::<char>::empty(),
        } == secret@),
{
    let given = match token {
        Some(t) => chars_of(t),
        None => Vec::new(),
    };
    let wanted = chars_of(secret);
    if given.len() != wanted.len() {
        return false;
    }
    let mut same = true;
    let mut i: usize = 0;
    while i < given.len()
        invariant
            i <= given.len(),
            given.len() == wanted.len(),
            same <==> (forall|k: int| 0 <= k < i ==> given@[k] == wanted@[k]),
        decreases given.len() - i,
    {
        if given[i] != wanted[i] {
            same = false;
        }
        i += 1;
    }
    proof {
        if same {
            assert(given@ =~= wanted@);
        }
    }
    same
}

/// The kind of a GitHub event, by the value of `X-GitHub-Event`.
pub fn github_event_kind(event_type: Option<&str>) -> (r: GitHubEventKind)
    ensures
        r == github_event_kind_of(event_type),
{
    match event_type {
        None => GitHubEventKind::Other,
        Some(t) => if same_text(t, "push") {
            GitHubEventKind::Push
        } else if same_text(t, "pull_request") {
            GitHubEventKind::PullRequest
        } else if same_text(t, "check_suite") {
            GitHubEventKind::CheckSuite
        } else if same_text(t, "ping") {
            GitHubEventKind::Ping
        } else {
            GitHubEventKind::Other
        },
    }
}

/// The kind of a GitLab event, by the value of `X-Gitlab-Event`.
pub fn gitlab_event_kind(event_type: Option<&str>) -> (r: GitLabEventKind)
    ensures
        r == gitlab_event_kind_of(event_type),
{
    match event_type {
        None => GitLabEventKind::Other,
        Some(t) => if same_text(t, "Push Hook") {
            GitLabEventKind::Push
        } else if same_text(t, "Merge Request Hook") {
            GitLabEventKind::MergeRequest
        } else {
            GitLabEventKind::Other
        },
    }
}

/// The kind of a Bitbucket event, by the value of `X-Event-Key`.
pub fn bitbucket_event_kind(event_type: Option<&str>) -> (r: BitbucketEventKind)
    ensures
        r == bitbucket_event_kind_of(event_type),
{
    match event_type {
        None => BitbucketEventKind::Other,
        Some(t) => if same_text(t, "repo:push") {
            BitbucketEventKind::Push
        } else if same_text(t, "pullrequest:created") || same_text(t, "pullrequest:updated") {
            BitbucketEventKind::PullRequest
        } else {
            BitbucketEventKind::Other
        },
    }
}

/// The text of an optional string slice.
pub open spec fn opt_str(s: Option<&str>) -> Option<Seq<char>> {
    match s {
        Some(t) => Some(t@),
        None => None,
    }
}

/// The secret that a request for a repository is held to: the repository's
/// own where it has one, else the one configured for the platform.
pub open spec fn secret_for(repo: Option<&Repository>, configured: Option<&str>) -> Option<
    Seq<char>,
> {
    match repo {
        Some(r) => match r.webhook_secret {
            Some(s) => Some(s@),
            None => opt_str(configured),
        },
        None => opt_str(configured),
    }
}

/// Whether a GitHub request passes: where there is a secret, the signature
/// must verify against it.
pub open spec fn github_passes(secret: Option<&str>, signature: Option<&str>, body: Seq<u8>)
    -> bool {
    match secret {
        Some(s) => signature_verdict(opt_str(signature), body, s@) is Ok,
        None => true,
    }
}

/// Whether a GitLab request passes: where there is a secret, the token
/// must be that secret; a missing token counts as the empty one.
pub open spec fn gitlab_passes(secret: Option<&str>, token: Option<&str>) -> bool {
    match secret {
        Some(s) => (match token {
            Some(t) => t@,
            None => Seq::<char>::empty(),
        }) == s@,
        None => true,
    }
}

/// The secret that a request for a repository is held to.
pub fn effective_secret<'a>(repo: Option<&'a Repository>, configured: Option<&'a str>) -> (r:
    Option<&'a str>)
    ensures
        opt_str(r) == secret_for(repo, configured),
{
    match repo {
        Some(row) => match &row.webhook_secret {
            Some(s) => Some(s.as_str()),
            None => configured,
        },
        None => configured,
    }
}

/// Authenticates a GitHub request against a secret.
pub fn authenticate_github(secret: Option<&str>, signature: Option<&str>, body: &[u8]) -> (r:
    Result<(), WebhookOutcome>)
    ensures
        r is Ok <==> github_passes(secret, signature, body@),
        r is Err ==> r->Err_0 == WebhookOutcome::InvalidSignature,
{
    if let Some(s) = secret {
        if verify_github_signature(signature, body, s).is_err() {
            return Err(WebhookOutcome::InvalidSignature);
        }
    }
    Ok(())
}

/// Authenticates a GitLab request against a secret.
pub fn authenticate_gitlab(secret: Option<&str>, token: Option<&str>) -> (r: Result<
    (),
    WebhookOutcome,
>)
    ensures
        r is Ok <==> gitlab_passes(secret, token),
        r is Err ==> r->Err_0 == WebhookOutcome::InvalidToken,
{
    if let Some(s) = secret {
        if !gitlab_token_matches(token, s) {
            return Err(WebhookOutcome::InvalidToken);
        }
    }
    Ok(())
}

/// The first step on a GitHub webhook: where there is a secret the
/// signature must verify, else the request is unauthorized; then the event
/// is classified.
pub fn handle_github_webhook(
    secret: Option<&str>,
    signature: Option<&str>,
    event_type: Option<&str>,
    body: &[u8],
) -> (r: Result<GitHubEventKind, WebhookOutcome>)
    ensures
        r is Ok <==> github_passes(secret, signature, body@),
        r is Ok ==> r->Ok_0 == github_event_kind_of(event_type),
        r is Err ==> r->Err_0 == WebhookOutcome::InvalidSignature,
{
    match authenticate_github(secret, signature, body) {
        Ok(()) => Ok(github_event_kind(event_type)),
        Err(outcome) => Err(outcome),
    }
}

/// The first step on a GitLab webhook: where there is a secret the token
/// must be that secret, else the request is unauthorized; then the event
/// is classified.
pub fn handle_gitlab_webhook(secret: Option<&str>, token: Option<&str>, event_type: Option<&str>)
    -> (r: Result<GitLabEventKind, WebhookOutcome>)
    ensures
        r is Ok <==> gitlab_passes(secret, token),
        r is Ok ==> r->Ok_0 == gitlab_event_kind_of(event_type),
        r is Err ==> r->Err_0 == WebhookOutcome::InvalidToken,
{
    match authenticate_gitlab(secret, token) {
        Ok(()) => Ok(gitlab_event_kind(event_type)),
        Err(outcome) => Err(outcome),
    }
}

/// The first step on a Bitbucket webhook. Bitbucket signs nothing, so
/// there is nothing to verify: the event is classified.
pub fn handle_bitbucket_webhook(event_type: Option<&str>) -> (r: BitbucketEventKind)
    ensures
        r == bitbucket_event_kind_of(event_type),
{
    bitbucket_event_kind(event_type)
}

/// A signature is accepted exactly when it is the code of the body: a tag
/// that differs from the code in any byte, or in length, is rejected.
pub proof fn law_signature_exact(header: Seq<char>, tag: Seq<u8>, body: Seq<u8>, secret: Seq<char>)
    requires
        starts_with(header, "sha256="@),
        hex_decoded(header.skip("sha256="@.len() as int)) == Some(tag),
    ensures
        signature_verdict(Some(header), body, secret) is Ok <==> tag == hmac_sha256(
            encode_utf8(secret),
            body,
        ),
        (tag.len() != hmac_sha256(encode_utf8(secret), body).len() || exists|i: int|
            0 <= i < tag.len() && tag[i] != hmac_sha256(encode_utf8(secret), body)[i])
            ==> signature_verdict(Some(header), body, secret) == Err::<(), SignatureError>(
            SignatureError::Mismatch,
        ),
{
}

// ---------------------------------------------------------------------------
// Selection of files
// ---------------------------------------------------------------------------
/// A file belongs to a prover: its name, in lower case, ends with the
/// prover's extension.
pub open spec fn matches_prover(file: Seq<char>, p: ProverKind) -> bool {
    ends_with(lowercase(file), extension(p))
}

/// A file belongs to one of the provers.
pub open spec fn matches_any(file: Seq<char>, provers: Seq<ProverKind>) -> bool {
    exists|i: int| 0 <= i < provers.len() && matches_prover(file, #[trigger] provers[i])
}

/// The test for the files of one prover.
pub open spec fn for_prover(p: ProverKind) -> spec_fn(Seq<char>) -> bool {
    |f: Seq<char>| matches_prover(f, p)
}

/// The test for the files of any of the provers.
pub open spec fn for_any(provers: Seq<ProverKind>) -> spec_fn(Seq<char>) -> bool {
    |f: Seq<char>| matches_any(f, provers)
}

/// `acc`, followed by the files of `more` that are not yet in it: each in
/// the order of its first appearance.
pub open spec fn merged(acc: Seq<Seq<char>>, more: Seq<Seq<char>>) -> Seq<Seq<char>>
    decreases more.len(),
{
    if more.len() == 0 {
        acc
    } else {
        let m = merged(acc, more.drop_last());
        if m.contains(more.last()) {
            m
        } else {
            m.push(more.last())
        }
    }
}

/// The files that the commits of a GitHub push added or modified: their
/// union, each file once.
pub open spec fn github_changes(commits: Seq<GitHubCommit>) -> Seq<Seq<char>>
    decreases commits.len(),
{
    if commits.len() == 0 {
        Seq::empty()
    } else {
        merged(
            merged(github_changes(commits.drop_last()), texts(commits.last().added@)),
            texts(commits.last().modified@),
        )
    }
}

/// The files that the commits of a GitLab push added or modified: their
/// union, each file once.
pub open spec fn gitlab_changes(commits: Seq<GitLabCommit>) -> Seq<Seq<char>>
    decreases commits.len(),
{
    if commits.len() == 0 {
        Seq::empty()
    } else {
        merged(
            merged(gitlab_changes(commits.drop_last()), texts(commits.last().added@)),
            texts(commits.last().modified@),
        )
    }
}

/// Whether a file belongs to a prover, by its extension.
pub fn file_matches_prover(file: &str, prover: ProverKind) -> (r: bool)
    ensures
        r == matches_prover(file@, prover),
{
    let lower = file.to_lowercase();
    has_suffix(&chars_of(lower.as_str()), &chars_of(prover.extension()))
}

/// The files that belong to one of the provers, in their order.
pub fn filter_proof_files(files: &[String], enabled_provers: &[ProverKind]) -> (r: Vec<String>)
    ensures
        texts(r@) == texts(files@).filter(for_any(enabled_provers@)),
{
    let ghost all = texts(files@);
    let ghost wanted = for_any(enabled_provers@);
    let mut r: Vec<String> = Vec::new();
    let mut i: usize = 0;
    proof {
        crate::seqs::lemma_filter_empty(all, wanted);
        assert(texts(r@) =~= Seq::empty());
    }
    while i < files.len()
        invariant
            i <= files.len(),
            all == texts(files@),
            wanted == for_any(enabled_provers@),
            texts(r@) == all.take(i as int).filter(wanted),
        decreases files.len() - i,
    {
        let mut hit = false;
        let mut k: usize = 0;
        while k < enabled_provers.len()
            invariant
                k <= enabled_provers.len(),
                i < files.len(),
                hit <==> (exists|x: int|
                    0 <= x < k && matches_prover(files@[i as int]@, #[trigger] enabled_provers@[x])),
            decreases enabled_provers.len() - k,
        {
            if file_matches_prover(files[i].as_str(), enabled_provers[k]) {
                hit = true;
            }
            k += 1;
        }
        proof {
            assert(all[i as int] == files@[i as int]@);
            assert(hit == wanted(all[i as int]));
            crate::seqs::lemma_filter_step(all, wanted, i as int);
        }
        if hit {
            let ghost before = r@;
            let item = files[i].clone();
            r.push(item);
            assert(texts(r@) =~= texts(before).push(all[i as int]));
        }
        i += 1;
    }
    assert(all.take(files@.len() as int) =~= all);
    r
}

/// The files of `files` that belong to `prover`, in their order.
pub fn files_for(files: &Vec<String>, prover: ProverKind) -> (r: Vec<String>)
    ensures
        texts(r@) == texts(files@).filter(for_prover(prover)),
{
    let ghost all = texts(files@);
    let ghost wanted = for_prover(prover);
    let mut r: Vec<String> = Vec::new();
    let mut i: usize = 0;
    proof {
        crate::seqs::lemma_filter_empty(all, wanted);
        assert(texts(r@) =~= Seq::empty());
    }
    while i < files.len()
        invariant
            i <= files.len(),
            all == texts(files@),
            wanted == for_prover(prover),
            texts(r@) == all.take(i as int).filter(wanted),
        decreases files.len() - i,
    {
        proof {
            assert(all[i as int] == files@[i as int]@);
            crate::seqs::lemma_filter_step(all, wanted, i as int);
        }
        if file_matches_prover(files[i].as_str(), prover) {
            let ghost before = r@;
            let item = files[i].clone();
            r.push(item);
            assert(texts(r@) =~= texts(before).push(all[i as int]));
        }
        i += 1;
    }
    assert(all.take(files@.len() as int) =~= all);
    r
}

/// Appends to `out` the files of `more` that it does not hold yet.
pub fn merge_into(out: &mut Vec<String>, more: &Vec<String>)
    ensures
        texts(final(out)@) == merged(texts(old(out)@), texts(more@)),
{
    let ghost start = texts(out@);
    let ghost extra = texts(more@);
    let mut i: usize = 0;
    assert(extra.take(0) =~= Seq::empty());
    while i < more.len()
        invariant
            i <= more.len(),
            extra == texts(more@),
            texts(out@) == merged(start, extra.take(i as int)),
        decreases more.len() - i,
    {
        proof {
            assert(extra.take(i + 1).drop_last() =~= extra.take(i as int));
            assert(extra.take(i + 1).last() == more@[i as int]@);
        }
        if !crate::text::list_contains(out, more[i].as_str()) {
            let ghost before = out@;
            let item = more[i].clone();
            out.push(item);
            assert(texts(out@) =~= texts(before).push(more@[i as int]@));
        }
        i += 1;
    }
    assert(extra.take(more@.len() as int) =~= extra);
}

/// The files that the commits of a GitHub push added or modified.
pub fn github_changed_files(commits: &Vec<GitHubCommit>) -> (r: Vec<String>)
    ensures
        texts(r@) == github_changes(commits@),
{
    let mut r: Vec<String> = Vec::new();
    let mut i: usize = 0;
    assert(texts(r@) =~= Seq::empty());
    assert(commits@.take(0) =~= Seq::empty());
    while i < commits.len()
        invariant
            i <= commits.len(),
            texts(r@) == github_changes(commits@.take(i as int)),
        decreases commits.len() - i,
    {
        proof {
            assert(commits@.take(i + 1).drop_last() =~= commits@.take(i as int));
            assert(commits@.take(i + 1).last() == commits@[i as int]);
        }
        merge_into(&mut r, &commits[i].added);
        merge_into(&mut r, &commits[i].modified);
        i += 1;
    }
    assert(commits@.take(commits@.len() as int) =~= commits@);
    r
}

/// The files that the commits of a GitLab push added or modified.
pub fn gitlab_changed_files(commits: &Vec<GitLabCommit>) -> (r: Vec<String>)
    ensures
        texts(r@) == gitlab_changes(commits@),
{
    let mut r: Vec<String> = Vec::new();
    let mut i: usize = 0;
    assert(texts(r@) =~= Seq::empty());
    assert(commits@.take(0) =~= Seq::empty());
    while i < commits.len()
        invariant
            i <= commits.len(),
            texts(r@) == gitlab_changes(commits@.take(i as int)),
        decreases commits.len() - i,
    {
        proof {
            assert(commits@.take(i + 1).drop_last() =~= commits@.take(i as int));
            assert(commits@.take(i + 1).last() == commits@[i as int]);
        }
        merge_into(&mut r, &commits[i].added);
        merge_into(&mut r, &commits[i].modified);
        i += 1;
    }
    assert(commits@.take(commits@.len() as int) =~= commits@);
    r
}

/// A union holds each file once, and holds exactly the files of its two
/// parts.
pub proof fn law_merged_is_union(acc: Seq<Seq<char>>, more: Seq<Seq<char>>, f: Seq<char>)
    requires
        acc.no_duplicates(),
    ensures
        merged(acc, more).no_duplicates(),
        merged(acc, more).contains(f) <==> acc.contains(f) || more.contains(f),
    decreases more.len(),
{
    if more.len() > 0 {
        let front = more.drop_last();
        law_merged_is_union(acc, front, f);
        law_merged_is_union(acc, front, more.last());
        let m = merged(acc, front);
        if !m.contains(more.last()) {
            let n = m.push(more.last());
            assert forall|i: int, j: int| 0 <= i < j < n.len() implies n[i] != n[j] by {
                if j == m.len() {
                    assert(m[i] == n[i]);
                    assert(m.contains(m[i]));
                }
            }
            if n.contains(f) {
                let i = choose|i: int| 0 <= i < n.len() && n[i] == f;
                if i < m.len() {
                    assert(m[i] == f);
                }
            }
            if m.contains(f) {
                let i = choose|i: int| 0 <= i < m.len() && m[i] == f;
                assert(n[i] == f);
            }
            assert(n[m.len() as int] == more.last());
        }
        if more.contains(f) {
            let i = choose|i: int| 0 <= i < more.len() && more[i] == f;
            if i < front.len() {
                assert(front[i] == f);
            }
        }
        if front.contains(f) {
            let i = choose|i: int| 0 <= i < front.len() && front[i] == f;
            assert(more[i] == f);
        }
        assert(more[more.len() - 1] == more.last());
    }
}

// ---------------------------------------------------------------------------
// The key of the repository that an event names
// ---------------------------------------------------------------------------
/// Owner and name of the repository of a GitHub event.
pub fn github_repo_key(repository: &GitHubRepository) -> (r: (String, String))
    ensures
        r.0@ == repository.owner.login@,
        r.1@ == repository.name@,
{
    (repository.owner.login.clone(), repository.name.clone())
}

/// Owner and name of the project of a GitLab event: the first and the last
/// segment of its path. A path without a slash names no project.
pub fn gitlab_repo_key(path_with_namespace: &str) -> (r: Option<(String, String)>)
    ensures
        r is Some <==> path_with_namespace@.contains('/'),
        r is Some ==> {
            let (owner, name) = r->0;
            &&& !owner@.contains('/')
            &&& starts_with(path_with_namespace@, owner@.push('/'))
            &&& !name@.contains('/')
            &&& ends_with(path_with_namespace@, seq!['/'] + name@)
        },
{
    let chars = chars_of(path_with_namespace);
    let first = match crate::text::find_first(&chars, '/') {
        Some(i) => i,
        None => {
            return None;
        },
    };
    let last = match crate::text::find_last(&chars, '/') {
        Some(i) => i,
        None => {
            return None;
        },
    };
    let owner = string_of_range(&chars, 0, first);
    let name = string_of_range(&chars, last + 1, chars.len());
    proof {
        let s = chars@;
        assert(s.contains('/')) by {
            assert(s[first as int] == '/');
        }
        assert(owner@ =~= s.take(first as int));
        assert(name@ =~= s.skip(last + 1));
        assert(s.subrange(0, first + 1) =~= owner@.push('/'));
        assert(s.subrange(last as int, s.len() as int) =~= seq!['/'] + name@);
    }
    Some((owner, name))
}

/// Owner and name of the repository of a Bitbucket event: the two parts of
/// its full name, which holds exactly one slash. Any other name names no
/// repository.
pub fn bitbucket_repo_key(full_name: &str) -> (r: Option<(String, String)>)
    ensures
        r is Some ==> {
            let (owner, name) = r->0;
            &&& !owner@.contains('/')
            &&& !name@.contains('/')
            &&& full_name@ == owner@ + seq!['/'] + name@
        },
        r is None ==> forall|owner: Seq<char>, name: Seq<char>|
            !(!owner.contains('/') && !name.contains('/') && full_name@ == #[trigger] (owner
                + seq!['/'] + name)),
{
    let chars = chars_of(full_name);
    let ghost s = chars@;
    let first = match crate::text::find_first(&chars, '/') {
        Some(i) => i,
        None => {
            proof {
                assert forall|owner: Seq<char>, name: Seq<char>|
                    !(!owner.contains('/') && !name.contains('/') && s == #[trigger] (owner
                        + seq!['/'] + name)) by {
                    if s == owner + seq!['/'] + name {
                        assert(s[owner.len() as int] == '/');
                    }
                }
            }
            return None;
        },
    };
    let last = match crate::text::find_last(&chars, '/') {
        Some(i) => i,
        None => {
            proof {
                assert(s[first as int] == '/');
            }
            return None;
        },
    };
    if first != last {
        proof {
            assert forall|owner: Seq<char>, name: Seq<char>|
                !(!owner.contains('/') && !name.contains('/') && s == #[trigger] (owner
                    + seq!['/'] + name)) by {
                if s == owner + seq!['/'] + name && !owner.contains('/') && !name.contains('/') {
                    let at = owner.len() as int;
                    if first < at {
                        assert(owner[first as int] == s[first as int]);
                        assert(owner.contains('/'));
                    } else if first > at {
                        assert(name[first - at - 1] == s[first as int]);
                        assert(name.contains('/'));
                    } else if last < at {
                        assert(owner[last as int] == s[last as int]);
                        assert(owner.contains('/'));
                    } else {
                        assert(name[last - at - 1] == s[last as int]);
                        assert(name.contains('/'));
                    }
                }
            }
        }
        return None;
    }
    let owner = string_of_range(&chars, 0, first);
    let name = string_of_range(&chars, first + 1, chars.len());
    proof {
        assert(owner@ =~= s.take(first as int));
        assert(name@ =~= s.skip(first + 1));
        assert(s =~= owner@ + seq!['/'] + name@);
    }
    Some((owner, name))
}

// ---------------------------------------------------------------------------
// The jobs that an event asks for
// ---------------------------------------------------------------------------
/// What sets a check off.
#[derive(Debug, Clone, Copy, PartialEq, Eq, Structural)]
pub enum Trigger {
    Push,
    PullRequest,
    CheckSuite,
}

/// What an event asks of one prover.
pub struct JobDraft {
    pub prover: ProverKind,
    pub file_paths: Seq<Seq<char>>,
    pub priority: JobPriority,
}

/// The repository is registered and enabled, and the flag for this kind of
/// event is set. Check suites need no flag.
pub open spec fn admits(repo: Option<&Repository>, trigger: Trigger) -> bool {
    match repo {
        None => false,
        Some(r) => r.enabled && match trigger {
            Trigger::Push => r.check_on_push,
            Trigger::PullRequest => r.check_on_pr,
            Trigger::CheckSuite => true,
        },
    }
}

/// What a push asks for: of each prover, in order, that has files among
/// the changed ones, a check of those files, at normal priority.
pub open spec fn push_drafts(provers: Seq<ProverKind>, files: Seq<Seq<char>>) -> Seq<JobDraft>
    decreases provers.len(),
{
    if provers.len() == 0 {
        Seq::empty()
    } else {
        let rest = push_drafts(provers.drop_last(), files);
        let mine = files.filter(for_prover(provers.last()));
        if mine.len() == 0 {
            rest
        } else {
            rest.push(
                JobDraft {
                    prover: provers.last(),
                    file_paths: mine,
                    priority: JobPriority::Normal,
                },
            )
        }
    }
}

/// What an event without a list of files asks for: of each prover, in
/// order, a check of everything.
pub open spec fn blanket_drafts(provers: Seq<ProverKind>, priority: JobPriority) -> Seq<JobDraft> {
    Seq::new(
        provers.len(),
        |i: int| JobDraft { prover: provers[i], file_paths: Seq::empty(), priority },
    )
}

/// The job is a fresh job for the draft: queued, on the given commit of
/// the given repository.
pub open spec fn follows(job: JobView, repo_id: u128, commit: Seq<char>, d: JobDraft) -> bool {
    &&& job.repo_id == repo_id
    &&& job.commit_sha == commit
    &&& job.prover == d.prover
    &&& job.file_paths == d.file_paths
    &&& job.priority == d.priority
    &&& job.status is Queued
    &&& job.started_at is None
    &&& job.completed_at is None
    &&& job.error_message is None
}

/// The jobs are fresh jobs for the drafts, one each, in order.
pub open spec fn planned(jobs: Seq<ProofJob>, repo_id: u128, commit: Seq<char>, drafts: Seq<JobDraft>)
    -> bool {
    &&& jobs.len() == drafts.len()
    &&& forall|i: int| 0 <= i < jobs.len() ==> follows((#[trigger] jobs[i])@, repo_id, commit, drafts[i])
}

/// What a push asks for, whatever the provers and the files: every draft
/// is for one of the provers, at normal priority; its files are the
/// changed files that belong to that prover, in their order, and there is
/// at least one; each of them belongs to the prover and is one of the
/// changed files. So a file that belongs to no prover is in no draft.
pub proof fn law_push_drafts(provers: Seq<ProverKind>, files: Seq<Seq<char>>, k: int)
    requires
        0 <= k < push_drafts(provers, files).len(),
    ensures
        ({
            let d = push_drafts(provers, files)[k];
            &&& provers.contains(d.prover)
            &&& d.priority == JobPriority::Normal
            &&& d.file_paths == files.filter(for_prover(d.prover))
            &&& d.file_paths.len() > 0
            &&& forall|i: int|
                0 <= i < d.file_paths.len() ==> matches_prover(#[trigger] d.file_paths[i], d.prover)
                    && files.contains(d.file_paths[i])
        }),
    decreases provers.len(),
{
    let rest = push_drafts(provers.drop_last(), files);
    let d = push_drafts(provers, files)[k];
    if k < rest.len() {
        law_push_drafts(provers.drop_last(), files, k);
        let i = choose|i: int|
            0 <= i < provers.drop_last().len() && provers.drop_last()[i] == rest[k].prover;
        assert(provers[i] == d.prover);
    } else {
        assert(d.prover == provers.last());
        assert(provers[provers.len() - 1] == d.prover);
    }
    let wanted = for_prover(d.prover);
    assert forall|i: int| 0 <= i < d.file_paths.len() implies matches_prover(
        #[trigger] d.file_paths[i],
        d.prover,
    ) && files.contains(d.file_paths[i]) by {
        files.lemma_filter_pred(wanted, i);
        let at = crate::seqs::lemma_filter_position(files, wanted, i);
        assert(files[at] == d.file_paths[i]);
    }
}

/// Every prover that a changed file belongs to gets a draft, and the
/// drafts stand in the order of the provers: there are at most as many
/// drafts as provers.
pub proof fn law_push_covers_provers(provers: Seq<ProverKind>, files: Seq<Seq<char>>, i: int)
    requires
        0 <= i < provers.len(),
        files.filter(for_prover(provers[i])).len() > 0,
    ensures
        push_drafts(provers, files).len() <= provers.len(),
        exists|k: int|
            0 <= k < push_drafts(provers, files).len() && (#[trigger] push_drafts(
                provers,
                files,
            )[k]).prover == provers[i],
    decreases provers.len(),
{
    let front = provers.drop_last();
    let rest = push_drafts(front, files);
    lemma_push_drafts_count(front, files);
    if i < front.len() {
        assert(front[i] == provers[i]);
        law_push_covers_provers(front, files, i);
        let k = choose|k: int| 0 <= k < rest.len() && (#[trigger] rest[k]).prover == front[i];
        assert(push_drafts(provers, files)[k] == rest[k]);
    } else {
        assert(provers.last() == provers[i]);
        let k = rest.len() as int;
        assert(push_drafts(provers, files)[k].prover == provers[i]);
    }
}

/// There are at most as many drafts as provers.
pub proof fn lemma_push_drafts_count(provers: Seq<ProverKind>, files: Seq<Seq<char>>)
    ensures
        push_drafts(provers, files).len() <= provers.len(),
    decreases provers.len(),
{
    if provers.len() > 0 {
        lemma_push_drafts_count(provers.drop_last(), files);
    }
}

/// Whether the repository lets an event of this kind through.
pub fn repo_admits(repo: Option<&Repository>, trigger: Trigger) -> (r: bool)
    ensures
        r == admits(repo, trigger),
{
    match repo {
        None => false,
        Some(r) => r.enabled && match trigger {
            Trigger::Push => r.check_on_push,
            Trigger::PullRequest => r.check_on_pr,
            Trigger::CheckSuite => true,
        },
    }
}

/// The jobs that a push asks for.
pub fn plan_push_jobs(repo: &Repository, commit_sha: &str, files: &Vec<String>) -> (r: Vec<ProofJob>)
    ensures
        planned(r@, repo.id, commit_sha@, push_drafts(repo.enabled_provers@, texts(files@))),
{
    let ghost provers = repo.enabled_provers@;
    let ghost all = texts(files@);
    let mut jobs: Vec<ProofJob> = Vec::new();
    let mut i: usize = 0;
    assert(provers.take(0) =~= Seq::empty());
    while i < repo.enabled_provers.len()
        invariant
            i <= repo.enabled_provers.len(),
            provers == repo.enabled_provers@,
            all == texts(files@),
            planned(jobs@, repo.id, commit_sha@, push_drafts(provers.take(i as int), all)),
        decreases repo.enabled_provers.len() - i,
    {
        let prover = repo.enabled_provers[i];
        let ghost before = jobs@;
        let ghost drafts = push_drafts(provers.take(i as int), all);
        proof {
            assert(provers.take(i + 1).drop_last() =~= provers.take(i as int));
            assert(provers.take(i + 1).last() == prover);
        }
        let mine = files_for(files, prover);
        if mine.len() > 0 {
            let job = ProofJob::new(repo.id, commit_sha.to_owned(), prover, mine).with_priority(
                JobPriority::Normal,
            );
            jobs.push(job);
            proof {
                let next = push_drafts(provers.take(i + 1), all);
                assert(next == drafts.push(next.last()));
                assert forall|k: int| 0 <= k < jobs@.len() implies follows(
                    (#[trigger] jobs@[k])@,
                    repo.id,
                    commit_sha@,
                    next[k],
                ) by {
                    if k < before.len() {
                        assert(jobs@[k] == before[k]);
                        assert(next[k] == drafts[k]);
                    }
                }
            }
        }
        i += 1;
    }
    assert(provers.take(provers.len() as int) =~= provers);
    jobs
}

/// The jobs that an event without a list of files asks for.
pub fn plan_blanket_jobs(repo: &Repository, commit_sha: &str, priority: JobPriority) -> (r: Vec<
    ProofJob,
>)
    ensures
        planned(r@, repo.id, commit_sha@, blanket_drafts(repo.enabled_provers@, priority)),
{
    let ghost provers = repo.enabled_provers@;
    let ghost drafts = blanket_drafts(provers, priority);
    let mut jobs: Vec<ProofJob> = Vec::new();
    let mut i: usize = 0;
    while i < repo.enabled_provers.len()
        invariant
            i <= repo.enabled_provers.len(),
            provers == repo.enabled_provers@,
            drafts == blanket_drafts(provers, priority),
            jobs@.len() == i,
            forall|k: int|
                0 <= k < i ==> follows((#[trigger] jobs@[k])@, repo.id, commit_sha@, drafts[k]),
        decreases repo.enabled_provers.len() - i,
    {
        let ghost before = jobs@;
        let no_files: Vec<String> = Vec::new();
        assert(texts(no_files@) =~= Seq::empty());
        let job = ProofJob::new(
            repo.id,
            commit_sha.to_owned(),
            repo.enabled_provers[i],
            no_files,
        ).with_priority(priority);
        jobs.push(job);
        proof {
            assert forall|k: int| 0 <= k < i + 1 implies follows(
                (#[trigger] jobs@[k])@,
                repo.id,
                commit_sha@,
                drafts[k],
            ) by {
                if k < i {
                    assert(jobs@[k] == before[k]);
                }
            }
        }
        i += 1;
    }
    jobs
}

/// Pull requests are checked when they are opened, synchronized or
/// reopened.
pub open spec fn github_pr_action_accepted(action: Seq<char>) -> bool {
    action == "opened"@ || action == "synchronize"@ || action == "reopened"@
}

/// Check suites are checked when they are requested or requested again.
pub open spec fn check_suite_action_accepted(action: Seq<char>) -> bool {
    action == "requested"@ || action == "rerequested"@
}

/// Merge requests are checked when their action is open, update or reopen,
/// or when their state is opened.
pub open spec fn gitlab_mr_accepted(action: Option<Seq<char>>, state: Seq<char>) -> bool {
    action == Some("open"@) || action == Some("update"@) || action == Some("reopen"@) || state
        == "opened"@
}

/// The commit that a GitLab push is to be checked at: the checked-out
/// commit where the event names one, else the commit after the push.
pub open spec fn gitlab_push_commit(event: GitLabPushEvent) -> Seq<char> {
    match event.checkout_sha {
        Some(sha) => sha@,
        None => event.after@,
    }
}

/// The commit that a Bitbucket push is to be checked at: the new target of
/// its first change, if it has one.
pub open spec fn bitbucket_push_commit(event: BitbucketPushEvent) -> Option<Seq<char>> {
    if event.push.changes@.len() == 0 {
        None
    } else {
        match event.push.changes@[0].new {
            Some(r) => Some(r.target.hash@),
            None => None,
        }
    }
}

/// Whether the action of a GitHub pull request is one that is checked.
pub fn github_pr_action_is_checked(action: &str) -> (r: bool)
    ensures
        r == github_pr_action_accepted(action@),
{
    same_text(action, "opened") || same_text(action, "synchronize") || same_text(
        action,
        "reopened",
    )
}

/// Whether the action of a GitHub check suite is one that is checked.
pub fn check_suite_action_is_checked(action: &str) -> (r: bool)
    ensures
        r == check_suite_action_accepted(action@),
{
    same_text(action, "requested") || same_text(action, "rerequested")
}

/// Whether a GitLab merge request is one that is checked.
pub fn gitlab_mr_is_checked(attributes: &GitLabMergeRequestAttributes) -> (r: bool)
    ensures
        r == gitlab_mr_accepted(crate::text::opt_text(attributes.action), attributes.state@),
{
    let by_action = match &attributes.action {
        Some(a) => same_text(a.as_str(), "open") || same_text(a.as_str(), "update") || same_text(
            a.as_str(),
            "reopen",
        ),
        None => false,
    };
    by_action || same_text(attributes.state.as_str(), "opened")
}

/// The jobs that a GitHub push asks for: none unless the repository lets
/// pushes through; else one per enabled prover that has files among those
/// added or modified, at normal priority, on the commit after the push.
pub fn handle_github_push(repo: Option<&Repository>, event: &GitHubPushEvent) -> (r: Vec<ProofJob>)
    ensures
        !admits(repo, Trigger::Push) ==> r@.len() == 0,
        admits(repo, Trigger::Push) ==> planned(
            r@,
            repo->0.id,
            event.after@,
            push_drafts(repo->0.enabled_provers@, github_changes(event.commits@)),
        ),
{
    if !repo_admits(repo, Trigger::Push) {
        return Vec::new();
    }
    let changed = github_changed_files(&event.commits);
    plan_push_jobs(repo.unwrap(), event.after.as_str(), &changed)
}

/// The jobs that a GitHub pull request asks for: none unless the action is
/// one that is checked and the repository lets pull requests through; else
/// one per enabled prover, at high priority, on the head commit, with no
/// list of files.
pub fn handle_github_pull_request(repo: Option<&Repository>, event: &GitHubPullRequestEvent) -> (r:
    Vec<ProofJob>)
    ensures
        ({
            let go = github_pr_action_accepted(event.action@) && admits(repo, Trigger::PullRequest);
            &&& !go ==> r@.len() == 0
            &&& go ==> planned(
                r@,
                repo->0.id,
                event.pull_request.head.sha@,
                blanket_drafts(repo->0.enabled_provers@, JobPriority::High),
            )
        }),
{
    if !github_pr_action_is_checked(event.action.as_str()) {
        return Vec::new();
    }
    if !repo_admits(repo, Trigger::PullRequest) {
        return Vec::new();
    }
    plan_blanket_jobs(repo.unwrap(), event.pull_request.head.sha.as_str(), JobPriority::High)
}

/// The jobs that a GitHub check suite asks for: none unless the suite was
/// requested and the repository is enabled; else one per enabled prover,
/// at high priority, on the head commit.
pub fn handle_github_check_suite(repo: Option<&Repository>, event: &GitHubCheckSuiteEvent) -> (r:
    Vec<ProofJob>)
    ensures
        ({
            let go = check_suite_action_accepted(event.action@) && admits(repo, Trigger::CheckSuite);
            &&& !go ==> r@.len() == 0
            &&& go ==> planned(
                r@,
                repo->0.id,
                event.check_suite.head_sha@,
                blanket_drafts(repo->0.enabled_provers@, JobPriority::High),
            )
        }),
{
    if !check_suite_action_is_checked(event.action.as_str()) {
        return Vec::new();
    }
    if !repo_admits(repo, Trigger::CheckSuite) {
        return Vec::new();
    }
    plan_blanket_jobs(repo.unwrap(), event.check_suite.head_sha.as_str(), JobPriority::High)
}

/// The jobs that a GitLab push asks for: as for a GitHub push, on the
/// checked-out commit.
pub fn handle_gitlab_push(repo: Option<&Repository>, event: &GitLabPushEvent) -> (r: Vec<ProofJob>)
    ensures
        !admits(repo, Trigger::Push) ==> r@.len() == 0,
        admits(repo, Trigger::Push) ==> planned(
            r@,
            repo->0.id,
            gitlab_push_commit(*event),
            push_drafts(repo->0.enabled_provers@, gitlab_changes(event.commits@)),
        ),
{
    if !repo_admits(repo, Trigger::Push) {
        return Vec::new();
    }
    let changed = gitlab_changed_files(&event.commits);
    let commit = match &event.checkout_sha {
        Some(sha) => sha.as_str(),
        None => event.after.as_str(),
    };
    plan_push_jobs(repo.unwrap(), commit, &changed)
}

/// The jobs that a GitLab merge request asks for: none unless the request
/// is one that is checked and the repository lets merge requests through;
/// else one per enabled prover, at high priority, on the last commit.
pub fn handle_gitlab_merge_request(repo: Option<&Repository>, event: &GitLabMergeRequestEvent) -> (r:
    Vec<ProofJob>)
    ensures
        ({
            let go = gitlab_mr_accepted(
                crate::text::opt_text(event.object_attributes.action),
                event.object_attributes.state@,
            ) && admits(repo, Trigger::PullRequest);
            &&& !go ==> r@.len() == 0
            &&& go ==> planned(
                r@,
                repo->0.id,
                event.object_attributes.last_commit.id@,
                blanket_drafts(repo->0.enabled_provers@, JobPriority::High),
            )
        }),
{
    let attrs = &event.object_attributes;
    if !gitlab_mr_is_checked(attrs) {
        return Vec::new();
    }
    if !repo_admits(repo, Trigger::PullRequest) {
        return Vec::new();
    }
    plan_blanket_jobs(repo.unwrap(), attrs.last_commit.id.as_str(), JobPriority::High)
}

/// The jobs that a Bitbucket push asks for: none unless the push names a
/// new commit and the repository lets pushes through; else one per enabled
/// prover, at normal priority, with no list of files.
pub fn handle_bitbucket_push(repo: Option<&Repository>, event: &BitbucketPushEvent) -> (r: Vec<
    ProofJob,
>)
    ensures
        ({
            let go = bitbucket_push_commit(*event) is Some && admits(repo, Trigger::Push);
            &&& !go ==> r@.len() == 0
            &&& go ==> planned(
                r@,
                repo->0.id,
                bitbucket_push_commit(*event)->0,
                blanket_drafts(repo->0.enabled_provers@, JobPriority::Normal),
            )
        }),
{
    if event.push.changes.len() == 0 {
        return Vec::new();
    }
    let commit = match &event.push.changes[0].new {
        Some(r) => r.target.hash.as_str(),
        None => {
            return Vec::new();
        },
    };
    if !repo_admits(repo, Trigger::Push) {
        return Vec::new();
    }
    plan_blanket_jobs(repo.unwrap(), commit, JobPriority::Normal)
}

/// The jobs that a Bitbucket pull request asks for: none unless the
/// repository lets pull requests through; else one per enabled prover, at
/// high priority, on the commit of the source.
pub fn handle_bitbucket_pull_request(repo: Option<&Repository>, event: &BitbucketPullRequestEvent)
    -> (r: Vec<ProofJob>)
    ensures
        !admits(repo, Trigger::PullRequest) ==> r@.len() == 0,
        admits(repo, Trigger::PullRequest) ==> planned(
            r@,
            repo->0.id,
            event.pullrequest.source.commit.hash@,
            blanket_drafts(repo->0.enabled_provers@, JobPriority::High),
        ),
{
    if !repo_admits(repo, Trigger::PullRequest) {
        return Vec::new();
    }
    plan_blanket_jobs(
        repo.unwrap(),
        event.pullrequest.source.commit.hash.as_str(),
        JobPriority::High,
    )
}

// ---------------------------------------------------------------------------
// Admission
// ---------------------------------------------------------------------------
/// The scheduler after the jobs were offered, one after another.
pub open spec fn admit_all(s: QueueModel, jobs: Seq<JobView>) -> QueueModel
    decreases jobs.len(),
{
    if jobs.len() == 0 {
        s
    } else {
        admit_all(s.enqueued(jobs[0]), jobs.drop_first())
    }
}

/// Those of the jobs that were accepted when they were offered, one after
/// another.
pub open spec fn accepted_of(s: QueueModel, jobs: Seq<JobView>) -> Seq<JobView>
    decreases jobs.len(),
{
    if jobs.len() == 0 {
        Seq::empty()
    } else {
        let head = if s.accepts(jobs[0]) {
            seq![jobs[0]]
        } else {
            Seq::empty()
        };
        head + accepted_of(s.enqueued(jobs[0]), jobs.drop_first())
    }
}

/// Offers the jobs to the scheduler, one after another. The result holds
/// the accepted ones, which are the ones to persist.
pub fn admit_jobs(scheduler: &mut JobScheduler, jobs: Vec<ProofJob>) -> (accepted: Vec<ProofJob>)
    requires
        old(scheduler).inv(),
    ensures
        final(scheduler).inv(),
        final(scheduler)@ == admit_all(old(scheduler)@, crate::scheduler::job_queue::job_views(jobs@)),
        crate::scheduler::job_queue::job_views(accepted@) == accepted_of(
            old(scheduler)@,
            crate::scheduler::job_queue::job_views(jobs@),
        ),
{
    let ghost start = scheduler@;
    let ghost all = crate::scheduler::job_queue::job_views(jobs@);
    let mut accepted: Vec<ProofJob> = Vec::new();
    let mut i: usize = 0;
    proof {
        assert(all.skip(0) =~= all);
        assert(crate::scheduler::job_queue::job_views(accepted@) =~= Seq::empty());
        assert(Seq::<JobView>::empty() + accepted_of(start, all) =~= accepted_of(start, all));
    }
    while i < jobs.len()
        invariant
            i <= jobs.len(),
            scheduler.inv(),
            all == crate::scheduler::job_queue::job_views(jobs@),
            admit_all(start, all) == admit_all(scheduler@, all.skip(i as int)),
            accepted_of(start, all) == crate::scheduler::job_queue::job_views(accepted@)
                + accepted_of(scheduler@, all.skip(i as int)),
        decreases jobs.len() - i,
    {
        let ghost before = scheduler@;
        let ghost got = crate::scheduler::job_queue::job_views(accepted@);
        let ghost rest = all.skip(i as int);
        proof {
            assert(rest[0] == jobs@[i as int]@);
            assert(rest.drop_first() =~= all.skip(i + 1));
        }
        let offer = jobs[i].clone();
        let outcome = scheduler.enqueue(offer);
        let taken = match outcome {
            Ok(Some(_)) => true,
            _ => false,
        };
        if taken {
            let ghost old_accepted = accepted@;
            let copy = jobs[i].clone();
            accepted.push(copy);
            proof {
                assert(crate::scheduler::job_queue::job_views(accepted@) =~= got.push(rest[0]));
                assert(got.push(rest[0]) + accepted_of(scheduler@, all.skip(i + 1)) =~= got + (
                seq![rest[0]] + accepted_of(scheduler@, all.skip(i + 1))));
            }
        } else {
            proof {
                assert(got + (Seq::<JobView>::empty() + accepted_of(scheduler@, all.skip(i + 1)))
                    =~= got + accepted_of(scheduler@, all.skip(i + 1)));
            }
        }
        i += 1;
    }
    proof {
        assert(all.skip(jobs@.len() as int) =~= Seq::<JobView>::empty());
        assert(crate::scheduler::job_queue::job_views(accepted@) + Seq::<JobView>::empty()
            =~= crate::scheduler::job_queue::job_views(accepted@));
    }
    accepted
}

/// A job that is refused stays refused when another job is offered first.
pub proof fn lemma_enqueue_keeps_refusal(s: QueueModel, x: JobView, j: JobView)
    requires
        !s.accepts(j),
    ensures
        !s.enqueued(x).accepts(j),
{
    if s.accepts(x) {
        crate::seqs::lemma_first_where_props(
            s.queue,
            |y: JobView| crate::scheduler::rank(y.priority) < crate::scheduler::rank(x.priority),
        );
        let pos = s.insert_position(x);
        let after = s.queue.insert(pos, x);
        if s.has_duplicate(j) {
            let i = choose|i: int| 0 <= i < s.queue.len() && (#[trigger] s.queue[i]).same_work(j);
            let k = if i < pos {
                i
            } else {
                i + 1
            };
            assert(after[k] == s.queue[i]);
            assert(after[k].same_work(j));
        }
    }
}

/// Once a job was offered, a job for the same work is refused.
pub proof fn lemma_same_work_refused(s: QueueModel, j: JobView, again: JobView)
    requires
        j.same_work(again),
    ensures
        !s.enqueued(j).accepts(again),
{
    if s.accepts(j) {
        crate::seqs::lemma_first_where_props(
            s.queue,
            |y: JobView| crate::scheduler::rank(y.priority) < crate::scheduler::rank(j.priority),
        );
        let pos = s.insert_position(j);
        let after = s.queue.insert(pos, j);
        assert(after[pos] == j);
        assert(after[pos].same_work(again));
    } else if s.has_duplicate(j) {
        let i = choose|i: int| 0 <= i < s.queue.len() && (#[trigger] s.queue[i]).same_work(j);
        assert(s.queue[i].same_work(again));
    }
}

/// A job that is refused stays refused when other jobs are offered first.
pub proof fn lemma_admit_keeps_refusal(s: QueueModel, jobs: Seq<JobView>, j: JobView)
    requires
        !s.accepts(j),
    ensures
        !admit_all(s, jobs).accepts(j),
    decreases jobs.len(),
{
    if jobs.len() > 0 {
        lemma_enqueue_keeps_refusal(s, jobs[0], j);
        lemma_admit_keeps_refusal(s.enqueued(jobs[0]), jobs.drop_first(), j);
    }
}

/// After the jobs were offered, a job for the same work as one of them is
/// refused.
pub proof fn lemma_offered_is_refused(s: QueueModel, jobs: Seq<JobView>, i: int, again: JobView)
    requires
        0 <= i < jobs.len(),
        jobs[i].same_work(again),
    ensures
        !admit_all(s, jobs).accepts(again),
    decreases jobs.len(),
{
    if i == 0 {
        lemma_same_work_refused(s, jobs[0], again);
        lemma_admit_keeps_refusal(s.enqueued(jobs[0]), jobs.drop_first(), again);
    } else {
        assert(jobs.drop_first()[i - 1] == jobs[i]);
        lemma_offered_is_refused(s.enqueued(jobs[0]), jobs.drop_first(), i - 1, again);
    }
}

/// Offering jobs that are all refused changes nothing.
pub proof fn lemma_all_refused(s: QueueModel, jobs: Seq<JobView>)
    requires
        forall|i: int| 0 <= i < jobs.len() ==> !s.accepts(#[trigger] jobs[i]),
    ensures
        admit_all(s, jobs) == s,
        accepted_of(s, jobs) == Seq::<JobView>::empty(),
    decreases jobs.len(),
{
    if jobs.len() > 0 {
        assert(!s.accepts(jobs[0]));
        assert forall|i: int| 0 <= i < jobs.drop_first().len() implies !s.accepts(
            #[trigger] jobs.drop_first()[i],
        ) by {
            assert(jobs.drop_first()[i] == jobs[i + 1]);
        }
        lemma_all_refused(s, jobs.drop_first());
        assert(Seq::<JobView>::empty() + Seq::<JobView>::empty() =~= Seq::<JobView>::empty());
    }
}

/// Replay is idempotent: when an event is delivered again while the jobs
/// of its first delivery still wait, the jobs of the second delivery, which
/// ask for the same work, are all refused, and the scheduler stays as it
/// was. So a replay adds no job for any repository, commit and prover.
pub proof fn law_replay_adds_nothing(s: QueueModel, jobs: Seq<JobView>, replay: Seq<JobView>)
    requires
        replay.len() == jobs.len(),
        forall|i: int| 0 <= i < jobs.len() ==> (#[trigger] jobs[i]).same_work(replay[i]),
    ensures
        admit_all(admit_all(s, jobs), replay) == admit_all(s, jobs),
        accepted_of(admit_all(s, jobs), replay) == Seq::<JobView>::empty(),
{
    let t = admit_all(s, jobs);
    assert forall|i: int| 0 <= i < replay.len() implies !t.accepts(#[trigger] replay[i]) by {
        assert(jobs[i].same_work(replay[i]));
        lemma_offered_is_refused(s, jobs, i, replay[i]);
    }
    lemma_all_refused(t, replay);
}

} // verus!
