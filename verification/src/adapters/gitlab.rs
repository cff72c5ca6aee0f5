//! What the GitLab adapter computes: endpoints, request bodies, states.
//!
//! GitLab knows commit statuses, not check runs, and a status cannot be
//! changed once it is posted.

use crate::adapters::{
    description_of, state_of, CheckRun, CheckStatus, CommitState, NewIssue, PrId, RepoId,
};
use crate::error::Error;
use crate::text::{
    concat2, concat3, copy_option, joined, opt_text, push_joined, replaced, same_text, str_replace,
    texts, trim_trailing, without_trailing,
};
use vstd::prelude::*;
use vstd::string::StringExecFns;
use vstd::utf8::encode_utf8;

verus! {

/// The base address of GitLab's API where none is configured.
pub const GITLAB_API_URL: &'static str = "https://gitlab.com/api/v4";

/// The body of a request that posts a commit status.
#[derive(Debug)]
pub struct CreateCommitStatus {
    pub state: &'static str,
    pub name: String,
    pub description: Option<String>,
    pub target_url: Option<String>,
}

/// The body of a request that posts a note.
#[derive(Debug)]
pub struct CreateNote {
    pub body: String,
}

/// The body of a request that opens an issue.
#[derive(Debug)]
pub struct CreateIssue {
    pub title: String,
    pub description: String,
    pub labels: String,
}

/// Bytes that pass through percent-encoding unchanged: letters, digits and
/// `-`, `.`, `_`, `~`.
pub open spec fn unreserved(b: u8) -> bool {
    (0x30 <= b <= 0x39) || (0x41 <= b <= 0x5a) || (0x61 <= b <= 0x7a) || b == 0x2d || b == 0x2e
        || b == 0x5f || b == 0x7e
}

/// The upper-case hexadecimal digit for `d`, for `d` below sixteen.
pub open spec fn hex_upper(d: int) -> char {
    if d < 10 {
        ((0x30 + d) as u8) as char
    } else {
        ((0x41 + d - 10) as u8) as char
    }
}

/// The percent-encoding of a sequence of bytes: unreserved bytes stand for
/// themselves, every other byte becomes `%` and two hexadecimal digits.
pub open spec fn percent_encoded(bytes: Seq<u8>) -> Seq<char>
    decreases bytes.len(),
{
    if bytes.len() == 0 {
        Seq::empty()
    } else {
        let b = bytes[0];
        let head = if unreserved(b) {
            seq![b as char]
        } else {
            seq!['%', hex_upper(b as int / 16), hex_upper(b as int % 16)]
        };
        head + percent_encoded(bytes.drop_first())
    }
}

/// What `str::parse::<i64>` of the standard library reads from a text.
pub uninterp spec fn parsed_i64(s: Seq<char>) -> Option<i64>;

/// `urlencoding::encode`: the percent-encoding of the UTF-8 bytes of the
/// text, with upper-case hexadecimal digits.
#[verifier::external_body]
pub(crate) fn url_encode(s: &str) -> (r: String)
    ensures
        r@ == percent_encoded(encode_utf8(s@)),
{
    urlencoding::encode(s).into_owned()
}

/// `str::parse::<i64>` of the standard library, with the error dropped. Its
/// result depends on the text alone; the contract gives it the name
/// `parsed_i64`.
#[verifier::external_body]
pub(crate) fn parse_i64(s: &str) -> (r: Option<i64>)
    ensures
        r == parsed_i64(s@),
{
    s.parse::<i64>().ok()
}

/// The name of a state in GitLab's vocabulary.
pub open spec fn state_name(s: CommitState) -> Seq<char> {
    match s {
        CommitState::Pending => "pending"@,
        CommitState::Running => "running"@,
        CommitState::Success => "success"@,
        CommitState::Failed => "failed"@,
        CommitState::Cancelled => "canceled"@,
    }
}

/// The state that a name of GitLab's vocabulary stands for.
pub open spec fn state_named(name: Seq<char>) -> Option<CommitState> {
    if name == "pending"@ {
        Some(CommitState::Pending)
    } else if name == "running"@ {
        Some(CommitState::Running)
    } else if name == "success"@ {
        Some(CommitState::Success)
    } else if name == "failed"@ {
        Some(CommitState::Failed)
    } else if name == "canceled"@ {
        Some(CommitState::Cancelled)
    } else {
        None
    }
}

/// The path of a project in the API: owner and name, joined by a slash and
/// percent-encoded.
pub open spec fn project_path(repo: RepoId) -> Seq<char> {
    percent_encoded(encode_utf8(repo.owner@ + "/"@ + repo.name@))
}

/// The name of a state in GitLab's vocabulary.
pub fn gitlab_state(state: CommitState) -> (r: &'static str)
    ensures
        r@ == state_name(state),
{
    match state {
        CommitState::Pending => "pending",
        CommitState::Running => "running",
        CommitState::Success => "success",
        CommitState::Failed => "failed",
        CommitState::Cancelled => "canceled",
    }
}

/// The state that a name of GitLab's vocabulary stands for.
pub fn gitlab_state_from(name: &str) -> (r: Option<CommitState>)
    ensures
        r == state_named(name@),
{
    if same_text(name, "pending") {
        Some(CommitState::Pending)
    } else if same_text(name, "running") {
        Some(CommitState::Running)
    } else if same_text(name, "success") {
        Some(CommitState::Success)
    } else if same_text(name, "failed") {
        Some(CommitState::Failed)
    } else if same_text(name, "canceled") {
        Some(CommitState::Cancelled)
    } else {
        None
    }
}

/// The base address without slashes at its end.
pub fn normalize_base_url(base_url: &str) -> (r: String)
    ensures
        r@ == without_trailing(base_url@, '/'),
{
    trim_trailing(base_url, '/')
}

/// The path of a project in the API.
pub fn encode_project(repo: &RepoId) -> (r: String)
    ensures
        r@ == project_path(*repo),
{
    let full = concat3(repo.owner.as_str(), "/", repo.name.as_str());
    url_encode(full.as_str())
}

/// The endpoint of a project.
pub fn project_endpoint(repo: &RepoId) -> (r: String)
    ensures
        r@ == "/projects/"@ + project_path(*repo),
{
    concat2("/projects/", encode_project(repo).as_str())
}

/// The endpoint that takes the statuses of a commit.
pub fn status_endpoint(repo: &RepoId, head_sha: &str) -> (r: String)
    ensures
        r@ == "/projects/"@ + project_path(*repo) + "/statuses/"@ + head_sha@,
{
    let mut r = project_endpoint(repo);
    r.append("/statuses/");
    r.append(head_sha);
    r
}

/// The endpoint that takes the notes of a merge request.
pub fn notes_endpoint(repo: &RepoId, mr_iid: &str) -> (r: String)
    ensures
        r@ == "/projects/"@ + project_path(*repo) + "/merge_requests/"@ + mr_iid@ + "/notes"@,
{
    let mut r = project_endpoint(repo);
    r.append("/merge_requests/");
    r.append(mr_iid);
    r.append("/notes");
    r
}

/// The endpoint that takes new issues.
pub fn issues_endpoint(repo: &RepoId) -> (r: String)
    ensures
        r@ == "/projects/"@ + project_path(*repo) + "/issues"@,
{
    let mut r = project_endpoint(repo);
    r.append("/issues");
    r
}

/// The commit status that reports a check run.
pub fn commit_status(check: &CheckRun) -> (r: CreateCommitStatus)
    ensures
        r.state@ == state_name(state_of(check.status)),
        r.name@ == check.name@,
        opt_text(r.description) == Some(description_of(check.status)),
        opt_text(r.target_url) == opt_text(check.details_url),
{
    CreateCommitStatus {
        state: gitlab_state(check.status.commit_state()),
        name: check.name.clone(),
        description: Some(check.status.description()),
        target_url: copy_option(&check.details_url),
    }
}

/// The note that carries a comment.
pub fn note(body: &str) -> (r: CreateNote)
    ensures
        r.body@ == body@,
{
    CreateNote { body: body.to_owned() }
}

/// The request that opens an issue: the labels are joined by commas.
pub fn issue(new: NewIssue) -> (r: CreateIssue)
    ensures
        r.title@ == new.title@,
        r.description@ == new.body@,
        r.labels@ == joined(texts(new.labels@), ","@),
{
    let mut labels = String::new();
    push_joined(&mut labels, &new.labels, ",");
    assert(labels@ =~= joined(texts(new.labels@), ","@));
    CreateIssue { title: new.title, description: new.body, labels }
}

/// The number of a merge request. A reference that is no number is an
/// error.
pub fn merge_request_iid(pr: &PrId) -> (r: Result<i64, Error>)
    ensures
        match parsed_i64(pr.0@) {
            Some(n) => r == Ok::<i64, Error>(n),
            None => r is Err && r->Err_0 is GitLab && r->Err_0.text() == "Invalid MR IID"@,
        },
{
    match parse_i64(pr.0.as_str()) {
        Some(n) => Ok(n),
        None => Err(Error::GitLab("Invalid MR IID".to_owned())),
    }
}

/// The clone address with the token folded in: every `https://` becomes
/// `https://oauth2:<token>@`.
pub fn authenticated_clone_url(url: &str, token: &str) -> (r: String)
    ensures
        r@ == replaced(url@, "https://"@, "https://oauth2:"@ + token@ + "@"@),
{
    let with = concat3("https://oauth2:", token, "@");
    str_replace(url, "https://", with.as_str())
}

/// The default branch of a project: `main` where the platform names none.
pub fn default_branch(reported: Option<String>) -> (r: String)
    ensures
        r@ == match reported {
            Some(b) => b@,
            None => "main"@,
        },
{
    match reported {
        Some(b) => b,
        None => "main".to_owned(),
    }
}

/// An update of a posted status changes nothing: GitLab's statuses are
/// immutable, and the update never fails.
pub fn update_check_run(status: &CheckStatus) -> (r: Result<(), Error>)
    ensures
        r is Ok,
{
    Ok(())
}

/// Every state has a name of its own in GitLab's vocabulary, and the name
/// reads back as the state.
pub proof fn law_state_names(s: CommitState)
    ensures
        state_named(state_name(s)) == Some(s),
{
    reveal_strlit("pending");
    reveal_strlit("running");
    reveal_strlit("success");
    reveal_strlit("failed");
    reveal_strlit("canceled");
    assert("pending"@.len() == 7 && "running"@.len() == 7 && "success"@.len() == 7);
    assert("pending"@[0] == 'p' && "running"@[0] == 'r' && "success"@[0] == 's');
    assert("failed"@.len() == 6 && "canceled"@.len() == 8);
}

} // verus!
