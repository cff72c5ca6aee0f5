//! What the Bitbucket adapter computes: endpoints, request bodies, states.
//!
//! Bitbucket knows build statuses, keyed per check name; posting a status
//! under a key that exists replaces it.

use crate::adapters::gitlab::{parse_i64, parsed_i64};
use crate::adapters::{
    description_of, state_of, CheckRun, CheckStatus, CommitState, NewIssue, PrId, RepoId,
};
use crate::error::Error;
use crate::text::{
    concat2, concat3, copy_option, lowercase, opt_text, replaced, same_text, str_replace,
    trim_trailing, without_trailing,
};
use vstd::prelude::*;
use vstd::string::StringExecFns;

verus! {

/// The base address of Bitbucket's API where none is configured.
pub const BITBUCKET_API_URL: &'static str = "https://api.bitbucket.org/2.0";

/// The body of a request that posts a build status.
#[derive(Debug)]
pub struct CreateBuildStatus {
    pub state: &'static str,
    pub key: String,
    pub name: String,
    pub description: Option<String>,
    pub url: Option<String>,
}

/// The body of a request that posts a comment.
#[derive(Debug)]
pub struct CreateComment {
    pub raw: String,
}

/// The body of a request that opens an issue.
#[derive(Debug)]
pub struct CreateIssue {
    pub title: String,
    pub raw: String,
    pub kind: &'static str,
    pub priority: &'static str,
}

/// One of the addresses under which a repository can be cloned.
#[derive(Debug)]
pub struct CloneLink {
    pub name: String,
    pub href: String,
}

/// The name of a state in Bitbucket's vocabulary. A check that waits and a
/// check that runs are both in progress.
pub open spec fn state_name(s: CommitState) -> Seq<char> {
    match s {
        CommitState::Pending => "INPROGRESS"@,
        CommitState::Running => "INPROGRESS"@,
        CommitState::Success => "SUCCESSFUL"@,
        CommitState::Failed => "FAILED"@,
        CommitState::Cancelled => "STOPPED"@,
    }
}

/// The state that a name of Bitbucket's vocabulary stands for.
pub open spec fn state_named(name: Seq<char>) -> Option<CommitState> {
    if name == "INPROGRESS"@ {
        Some(CommitState::Running)
    } else if name == "SUCCESSFUL"@ {
        Some(CommitState::Success)
    } else if name == "FAILED"@ {
        Some(CommitState::Failed)
    } else if name == "STOPPED"@ {
        Some(CommitState::Cancelled)
    } else {
        None
    }
}

/// The key under which the statuses of a check are filed: the check's name
/// with hyphens for spaces, in lower case, behind the bot's name.
pub open spec fn status_key(check_name: Seq<char>) -> Seq<char> {
    "echidnabot-"@ + lowercase(replaced(check_name, " "@, "-"@))
}

/// The endpoint of a repository.
pub open spec fn repo_path(repo: RepoId) -> Seq<char> {
    "/repositories/"@ + repo.owner@ + "/"@ + repo.name@
}

/// The first link named `https`, if there is one.
pub open spec fn https_link(links: Seq<CloneLink>) -> Option<Seq<char>>
    decreases links.len(),
{
    if links.len() == 0 {
        None
    } else if links[0].name@ == "https"@ {
        Some(links[0].href@)
    } else {
        https_link(links.drop_first())
    }
}

/// The name of a state in Bitbucket's vocabulary.
pub fn bitbucket_state(state: CommitState) -> (r: &'static str)
    ensures
        r@ == state_name(state),
{
    match state {
        CommitState::Pending => "INPROGRESS",
        CommitState::Running => "INPROGRESS",
        CommitState::Success => "SUCCESSFUL",
        CommitState::Failed => "FAILED",
        CommitState::Cancelled => "STOPPED",
    }
}

/// The state that a name of Bitbucket's vocabulary stands for.
pub fn bitbucket_state_from(name: &str) -> (r: Option<CommitState>)
    ensures
        r == state_named(name@),
{
    if same_text(name, "INPROGRESS") {
        Some(CommitState::Running)
    } else if same_text(name, "SUCCESSFUL") {
        Some(CommitState::Success)
    } else if same_text(name, "FAILED") {
        Some(CommitState::Failed)
    } else if same_text(name, "STOPPED") {
        Some(CommitState::Cancelled)
    } else {
        None
    }
}

/// The base address without slashes at its end.
pub fn normalize_base_url(base_url: &str) -> (r: String)
    ensures
        r@ == without_trailing(base_url@, '/'),
{
    trim_trailing(base_url, '/')
}

/// The key under which the statuses of a check are filed.
pub fn build_status_key(check_name: &str) -> (r: String)
    ensures
        r@ == status_key(check_name@),
{
    let hyphenated = str_replace(check_name, " ", "-");
    let lower = hyphenated.as_str().to_lowercase();
    concat2("echidnabot-", lower.as_str())
}

/// The endpoint of a repository.
pub fn repo_endpoint(repo: &RepoId) -> (r: String)
    ensures
        r@ == repo_path(*repo),
{
    let mut r = concat3("/repositories/", repo.owner.as_str(), "/");
    r.append(repo.name.as_str());
    r
}

/// The endpoint that takes the build statuses of a commit.
pub fn status_endpoint(repo: &RepoId, head_sha: &str) -> (r: String)
    ensures
        r@ == repo_path(*repo) + "/commit/"@ + head_sha@ + "/statuses/build"@,
{
    let mut r = repo_endpoint(repo);
    r.append("/commit/");
    r.append(head_sha);
    r.append("/statuses/build");
    r
}

/// The endpoint that takes the comments of a pull request.
pub fn comments_endpoint(repo: &RepoId, pr_id: &str) -> (r: String)
    ensures
        r@ == repo_path(*repo) + "/pullrequests/"@ + pr_id@ + "/comments"@,
{
    let mut r = repo_endpoint(repo);
    r.append("/pullrequests/");
    r.append(pr_id);
    r.append("/comments");
    r
}

/// The endpoint that takes new issues.
pub fn issues_endpoint(repo: &RepoId) -> (r: String)
    ensures
        r@ == repo_path(*repo) + "/issues"@,
{
    let mut r = repo_endpoint(repo);
    r.append("/issues");
    r
}

/// The build status that reports a check run.
pub fn build_status(check: &CheckRun) -> (r: CreateBuildStatus)
    ensures
        r.state@ == state_name(state_of(check.status)),
        r.key@ == status_key(check.name@),
        r.name@ == check.name@,
        opt_text(r.description) == Some(description_of(check.status)),
        opt_text(r.url) == opt_text(check.details_url),
{
    CreateBuildStatus {
        state: bitbucket_state(check.status.commit_state()),
        key: build_status_key(check.name.as_str()),
        name: check.name.clone(),
        description: Some(check.status.description()),
        url: copy_option(&check.details_url),
    }
}

/// The request that posts a comment.
pub fn comment(body: &str) -> (r: CreateComment)
    ensures
        r.raw@ == body@,
{
    CreateComment { raw: body.to_owned() }
}

/// The request that opens an issue: a bug of major priority. Labels are
/// not carried over.
pub fn issue(new: NewIssue) -> (r: CreateIssue)
    ensures
        r.title@ == new.title@,
        r.raw@ == new.body@,
        r.kind@ == "bug"@,
        r.priority@ == "major"@,
{
    CreateIssue { title: new.title, raw: new.body, kind: "bug", priority: "major" }
}

/// The number of a pull request. A reference that is no number is an
/// error.
pub fn pull_request_id(pr: &PrId) -> (r: Result<i64, Error>)
    ensures
        match parsed_i64(pr.0@) {
            Some(n) => r == Ok::<i64, Error>(n),
            None => r is Err && r->Err_0 is Bitbucket && r->Err_0.text() == "Invalid PR ID"@,
        },
{
    match parse_i64(pr.0.as_str()) {
        Some(n) => Ok(n),
        None => Err(Error::Bitbucket("Invalid PR ID".to_owned())),
    }
}

/// The address for a clone over HTTPS: that of the first link named
/// `https`. A repository without one is an error.
pub fn https_clone_url(links: &Vec<CloneLink>) -> (r: Result<String, Error>)
    ensures
        match https_link(links@) {
            Some(href) => r is Ok && r->Ok_0@ == href,
            None => r is Err && r->Err_0 is Bitbucket && r->Err_0.text()
                == "No HTTPS clone URL found"@,
        },
{
    let mut i: usize = 0;
    assert(links@.skip(0) =~= links@);
    while i < links.len()
        invariant
            i <= links.len(),
            https_link(links@) == https_link(links@.skip(i as int)),
        decreases links.len() - i,
    {
        proof {
            assert(links@.skip(i as int).drop_first() =~= links@.skip(i + 1));
        }
        if same_text(links[i].name.as_str(), "https") {
            return Ok(links[i].href.clone());
        }
        i += 1;
    }
    Err(Error::Bitbucket("No HTTPS clone URL found".to_owned()))
}

/// The clone address with the credentials folded in: every `https://`
/// becomes `https://<username>:<password>@`.
pub fn authenticated_clone_url(url: &str, username: &str, app_password: &str) -> (r: String)
    ensures
        r@ == replaced(url@, "https://"@, "https://"@ + username@ + ":"@ + app_password@ + "@"@),
{
    let mut with = concat3("https://", username, ":");
    with.append(app_password);
    with.append("@");
    str_replace(url, "https://", with.as_str())
}

/// The default branch of a repository: `main` where the platform names
/// none.
pub fn default_branch(reported: Option<String>) -> (r: String)
    ensures
        r@ == match reported {
            Some(b) => b@,
            None => "main"@,
        },
{
    match reported {
        Some(b) => b,
        None => "main".to_owned(),
    }
}

/// An update of a posted status changes nothing and never fails: without
/// the repository and the commit nothing can be posted.
pub fn update_check_run(status: &CheckStatus) -> (r: Result<(), Error>)
    ensures
        r is Ok,
{
    Ok(())
}

/// Every final state has a name of its own in Bitbucket's vocabulary, and
/// the name reads back as the state.
pub proof fn law_state_names(s: CommitState)
    requires
        s != CommitState::Pending,
    ensures
        state_named(state_name(s)) == Some(s),
{
    reveal_strlit("INPROGRESS");
    reveal_strlit("SUCCESSFUL");
    reveal_strlit("FAILED");
    reveal_strlit("STOPPED");
    assert("INPROGRESS"@.len() == 10 && "SUCCESSFUL"@.len() == 10);
    assert("INPROGRESS"@[0] == 'I' && "SUCCESSFUL"@[0] == 'S');
    assert("FAILED"@.len() == 6 && "STOPPED"@.len() == 7);
}

} // verus!
