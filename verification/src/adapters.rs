//! What all platform adapters share: repositories, check runs, and the
//! mapping from platform-neutral outcomes onto the states that commit
//! statuses know.

pub mod bitbucket;
pub mod github;
pub mod gitlab;

use crate::text::{concat3, same_text};
use vstd::prelude::*;

verus! {

/// The code-hosting platforms.
#[derive(Debug, Clone, Copy, PartialEq, Eq, Hash, Structural)]
pub enum Platform {
    GitHub,
    GitLab,
    Bitbucket,
    Codeberg,
}

/// The natural key of a repository.
#[derive(Debug)]
pub struct RepoId {
    pub platform: Platform,
    pub owner: String,
    pub name: String,
}

/// Identifier of a check run, as the platform gave it.
#[derive(Debug)]
pub struct CheckRunId(pub String);

/// Identifier of a comment, as the platform gave it.
#[derive(Debug)]
pub struct CommentId(pub String);

/// Identifier of an issue, as the platform gave it.
#[derive(Debug)]
pub struct IssueId(pub String);

/// Identifier of a pull or merge request.
#[derive(Debug)]
pub struct PrId(pub String);

/// An issue to be opened.
#[derive(Debug)]
pub struct NewIssue {
    pub title: String,
    pub body: String,
    pub labels: Vec<String>,
}

/// How a completed check ended.
#[derive(Debug, Clone, Copy, PartialEq, Eq, Structural)]
pub enum CheckConclusion {
    Success,
    Failure,
    Neutral,
    Cancelled,
    Skipped,
    TimedOut,
    ActionRequired,
}

/// Where a check stands.
#[derive(Debug)]
pub enum CheckStatus {
    Queued,
    InProgress,
    Completed { conclusion: CheckConclusion, summary: String },
}

/// The report that is attached to a commit.
#[derive(Debug)]
pub struct CheckRun {
    pub name: String,
    pub head_sha: String,
    pub status: CheckStatus,
    pub details_url: Option<String>,
}

/// The states of a commit status, on platforms that know no finer ones.
#[derive(Debug, Clone, Copy, PartialEq, Eq, Structural)]
pub enum CommitState {
    Pending,
    Running,
    Success,
    Failed,
    Cancelled,
}

/// What the adapter asks of `git` next while it fetches a commit.
#[derive(Debug, Clone, Copy, PartialEq, Eq, Structural)]
pub enum CloneAction {
    /// Shallow clone of the branch or tag that the commit names.
    CloneBranch,
    /// Shallow clone of the default branch.
    CloneDefault,
    /// Shallow fetch of the commit from `origin`.
    Fetch,
    /// Check the commit out.
    Checkout,
    /// The working copy is ready.
    Done,
    /// The clone failed.
    Fail,
}

/// The state that a conclusion collapses to: neutral and skipped count as
/// success, timed out and action required as failure.
pub open spec fn collapse(c: CheckConclusion) -> CommitState {
    match c {
        CheckConclusion::Success | CheckConclusion::Neutral | CheckConclusion::Skipped =>
            CommitState::Success,
        CheckConclusion::Failure | CheckConclusion::TimedOut | CheckConclusion::ActionRequired =>
            CommitState::Failed,
        CheckConclusion::Cancelled => CommitState::Cancelled,
    }
}

/// The conclusion that stands for its class.
pub open spec fn canonical(c: CheckConclusion) -> CheckConclusion {
    match c {
        CheckConclusion::Success | CheckConclusion::Neutral | CheckConclusion::Skipped =>
            CheckConclusion::Success,
        CheckConclusion::Failure | CheckConclusion::TimedOut | CheckConclusion::ActionRequired =>
            CheckConclusion::Failure,
        CheckConclusion::Cancelled => CheckConclusion::Cancelled,
    }
}

/// The conclusion that a final state reads back as; `None` for a state that
/// is not final.
pub open spec fn conclusion_of(s: CommitState) -> Option<CheckConclusion> {
    match s {
        CommitState::Success => Some(CheckConclusion::Success),
        CommitState::Failed => Some(CheckConclusion::Failure),
        CommitState::Cancelled => Some(CheckConclusion::Cancelled),
        CommitState::Pending | CommitState::Running => None,
    }
}

/// The state that a check status maps to.
pub open spec fn state_of(status: CheckStatus) -> CommitState {
    match status {
        CheckStatus::Queued => CommitState::Pending,
        CheckStatus::InProgress => CommitState::Running,
        CheckStatus::Completed { conclusion, .. } => collapse(conclusion),
    }
}

/// The line that describes a check status: a fixed text while the check is
/// under way, the summary once it is complete.
pub open spec fn description_of(status: CheckStatus) -> Seq<char> {
    match status {
        CheckStatus::Queued => "Proof verification queued"@,
        CheckStatus::InProgress => "Proof verification in progress"@,
        CheckStatus::Completed { summary, .. } => summary@,
    }
}

/// The next step of a clone. `last` is the action that was just performed,
/// `None` at the start, and `ok` tells whether it succeeded. `HEAD` is
/// fetched by a clone of the default branch. Any other commit is tried as
/// a branch first; if that fails the default branch is cloned, the commit
/// fetched and checked out. The clone is done only when the working copy
/// stands at the commit asked for: a clone of the default branch, a fetch
/// or a checkout that fails makes the whole clone fail.
pub open spec fn clone_step(head: bool, last: Option<CloneAction>, ok: bool) -> CloneAction {
    match last {
        None => if head {
            CloneAction::CloneDefault
        } else {
            CloneAction::CloneBranch
        },
        Some(CloneAction::CloneBranch) => if ok {
            CloneAction::Done
        } else {
            CloneAction::CloneDefault
        },
        Some(CloneAction::CloneDefault) => if !ok {
            CloneAction::Fail
        } else if head {
            CloneAction::Done
        } else {
            CloneAction::Fetch
        },
        Some(CloneAction::Fetch) => if ok {
            CloneAction::Checkout
        } else {
            CloneAction::Fail
        },
        Some(CloneAction::Checkout) => if ok {
            CloneAction::Done
        } else {
            CloneAction::Fail
        },
        Some(CloneAction::Done) => CloneAction::Done,
        Some(CloneAction::Fail) => CloneAction::Fail,
    }
}

impl RepoId {
    /// The key of the repository `owner/name` on `platform`.
    pub fn new(platform: Platform, owner: &str, name: &str) -> (r: RepoId)
        ensures
            r.platform == platform,
            r.owner@ == owner@,
            r.name@ == name@,
    {
        RepoId { platform, owner: owner.to_owned(), name: name.to_owned() }
    }

    /// Owner and name, joined by a slash.
    pub fn full_name(&self) -> (r: String)
        ensures
            r@ == self.owner@ + "/"@ + self.name@,
    {
        concat3(self.owner.as_str(), "/", self.name.as_str())
    }

}

impl CheckConclusion {
    /// The state that the conclusion collapses to.
    pub fn commit_state(&self) -> (r: CommitState)
        ensures
            r == collapse(*self),
    {
        match self {
            CheckConclusion::Success | CheckConclusion::Neutral | CheckConclusion::Skipped =>
                CommitState::Success,
            CheckConclusion::Failure
            | CheckConclusion::TimedOut
            | CheckConclusion::ActionRequired => CommitState::Failed,
            CheckConclusion::Cancelled => CommitState::Cancelled,
        }
    }
}

impl CommitState {
    /// The conclusion that the state reads back as, if it is final.
    pub fn conclusion(&self) -> (r: Option<CheckConclusion>)
        ensures
            r == conclusion_of(*self),
    {
        match self {
            CommitState::Success => Some(CheckConclusion::Success),
            CommitState::Failed => Some(CheckConclusion::Failure),
            CommitState::Cancelled => Some(CheckConclusion::Cancelled),
            CommitState::Pending | CommitState::Running => None,
        }
    }
}

impl CheckStatus {
    /// The state that the status maps to.
    pub fn commit_state(&self) -> (r: CommitState)
        ensures
            r == state_of(*self),
    {
        match self {
            CheckStatus::Queued => CommitState::Pending,
            CheckStatus::InProgress => CommitState::Running,
            CheckStatus::Completed { conclusion, .. } => conclusion.commit_state(),
        }
    }

    /// The line that describes the status.
    pub fn description(&self) -> (r: String)
        ensures
            r@ == description_of(*self),
    {
        match self {
            CheckStatus::Queued => "Proof verification queued".to_owned(),
            CheckStatus::InProgress => "Proof verification in progress".to_owned(),
            CheckStatus::Completed { summary, .. } => summary.clone(),
        }
    }
}

/// Whether a commit reference asks for the tip of the default branch.
pub fn is_head(commit: &str) -> (r: bool)
    ensures
        r == (commit@ == "HEAD"@),
{
    same_text(commit, "HEAD")
}

/// The next step of a clone, after `last` ended with `ok`.
pub fn next_clone_action(head: bool, last: Option<CloneAction>, ok: bool) -> (r: CloneAction)
    ensures
        r == clone_step(head, last, ok),
{
    match last {
        None => if head {
            CloneAction::CloneDefault
        } else {
            CloneAction::CloneBranch
        },
        Some(CloneAction::CloneBranch) => if ok {
            CloneAction::Done
        } else {
            CloneAction::CloneDefault
        },
        Some(CloneAction::CloneDefault) => if !ok {
            CloneAction::Fail
        } else if head {
            CloneAction::Done
        } else {
            CloneAction::Fetch
        },
        Some(CloneAction::Fetch) => if ok {
            CloneAction::Checkout
        } else {
            CloneAction::Fail
        },
        Some(CloneAction::Checkout) => if ok {
            CloneAction::Done
        } else {
            CloneAction::Fail
        },
        Some(CloneAction::Done) => CloneAction::Done,
        Some(CloneAction::Fail) => CloneAction::Fail,
    }
}

/// A clone is done only when the step that leaves the working copy at the
/// commit asked for has succeeded: the clone of the branch, the clone of
/// the default branch where `HEAD` was asked for, or the checkout. A step
/// that fails never ends in a finished clone.
pub proof fn law_clone_done_only_at_commit(head: bool, last: Option<CloneAction>, ok: bool)
    requires
        clone_step(head, last, ok) == CloneAction::Done,
        last != Some(CloneAction::Done),
    ensures
        ok,
        last == Some(CloneAction::CloneBranch) || last == Some(CloneAction::Checkout) || (head
            && last == Some(CloneAction::CloneDefault)),
{
}

/// The status mapping is total and collapses each conclusion onto the
/// representative of its class: mapped to a state and read back, success,
/// neutral and skipped give success; failure, timed out and action required
/// give failure; cancelled stays cancelled. Mapping the representative
/// again gives the same state.
pub proof fn law_status_round_trip(c: CheckConclusion)
    ensures
        conclusion_of(collapse(c)) == Some(canonical(c)),
        collapse(canonical(c)) == collapse(c),
        canonical(canonical(c)) == canonical(c),
{
}

} // verus!
