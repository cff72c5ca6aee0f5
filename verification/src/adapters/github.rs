//! What the GitHub adapter computes: the vocabulary of check runs.
//!
//! GitHub knows check runs with a status and, once completed, a
//! conclusion. Its conclusions are the platform-neutral ones, so nothing
//! collapses.

use crate::adapters::{CheckConclusion, CheckStatus};
use crate::text::same_text;
use vstd::prelude::*;

verus! {

/// The name of a conclusion in GitHub's vocabulary.
pub open spec fn conclusion_text(c: CheckConclusion) -> Seq<char> {
    match c {
        CheckConclusion::Success => "success"@,
        CheckConclusion::Failure => "failure"@,
        CheckConclusion::Neutral => "neutral"@,
        CheckConclusion::Cancelled => "cancelled"@,
        CheckConclusion::Skipped => "skipped"@,
        CheckConclusion::TimedOut => "timed_out"@,
        CheckConclusion::ActionRequired => "action_required"@,
    }
}

/// The conclusion that a name of GitHub's vocabulary stands for.
pub open spec fn conclusion_named(name: Seq<char>) -> Option<CheckConclusion> {
    if name == "success"@ {
        Some(CheckConclusion::Success)
    } else if name == "failure"@ {
        Some(CheckConclusion::Failure)
    } else if name == "neutral"@ {
        Some(CheckConclusion::Neutral)
    } else if name == "cancelled"@ {
        Some(CheckConclusion::Cancelled)
    } else if name == "skipped"@ {
        Some(CheckConclusion::Skipped)
    } else if name == "timed_out"@ {
        Some(CheckConclusion::TimedOut)
    } else if name == "action_required"@ {
        Some(CheckConclusion::ActionRequired)
    } else {
        None
    }
}

/// The name of a conclusion in GitHub's vocabulary.
pub fn conclusion_name(c: CheckConclusion) -> (r: &'static str)
    ensures
        r@ == conclusion_text(c),
{
    match c {
        CheckConclusion::Success => "success",
        CheckConclusion::Failure => "failure",
        CheckConclusion::Neutral => "neutral",
        CheckConclusion::Cancelled => "cancelled",
        CheckConclusion::Skipped => "skipped",
        CheckConclusion::TimedOut => "timed_out",
        CheckConclusion::ActionRequired => "action_required",
    }
}

/// The conclusion that a name of GitHub's vocabulary stands for.
pub fn conclusion_from(name: &str) -> (r: Option<CheckConclusion>)
    ensures
        r == conclusion_named(name@),
{
    if same_text(name, "success") {
        Some(CheckConclusion::Success)
    } else if same_text(name, "failure") {
        Some(CheckConclusion::Failure)
    } else if same_text(name, "neutral") {
        Some(CheckConclusion::Neutral)
    } else if same_text(name, "cancelled") {
        Some(CheckConclusion::Cancelled)
    } else if same_text(name, "skipped") {
        Some(CheckConclusion::Skipped)
    } else if same_text(name, "timed_out") {
        Some(CheckConclusion::TimedOut)
    } else if same_text(name, "action_required") {
        Some(CheckConclusion::ActionRequired)
    } else {
        None
    }
}

/// The status of a check run in GitHub's vocabulary.
pub fn status_name(status: &CheckStatus) -> (r: &'static str)
    ensures
        r@ == match *status {
            CheckStatus::Queued => "queued"@,
            CheckStatus::InProgress => "in_progress"@,
            CheckStatus::Completed { .. } => "completed"@,
        },
{
    match status {
        CheckStatus::Queued => "queued",
        CheckStatus::InProgress => "in_progress",
        CheckStatus::Completed { .. } => "completed",
    }
}

/// On GitHub every conclusion has a name of its own, and the name reads
/// back as the conclusion: the round trip is the identity.
pub proof fn law_conclusion_names(c: CheckConclusion)
    ensures
        conclusion_named(conclusion_text(c)) == Some(c),
{
    reveal_strlit("success");
    reveal_strlit("failure");
    reveal_strlit("neutral");
    reveal_strlit("cancelled");
    reveal_strlit("skipped");
    reveal_strlit("timed_out");
    reveal_strlit("action_required");
    assert("success"@.len() == 7 && "failure"@.len() == 7 && "neutral"@.len() == 7 && "skipped"@.len()
        == 7);
    assert("success"@[0] == 's' && "failure"@[0] == 'f' && "neutral"@[0] == 'n' && "skipped"@[0]
        == 's');
    assert("success"@[1] == 'u' && "skipped"@[1] == 'k');
    assert("cancelled"@.len() == 9 && "timed_out"@.len() == 9);
    assert("cancelled"@[0] == 'c' && "timed_out"@[0] == 't');
    assert("action_required"@.len() == 15);
}

} // verus!
