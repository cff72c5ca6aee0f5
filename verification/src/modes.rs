//! Bot operating modes: how outcomes are reported and enforced.
//!
//! - Verifier: pass or fail, nothing more.
//! - Advisor: details and tactic suggestions on failure.
//! - Consultant: details, suggestions and questions answered.
//! - Regulator: details, and failing proofs block the merge.

use crate::text::{concat3, opt_text, texts};
use vstd::prelude::*;

verus! {

/// Bot operating mode.
#[derive(Debug, Clone, Copy, PartialEq, Eq, Structural)]
pub enum BotMode {
    Verifier,
    Advisor,
    Consultant,
    Regulator,
}

/// How grave a failed check is shown to be.
#[derive(Debug, Clone, Copy, PartialEq, Eq, Structural)]
pub enum CheckSeverity {
    Notice,
    Warning,
    Error,
}

/// How comments are laid out.
#[derive(Debug, Clone, Copy, PartialEq, Eq, Structural)]
pub enum CommentStyle {
    /// Pass or fail only.
    Minimal,
    /// Failure analysis with suggestions.
    Detailed,
    /// Questions and answers.
    Interactive,
    /// Enforcement with merge blocking.
    Enforcement,
}

/// The status of a check run as a mode reports it.
#[derive(Debug, Clone, Copy, PartialEq, Eq, Structural)]
pub enum CheckStatus {
    Success,
    Failure,
    Neutral,
}

/// An outcome, laid out for one mode.
#[derive(Debug)]
pub struct FormattedResult {
    /// The one-line summary.
    pub summary: String,
    /// The prover's output, where the mode shows it.
    pub details: Option<String>,
    /// Tactic suggestions, where the mode offers them.
    pub suggestions: Vec<String>,
    /// Whether the merge is to be blocked.
    pub should_block: bool,
    pub check_status: CheckStatus,
}

/// What stands before the prover's name in the summary line.
pub open spec fn summary_prefix(mode: BotMode, success: bool) -> Seq<char> {
    match mode {
        BotMode::Verifier => if success {
            "✅ Proof verified ("@
        } else {
            "❌ Proof failed ("@
        },
        BotMode::Advisor => if success {
            "✅ Proof verified with "@
        } else {
            "❌ Proof failed with "@
        },
        BotMode::Consultant => if success {
            "✅ Verified: "@
        } else {
            "❌ Failed: "@
        },
        BotMode::Regulator => if success {
            "✅ PASSED: "@
        } else {
            "🚫 BLOCKED: "@
        },
    }
}

/// What stands behind the prover's name in the summary line.
pub open spec fn summary_suffix(mode: BotMode, success: bool) -> Seq<char> {
    match mode {
        BotMode::Verifier => ")"@,
        BotMode::Advisor => if success {
            ""@
        } else {
            " — Suggestions available"@
        },
        BotMode::Consultant => if success {
            " completed successfully"@
        } else {
            " — Ask me for details"@
        },
        BotMode::Regulator => if success {
            " verification"@
        } else {
            " verification failed — Merge blocked"@
        },
    }
}

/// The summary line of an outcome.
pub open spec fn summary_line(mode: BotMode, success: bool, prover: Seq<char>) -> Seq<char> {
    summary_prefix(mode, success) + prover + summary_suffix(mode, success)
}

impl BotMode {
    /// Whether failures are reported with the prover's output: in every
    /// mode but Verifier.
    pub fn show_detailed_failures(&self) -> (r: bool)
        ensures
            r == !(*self is Verifier),
    {
        match self {
            BotMode::Verifier => false,
            BotMode::Advisor | BotMode::Consultant | BotMode::Regulator => true,
        }
    }

    /// Whether failures come with tactic suggestions: for Advisor and
    /// Consultant.
    pub fn suggest_tactics(&self) -> (r: bool)
        ensures
            r == (*self is Advisor || *self is Consultant),
    {
        matches!(self, BotMode::Advisor | BotMode::Consultant)
    }

    /// Whether a failure blocks the merge: for Regulator alone.
    pub fn blocks_merges(&self) -> (r: bool)
        ensures
            r == (*self is Regulator),
    {
        matches!(self, BotMode::Regulator)
    }

    /// Whether questions are answered: for Consultant alone.
    pub fn supports_interactive(&self) -> (r: bool)
        ensures
            r == (*self is Consultant),
    {
        matches!(self, BotMode::Consultant)
    }

    /// The severity with which check runs are filed.
    pub fn check_run_severity(&self) -> (r: CheckSeverity)
        ensures
            r == match *self {
                BotMode::Verifier => CheckSeverity::Notice,
                BotMode::Advisor | BotMode::Consultant => CheckSeverity::Warning,
                BotMode::Regulator => CheckSeverity::Error,
            },
    {
        match self {
            BotMode::Verifier => CheckSeverity::Notice,
            BotMode::Advisor => CheckSeverity::Warning,
            BotMode::Consultant => CheckSeverity::Warning,
            BotMode::Regulator => CheckSeverity::Error,
        }
    }

    /// The layout of comments.
    pub fn comment_style(&self) -> (r: CommentStyle)
        ensures
            r == match *self {
                BotMode::Verifier => CommentStyle::Minimal,
                BotMode::Advisor => CommentStyle::Detailed,
                BotMode::Consultant => CommentStyle::Interactive,
                BotMode::Regulator => CommentStyle::Enforcement,
            },
    {
        match self {
            BotMode::Verifier => CommentStyle::Minimal,
            BotMode::Advisor => CommentStyle::Detailed,
            BotMode::Consultant => CommentStyle::Interactive,
            BotMode::Regulator => CommentStyle::Enforcement,
        }
    }

    /// The name of the mode.
    pub fn name(&self) -> (r: &'static str)
        ensures
            r@ == match *self {
                BotMode::Verifier => "Verifier"@,
                BotMode::Advisor => "Advisor"@,
                BotMode::Consultant => "Consultant"@,
                BotMode::Regulator => "Regulator"@,
            },
    {
        match self {
            BotMode::Verifier => "Verifier",
            BotMode::Advisor => "Advisor",
            BotMode::Consultant => "Consultant",
            BotMode::Regulator => "Regulator",
        }
    }

    /// Lays an outcome out for this mode. The summary names the prover;
    /// the output is attached to failures where the mode shows details;
    /// the suggestions are kept where the mode offers them; a failure
    /// blocks the merge where the mode enforces.
    pub fn format_result(&self, success: bool, prover: &str, output: &str, suggestions: Vec<String>)
        -> (r: FormattedResult)
        ensures
            r.summary@ == summary_line(*self, success, prover@),
            opt_text(r.details) == if !(*self is Verifier) && !success {
                Some(output@)
            } else {
                None
            },
            texts(r.suggestions@) == if *self is Advisor || *self is Consultant {
                texts(suggestions@)
            } else {
                Seq::empty()
            },
            r.should_block == (*self is Regulator && !success),
            r.check_status == if success {
                CheckStatus::Success
            } else {
                CheckStatus::Failure
            },
    {
        let summary = match self {
            BotMode::Verifier => {
                if success {
                    concat3("✅ Proof verified (", prover, ")")
                } else {
                    concat3("❌ Proof failed (", prover, ")")
                }
            },
            BotMode::Advisor => {
                if success {
                    concat3("✅ Proof verified with ", prover, "")
                } else {
                    concat3("❌ Proof failed with ", prover, " — Suggestions available")
                }
            },
            BotMode::Consultant => {
                if success {
                    concat3("✅ Verified: ", prover, " completed successfully")
                } else {
                    concat3("❌ Failed: ", prover, " — Ask me for details")
                }
            },
            BotMode::Regulator => {
                if success {
                    concat3("✅ PASSED: ", prover, " verification")
                } else {
                    concat3("🚫 BLOCKED: ", prover, " verification failed — Merge blocked")
                }
            },
        };
        let details = if self.show_detailed_failures() && !success {
            Some(output.to_owned())
        } else {
            None
        };
        let filtered: Vec<String> = if self.suggest_tactics() {
            suggestions
        } else {
            Vec::new()
        };
        proof {
            if !(*self is Advisor || *self is Consultant) {
                assert(texts(filtered@) =~= Seq::empty());
            }
        }
        FormattedResult {
            summary,
            details,
            suggestions: filtered,
            should_block: self.blocks_merges() && !success,
            check_status: if success {
                CheckStatus::Success
            } else {
                CheckStatus::Failure
            },
        }
    }
}

impl Default for BotMode {
    fn default() -> (r: Self)
        ensures
            r == BotMode::Verifier,
    {
        BotMode::Verifier
    }
}

} // verus!
