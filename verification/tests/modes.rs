use echidnabot::modes::{BotMode, CheckSeverity, CheckStatus, CommentStyle};

#[test]
fn test_verifier_mode_minimal() {
    let mode = BotMode::Verifier;
    assert!(!mode.show_detailed_failures());
    assert!(!mode.suggest_tactics());
    assert!(!mode.blocks_merges());
    assert_eq!(mode.comment_style(), CommentStyle::Minimal);
}

#[test]
fn test_advisor_mode_suggestions() {
    let mode = BotMode::Advisor;
    assert!(mode.show_detailed_failures());
    assert!(mode.suggest_tactics());
    assert!(!mode.blocks_merges());
    assert_eq!(mode.comment_style(), CommentStyle::Detailed);
}

#[test]
fn test_consultant_mode_interactive() {
    let mode = BotMode::Consultant;
    assert!(mode.show_detailed_failures());
    assert!(mode.suggest_tactics());
    assert!(!mode.blocks_merges());
    assert!(mode.supports_interactive());
    assert_eq!(mode.comment_style(), CommentStyle::Interactive);
}

#[test]
fn test_regulator_mode_blocking() {
    let mode = BotMode::Regulator;
    assert!(mode.show_detailed_failures());
    assert!(!mode.suggest_tactics());
    assert!(mode.blocks_merges());
    assert_eq!(mode.comment_style(), CommentStyle::Enforcement);
    assert_eq!(mode.check_run_severity(), CheckSeverity::Error);
}

#[test]
fn test_format_result_success() {
    let mode = BotMode::Advisor;
    let result = mode.format_result(true, "Coq", "Proof complete", vec!["tactic1".to_string()]);
    assert_eq!(result.check_status, CheckStatus::Success);
    assert!(!result.should_block);
}

#[test]
fn test_format_result_failure_with_suggestions() {
    let mode = BotMode::Advisor;
    let suggestions = vec![
        "Try induction xs".to_string(),
        "Consider rewrite app_assoc".to_string(),
    ];
    let result = mode.format_result(false, "Coq", "Goal not discharged", suggestions.clone());
    assert_eq!(result.check_status, CheckStatus::Failure);
    assert_eq!(result.suggestions, suggestions);
    assert!(!result.should_block);
}

#[test]
fn test_regulator_blocks_on_failure() {
    let mode = BotMode::Regulator;
    let result = mode.format_result(false, "Lean", "Proof failed", vec![]);
    assert_eq!(result.check_status, CheckStatus::Failure);
    assert!(result.should_block);
    assert!(result.summary.contains("BLOCKED"));
}

#[test]
fn test_verifier_minimal_output() {
    let mode = BotMode::Verifier;
    let result = mode.format_result(false, "Agda", "Type error at line 42", vec![]);
    assert_eq!(result.check_status, CheckStatus::Failure);
    assert!(result.details.is_none());
    assert!(result.suggestions.is_empty());
    assert!(!result.should_block);
}

#[test]
fn summaries_are_exact() {
    let cases = [
        (BotMode::Verifier, true, "✅ Proof verified (Coq)"),
        (BotMode::Verifier, false, "❌ Proof failed (Coq)"),
        (BotMode::Advisor, true, "✅ Proof verified with Coq"),
        (BotMode::Advisor, false, "❌ Proof failed with Coq — Suggestions available"),
        (BotMode::Consultant, true, "✅ Verified: Coq completed successfully"),
        (BotMode::Consultant, false, "❌ Failed: Coq — Ask me for details"),
        (BotMode::Regulator, true, "✅ PASSED: Coq verification"),
        (BotMode::Regulator, false, "🚫 BLOCKED: Coq verification failed — Merge blocked"),
    ];
    for (mode, success, expected) in cases {
        let r = mode.format_result(success, "Coq", "out", vec![]);
        assert_eq!(r.summary, expected);
    }
}

#[test]
fn details_only_on_failure_outside_verifier() {
    let r = BotMode::Regulator.format_result(false, "Lean", "boom", vec!["t".to_string()]);
    assert_eq!(r.details, Some("boom".to_string()));
    assert!(r.suggestions.is_empty());
    let r = BotMode::Regulator.format_result(true, "Lean", "fine", vec![]);
    assert!(r.details.is_none());
    assert!(!r.should_block);
    let r = BotMode::Consultant.format_result(false, "Lean", "boom", vec!["t".to_string()]);
    assert_eq!(r.suggestions, vec!["t".to_string()]);
}

#[test]
fn severities_and_names() {
    assert_eq!(BotMode::Verifier.check_run_severity(), CheckSeverity::Notice);
    assert_eq!(BotMode::Advisor.check_run_severity(), CheckSeverity::Warning);
    assert_eq!(BotMode::Consultant.check_run_severity(), CheckSeverity::Warning);
    assert_eq!(BotMode::default(), BotMode::Verifier);
    assert_eq!(BotMode::Regulator.name(), "Regulator");
    assert!(!BotMode::Advisor.supports_interactive());
}
