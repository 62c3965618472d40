use forge::errors::{ErrorContext, ParsedError};
use forge::steps::{step_matches, step_matches_lowered, StepState, StepStatus, StepTracker};

fn step(name: &str) -> StepStatus {
    StepStatus { name: name.to_string(), status: StepState::Pending }
}

fn tracker(names: &[&str]) -> StepTracker {
    StepTracker::new(&names.iter().map(|n| n.to_string()).collect())
}

fn error(summary: &str) -> ParsedError {
    ParsedError::from_stderr("", ErrorContext { operation: summary.to_string() })
}

fn statuses(t: &StepTracker) -> Vec<StepState> {
    t.steps().iter().map(|s| s.status).collect()
}

#[test]
fn matches_by_first_word_and_case() {
    assert!(step_matches(&step("Rebuilding System"), "Rebuild"));
    assert!(step_matches(&step("Rebuilding System"), "rebuild"));
    assert!(!step_matches(&step("Flake Update"), "packages"));
}

#[test]
fn matches_when_reported_name_contains_first_word() {
    assert!(step_matches(&step("Pull config"), "git pull step"));
    assert!(step_matches(&step("Packages"), "PACKAGES"));
    assert!(!step_matches(&step("   "), "x"));
}

#[test]
fn lowered_rule_is_case_sensitive() {
    assert!(step_matches_lowered("rebuilding system", "rebuild"));
    assert!(!step_matches_lowered("rebuilding system", "Rebuild"));
    assert!(step_matches_lowered("flake update", "flake"));
}

#[test]
fn new_tracker_runs_first_step() {
    let t = tracker(&["Pull", "Flake", "Rebuild"]);
    assert_eq!(statuses(&t), vec![StepState::Running, StepState::Pending, StepState::Pending]);
    assert_eq!(t.current(), 0);
    assert_eq!(t.error(), None);
}

#[test]
fn three_completions_finish_all_steps() {
    let mut t = tracker(&["Pull", "Flake", "Rebuild"]);
    t.mark_step_complete("pull");
    assert_eq!(statuses(&t), vec![StepState::Complete, StepState::Running, StepState::Pending]);
    t.mark_step_complete("flake");
    t.mark_step_complete("Rebuild");
    assert_eq!(statuses(&t), vec![StepState::Complete, StepState::Complete, StepState::Complete]);
    assert_eq!(t.current(), 3);
    assert!(!statuses(&t).contains(&StepState::Running));
    t.mark_step_complete("nothing");
    assert_eq!(t.current(), 3);
}

#[test]
fn failure_does_not_advance() {
    let mut t = tracker(&["Pull", "Flake", "Rebuild"]);
    t.mark_step_complete("pull");
    t.mark_step_failed("flake", error("Flake update"));
    assert_eq!(statuses(&t), vec![StepState::Complete, StepState::Failed, StepState::Pending]);
    assert_eq!(t.current(), 1);
    assert_eq!(t.error(), Some("Flake update failed".to_string()));
}

#[test]
fn failed_step_stays_failed() {
    let mut t = tracker(&["Pull", "Flake"]);
    t.mark_step_failed("pull", error("Git pull"));
    t.mark_step_complete("pull");
    assert_eq!(statuses(&t), vec![StepState::Failed, StepState::Running]);
}

#[test]
fn skip_advances_like_completion() {
    let mut t = tracker(&["Pull", "Flake"]);
    t.mark_step_skipped("pull");
    assert_eq!(statuses(&t), vec![StepState::Skipped, StepState::Running]);
    assert_eq!(t.current(), 1);
}

#[test]
fn first_match_wins() {
    let mut t = tracker(&["Update flake", "Update tools", "Done"]);
    t.mark_step_complete("update");
    assert_eq!(statuses(&t), vec![StepState::Complete, StepState::Running, StepState::Pending]);
}

#[test]
fn unknown_name_still_moves_cursor() {
    let mut t = tracker(&["Pull", "Flake"]);
    t.mark_step_complete("zzz");
    assert_eq!(statuses(&t), vec![StepState::Running, StepState::Running]);
    assert_eq!(t.current(), 1);
}

#[test]
fn parsed_error_from_stderr() {
    let e = ParsedError::from_stderr("  fatal: not a git repository \n", ErrorContext { operation: "Git pull".to_string() });
    assert_eq!(e.summary, "Git pull failed");
    assert_eq!(e.detail, Some("fatal: not a git repository".to_string()));
    assert_eq!(e.suggestion, "See the output above for details");
    let e = ParsedError::from_stderr(" \n", ErrorContext { operation: "Update".to_string() });
    assert_eq!(e.detail, None);
}
