use grove_core::lifecycle::{
    enriched_failure_detail, last_exit_value, parent_handoff_summaries, parent_handoff_summary,
    recovery_capsule_outcome, run_close_plan, run_failure_detail, run_finish_event,
    session_failure_class, session_finish_event, stop_reason_detail, success_handoff,
};
use grove_core::records::{HandoffRecord, ProtocolEvent};
use grove_core::rows::parse_timestamp;
use grove_core::types::{
    BeadId, EventKind, FailureClass, GroveBeadStatus, RecoveryCapsuleOutcome, RunId, RunStatus,
    SessionStatus, StopReason, Timestamp,
};

fn ts(text: &str) -> Timestamp {
    parse_timestamp(text).expect("valid timestamp")
}

fn parent_handoff() -> HandoffRecord {
    HandoffRecord {
        bead_id: BeadId::new("grove-parent"),
        run_id: RunId::new("run-parent"),
        summary: "parent finished the schema layer".to_owned(),
        artifacts: vec!["crates/grove-db/src/lib.rs".to_owned()],
        lessons: vec!["Validate schema writes before unblock".to_owned()],
        decisions: vec!["Keep br as the dependency authority".to_owned()],
        warnings: vec!["Mirror flow still pending".to_owned()],
        completed_at: ts("2026-03-16T11:12:00Z"),
    }
}

#[test]
fn parent_handoff_summaries_include_latest_parent_context() {
    let summaries = parent_handoff_summaries(&vec![parent_handoff()]);
    assert_eq!(summaries.len(), 1);
    assert!(summaries[0].contains(
        "Parent grove-parent (run run-parent) prepared the task: parent finished the schema layer"
    ));
    assert!(summaries[0].contains("Artifacts: crates/grove-db/src/lib.rs"));
    assert!(summaries[0].contains("Decisions: Keep br as the dependency authority"));
    assert!(summaries[0].contains("Lessons: Validate schema writes before unblock"));
    assert!(summaries[0].contains("Warnings: Mirror flow still pending"));
}

#[test]
fn parent_handoff_summary_joins_lines_and_skips_empty_lists() {
    let mut handoff = parent_handoff();
    handoff.artifacts = vec!["a.rs".to_owned(), "b.rs".to_owned()];
    handoff.lessons.clear();
    handoff.decisions = vec!["one".to_owned(), "two".to_owned()];
    handoff.warnings.clear();
    assert_eq!(
        parent_handoff_summary(&handoff),
        "Parent grove-parent (run run-parent) prepared the task: parent finished the schema layer\nArtifacts: a.rs, b.rs\nDecisions: one | two"
    );
}

#[test]
fn session_outcomes_close_runs() {
    let end = ts("2026-03-16T12:00:00Z");
    assert_eq!(run_close_plan(SessionStatus::Completed, Some(StopReason::Exit), end), (RunStatus::Succeeded, None, None));
    assert_eq!(
        run_close_plan(SessionStatus::TimedOut, None, end),
        (RunStatus::WaitingToRetry, Some(FailureClass::Timeout), Some(end))
    );
    assert_eq!(
        run_close_plan(SessionStatus::UnknownFailure, Some(StopReason::Kill), end),
        (RunStatus::WaitingToRetry, Some(FailureClass::Interrupted), Some(end))
    );
    assert_eq!(
        run_close_plan(SessionStatus::UnknownFailure, None, end),
        (RunStatus::Failed, Some(FailureClass::Unknown), None)
    );
    assert_eq!(
        run_close_plan(SessionStatus::RateLimited, Some(StopReason::RateLimit), end),
        (RunStatus::WaitingToRetry, Some(FailureClass::RateLimit), Some(end))
    );
}

#[test]
fn session_finish_moves_bead_status() {
    assert_eq!(
        session_finish_event(SessionStatus::Completed),
        (EventKind::SessionSucceeded, GroveBeadStatus::Succeeded)
    );
    assert_eq!(
        session_finish_event(SessionStatus::RateLimited),
        (EventKind::SessionFailed, GroveBeadStatus::WaitingToRetry)
    );
    assert_eq!(
        session_finish_event(SessionStatus::Crashed),
        (EventKind::SessionFailed, GroveBeadStatus::Failed)
    );
    assert_eq!(session_failure_class(SessionStatus::Completed, None), None);
    assert_eq!(
        session_failure_class(SessionStatus::Crashed, None),
        Some(FailureClass::ClaudeCrashed)
    );
}

#[test]
fn run_finish_clears_paths_except_for_checkpoints() {
    assert_eq!(
        run_finish_event(RunStatus::Checkpointed),
        (GroveBeadStatus::Checkpointed, false, EventKind::RunCheckpointed)
    );
    assert_eq!(
        run_finish_event(RunStatus::WaitingToRetry),
        (GroveBeadStatus::WaitingToRetry, true, EventKind::RunFailed)
    );
}

#[test]
fn capsule_outcomes_follow_session_status() {
    assert_eq!(recovery_capsule_outcome(SessionStatus::Completed), None);
    assert_eq!(
        recovery_capsule_outcome(SessionStatus::Checkpointed),
        Some(RecoveryCapsuleOutcome::Checkpointed)
    );
    assert_eq!(
        recovery_capsule_outcome(SessionStatus::TimedOut),
        Some(RecoveryCapsuleOutcome::Failed)
    );
}

#[test]
fn failure_detail_names_the_stop_reason() {
    assert_eq!(
        stop_reason_detail(Some(StopReason::Kill)),
        Some("session ended with Kill".to_owned())
    );
    assert_eq!(stop_reason_detail(None), None);
    assert_eq!(
        run_failure_detail(Some("worker panicked".to_owned()), Some(StopReason::Kill)),
        Some("worker panicked".to_owned())
    );
    assert_eq!(
        run_failure_detail(None, Some(StopReason::Timeout)),
        Some("session ended with Timeout".to_owned())
    );
}

#[test]
fn enriched_detail_appends_stderr_tail() {
    let tail = vec!["line one".to_owned(), "line two".to_owned()];
    assert_eq!(
        enriched_failure_detail(Some("boom"), &tail),
        Some("boom\n\nRecent stderr:\nline one\nline two".to_owned())
    );
    assert_eq!(
        enriched_failure_detail(None, &tail),
        Some("Recent stderr:\nline one\nline two".to_owned())
    );
    assert_eq!(enriched_failure_detail(Some(""), &Vec::new()), None);
    assert_eq!(enriched_failure_detail(Some("boom"), &Vec::new()), Some("boom".to_owned()));
}

#[test]
fn success_handoff_uses_first_markers_and_falls_back_to_stdout() {
    let events = vec![
        ProtocolEvent::Artifacts { items: vec!["a.rs".to_owned()] },
        ProtocolEvent::Result { summary: "did the work".to_owned() },
        ProtocolEvent::Artifacts { items: vec!["b.rs".to_owned()] },
        ProtocolEvent::Exit { value: true },
    ];
    let done = ts("2026-03-16T12:00:00Z");
    let handoff = success_handoff(
        &BeadId::new("grove-1"),
        &RunId::new("run-1"),
        SessionStatus::Completed,
        &events,
        &Vec::new(),
        done,
    )
    .unwrap();
    assert_eq!(handoff.summary, "did the work");
    assert_eq!(handoff.artifacts, vec!["a.rs".to_owned()]);
    assert!(handoff.lessons.is_empty());
    assert_eq!(handoff.completed_at, done);
    assert_eq!(last_exit_value(&events), Some(true));

    let fallback = success_handoff(
        &BeadId::new("grove-1"),
        &RunId::new("run-1"),
        SessionStatus::Completed,
        &Vec::new(),
        &vec!["first".to_owned(), "last line".to_owned()],
        done,
    )
    .unwrap();
    assert_eq!(fallback.summary, "last line");

    assert!(success_handoff(
        &BeadId::new("grove-1"),
        &RunId::new("run-1"),
        SessionStatus::Crashed,
        &events,
        &Vec::new(),
        done,
    )
    .is_none());
}
