use grove_core::inspect::{
    archive_snippets, checkpoint_is_current, current_checkpoint, inspect_dispatch_why, inspect_recovery_capsule,
    inspect_recovery_outcome, preview_message_id, selected_bullet_ids, MirrorActionView,
    PromptSectionView, RecoveryCapsule, SessionOutcomeSummary, SessionSummaryView,
};
use grove_core::records::{ClaudeSessionRecord, ProtocolEvent, TaskRunRecord};
use grove_core::rows::parse_timestamp;
use grove_core::types::{
    BeadId, BeadPriority, CheckpointId, EscalationTier, EventKind, FailureClass, GroveBeadStatus, PromptId,
    RecoveryCapsuleOutcome, RunId, SessionId, SessionStatus, StopReason, Timestamp, RunStatus,
};

fn ts(text: &str) -> Timestamp {
    parse_timestamp(text).expect("valid timestamp")
}

fn capsule(outcome: RecoveryCapsuleOutcome, next_step: Option<&str>) -> RecoveryCapsule {
    RecoveryCapsule {
        outcome,
        summary: "persisted detail".to_owned(),
        strongest_evidence: Vec::new(),
        likely_root_causes: Vec::new(),
        risky_paths: Vec::new(),
        do_not_repeat: Vec::new(),
        next_attempt_contract: None,
        retry_delta_summary: None,
        checkpoint_progress: None,
        checkpoint_next_step: next_step.map(str::to_owned),
        artifacts: Vec::new(),
    }
}

#[test]
fn recovery_capsule_for_inspect_prefers_persisted_capsule() {
    let persisted = capsule(RecoveryCapsuleOutcome::Interrupted, Some("resume from persisted state"));
    let view = inspect_recovery_capsule(Some(persisted)).expect("expected inspect recovery capsule");
    assert_eq!(view.outcome, "interrupted");
    assert_eq!(
        view.checkpoint_next_step.as_deref(),
        Some("resume from persisted state")
    );
    assert!(inspect_recovery_capsule(None).is_none());
}

#[test]
fn inspect_recovery_outcome_follows_status_and_failure() {
    assert_eq!(
        inspect_recovery_outcome(GroveBeadStatus::Failed, Some(FailureClass::Interrupted)),
        Some(RecoveryCapsuleOutcome::Interrupted)
    );
    assert_eq!(
        inspect_recovery_outcome(GroveBeadStatus::WaitingToRetry, Some(FailureClass::Timeout)),
        Some(RecoveryCapsuleOutcome::Failed)
    );
    assert_eq!(
        inspect_recovery_outcome(GroveBeadStatus::Checkpointed, None),
        Some(RecoveryCapsuleOutcome::Checkpointed)
    );
    assert_eq!(inspect_recovery_outcome(GroveBeadStatus::Ready, None), None);
}

#[test]
fn mirror_action_view_maps_mirror_events_only() {
    let created_at = ts("2026-03-16T12:00:00Z");
    let view = MirrorActionView::from_event(
        17,
        EventKind::BrMirrorFailed,
        Some("{\"error\":\"boom\"}".to_owned()),
        created_at,
    )
    .expect("expected mirror action");

    assert_eq!(view.action, "failed");
    assert_eq!(view.succeeded, Some(false));
    assert!(view.detail.as_deref().unwrap_or_default().contains("boom"));
    assert_eq!(view.event_id, 17);

    assert!(MirrorActionView::from_event(18, EventKind::RunStarted, None, created_at).is_none());
    let requested =
        MirrorActionView::from_event(19, EventKind::BrMirrorRequested, None, created_at).unwrap();
    assert_eq!(requested.action, "requested");
    assert_eq!(requested.succeeded, None);
}

fn sample_session() -> ClaudeSessionRecord {
    ClaudeSessionRecord {
        id: SessionId::new("ses-1"),
        run_id: RunId::new("run-1"),
        external_session_id: None,
        ordinal_in_run: 1,
        status: SessionStatus::Completed,
        started_at: ts("2026-03-16T10:00:00Z"),
        ended_at: Some(ts("2026-03-16T10:10:00Z")),
        prompt_id: Some(PromptId::new("prompt-1")),
        prompt_manifest_path: Some(".grove/prompts/prompt-1.json".to_owned()),
        prompt_bytes: 12,
        estimated_input_tokens: 34,
        estimated_output_tokens: 56,
        exit_code: Some(0),
        stop_reason: Some(StopReason::Exit),
        transcript_path: ".grove/transcripts/grove-1/ses-1.jsonl".to_owned(),
    }
}

#[test]
fn session_summary_extracts_protocol_result_and_exit_flag() {
    let session = sample_session();
    let outcome = SessionOutcomeSummary {
        terminal_class: "success".to_owned(),
        completion_indicators: 3,
        protocol_events: vec![
            ProtocolEvent::Result {
                summary: "implemented kernel query".to_owned(),
            },
            ProtocolEvent::Exit { value: true },
        ],
    };

    let view = SessionSummaryView::from_parts(session, Some(&outcome), None);

    assert_eq!(view.result_summary.as_deref(), Some("implemented kernel query"));
    assert_eq!(view.explicit_exit, Some(true));
    assert_eq!(view.completion_indicators, Some(3));
    assert_eq!(view.prompt_id.as_deref(), Some("prompt-1"));
    assert_eq!(view.ordinal_in_run, 1);
    assert_eq!(view.prompt_bytes, 12);
    assert_eq!(view.estimated_input_tokens, 34);
    assert_eq!(view.estimated_output_tokens, 56);
    assert_eq!(
        view.prompt_manifest_path.as_deref(),
        Some(".grove/prompts/prompt-1.json")
    );
    assert!(view.prompt_provenance.is_none());
}

#[test]
fn session_summary_takes_first_result_and_last_exit() {
    let outcome = SessionOutcomeSummary {
        terminal_class: "success".to_owned(),
        completion_indicators: 0,
        protocol_events: vec![
            ProtocolEvent::Exit { value: false },
            ProtocolEvent::Result { summary: "first".to_owned() },
            ProtocolEvent::Result { summary: "second".to_owned() },
            ProtocolEvent::Exit { value: true },
        ],
    };
    let view = SessionSummaryView::from_parts(sample_session(), Some(&outcome), None);
    assert_eq!(view.result_summary.as_deref(), Some("first"));
    assert_eq!(view.explicit_exit, Some(true));

    let bare = SessionSummaryView::from_parts(sample_session(), None, None);
    assert_eq!(bare.result_summary, None);
    assert_eq!(bare.completion_indicators, None);
}

#[test]
fn checkpoint_is_current_only_for_the_runs_last_checkpoint() {
    let id = CheckpointId::new("chk-2");
    assert!(checkpoint_is_current(Some(&CheckpointId::new("chk-2")), &id));
    assert!(!checkpoint_is_current(Some(&CheckpointId::new("chk-1")), &id));
    assert!(!checkpoint_is_current(None, &id));
}

#[test]
fn preview_message_id_parses_decimal_ids() {
    assert_eq!(preview_message_id(Some("42")), Some(42));
    assert_eq!(preview_message_id(Some("-7")), Some(-7));
    assert_eq!(preview_message_id(Some("4x")), None);
    assert_eq!(preview_message_id(None), None);
}

fn section(kind: &str, included: bool, bullets: &[&str], message: Option<i64>, preview: &str) -> PromptSectionView {
    PromptSectionView {
        ordinal: 1,
        kind: kind.to_owned(),
        heading: kind.to_owned(),
        included,
        estimated_tokens: 10,
        trim_reason: None,
        source_ids: Vec::new(),
        bullet_ids: bullets.iter().map(|b| (*b).to_owned()).collect(),
        checkpoint_id: None,
        handoff_run_id: None,
        preview_message_id: message,
        preview: preview.to_owned(),
    }
}

#[test]
fn selected_bullets_come_from_included_playbook_sections() {
    let sections = vec![
        section("playbook", true, &["blt-1", "blt-2"], None, ""),
        section("playbook", false, &["blt-3"], None, ""),
        section("task", true, &["blt-4"], None, ""),
        section("playbook", true, &["blt-5"], None, ""),
    ];
    assert_eq!(selected_bullet_ids(&sections), vec!["blt-1", "blt-2", "blt-5"]);
}

#[test]
fn archive_snippets_number_archive_sections_from_one() {
    let sections = vec![
        section("archive_snippet", true, &[], Some(11), "first snippet"),
        section("task", true, &[], Some(99), "not archive"),
        section("archive_snippet", true, &[], None, "no message"),
        section("archive_snippet", true, &[], Some(13), "third snippet"),
    ];
    let refs = archive_snippets(&sections);
    assert_eq!(refs.len(), 2);
    assert_eq!((refs[0].conversation_id, refs[0].message_id), (1, 11));
    assert_eq!((refs[1].conversation_id, refs[1].message_id), (3, 13));
    assert_eq!(refs[1].snippet, "third snippet");
}

#[test]
fn dispatch_why_lists_priority_readiness_and_edges() {
    let why = inspect_dispatch_why(BeadPriority::P1, None, true, 0, 2, 0);
    assert_eq!(why, vec!["P1 priority", "ready in br", "2 downstream beads", "no reservation conflicts"]);
    let blocked = inspect_dispatch_why(
        BeadPriority::P0,
        Some("triage score 4".to_owned()),
        false,
        1,
        0,
        3,
    );
    assert_eq!(
        blocked,
        vec!["P0 priority", "triage score 4", "blocked by 1 bead in br", "3 reservation conflict(s)"]
    );
}

fn bead_run(id: &str, attempt_no: i32, status: RunStatus, checkpoint: Option<&str>) -> TaskRunRecord {
    TaskRunRecord {
        id: RunId::new(id),
        bead_id: BeadId::new("grove-child"),
        attempt_no,
        status,
        failure_class: None,
        failure_detail: None,
        started_at: ts("2026-03-16T11:00:00Z"),
        ended_at: Some(ts("2026-03-16T11:10:00Z")),
        session_count: 1,
        checkpoint_count: checkpoint.map_or(0, |_| 1),
        last_checkpoint_id: checkpoint.map(CheckpointId::new),
        activity: None,
        last_activity_at: None,
        escalation_tier: EscalationTier::FirstAttempt,
    }
}

#[test]
fn inspect_hides_a_checkpoint_of_an_older_run() {
    let latest = Some((CheckpointId::new("chk-old"), "halfway there"));
    let newer_first = vec![
        bead_run("run-new", 2, RunStatus::Succeeded, None),
        bead_run("run-old", 1, RunStatus::Checkpointed, Some("chk-old")),
    ];
    assert_eq!(current_checkpoint(&newer_first, latest.clone()), None);
    let only_old = vec![bead_run("run-old", 1, RunStatus::Checkpointed, Some("chk-old"))];
    assert_eq!(current_checkpoint(&only_old, latest.clone()), latest);
    assert_eq!(current_checkpoint(&Vec::new(), latest), None);
    assert_eq!(current_checkpoint::<&str>(&only_old, None), None);
}
