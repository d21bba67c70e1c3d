use grove_core::metrics::{metrics_event_from_log, metrics_for_run, run_metrics, MetricsEvent};
use grove_core::rows::{
    decode_bead_record, decode_handoff, decode_leader_lease, decode_reservation, decode_task_run,
    parse_text_list, parse_timestamp, BeadRow, HandoffRow, LeaderLeaseRow, ReservationRow,
    TaskRunRow,
};
use grove_core::types::{
    AgentActivity, BeadPriority, EscalationTier, EventKind, FailureClass, GroveBeadStatus,
    ReservationMode, RunId, RunStatus, Timestamp,
};

fn ts(text: &str) -> Timestamp {
    parse_timestamp(text).expect("valid timestamp")
}

fn fallback_row() -> BeadRow {
    BeadRow {
        bead_id: "grove-fallback".to_owned(),
        title: "Fallback bead".to_owned(),
        description: None,
        priority: 1,
        issue_type: "task".to_owned(),
        br_status: "open".to_owned(),
        assignee: None,
        labels_json: "[\"area:test\"]".to_owned(),
        raw_created_at: None,
        raw_updated_at: None,
        synced_at: "2026-03-16 11:00:00".to_owned(),
        grove_status: None,
        declared_paths_json: None,
        last_run_id: None,
        retry_after: None,
        last_failure_class: None,
        last_failure_detail: None,
        circuit_breaker: None,
        runtime_updated_at: None,
    }
}

fn check_fallback_bead() {
    let record = decode_bead_record(fallback_row()).expect("fallback bead should decode");
    assert_eq!(record.grove_status, GroveBeadStatus::Idle);
    assert!(record.declared_paths.is_empty());
    assert!(record.circuit_breaker_state.is_none());
    assert_eq!(record.bead.created_at, record.synced_at);
    assert_eq!(record.bead.updated_at, record.bead.created_at);
    assert_eq!(record.synced_at, ts("2026-03-16T11:00:00Z"));
    assert_eq!(record.bead.priority, BeadPriority::P1);
    assert_eq!(record.bead.labels, vec!["area:test".to_owned()]);
}

#[test]
fn lib_get_bead_record_defaults_runtime_fields_and_parses_sqlite_timestamps() {
    check_fallback_bead();
}

#[test]
fn tests_get_bead_record_defaults_runtime_fields_and_parses_sqlite_timestamps() {
    check_fallback_bead();
}

#[test]
fn bead_row_with_unreadable_fields_is_rejected() {
    let mut bad_time = fallback_row();
    bad_time.synced_at = "yesterday".to_owned();
    assert_eq!(
        decode_bead_record(bad_time).unwrap_err().message,
        "parse timestamp yesterday"
    );
    let mut bad_labels = fallback_row();
    bad_labels.labels_json = "not json".to_owned();
    assert_eq!(decode_bead_record(bad_labels).unwrap_err().message, "parse bead labels JSON");
    let mut bad_status = fallback_row();
    bad_status.grove_status = Some("Sleeping".to_owned());
    bad_status.retry_after = Some("never".to_owned());
    assert_eq!(
        decode_bead_record(bad_status).unwrap_err().message,
        "unsupported grove bead status Sleeping"
    );
    let mut bad_priority = fallback_row();
    bad_priority.priority = 9;
    assert_eq!(
        decode_bead_record(bad_priority).unwrap_err().message,
        "unsupported bead priority value 9"
    );
}

#[test]
fn timestamps_read_in_rfc3339_and_sqlite_forms() {
    assert_eq!(ts("2026-03-16T11:00:00+01:00"), ts("2026-03-16T10:00:00Z"));
    assert_eq!(ts("2026-03-16 10:00:00"), ts("2026-03-16T10:00:00Z"));
    assert_eq!(ts("1970-01-01T00:00:01.5Z"), Timestamp { secs: 1, nanos: 500_000_000 });
    assert!(parse_timestamp("16/03/2026").is_err());
}

#[test]
fn text_lists_read_from_json() {
    assert_eq!(
        parse_text_list("[\"a\",\"b\"]", "labels").unwrap(),
        vec!["a".to_owned(), "b".to_owned()]
    );
    assert_eq!(
        parse_text_list("{\"a\":1}", "labels").unwrap_err().message,
        "parse labels JSON"
    );
}

#[test]
fn task_run_rows_decode() {
    let row = TaskRunRow {
        id: "run-1".to_owned(),
        bead_id: "grove-1".to_owned(),
        attempt_no: 2,
        status: "WaitingToRetry".to_owned(),
        failure_class: Some("Timeout".to_owned()),
        failure_detail: Some("slow".to_owned()),
        started_at: "2026-03-16T10:00:00Z".to_owned(),
        ended_at: Some("2026-03-16T10:05:00Z".to_owned()),
        session_count: 1,
        checkpoint_count: 0,
        last_checkpoint_id: None,
        activity: Some("Idle".to_owned()),
        last_activity_at: None,
        escalation_tier: "SecondAttempt".to_owned(),
    };
    let run = decode_task_run(row.clone()).unwrap();
    assert_eq!(run.id, RunId::new("run-1"));
    assert_eq!(run.status, RunStatus::WaitingToRetry);
    assert_eq!(run.failure_class, Some(FailureClass::Timeout));
    assert_eq!(run.activity, Some(AgentActivity::Idle));
    assert_eq!(run.escalation_tier, EscalationTier::SecondAttempt);
    assert_eq!(run.ended_at, Some(ts("2026-03-16T10:05:00Z")));

    let mut bad = row;
    bad.status = "Sleeping".to_owned();
    bad.started_at = "soon".to_owned();
    assert_eq!(decode_task_run(bad.clone()).unwrap_err().message, "unsupported run status Sleeping");
    bad.status = "Failed".to_owned();
    assert_eq!(decode_task_run(bad).unwrap_err().message, "parse timestamp soon");
}

#[test]
fn reservation_and_lease_rows_decode() {
    let reservation = decode_reservation(ReservationRow {
        id: 7,
        bead_id: "grove-1".to_owned(),
        run_id: None,
        path_pattern: "src/**".to_owned(),
        exclusive: false,
        reason: None,
        expires_at: "2026-03-16T10:00:00Z".to_owned(),
        released_at: None,
    })
    .unwrap();
    assert_eq!(reservation.id, 7);
    assert_eq!(reservation.mode, ReservationMode::Shared);
    assert_eq!(reservation.released_at, None);

    let lease = decode_leader_lease(LeaderLeaseRow {
        owner_label: "leader-a".to_owned(),
        run_id: Some("run-1".to_owned()),
        acquired_at: "2026-03-16T10:00:00Z".to_owned(),
        heartbeat_at: "2026-03-16T10:00:10Z".to_owned(),
        expires_at: "2026-03-16T10:00:30Z".to_owned(),
        released_at: Some("bad".to_owned()),
    });
    assert_eq!(lease.unwrap_err().message, "parse timestamp bad");
}

#[test]
fn handoff_rows_decode_their_lists() {
    let handoff = decode_handoff(HandoffRow {
        bead_id: "grove-parent".to_owned(),
        run_id: "run-parent".to_owned(),
        summary: "done".to_owned(),
        artifacts_json: "[\"a.rs\"]".to_owned(),
        lessons_json: "[]".to_owned(),
        decisions_json: "[\"keep\"]".to_owned(),
        warnings_json: "[]".to_owned(),
        completed_at: "2026-03-16T11:12:00Z".to_owned(),
    })
    .unwrap();
    assert_eq!(handoff.artifacts, vec!["a.rs".to_owned()]);
    assert_eq!(handoff.decisions, vec!["keep".to_owned()]);
    assert!(handoff.lessons.is_empty());
}

fn event(kind: EventKind, tier: Option<&str>) -> MetricsEvent {
    MetricsEvent {
        kind,
        escalation_tier: tier.map(str::to_owned),
    }
}

fn check_started_run_metrics() {
    let run_id = RunId::new("run-metrics-test");
    let events = vec![event(EventKind::RunStarted, Some("FirstAttempt"))];
    let metrics = run_metrics(&run_id, &events, ts("2026-03-16T11:00:00Z"), None, 0);
    assert_eq!(metrics.run_id.as_str(), "run-metrics-test");
    assert_eq!(metrics.checkpoints_taken, 0);
    assert_eq!(metrics.retries_attempted, 0);
    assert_eq!(metrics.total_duration_secs, 0);
    assert_eq!(metrics.termination_reason, None);
}

#[test]
fn lib_run_metrics_aggregation_computes_correct_values() {
    check_started_run_metrics();
}

#[test]
fn tests_run_metrics_aggregation_computes_correct_values() {
    check_started_run_metrics();
}

fn check_failed_run_metrics() {
    let run_id = RunId::new("run-failure-test");
    let events = vec![
        event(EventKind::RunStarted, Some("FirstAttempt")),
        event(EventKind::RunFailed, None),
    ];
    let metrics = run_metrics(
        &run_id,
        &events,
        ts("2026-03-16T11:00:00Z"),
        Some(ts("2026-03-16T11:10:00Z")),
        0,
    );
    assert!(metrics.total_duration_secs > 0);
    assert_eq!(metrics.total_duration_secs, 600);
    assert_eq!(metrics.termination_reason.as_deref(), Some("RunFailed"));
}

#[test]
fn lib_run_report_includes_failure_info() {
    check_failed_run_metrics();
}

#[test]
fn tests_run_report_includes_failure_info() {
    check_failed_run_metrics();
}

#[test]
fn run_metrics_counts_retries_reactions_and_highest_tier() {
    let events = vec![
        event(EventKind::RunStarted, Some("first_attempt")),
        event(EventKind::ReactionInvoked, None),
        event(EventKind::EscalationTierChanged, Some("Third-Attempt")),
        event(EventKind::RunStarted, Some("SecondAttempt")),
        event(EventKind::RunSucceeded, Some("bogus")),
        event(EventKind::RunFailed, None),
    ];
    let metrics = run_metrics(
        &RunId::new("run-x"),
        &events,
        ts("2026-03-16T11:00:00Z"),
        Some(ts("2026-03-16T11:00:59.900Z")),
        3,
    );
    assert_eq!(metrics.retries_attempted, 1);
    assert_eq!(metrics.reactions_invoked, 1);
    assert_eq!(metrics.rescue_injections, 1);
    assert_eq!(metrics.max_escalation_tier, 2);
    assert_eq!(metrics.checkpoints_taken, 3);
    assert_eq!(metrics.total_duration_secs, 59);
    assert_eq!(metrics.termination_reason.as_deref(), Some("RunSucceeded"));
}

#[test]
fn metrics_need_both_events_and_a_run_row() {
    let run_id = RunId::new("run-metrics-gate");
    let started = ts("2026-03-16T11:00:00Z");
    let events = vec![
        event(EventKind::RunStarted, Some("FirstAttempt")),
        event(EventKind::RunStarted, Some("SecondAttempt")),
        event(EventKind::ReactionInvoked, None),
    ];
    assert_eq!(metrics_for_run(&run_id, &Vec::new(), Some((started, None, 1))), None);
    assert_eq!(metrics_for_run(&run_id, &events, None), None);
    let metrics = metrics_for_run(&run_id, &events, Some((started, Some(ts("2026-03-16T10:59:58.5Z")), 3)))
        .expect("events and a run row give metrics");
    assert_eq!(metrics.checkpoints_taken, 3);
    assert_eq!(metrics.retries_attempted, 1);
    assert_eq!(metrics.reactions_invoked, 1);
    assert_eq!(metrics.max_escalation_tier, 1);
    assert_eq!(metrics.total_duration_secs, (-1i64) as u64);
    assert_eq!(metrics.termination_reason.as_deref(), Some("Ended"));
}

#[test]
fn logged_events_give_their_kind_and_tier() {
    let event = metrics_event_from_log("EscalationTierChanged", r#"{"escalation_tier":"SecondAttempt","x":1}"#)
        .expect("a known kind with a JSON payload");
    assert_eq!(event.kind, EventKind::EscalationTierChanged);
    assert_eq!(event.escalation_tier.as_deref(), Some("SecondAttempt"));
    let plain = metrics_event_from_log("RunStarted", r#"{"escalation_tier":3}"#).expect("JSON payload");
    assert_eq!(plain.escalation_tier, None);
    assert_eq!(metrics_event_from_log("RunStarted", "not json").unwrap_err().message, "parse event payload");
    assert_eq!(metrics_event_from_log("Nonsense", "{}").unwrap_err().message, "unsupported event kind Nonsense");
}
