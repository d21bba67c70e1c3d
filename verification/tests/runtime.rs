use grove_core::bead::{BeadRef, CircuitBreakerState, GroveBeadRecord};
use grove_core::codec::{encode_agent_activity, encode_escalation_tier, encode_failure_class, encode_grove_bead_status};
use grove_core::eligibility::circuit_state_for_bead;
use grove_core::mirror::mirror_failure_context;
use grove_core::reactions::{
    evaluate_reactions, plan_reaction_follow_up, reaction_inputs_without_outcome, ReactionAction,
    ReactionEffect, ReactionRule, ReactionTrigger, TriggerContext,
};
use grove_core::rows::{decode_bead_record, decode_task_run, parse_timestamp, BeadRow, TaskRunRow};
use grove_core::lifecycle::{run_finish_event, session_finish_event};
use grove_core::runtime::{
    apply_runtime_update, checkpoint_saved_update, interrupted_detail, interrupted_run_update,
    recover_interrupted_runs, run_finished_update, run_started_update, session_finished_update,
    session_started_update, BeadRuntimeRow,
};
use grove_core::records::TaskRunRecord;
use grove_core::types::{
    AgentActivity, BeadId, BeadPriority, CircuitState, EscalationTier, EventKind, FailureClass,
    GroveBeadStatus, RecoveryCapsuleOutcome, RunId, RunStatus, SessionStatus, StopReason,
    Timestamp,
};

fn ts(text: &str) -> Timestamp {
    parse_timestamp(text).expect("valid timestamp")
}

/// A stored bead row carrying a runtime row, as the store joins them.
fn bead_row(bead_id: &str, runtime: &BeadRuntimeRow, runtime_text: &str) -> BeadRow {
    BeadRow {
        bead_id: bead_id.to_owned(),
        title: "Breaker bead".to_owned(),
        description: None,
        priority: 1,
        issue_type: "task".to_owned(),
        br_status: "open".to_owned(),
        assignee: None,
        labels_json: "[]".to_owned(),
        raw_created_at: None,
        raw_updated_at: None,
        synced_at: "2026-03-16T10:00:00Z".to_owned(),
        grove_status: runtime.grove_status.map(|s| encode_grove_bead_status(s).to_owned()),
        declared_paths_json: Some(serde_json::to_string(&runtime.declared_paths).unwrap()),
        last_run_id: runtime.last_run_id.as_ref().map(|r| r.as_str().to_owned()),
        retry_after: None,
        last_failure_class: runtime.last_failure_class.map(|c| encode_failure_class(c).to_owned()),
        last_failure_detail: runtime.last_failure_detail.clone(),
        circuit_breaker: runtime.circuit_breaker.clone(),
        runtime_updated_at: Some(runtime_text.to_owned()),
    }
}

fn check_breaker_round_trip() {
    let run_id = RunId::new("run-breaker");
    let ended_at = ts("2026-03-16T11:10:00Z");
    let started = apply_runtime_update(None, &run_started_update(&run_id, ts("2026-03-16T11:00:00Z")));
    let breaker = CircuitBreakerState {
        state: CircuitState::Open,
        no_progress_count: 3,
        same_error_count: 0,
        permission_denial_count: 0,
        last_error_fingerprint: Some("same-error".to_owned()),
        opened_at: Some(ended_at),
    };
    let finished = apply_runtime_update(
        Some(&started),
        &run_finished_update(
            &run_id,
            RunStatus::Failed,
            None,
            Some(FailureClass::NoProgress),
            &Some("stuck".to_owned()),
            Some(breaker.clone()),
            ended_at,
        ),
    );
    let bead = decode_bead_record(bead_row("grove-breaker", &finished, "2026-03-16T11:10:00Z")).unwrap();
    assert_eq!(bead.circuit_breaker_state, Some(breaker));
    assert_eq!(bead.grove_status, GroveBeadStatus::Failed);
    assert_eq!(bead.last_failure_class, Some(FailureClass::NoProgress));
}

#[test]
fn lib_bead_record_round_trips_circuit_breaker_state() {
    check_breaker_round_trip();
}

#[test]
fn tests_bead_record_round_trips_circuit_breaker_state() {
    check_breaker_round_trip();
}

fn check_activity_and_tier() {
    let row = TaskRunRow {
        id: "run-activity".to_owned(),
        bead_id: "grove-activity".to_owned(),
        attempt_no: 1,
        status: "Active".to_owned(),
        failure_class: None,
        failure_detail: None,
        started_at: "2026-03-16T11:00:00Z".to_owned(),
        ended_at: None,
        session_count: 0,
        checkpoint_count: 0,
        last_checkpoint_id: None,
        activity: Some(encode_agent_activity(AgentActivity::Idle).to_owned()),
        last_activity_at: Some("2026-03-16T11:05:00Z".to_owned()),
        escalation_tier: encode_escalation_tier(EscalationTier::ThirdAttempt).to_owned(),
    };
    let run = decode_task_run(row).unwrap();
    assert_eq!(run.activity, Some(AgentActivity::Idle));
    assert_eq!(run.last_activity_at, Some(ts("2026-03-16T11:05:00Z")));
    assert_eq!(run.escalation_tier, EscalationTier::ThirdAttempt);
}

#[test]
fn lib_run_activity_and_escalation_round_trip() {
    check_activity_and_tier();
}

#[test]
fn tests_run_activity_and_escalation_round_trip() {
    check_activity_and_tier();
}

fn stored_run(id: &str, bead_id: &str, status: RunStatus, started: &str) -> TaskRunRecord {
    TaskRunRecord {
        id: RunId::new(id),
        bead_id: BeadId::new(bead_id),
        attempt_no: 1,
        status,
        failure_class: None,
        failure_detail: None,
        started_at: ts(started),
        ended_at: None,
        session_count: 1,
        checkpoint_count: 0,
        last_checkpoint_id: None,
        activity: Some(AgentActivity::Active),
        last_activity_at: None,
        escalation_tier: EscalationTier::FirstAttempt,
    }
}

#[test]
fn reconcile_interrupted_runs_marks_active_runs_retryable() {
    let run_id = RunId::new("run-active");
    let now = ts("2026-03-16T12:05:00Z");
    let runs = vec![stored_run("run-active", "grove-interrupted", RunStatus::Active, "2026-03-16T12:00:00Z")];
    let recovered = recover_interrupted_runs(runs, now);
    assert_eq!(recovered.len(), 1);
    assert_eq!(recovered[0].bead_id.as_str(), "grove-interrupted");
    assert_eq!(recovered[0].run.status, RunStatus::WaitingToRetry);
    assert_eq!(recovered[0].run.failure_class, Some(FailureClass::Interrupted));
    assert_eq!(recovered[0].run.ended_at, Some(now));
    let capsule = recovered[0].recovery_capsule.as_ref().expect("an interrupted run leaves a capsule");
    assert_eq!(capsule.outcome, RecoveryCapsuleOutcome::Interrupted);
    assert!(capsule.summary.contains("persisted durable state"));

    let started = apply_runtime_update(None, &run_started_update(&run_id, ts("2026-03-16T12:00:00Z")));
    assert_eq!(started.grove_status, Some(GroveBeadStatus::Running));
    let bead = apply_runtime_update(Some(&started), &interrupted_run_update(&run_id, now));
    assert_eq!(bead.grove_status, Some(GroveBeadStatus::WaitingToRetry));
    assert_eq!(bead.last_failure_class, Some(FailureClass::Interrupted));
    assert_eq!(bead.last_failure_detail.as_deref(), Some(interrupted_detail()));
    assert_eq!(bead.last_run_id, Some(run_id));
}

#[test]
fn reconciliation_touches_only_active_runs_and_is_idempotent() {
    let now = ts("2026-03-16T12:05:00Z");
    let runs = vec![
        stored_run("run-done", "grove-a", RunStatus::Succeeded, "2026-03-16T10:00:00Z"),
        stored_run("run-one", "grove-b", RunStatus::Active, "2026-03-16T11:00:00Z"),
        stored_run("run-two", "grove-c", RunStatus::Active, "2026-03-16T11:30:00Z"),
    ];
    let recovered = recover_interrupted_runs(runs.clone(), now);
    let ids: Vec<&str> = recovered.iter().map(|entry| entry.run.id.as_str()).collect();
    assert_eq!(ids, vec!["run-one", "run-two"]);
    assert_eq!(recovered[1].run.activity, Some(AgentActivity::Active));
    let after: Vec<TaskRunRecord> = runs
        .into_iter()
        .map(|run| {
            recovered
                .iter()
                .find(|entry| entry.run.id == run.id)
                .map(|entry| entry.run.clone())
                .unwrap_or(run)
        })
        .collect();
    assert!(recover_interrupted_runs(after, now).is_empty());
}

fn sample_bead(bead_id: &str) -> GroveBeadRecord {
    let at = ts("2026-03-16T11:00:00Z");
    GroveBeadRecord {
        bead: BeadRef {
            id: BeadId::new(bead_id),
            title: bead_id.to_owned(),
            description: None,
            priority: BeadPriority::P1,
            issue_type: "task".into(),
            br_status: "open".into(),
            assignee: None,
            labels: Vec::new(),
            created_at: at,
            updated_at: at,
        },
        grove_status: GroveBeadStatus::Failed,
        declared_paths: Vec::new(),
        last_run_id: None,
        retry_after: None,
        last_failure_class: Some(FailureClass::Unknown),
        last_failure_detail: Some("stalled".into()),
        circuit_breaker_state: None,
        synced_at: at,
        runtime_updated_at: at,
    }
}

fn rule(trigger: ReactionTrigger, action: ReactionAction) -> ReactionRule {
    ReactionRule { trigger, action, enabled: true, max_attempts: 1, escalate_to: None }
}

/// The trigger context built when a worker left no session outcome.
fn context_without_outcome(bead: &GroveBeadRecord, run_id: &RunId, detail: &str, mirror_failed: bool) -> TriggerContext {
    let (run_status, failure_class, escalation_tier, activity) = reaction_inputs_without_outcome(mirror_failed);
    TriggerContext {
        bead_id: bead.bead.id.clone(),
        run_id: run_id.clone(),
        run_status,
        activity,
        failure_class,
        failure_detail: Some(detail.to_owned()),
        escalation_tier,
        consecutive_failures: 1,
        circuit_state: circuit_state_for_bead(bead),
        context_pressure_bp: None,
        mirror_failed,
    }
}

#[test]
fn apply_reaction_side_effects_uses_persisted_open_circuit_state() {
    let mut bead = sample_bead("grove-open-circuit");
    bead.circuit_breaker_state = Some(CircuitBreakerState {
        state: CircuitState::Open,
        no_progress_count: 3,
        same_error_count: 0,
        permission_denial_count: 0,
        last_error_fingerprint: Some("same-error".into()),
        opened_at: Some(ts("2026-03-16T12:00:00Z")),
    });
    let run_id = RunId::new("run-grove-open-circuit-1");
    let ctx = context_without_outcome(&bead, &run_id, "stalled", false);
    let rules = vec![rule(ReactionTrigger::CircuitOpen, ReactionAction::ScheduleBackoff { base_secs: 30 })];
    let result = evaluate_reactions(&ctx, &rules, &Vec::new(), ts("2026-03-16T12:01:00Z"));
    assert_eq!(result.records.len(), 1);
    let follow_up = plan_reaction_follow_up(&result, ctx.escalation_tier, None);
    assert_eq!(follow_up.effects, vec![ReactionEffect::RetryAfter { delay_secs: 30 }]);
    assert!(!follow_up.finish_as_failed);
}

#[test]
fn apply_reaction_side_effects_marks_failed_without_outcome_when_no_backoff_rule_matches() {
    let bead = sample_bead("grove-no-backoff");
    let run_id = RunId::new("run-grove-no-backoff-1");
    let ctx = context_without_outcome(&bead, &run_id, "session lifecycle hook failed", false);
    let result = evaluate_reactions(&ctx, &Vec::new(), &Vec::new(), ts("2026-03-16T12:01:00Z"));
    let follow_up = plan_reaction_follow_up(&result, ctx.escalation_tier, None);
    assert!(follow_up.finish_as_failed);
    assert_eq!(ctx.run_status, RunStatus::Failed);
    assert_eq!(ctx.failure_class, Some(FailureClass::Unknown));

    let runtime = apply_runtime_update(
        None,
        &run_finished_update(
            &run_id,
            ctx.run_status,
            None,
            ctx.failure_class,
            &ctx.failure_detail,
            None,
            ts("2026-03-16T12:01:00Z"),
        ),
    );
    assert_eq!(runtime.grove_status, Some(GroveBeadStatus::Failed));
    assert_eq!(runtime.last_run_id.as_ref(), Some(&run_id));
    assert!(runtime
        .last_failure_detail
        .as_deref()
        .is_some_and(|detail| detail.contains("session lifecycle hook failed")));
}

#[test]
fn apply_reaction_side_effects_records_backoff_and_capsule_without_outcome() {
    let bead = sample_bead("grove-error-path");
    let run_id = RunId::new("run-grove-error-path-1");
    let ctx = context_without_outcome(&bead, &run_id, "mirror sync failed", true);
    let rules = vec![
        rule(ReactionTrigger::MirrorFailed, ReactionAction::ScheduleBackoff { base_secs: 30 }),
        rule(ReactionTrigger::MirrorFailed, ReactionAction::CreateRecoveryCapsule {
            outcome: RecoveryCapsuleOutcome::Failed,
        }),
    ];
    let result = evaluate_reactions(&ctx, &rules, &Vec::new(), ts("2026-03-16T12:01:00Z"));
    assert_eq!(result.records.len(), 2);
    let follow_up = plan_reaction_follow_up(&result, ctx.escalation_tier, None);
    assert_eq!(
        follow_up.effects,
        vec![
            ReactionEffect::RetryAfter { delay_secs: 30 },
            ReactionEffect::FailureCapsule { outcome: RecoveryCapsuleOutcome::Failed },
        ]
    );
    assert!(!follow_up.finish_as_failed);
    assert_eq!(follow_up.tier_update, Some(EscalationTier::ThirdAttempt));
}

#[test]
fn process_mirror_outbox_logs_reaction_for_mirror_failure() {
    let ctx = mirror_failure_context(
        &BeadId::new("grove-mirror"),
        &RunId::new("run-grove-mirror-1"),
        "failed to mirror grove-mirror",
        1,
    );
    let rules = vec![rule(ReactionTrigger::MirrorFailed, ReactionAction::EnqueueMirrorRetry)];
    let result = evaluate_reactions(&ctx, &rules, &Vec::new(), ts("2026-03-16T12:01:00Z"));
    assert_eq!(result.records.len(), 1);
    assert_eq!(result.records[0].trigger, ReactionTrigger::MirrorFailed);
    assert_eq!(result.records[0].action, ReactionAction::EnqueueMirrorRetry);
}

fn check_lifecycle_runtime() {
    let run_id = RunId::new("run-life");
    let claimed = vec!["crates/grove-db/src/lib.rs".to_owned()];
    let mut row = apply_runtime_update(None, &run_started_update(&run_id, ts("2026-03-16T11:00:00Z")));
    row = apply_runtime_update(Some(&row), &session_started_update(&run_id, ts("2026-03-16T11:00:00Z")));
    row = apply_runtime_update(Some(&row), &checkpoint_saved_update(&run_id, &claimed, ts("2026-03-16T11:05:00Z")));
    assert_eq!(row.declared_paths, claimed);

    row = apply_runtime_update(
        Some(&row),
        &session_finished_update(&run_id, SessionStatus::Checkpointed, Some(StopReason::Checkpoint), ts("2026-03-16T11:06:00Z")),
    );
    assert_eq!(row.grove_status, Some(GroveBeadStatus::Checkpointed));
    assert_eq!(row.declared_paths, claimed);
    assert_eq!(
        session_finish_event(SessionStatus::Checkpointed).0,
        EventKind::SessionCheckpointed
    );

    row = apply_runtime_update(
        Some(&row),
        &run_finished_update(&run_id, RunStatus::Checkpointed, None, None, &None, None, ts("2026-03-16T11:07:00Z")),
    );
    assert_eq!(row.grove_status, Some(GroveBeadStatus::Checkpointed));
    assert_eq!(row.last_run_id.as_ref().map(|id| id.as_str()), Some("run-life"));
    assert_eq!(row.declared_paths, claimed);
    assert_eq!(run_finish_event(RunStatus::Checkpointed).2, EventKind::RunCheckpointed);
}

#[test]
fn lib_lifecycle_writes_persist_runs_sessions_checkpoints_and_runtime_state() {
    check_lifecycle_runtime();
}

#[test]
fn tests_lifecycle_writes_persist_runs_sessions_checkpoints_and_runtime_state() {
    check_lifecycle_runtime();
}

#[test]
fn finished_run_clears_declared_paths_unless_checkpointed() {
    let run_id = RunId::new("run-x");
    let claimed = vec!["a".to_owned()];
    let row = apply_runtime_update(
        None,
        &checkpoint_saved_update(&run_id, &claimed, ts("2026-03-16T11:05:00Z")),
    );
    let failed = apply_runtime_update(
        Some(&row),
        &run_finished_update(&run_id, RunStatus::WaitingToRetry, Some(ts("2026-03-16T12:00:00Z")), Some(FailureClass::Timeout), &None, None, ts("2026-03-16T11:07:00Z")),
    );
    assert!(failed.declared_paths.is_empty());
    assert_eq!(failed.grove_status, Some(GroveBeadStatus::WaitingToRetry));
    assert_eq!(failed.retry_after, Some(ts("2026-03-16T12:00:00Z")));
    assert_eq!(failed.runtime_updated_at, ts("2026-03-16T11:07:00Z"));
}
