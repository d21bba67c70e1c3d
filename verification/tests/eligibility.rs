use grove_core::bead::{BeadRef, DependencySnapshot, GroveBeadRecord};
use grove_core::eligibility::{
    collect_local_suppressions, dispatch_suppression_label, evaluate_dispatch_eligibility,
    validate_dependency_snapshot, DependencySnapshotIssue, DependencySnapshotSanity,
    DispatchEligibility, DispatchEligibilityContext, LocalSuppressionReason,
};
use grove_core::reservation::ReservationConflict;
use grove_core::rows::parse_timestamp;
use grove_core::types::{BeadId, BeadPriority, CircuitState, GroveBeadStatus, RunId, Timestamp};

fn ts(text: &str) -> Timestamp {
    parse_timestamp(text).expect("valid timestamp")
}

fn sample_context(
    ready_in_br: bool,
    circuit_state: CircuitState,
    reservation_conflicts: Vec<ReservationConflict>,
) -> DispatchEligibilityContext {
    DispatchEligibilityContext {
        ready_in_br,
        circuit_state,
        reservation_conflicts,
        now: ts("2026-03-16T12:00:00Z"),
    }
}

fn sample_bead(
    grove_status: GroveBeadStatus,
    issue_type: &str,
    labels: &[&str],
    last_run_id: Option<&str>,
    retry_after: Option<&str>,
) -> GroveBeadRecord {
    let created_at = ts("2026-03-16T10:00:00Z");
    let updated_at = ts("2026-03-16T11:00:00Z");
    GroveBeadRecord {
        bead: BeadRef {
            id: BeadId::new("grove-1j9.5.10"),
            title: "dispatch policy".into(),
            description: None,
            priority: BeadPriority::P0,
            issue_type: issue_type.into(),
            br_status: "open".into(),
            assignee: None,
            labels: labels.iter().map(|label| (*label).to_owned()).collect(),
            created_at,
            updated_at,
        },
        grove_status,
        declared_paths: Vec::new(),
        last_run_id: last_run_id.map(RunId::new),
        retry_after: retry_after.map(ts),
        last_failure_class: None,
        last_failure_detail: None,
        circuit_breaker_state: None,
        synced_at: updated_at,
        runtime_updated_at: updated_at,
    }
}

fn suppression_codes(eligibility: &DispatchEligibility) -> Vec<&'static str> {
    eligibility
        .local_suppression_reasons
        .iter()
        .map(LocalSuppressionReason::code)
        .collect()
}

#[test]
fn ready_bead_without_local_blockers_is_dispatchable() {
    let bead = sample_bead(GroveBeadStatus::Ready, "task", &[], None, None);
    let context = sample_context(true, CircuitState::Closed, Vec::new());

    let eligibility = evaluate_dispatch_eligibility(&bead, &context);

    assert!(eligibility.ready_in_br);
    assert!(eligibility.dispatchable_in_grove);
    assert!(!eligibility.has_local_suppressions());
}

#[test]
fn not_ready_in_br_never_becomes_dispatchable() {
    let bead = sample_bead(GroveBeadStatus::Ready, "task", &[], None, None);
    let context = sample_context(false, CircuitState::Closed, Vec::new());

    let eligibility = evaluate_dispatch_eligibility(&bead, &context);

    assert!(!eligibility.ready_in_br);
    assert!(!eligibility.dispatchable_in_grove);
    assert!(eligibility.local_suppression_reasons.is_empty());
}

#[test]
fn dispatch_label_suppresses_epics_and_tasks_the_same_way() {
    let bead = sample_bead(GroveBeadStatus::Ready, "epic", &["dispatch:no"], None, None);
    let context = sample_context(true, CircuitState::Closed, Vec::new());

    let eligibility = evaluate_dispatch_eligibility(&bead, &context);
    let reason_codes = suppression_codes(&eligibility);

    assert!(!eligibility.dispatchable_in_grove);
    assert!(reason_codes.contains(&"suppressed_by_label"));
    assert_eq!(reason_codes.len(), 1);
}

#[test]
fn dispatch_label_matches_without_regard_to_case() {
    let labels = vec!["area:db".to_owned(), "Dispatch:NO".to_owned()];
    assert_eq!(dispatch_suppression_label(&labels), Some("Dispatch:NO".to_owned()));
    assert_eq!(dispatch_suppression_label(&vec!["dispatch:yes".to_owned()]), None);
}

#[test]
fn active_run_status_suppresses_dispatch() {
    let bead = sample_bead(GroveBeadStatus::Running, "task", &[], Some("run_123"), None);
    let context = sample_context(true, CircuitState::Closed, Vec::new());

    let eligibility = evaluate_dispatch_eligibility(&bead, &context);

    assert!(!eligibility.dispatchable_in_grove);
    assert!(suppression_codes(&eligibility).contains(&"active_run"));
}

#[test]
fn checkpointed_status_is_dispatchable_for_resume() {
    let bead = sample_bead(GroveBeadStatus::Checkpointed, "task", &[], Some("run_456"), None);
    let context = sample_context(true, CircuitState::Closed, Vec::new());

    let eligibility = evaluate_dispatch_eligibility(&bead, &context);

    assert!(eligibility.dispatchable_in_grove);
    assert!(!eligibility.has_local_suppressions());
}

#[test]
fn retry_backoff_only_suppresses_while_timer_is_pending() {
    let blocked = sample_bead(
        GroveBeadStatus::WaitingToRetry,
        "task",
        &[],
        None,
        Some("2026-03-16T12:30:00Z"),
    );
    let expired = sample_bead(
        GroveBeadStatus::WaitingToRetry,
        "task",
        &[],
        None,
        Some("2026-03-16T11:30:00Z"),
    );
    let context = sample_context(true, CircuitState::Closed, Vec::new());

    let blocked_eligibility = evaluate_dispatch_eligibility(&blocked, &context);
    let expired_eligibility = evaluate_dispatch_eligibility(&expired, &context);

    assert!(suppression_codes(&blocked_eligibility).contains(&"retry_backoff_pending"));
    assert!(blocked_eligibility.has_local_suppressions());
    assert!(!expired_eligibility.has_local_suppressions());
    assert!(expired_eligibility.dispatchable_in_grove);
}

#[test]
fn circuit_open_and_reservation_conflict_suppress_dispatch() {
    let bead = sample_bead(GroveBeadStatus::Ready, "task", &[], None, None);
    let conflict = ReservationConflict {
        requested_by_bead: BeadId::new("grove-1j9.5.10"),
        conflicting_bead: BeadId::new("grove-1j9.5.4"),
        requested_pattern: "crates/grove-kernel/**".into(),
        held_pattern: "crates/grove-kernel/src/lib.rs".into(),
        conflicting_run_id: Some(RunId::new("run_conflict")),
    };
    let context = sample_context(true, CircuitState::Open, vec![conflict]);

    let eligibility = evaluate_dispatch_eligibility(&bead, &context);
    let reason_codes = suppression_codes(&eligibility);

    assert!(!eligibility.dispatchable_in_grove);
    assert!(reason_codes.contains(&"circuit_open"));
    assert!(reason_codes.contains(&"reservation_conflict"));
}

#[test]
fn succeeded_and_failed_beads_are_not_dispatchable() {
    let succeeded = sample_bead(GroveBeadStatus::Succeeded, "task", &[], None, None);
    let failed = sample_bead(GroveBeadStatus::Failed, "task", &[], None, None);
    let context = sample_context(true, CircuitState::Closed, Vec::new());

    let succeeded_eligibility = evaluate_dispatch_eligibility(&succeeded, &context);
    let failed_eligibility = evaluate_dispatch_eligibility(&failed, &context);

    assert!(suppression_codes(&succeeded_eligibility).contains(&"already_succeeded"));
    assert!(suppression_codes(&failed_eligibility).contains(&"failed_awaiting_manual_retry"));
}

#[test]
fn suppressions_follow_label_status_circuit_conflict_order() {
    let bead = sample_bead(GroveBeadStatus::Running, "task", &["dispatch:no"], Some("run_1"), None);
    let conflict = ReservationConflict {
        requested_by_bead: BeadId::new("grove-1j9.5.10"),
        conflicting_bead: BeadId::new("grove-other"),
        requested_pattern: "src/**".into(),
        held_pattern: "src/lib.rs".into(),
        conflicting_run_id: None,
    };
    let context = sample_context(true, CircuitState::Open, vec![conflict]);
    let reasons = collect_local_suppressions(&bead, &context);
    let codes: Vec<&str> = reasons.iter().map(LocalSuppressionReason::code).collect();
    assert_eq!(
        codes,
        vec!["suppressed_by_label", "active_run", "circuit_open", "reservation_conflict"]
    );
}

#[test]
fn dependency_snapshot_sanity_detects_self_edges_and_duplicates() {
    let snapshot = DependencySnapshot {
        bead_id: BeadId::new("grove-1"),
        blocked_by: vec![
            BeadId::new("grove-parent"),
            BeadId::new("grove-1"),
            BeadId::new("grove-parent"),
        ],
        blocks: vec![
            BeadId::new("grove-1"),
            BeadId::new("grove-child"),
            BeadId::new("grove-child"),
        ],
    };

    let issues = validate_dependency_snapshot(&snapshot);
    let codes: Vec<_> = issues.iter().map(DependencySnapshotIssue::code).collect();

    assert!(codes.contains(&"self_blocked_by"));
    assert!(codes.contains(&"self_blocks"));
    assert!(codes.contains(&"duplicate_blocked_by"));
    assert!(codes.contains(&"duplicate_blocks"));
}

#[test]
fn dependency_snapshot_duplicate_summary_names_the_count() {
    let snapshot = DependencySnapshot {
        bead_id: BeadId::new("grove-1"),
        blocked_by: vec![BeadId::new("grove-parent"), BeadId::new("grove-parent")],
        blocks: Vec::new(),
    };
    let issues = validate_dependency_snapshot(&snapshot);
    assert_eq!(issues.len(), 1);
    assert_eq!(
        issues[0].summary(),
        "cached dependency snapshot repeats blocker grove-parent 2 times"
    );
}

#[test]
fn dependency_snapshot_sanity_accepts_unique_non_self_edges() {
    let snapshot = DependencySnapshot {
        bead_id: BeadId::new("grove-1"),
        blocked_by: vec![BeadId::new("grove-parent")],
        blocks: vec![BeadId::new("grove-child")],
    };

    let sanity = DependencySnapshotSanity {
        snapshot: snapshot.clone(),
        issues: validate_dependency_snapshot(&snapshot),
    };

    assert!(sanity.is_sane());
    assert!(sanity.issues.is_empty());
}
