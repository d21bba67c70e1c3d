use grove_core::bead::{BeadRef, CircuitBreakerState, GroveBeadRecord};
use grove_core::dispatch::{
    consecutive_failures_from_history, lease_renew_interval, score_bead, select_best_candidate,
    select_best_candidate_excluding, DispatchExitReason,
};
use grove_core::eligibility::circuit_state_for_bead;
use grove_core::records::TaskRunRecord;
use grove_core::reservation::reservation_patterns_overlap;
use grove_core::rows::parse_timestamp;
use grove_core::types::{
    BeadId, BeadPriority, CircuitState, EscalationTier, FailureClass, GroveBeadStatus, RunId,
    RunStatus, Timestamp,
};

const RETRY_PENALTY: i32 = 10;

fn ts(text: &str) -> Timestamp {
    parse_timestamp(text).expect("valid timestamp")
}

fn sample_bead(bead_id: &str, priority: BeadPriority, grove_status: GroveBeadStatus) -> GroveBeadRecord {
    let created_at = ts("2026-03-16T10:00:00Z");
    let updated_at = ts("2026-03-16T11:00:00Z");
    GroveBeadRecord {
        bead: BeadRef {
            id: BeadId::new(bead_id),
            title: format!("bead {bead_id}"),
            description: None,
            priority,
            issue_type: "task".into(),
            br_status: "open".into(),
            assignee: None,
            labels: Vec::new(),
            created_at,
            updated_at,
        },
        grove_status,
        declared_paths: Vec::new(),
        last_run_id: None,
        retry_after: None,
        last_failure_class: None,
        last_failure_detail: None,
        circuit_breaker_state: None,
        synced_at: updated_at,
        runtime_updated_at: updated_at,
    }
}

fn all_ids(beads: &[GroveBeadRecord]) -> Vec<BeadId> {
    beads.iter().map(|b| b.bead.id.clone()).collect()
}

fn picked<'a>(beads: &'a [GroveBeadRecord], index: Option<usize>) -> Option<&'a str> {
    index.map(|i| beads[i].bead.id.as_str())
}

fn check_overlap_cases() {
    assert!(reservation_patterns_overlap(
        "crates/grove-db/src/lib.rs",
        "crates/grove-db/src/lib.rs"
    ));
    assert!(reservation_patterns_overlap(
        "crates/grove-db/src/lib.rs",
        "crates/grove-db/src/*"
    ));
    assert!(reservation_patterns_overlap(
        "crates/grove-db/src/*",
        "crates/grove-db/src/lib.rs"
    ));
    assert!(reservation_patterns_overlap(
        "crates/grove-db/**",
        "crates/grove-db/src/lib.rs"
    ));
    assert!(reservation_patterns_overlap(
        "crates/grove-db/src/*.rs",
        "crates/grove-db/src/lib.rs"
    ));
    assert!(reservation_patterns_overlap(
        "crates/grove-db/src/lib.rs",
        "crates/grove-db/src/*.rs"
    ));
    assert!(reservation_patterns_overlap(
        "crates/grove-db/src/**",
        "crates/grove-db/src/nested/lib.rs"
    ));
    assert!(!reservation_patterns_overlap(
        "crates/grove-db/src/*.rs",
        "crates/grove-db/src/nested/lib.rs"
    ));
    assert!(!reservation_patterns_overlap(
        "crates/grove-db/src/*.rs",
        "crates/grove-db/tests/*.rs"
    ));
    assert!(!reservation_patterns_overlap(
        "crates/grove-db/src/lib.rs",
        "crates/grove-kernel/src/lib.rs"
    ));
    assert!(!reservation_patterns_overlap("*.rs", "Cargo.toml"));
}

#[test]
fn lib_reservation_patterns_overlap_handles_file_and_common_glob_cases() {
    check_overlap_cases();
}

#[test]
fn tests_reservation_patterns_overlap_handles_file_and_common_glob_cases() {
    check_overlap_cases();
}

#[test]
fn reservation_overlap_ignores_surrounding_space_and_trailing_slash() {
    assert!(reservation_patterns_overlap(" src/lib.rs ", "src/lib.rs"));
    assert!(!reservation_patterns_overlap("./src/lib.rs", "src/lib.rs"));
    assert!(reservation_patterns_overlap("src/", "src"));
}

#[test]
fn dispatch_exit_reason_display() {
    assert_eq!(
        DispatchExitReason::QueueEmpty.to_string(),
        "no dispatchable beads remain"
    );
    assert_eq!(
        DispatchExitReason::DispatchBlocked.to_string(),
        "ready beads are blocked by local Grove state"
    );
    assert_eq!(
        DispatchExitReason::MaxRunsReached.to_string(),
        "reached max total runs"
    );
    assert_eq!(
        DispatchExitReason::LeaderContested.to_string(),
        "leader lease contested"
    );
    assert_eq!(
        DispatchExitReason::MaxPollCycles { limit: 100 }.to_string(),
        "exceeded max poll cycles (100)"
    );
}

#[test]
fn select_best_candidate_picks_highest_priority() {
    let beads = vec![
        sample_bead("grove-low", BeadPriority::P3, GroveBeadStatus::Ready),
        sample_bead("grove-high", BeadPriority::P0, GroveBeadStatus::Ready),
        sample_bead("grove-mid", BeadPriority::P1, GroveBeadStatus::Ready),
    ];
    let ready_ids = all_ids(&beads);
    let now = ts("2026-03-16T12:00:00Z");

    let result = select_best_candidate(&beads, &ready_ids, RETRY_PENALTY, now);
    assert_eq!(picked(&beads, result), Some("grove-high"));
}

#[test]
fn select_best_candidate_skips_running_beads() {
    let beads = vec![
        sample_bead("grove-running", BeadPriority::P0, GroveBeadStatus::Running),
        sample_bead("grove-ready", BeadPriority::P1, GroveBeadStatus::Ready),
    ];
    let ready_ids = all_ids(&beads);
    let now = ts("2026-03-16T12:00:00Z");

    let result = select_best_candidate(&beads, &ready_ids, RETRY_PENALTY, now);
    assert_eq!(picked(&beads, result), Some("grove-ready"));
}

#[test]
fn select_best_candidate_returns_none_when_no_eligible() {
    let beads = vec![
        sample_bead("grove-running", BeadPriority::P0, GroveBeadStatus::Running),
        sample_bead("grove-succeeded", BeadPriority::P1, GroveBeadStatus::Succeeded),
    ];
    let ready_ids = all_ids(&beads);
    let now = ts("2026-03-16T12:00:00Z");

    let result = select_best_candidate(&beads, &ready_ids, RETRY_PENALTY, now);
    assert!(result.is_none());
}

#[test]
fn select_best_candidate_only_considers_br_ready_beads() {
    let beads = vec![
        sample_bead("grove-ready-both", BeadPriority::P2, GroveBeadStatus::Ready),
        sample_bead("grove-ready-local-only", BeadPriority::P0, GroveBeadStatus::Ready),
    ];
    let ready_ids = vec![BeadId::new("grove-ready-both")];
    let now = ts("2026-03-16T12:00:00Z");

    let result = select_best_candidate(&beads, &ready_ids, RETRY_PENALTY, now);
    assert_eq!(picked(&beads, result), Some("grove-ready-both"));
}

#[test]
fn select_best_candidate_excluding_skips_inflight_beads() {
    let beads = vec![
        sample_bead("grove-p0", BeadPriority::P0, GroveBeadStatus::Ready),
        sample_bead("grove-p1", BeadPriority::P1, GroveBeadStatus::Ready),
        sample_bead("grove-p2", BeadPriority::P2, GroveBeadStatus::Ready),
    ];
    let ready_ids = all_ids(&beads);
    let excluded_ids = vec![BeadId::new("grove-p0")];
    let now = ts("2026-03-16T12:00:00Z");

    let result =
        select_best_candidate_excluding(&beads, &ready_ids, &excluded_ids, RETRY_PENALTY, now);
    assert_eq!(picked(&beads, result), Some("grove-p1"));
}

#[test]
fn select_best_candidate_keeps_first_of_equal_scores() {
    let beads = vec![
        sample_bead("grove-first", BeadPriority::P1, GroveBeadStatus::Ready),
        sample_bead("grove-second", BeadPriority::P1, GroveBeadStatus::Ready),
    ];
    let ready_ids = all_ids(&beads);
    let now = ts("2026-03-16T12:00:00Z");
    let result = select_best_candidate(&beads, &ready_ids, RETRY_PENALTY, now);
    assert_eq!(picked(&beads, result), Some("grove-first"));
}

#[test]
fn select_best_candidate_waits_for_pending_retry_timer() {
    let mut waiting = sample_bead("grove-waiting", BeadPriority::P0, GroveBeadStatus::WaitingToRetry);
    waiting.retry_after = Some(ts("2026-03-16T13:00:00Z"));
    let beads = vec![waiting, sample_bead("grove-ready", BeadPriority::P3, GroveBeadStatus::Ready)];
    let ready_ids = all_ids(&beads);

    let before = select_best_candidate(&beads, &ready_ids, RETRY_PENALTY, ts("2026-03-16T12:00:00Z"));
    assert_eq!(picked(&beads, before), Some("grove-ready"));
    let after = select_best_candidate(&beads, &ready_ids, RETRY_PENALTY, ts("2026-03-16T14:00:00Z"));
    assert_eq!(picked(&beads, after), Some("grove-waiting"));
}

#[test]
fn lease_renew_interval_uses_one_third_of_ttl() {
    assert_eq!(lease_renew_interval(90), 30);
    assert_eq!(lease_renew_interval(2), 1);
}

#[test]
fn lease_renew_interval_never_drops_below_one_millisecond() {
    assert_eq!(lease_renew_interval(0), 1);
    assert_eq!(lease_renew_interval(30_000), 10_000);
}

#[test]
fn score_bead_applies_retry_penalty() {
    let ready = sample_bead("grove-ready", BeadPriority::P1, GroveBeadStatus::Ready);
    let retrying = sample_bead("grove-retrying", BeadPriority::P1, GroveBeadStatus::WaitingToRetry);

    let score_ready = score_bead(&ready, RETRY_PENALTY);
    let score_retrying = score_bead(&retrying, RETRY_PENALTY);

    assert!(score_ready > score_retrying);
    assert_eq!(score_ready - score_retrying, i64::from(RETRY_PENALTY));
}

#[test]
fn score_bead_follows_priority_table() {
    let scores: Vec<i64> = [
        BeadPriority::P0,
        BeadPriority::P1,
        BeadPriority::P2,
        BeadPriority::P3,
        BeadPriority::P4,
    ]
    .into_iter()
    .map(|p| score_bead(&sample_bead("grove-x", p, GroveBeadStatus::Ready), RETRY_PENALTY))
    .collect();
    assert_eq!(scores, vec![100, 75, 50, 25, 10]);
}

fn breaker_bead() -> GroveBeadRecord {
    let mut bead = sample_bead("grove-breaker", BeadPriority::P1, GroveBeadStatus::Failed);
    bead.bead.title = "breaker bead".into();
    bead.last_failure_class = Some(FailureClass::NoProgress);
    bead.last_failure_detail = Some("still stuck".into());
    bead.circuit_breaker_state = Some(CircuitBreakerState {
        state: CircuitState::Open,
        no_progress_count: 3,
        same_error_count: 0,
        permission_denial_count: 0,
        last_error_fingerprint: Some("same-error".into()),
        opened_at: Some(ts("2026-03-16T11:00:00Z")),
    });
    bead
}

#[test]
fn circuit_state_for_bead_uses_persisted_breaker_snapshot() {
    assert_eq!(circuit_state_for_bead(&breaker_bead()), CircuitState::Open);
}

#[test]
fn lib_circuit_state_for_bead_uses_persisted_breaker_snapshot() {
    assert_eq!(circuit_state_for_bead(&breaker_bead()), CircuitState::Open);
}

#[test]
fn tests_circuit_state_for_bead_uses_persisted_breaker_snapshot() {
    assert_eq!(circuit_state_for_bead(&breaker_bead()), CircuitState::Open);
}

#[test]
fn circuit_state_defaults_to_closed_without_snapshot() {
    let bead = sample_bead("grove-plain", BeadPriority::P1, GroveBeadStatus::Ready);
    assert_eq!(circuit_state_for_bead(&bead), CircuitState::Closed);
}

fn run_record(id: &str, attempt_no: i32, status: RunStatus) -> TaskRunRecord {
    TaskRunRecord {
        id: RunId::new(id),
        bead_id: BeadId::new("grove-streak"),
        attempt_no,
        status,
        failure_class: Some(FailureClass::NoProgress),
        failure_detail: Some("failure".into()),
        started_at: ts("2026-03-16T10:00:00Z"),
        ended_at: Some(ts("2026-03-16T10:05:00Z")),
        session_count: 0,
        checkpoint_count: 0,
        last_checkpoint_id: None,
        activity: None,
        last_activity_at: None,
        escalation_tier: EscalationTier::FirstAttempt,
    }
}

#[test]
fn consecutive_failures_comes_from_durable_run_history() {
    let runs = vec![
        run_record("run-grove-streak-1", 1, RunStatus::WaitingToRetry),
        run_record("run-grove-streak-2", 2, RunStatus::WaitingToRetry),
    ];
    assert_eq!(
        consecutive_failures_from_history(
            Some(&runs),
            &RunId::new("run-grove-streak-2"),
            RunStatus::WaitingToRetry
        ),
        2
    );
}

#[test]
fn consecutive_failures_stops_at_last_success_and_ignores_later_attempts() {
    let runs = vec![
        run_record("run-4", 4, RunStatus::Failed),
        run_record("run-1", 1, RunStatus::Failed),
        run_record("run-2", 2, RunStatus::Succeeded),
        run_record("run-3", 3, RunStatus::Failed),
    ];
    let current = RunId::new("run-3");
    assert_eq!(consecutive_failures_from_history(Some(&runs), &current, RunStatus::Failed), 1);
    assert_eq!(consecutive_failures_from_history(Some(&runs), &current, RunStatus::Succeeded), 0);
    assert_eq!(consecutive_failures_from_history(None, &current, RunStatus::Failed), 1);
    assert_eq!(
        consecutive_failures_from_history(Some(&runs), &RunId::new("run-9"), RunStatus::Failed),
        1
    );
}
