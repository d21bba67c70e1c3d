use grove_core::bead::{BeadRef, GroveBeadRecord};
use grove_core::blocked::{blocked_ready_beads, count_reasons, summarize_blocked};
use grove_core::dispatch::BlockedSampleReason;
use grove_core::eligibility::LocalSuppressionReason;
use grove_core::reservation::ReservationConflict;
use grove_core::rows::parse_timestamp;
use grove_core::types::{BeadId, BeadPriority, GroveBeadStatus, Timestamp};

fn ts(text: &str) -> Timestamp {
    parse_timestamp(text).expect("valid timestamp")
}

fn bead(id: &str, status: GroveBeadStatus, labels: &[&str]) -> GroveBeadRecord {
    let at = ts("2026-03-16T10:00:00Z");
    GroveBeadRecord {
        bead: BeadRef {
            id: BeadId::new(id),
            title: id.to_owned(),
            description: None,
            priority: BeadPriority::P2,
            issue_type: "task".into(),
            br_status: "open".into(),
            assignee: None,
            labels: labels.iter().map(|l| (*l).to_owned()).collect(),
            created_at: at,
            updated_at: at,
        },
        grove_status: status,
        declared_paths: Vec::new(),
        last_run_id: None,
        retry_after: None,
        last_failure_class: None,
        last_failure_detail: None,
        circuit_breaker_state: None,
        synced_at: at,
        runtime_updated_at: at,
    }
}

fn reason(code: &'static str, summary: &str) -> BlockedSampleReason {
    BlockedSampleReason { code, summary: summary.to_owned() }
}

#[test]
fn blocked_ready_beads_lists_held_back_ready_work_in_order() {
    let beads = vec![
        bead("grove-ok", GroveBeadStatus::Ready, &[]),
        bead("grove-failed", GroveBeadStatus::Failed, &[]),
        bead("grove-not-ready", GroveBeadStatus::Failed, &[]),
        bead("grove-labelled", GroveBeadStatus::Ready, &["dispatch:no"]),
        bead("grove-conflict", GroveBeadStatus::Ready, &[]),
    ];
    let ready = vec![
        BeadId::new("grove-ok"),
        BeadId::new("grove-failed"),
        BeadId::new("grove-labelled"),
        BeadId::new("grove-conflict"),
    ];
    let conflicts = vec![ReservationConflict {
        requested_by_bead: BeadId::new("grove-other"),
        conflicting_bead: BeadId::new("grove-conflict"),
        requested_pattern: "src/**".into(),
        held_pattern: "src/lib.rs".into(),
        conflicting_run_id: None,
    }];
    let blocked = blocked_ready_beads(&beads, &ready, &conflicts, ts("2026-03-16T12:00:00Z"));
    let positions: Vec<usize> = blocked.iter().map(|(p, _)| *p).collect();
    assert_eq!(positions, vec![1, 3, 4]);
    assert_eq!(blocked[0].1, vec![LocalSuppressionReason::FailedAwaitingManualRetry]);
    assert_eq!(blocked[1].1[0].code(), "suppressed_by_label");
    assert_eq!(blocked[2].1[0].code(), "reservation_conflict");
}

#[test]
fn reasons_are_counted_by_code_then_summary() {
    let reasons = vec![
        reason("retry_backoff_pending", "waiting"),
        reason("active_run", "run b"),
        reason("active_run", "run a"),
        reason("retry_backoff_pending", "waiting"),
        reason("active_run", "run b"),
    ];
    let counts = count_reasons(&reasons);
    let view: Vec<(&str, &str, usize)> = counts
        .iter()
        .map(|c| (c.code, c.summary.as_str(), c.count))
        .collect();
    assert_eq!(
        view,
        vec![
            ("active_run", "run a", 1),
            ("active_run", "run b", 2),
            ("retry_backoff_pending", "waiting", 2),
        ]
    );
    assert!(count_reasons(&Vec::new()).is_empty());
}

#[test]
fn summary_names_at_most_three_sample_beads() {
    let beads: Vec<GroveBeadRecord> = (0..4)
        .map(|k| bead(&format!("grove-{k}"), GroveBeadStatus::Failed, &[]))
        .collect();
    let blocked: Vec<(usize, Vec<BlockedSampleReason>)> = (0..4)
        .map(|k| (k, vec![reason("failed_awaiting_manual_retry", "failed")]))
        .collect();
    let summary = summarize_blocked(&beads, &blocked).expect("some beads are blocked");
    assert_eq!(summary.blocked_ready_count, 4);
    assert_eq!(summary.reason_counts.len(), 1);
    assert_eq!(summary.reason_counts[0].count, 4);
    assert_eq!(summary.sample_beads.len(), 3);
    assert_eq!(summary.sample_beads[2].bead_id, BeadId::new("grove-2"));
    assert!(summarize_blocked(&beads, &Vec::new()).is_none());
}
