use grove_core::codec::{encode_mirror_status, mirror_status_from_str};
use grove_core::dispatch::mirror_backoff_minutes;
use grove_core::mirror::{
    failed_attempt_number, is_mirror_due, mirror_attempt_started, mirror_enqueued, mirror_failed,
    mirror_failure_context, mirror_retry_minutes, mirror_succeeded,
};
use grove_core::rows::parse_timestamp;
use grove_core::types::{
    AgentActivity, BeadId, EscalationTier, FailureClass, MirrorStatus, RunId, RunStatus, Timestamp,
};

fn ts(text: &str) -> Timestamp {
    parse_timestamp(text).expect("valid timestamp")
}

fn check_in_progress() {
    let entry = mirror_enqueued(ts("2026-03-20T06:00:00Z"));
    let started = mirror_attempt_started(&entry, ts("2026-03-20T06:01:00Z"));
    assert_eq!(encode_mirror_status(started.status), "in_progress");
    assert_eq!(started.attempt_count, 1);
    assert!(started.last_attempt_at.is_some());
}

#[test]
fn lib_mark_mirror_in_progress_tracks_attempt_timestamp_and_count() {
    check_in_progress();
}

#[test]
fn tests_mark_mirror_in_progress_tracks_attempt_timestamp_and_count() {
    check_in_progress();
}

fn check_success_after_failure() {
    let entry = mirror_enqueued(ts("2026-03-20T06:05:00Z"));
    let started = mirror_attempt_started(&entry, ts("2026-03-20T06:06:00Z"));
    let failed = mirror_failed(
        &started,
        "temporary error",
        Some(ts("2026-03-20T06:10:00Z")),
        ts("2026-03-20T06:07:00Z"),
    );
    let done = mirror_succeeded(&failed, ts("2026-03-20T06:11:00Z"));
    assert_eq!(encode_mirror_status(done.status), "succeeded");
    assert_eq!(done.attempt_count, 1);
    assert!(done.last_attempt_at.is_some());
    assert!(done.next_retry_after.is_none());
    assert!(done.last_error.is_none());
}

#[test]
fn lib_record_mirror_success_clears_retry_metadata_and_links_bead_event() {
    check_success_after_failure();
}

#[test]
fn tests_record_mirror_success_clears_retry_metadata_and_links_bead_event() {
    check_success_after_failure();
}

fn check_failure_record() {
    let entry = mirror_enqueued(ts("2026-03-20T06:05:00Z"));
    let failed = mirror_failed(&entry, "br unavailable", None, ts("2026-03-20T06:07:00Z"));
    assert_eq!(failed.status, MirrorStatus::Failed);
    assert_eq!(failed.last_error.as_deref(), Some("br unavailable"));
    assert_eq!(failed.last_attempt_at, Some(ts("2026-03-20T06:07:00Z")));
    let ctx = mirror_failure_context(&BeadId::new("grove-mirror-failure"), &RunId::new("run-m"), "br unavailable", 1);
    assert_eq!(ctx.bead_id, BeadId::new("grove-mirror-failure"));
    assert_eq!(ctx.run_status, RunStatus::Failed);
    assert_eq!(ctx.activity, AgentActivity::Blocked);
    assert_eq!(ctx.failure_class, Some(FailureClass::BrMirrorFailed));
    assert_eq!(ctx.escalation_tier, EscalationTier::SecondAttempt);
    assert!(ctx.mirror_failed);
}

#[test]
fn lib_record_mirror_failure_links_event_to_bead() {
    check_failure_record();
}

#[test]
fn tests_record_mirror_failure_links_event_to_bead() {
    check_failure_record();
}

#[test]
fn mirror_due_waits_for_the_retry_time() {
    let entry = mirror_enqueued(ts("2026-03-20T06:00:00Z"));
    assert!(is_mirror_due(&entry, ts("2026-03-20T06:00:00Z")));
    let started = mirror_attempt_started(&entry, ts("2026-03-20T06:01:00Z"));
    assert!(!is_mirror_due(&started, ts("2026-03-20T07:00:00Z")));
    let failed = mirror_failed(&started, "boom", Some(ts("2026-03-20T06:10:00Z")), ts("2026-03-20T06:02:00Z"));
    assert!(!is_mirror_due(&failed, ts("2026-03-20T06:09:59Z")));
    assert!(is_mirror_due(&failed, ts("2026-03-20T06:10:00Z")));
    let done = mirror_succeeded(&failed, ts("2026-03-20T06:11:00Z"));
    assert!(!is_mirror_due(&done, ts("2026-03-20T08:00:00Z")));
}

#[test]
fn mirror_backoff_doubles_up_to_thirty_two_minutes() {
    let minutes: Vec<i64> = (1..=8).map(mirror_backoff_minutes).collect();
    assert_eq!(minutes, vec![1, 2, 4, 8, 16, 32, 32, 32]);
    assert_eq!(mirror_retry_minutes(3), 4);
    assert_eq!(failed_attempt_number(2), 3);
}

#[test]
fn mirror_status_text_round_trips() {
    for status in [
        MirrorStatus::Pending,
        MirrorStatus::InProgress,
        MirrorStatus::Succeeded,
        MirrorStatus::Failed,
    ] {
        assert_eq!(mirror_status_from_str(encode_mirror_status(status)), Some(status));
    }
    assert_eq!(mirror_status_from_str("done"), None);
}
