use grove_core::records::RecoveryReason;
use grove_core::reservation::{
    active_declared_paths, conflicts_for_requests, expired_reservations, granted_reservation,
    releasable_reservations, reservation_batch_outcome, run_is_terminal, stale_reservations, ReservationRecord,
    ReservationRequest,
};
use grove_core::rows::parse_timestamp;
use grove_core::types::{BeadId, ReservationMode, RunId, RunStatus, Timestamp};

fn ts(text: &str) -> Timestamp {
    parse_timestamp(text).expect("valid timestamp")
}

fn record(id: i64, bead: &str, run: Option<&str>, pattern: &str, mode: ReservationMode, expires: &str) -> ReservationRecord {
    ReservationRecord {
        id,
        bead_id: BeadId::new(bead),
        run_id: run.map(RunId::new),
        path_pattern: pattern.to_owned(),
        mode,
        reason: None,
        expires_at: ts(expires),
        released_at: None,
    }
}

fn check_held_run_id() {
    let active = vec![record(
        1,
        "grove-held",
        None,
        "crates/grove-db/src/lib.rs",
        ReservationMode::Exclusive,
        "2099-03-16T12:30:00Z",
    )];
    let requests = vec![ReservationRequest {
        path_pattern: "crates/grove-db/src/lib.rs".to_owned(),
        mode: ReservationMode::Exclusive,
        reason: Some("request work".to_owned()),
        expires_at: ts("2099-03-16T13:00:00Z"),
    }];
    let conflicts = conflicts_for_requests(&BeadId::new("grove-request"), &requests, &active);
    assert_eq!(conflicts.len(), 1);
    assert_eq!(conflicts[0].conflicting_bead.as_str(), "grove-held");
    assert_eq!(conflicts[0].conflicting_run_id, None);
    assert_eq!(conflicts[0].requested_by_bead.as_str(), "grove-request");
}

#[test]
fn lib_reservation_acquire_reports_held_run_id_without_falling_back_to_request_run() {
    check_held_run_id();
}

#[test]
fn tests_reservation_acquire_reports_held_run_id_without_falling_back_to_request_run() {
    check_held_run_id();
}

#[test]
fn shared_requests_pass_shared_holders_and_own_bead_never_conflicts() {
    let active = vec![
        record(1, "grove-a", Some("run-a"), "src/**", ReservationMode::Shared, "2099-01-01T00:00:00Z"),
        record(2, "grove-me", Some("run-me"), "src/lib.rs", ReservationMode::Exclusive, "2099-01-01T00:00:00Z"),
    ];
    let shared = vec![ReservationRequest {
        path_pattern: "src/lib.rs".to_owned(),
        mode: ReservationMode::Shared,
        reason: None,
        expires_at: ts("2099-01-01T00:00:00Z"),
    }];
    assert!(conflicts_for_requests(&BeadId::new("grove-me"), &shared, &active).is_empty());
    let exclusive = vec![ReservationRequest {
        path_pattern: "src/lib.rs".to_owned(),
        mode: ReservationMode::Exclusive,
        reason: None,
        expires_at: ts("2099-01-01T00:00:00Z"),
    }];
    let conflicts = conflicts_for_requests(&BeadId::new("grove-me"), &exclusive, &active);
    assert_eq!(conflicts.len(), 1);
    assert_eq!(conflicts[0].held_pattern, "src/**");
    assert_eq!(conflicts[0].conflicting_run_id, Some(RunId::new("run-a")));
}

fn check_stale_recovery() {
    let active = vec![
        record(1, "grove-reservation", Some("run-terminal"), "crates/grove-db/src/lib.rs", ReservationMode::Exclusive, "2099-03-16T12:30:00Z"),
        record(2, "grove-other", Some("run-live"), "docs/**", ReservationMode::Shared, "2099-03-16T12:30:00Z"),
        record(3, "grove-other", None, "README.md", ReservationMode::Shared, "2099-03-16T12:30:00Z"),
    ];
    let statuses = vec![Some(RunStatus::Failed), Some(RunStatus::Active), None];
    let recovered = stale_reservations(&active, &statuses);
    assert_eq!(recovered.len(), 1);
    assert_eq!(recovered[0].reservation.path_pattern, "crates/grove-db/src/lib.rs");
    assert_eq!(recovered[0].reason, RecoveryReason::RunNoLongerActive);
}

#[test]
fn lib_recover_stale_reservations_releases_terminal_run_claims() {
    check_stale_recovery();
}

#[test]
fn tests_recover_stale_reservations_releases_terminal_run_claims() {
    check_stale_recovery();
}

#[test]
fn run_is_terminal_only_for_known_inactive_runs() {
    assert!(!run_is_terminal(None));
    assert!(!run_is_terminal(Some(RunStatus::Active)));
    assert!(run_is_terminal(Some(RunStatus::Checkpointed)));
    assert!(run_is_terminal(Some(RunStatus::Succeeded)));
}

#[test]
fn expiry_sweep_takes_unreleased_reservations_at_or_past_expiry() {
    let mut released = record(3, "grove-a", None, "c", ReservationMode::Shared, "2026-03-16T11:00:00Z");
    released.released_at = Some(ts("2026-03-16T10:30:00Z"));
    let records = vec![
        record(1, "grove-a", None, "a", ReservationMode::Shared, "2026-03-16T12:00:00Z"),
        record(2, "grove-a", None, "b", ReservationMode::Shared, "2026-03-16T12:00:01Z"),
        released,
    ];
    let now = ts("2026-03-16T12:00:00Z");
    let expired = expired_reservations(&records, now);
    assert_eq!(expired.iter().map(|r| r.id).collect::<Vec<_>>(), vec![1]);
    assert_eq!(active_declared_paths(&records, now), vec!["b".to_owned()]);
}

#[test]
fn release_takes_unreleased_matching_run_and_patterns() {
    let mut released = record(4, "grove-a", Some("run-1"), "d", ReservationMode::Shared, "2099-01-01T00:00:00Z");
    released.released_at = Some(ts("2026-03-16T10:30:00Z"));
    let records = vec![
        record(1, "grove-a", Some("run-1"), "a", ReservationMode::Shared, "2099-01-01T00:00:00Z"),
        record(2, "grove-a", Some("run-2"), "b", ReservationMode::Shared, "2099-01-01T00:00:00Z"),
        record(3, "grove-a", None, "c", ReservationMode::Shared, "2099-01-01T00:00:00Z"),
        released,
    ];
    let ids = |v: Vec<ReservationRecord>| v.iter().map(|r| r.id).collect::<Vec<_>>();
    assert_eq!(ids(releasable_reservations(&records, None, None)), vec![1, 2, 3]);
    assert_eq!(ids(releasable_reservations(&records, Some(&RunId::new("run-1")), None)), vec![1]);
    let patterns = vec!["b".to_owned(), "c".to_owned()];
    assert_eq!(ids(releasable_reservations(&records, None, Some(&patterns))), vec![2, 3]);
}

#[test]
fn granted_reservation_copies_the_request() {
    let request = ReservationRequest {
        path_pattern: "src/**".to_owned(),
        mode: ReservationMode::Exclusive,
        reason: Some("work".to_owned()),
        expires_at: ts("2099-01-01T00:00:00Z"),
    };
    let run = RunId::new("run-9");
    let granted = granted_reservation(42, &BeadId::new("grove-9"), Some(&run), &request);
    assert_eq!(granted.id, 42);
    assert_eq!(granted.run_id, Some(run));
    assert_eq!(granted.path_pattern, "src/**");
    assert_eq!(granted.reason.as_deref(), Some("work"));
    assert_eq!(granted.released_at, None);
}

fn request(pattern: &str) -> ReservationRequest {
    ReservationRequest {
        path_pattern: pattern.to_owned(),
        mode: ReservationMode::Exclusive,
        reason: Some("dispatch".to_owned()),
        expires_at: ts("2099-03-16T13:00:00Z"),
    }
}

#[test]
fn a_reservation_batch_is_granted_whole_or_not_at_all() {
    let active = vec![record(1, "grove-held", Some("run-held"), "src/lib.rs", ReservationMode::Exclusive, "2099-03-16T12:30:00Z")];
    let bead = BeadId::new("grove-new");
    let run = RunId::new("run-new");
    let refused = reservation_batch_outcome(&bead, Some(&run), &vec![request("docs/*.md"), request("src/*.rs")], &active, &Vec::new());
    assert!(refused.acquired.is_empty());
    assert_eq!(refused.conflicts.len(), 1);
    assert_eq!(refused.conflicts[0].requested_pattern, "src/*.rs");
    let requests = vec![request("docs/*.md"), request("tests/*.rs")];
    let granted = reservation_batch_outcome(&bead, Some(&run), &requests, &active, &vec![7, 8]);
    assert!(granted.conflicts.is_empty());
    assert_eq!(granted.acquired.len(), 2);
    assert_eq!(granted.acquired[1].id, 8);
    assert_eq!(granted.acquired[1].path_pattern, "tests/*.rs");
    assert_eq!(granted.acquired[1].run_id, Some(run));
    assert_eq!(granted.acquired[0].released_at, None);
}
