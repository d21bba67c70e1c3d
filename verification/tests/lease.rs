use grove_core::coordinator::{
    LeaderLeaseAcquireError, LeaderLeaseConfig, LeaderLeaseManager,
};
use grove_core::lease::{
    acquire_lease, active_leader_lease, heartbeat_lease, release_lease, LeaseOutcome,
};
use grove_core::records::LeaderLeaseRecord;
use grove_core::rows::parse_timestamp;
use grove_core::types::{RunId, Timestamp};

fn ts(text: &str) -> Timestamp {
    parse_timestamp(text).expect("valid timestamp")
}

fn held(outcome: LeaseOutcome) -> LeaderLeaseRecord {
    match outcome {
        LeaseOutcome::Held { lease } => lease,
        other => panic!("expected a held lease, got {other:?}"),
    }
}

fn lease_round_trip() {
    let mut slot: Option<LeaderLeaseRecord> = None;
    let acquired_at = ts("2026-03-16T12:00:00Z");
    let lease = held(acquire_lease(
        &mut slot,
        "leader-a",
        None,
        acquired_at,
        ts("2026-03-16T12:00:30Z"),
    ));
    assert_eq!(lease.owner_label, "leader-a");
    assert_eq!(lease.acquired_at, acquired_at);
    assert_eq!(lease.heartbeat_at, acquired_at);

    let contested = acquire_lease(
        &mut slot,
        "leader-b",
        None,
        acquired_at,
        ts("2026-03-16T12:00:45Z"),
    );
    assert_eq!(contested, LeaseOutcome::NotHeld);

    let heartbeat_at = ts("2026-03-16T12:00:10Z");
    let heartbeat = held(heartbeat_lease(
        &mut slot,
        "leader-a",
        heartbeat_at,
        ts("2026-03-16T12:00:40Z"),
    ));
    assert_eq!(heartbeat.heartbeat_at, heartbeat_at);
    assert_eq!(heartbeat.expires_at, ts("2026-03-16T12:00:40Z"));

    let release_at = ts("2026-03-16T12:00:20Z");
    let released = release_lease(&mut slot, "leader-a", release_at).unwrap();
    assert_eq!(released.owner_label, "leader-a");
    assert!(active_leader_lease(&slot, release_at).is_none());
}

#[test]
fn lib_leader_lease_acquire_heartbeat_and_release_round_trip() {
    lease_round_trip();
}

#[test]
fn tests_leader_lease_acquire_heartbeat_and_release_round_trip() {
    lease_round_trip();
}

#[test]
fn expired_lease_can_be_taken_by_another_owner() {
    let mut slot: Option<LeaderLeaseRecord> = None;
    held(acquire_lease(
        &mut slot,
        "leader-a",
        Some(RunId::new("run-1")),
        ts("2026-03-16T12:00:00Z"),
        ts("2026-03-16T12:00:30Z"),
    ));
    let later = ts("2026-03-16T12:00:30Z");
    assert!(active_leader_lease(&slot, later).is_none());
    assert_eq!(
        heartbeat_lease(&mut slot, "leader-a", later, ts("2026-03-16T12:01:00Z")),
        LeaseOutcome::NotHeld
    );
    let taken = held(acquire_lease(&mut slot, "leader-b", None, later, ts("2026-03-16T12:01:00Z")));
    assert_eq!(taken.owner_label, "leader-b");
    assert_eq!(taken.run_id, None);
}

#[test]
fn heartbeat_by_another_owner_changes_nothing() {
    let mut slot: Option<LeaderLeaseRecord> = None;
    held(acquire_lease(
        &mut slot,
        "leader-a",
        None,
        ts("2026-03-16T12:00:00Z"),
        ts("2026-03-16T12:00:30Z"),
    ));
    let before = slot.clone();
    assert_eq!(
        heartbeat_lease(&mut slot, "leader-b", ts("2026-03-16T12:00:05Z"), ts("2026-03-16T12:00:50Z")),
        LeaseOutcome::NotHeld
    );
    assert_eq!(slot, before);
    assert!(release_lease(&mut slot, "leader-b", ts("2026-03-16T12:00:06Z")).is_none());
    assert_eq!(slot, before);
}

#[test]
fn lease_written_already_expired_is_reported() {
    let mut slot: Option<LeaderLeaseRecord> = None;
    let now = ts("2026-03-16T12:00:00Z");
    assert_eq!(
        acquire_lease(&mut slot, "leader-a", None, now, now),
        LeaseOutcome::ExpiredOnWrite
    );
}

#[test]
fn leader_lease_manager_round_trips_acquire_heartbeat_and_release() {
    let mut slot: Option<LeaderLeaseRecord> = None;
    let config = LeaderLeaseConfig {
        owner_label: "worker-a".to_owned(),
        lease_ttl_ms: 30_000,
    };
    let acquired_at = ts("2026-03-16T12:00:00Z");
    let heartbeat_at = ts("2026-03-16T12:00:05Z");
    let release_at = ts("2026-03-16T12:00:10Z");

    let lease = LeaderLeaseManager::acquire(&mut slot, &config, None, acquired_at).unwrap();
    assert_eq!(lease.owner_label, "worker-a");
    assert_eq!(lease.acquired_at, acquired_at);
    assert_eq!(lease.expires_at, ts("2026-03-16T12:00:30Z"));

    let heartbeat = LeaderLeaseManager::heartbeat(&mut slot, &config, heartbeat_at)
        .unwrap()
        .expect("heartbeat should refresh owned lease");
    assert_eq!(heartbeat.heartbeat_at, heartbeat_at);
    assert_eq!(heartbeat.expires_at, ts("2026-03-16T12:00:35Z"));

    let released = LeaderLeaseManager::release(&mut slot, "worker-a", release_at)
        .expect("release should return the lease record");
    assert_eq!(released.owner_label, "worker-a");
    assert!(active_leader_lease(&slot, release_at).is_none());
}

#[test]
fn leader_lease_manager_reports_contested_owner() {
    let mut slot: Option<LeaderLeaseRecord> = None;
    let first = LeaderLeaseConfig {
        owner_label: "worker-a".to_owned(),
        lease_ttl_ms: 30_000,
    };
    let second = LeaderLeaseConfig {
        owner_label: "worker-b".to_owned(),
        lease_ttl_ms: 30_000,
    };
    let now = ts("2026-03-16T12:00:00Z");

    LeaderLeaseManager::acquire(&mut slot, &first, None, now).unwrap();
    let error = LeaderLeaseManager::acquire(&mut slot, &second, None, now)
        .expect_err("second owner should be rejected while first lease is active");

    assert_eq!(
        error,
        LeaderLeaseAcquireError::Contested {
            owner_label: "worker-a".to_owned(),
        }
    );
    assert_eq!(
        error.to_string(),
        "leader lease conflict: another leader is active (owner: worker-a)"
    );
}

#[test]
fn heartbeat_without_a_lease_reports_none() {
    let mut slot: Option<LeaderLeaseRecord> = None;
    let config = LeaderLeaseConfig {
        owner_label: "worker-a".to_owned(),
        lease_ttl_ms: 30_000,
    };
    assert_eq!(
        LeaderLeaseManager::heartbeat(&mut slot, &config, ts("2026-03-16T12:00:00Z")),
        Ok(None)
    );
    assert!(slot.is_none());
}

#[test]
fn lease_expiry_carries_milliseconds_into_seconds() {
    let mut slot: Option<LeaderLeaseRecord> = None;
    let config = LeaderLeaseConfig {
        owner_label: "worker-a".to_owned(),
        lease_ttl_ms: 1_500,
    };
    let lease = LeaderLeaseManager::acquire(&mut slot, &config, None, ts("2026-03-16T12:00:00.750Z")).unwrap();
    assert_eq!(lease.expires_at, ts("2026-03-16T12:00:02.250Z"));
}
