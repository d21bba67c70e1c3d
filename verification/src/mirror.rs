//! The mirror outbox: handoffs waiting to be copied to the issue tracker, the states
//! an entry moves through, when a failed entry is due again, and the reaction context a
//! failed copy raises.
use vstd::prelude::*;
use crate::dispatch::{mirror_backoff, mirror_backoff_minutes};
use crate::reactions::TriggerContext;
use crate::types::{
    AgentActivity, BeadId, CircuitState, EscalationTier, FailureClass, MirrorStatus, RunId, RunStatus,
    Timestamp,
};

verus! {

/// The bookkeeping of one outbox entry.
#[derive(Debug, Clone, PartialEq, Eq)]
pub struct MirrorEntryState {
    pub status: MirrorStatus,
    pub attempt_count: i32,
    pub last_attempt_at: Option<Timestamp>,
    pub next_retry_after: Option<Timestamp>,
    pub last_error: Option<String>,
    pub created_at: Timestamp,
    pub updated_at: Timestamp,
}

/// A new entry: pending, never attempted.
pub fn mirror_enqueued(now: Timestamp) -> (r: MirrorEntryState)
    ensures
        r.status == MirrorStatus::Pending,
        r.attempt_count == 0,
        r.last_attempt_at is None,
        r.next_retry_after is None,
        r.last_error is None,
        r.created_at == now,
        r.updated_at == now,
{
    MirrorEntryState {
        status: MirrorStatus::Pending,
        attempt_count: 0,
        last_attempt_at: None,
        next_retry_after: None,
        last_error: None,
        created_at: now,
        updated_at: now,
    }
}

fn copy_error(o: &Option<String>) -> (r: Option<String>)
    ensures
        r == *o,
{
    match o {
        Some(s) => Some(s.clone()),
        None => None,
    }
}

/// An attempt starts: the entry is in progress, one more attempt is counted and its
/// time recorded.
pub fn mirror_attempt_started(entry: &MirrorEntryState, now: Timestamp) -> (r: MirrorEntryState)
    requires
        entry.attempt_count < i32::MAX,
    ensures
        r.status == MirrorStatus::InProgress,
        r.attempt_count == entry.attempt_count + 1,
        r.last_attempt_at == Some(now),
        r.next_retry_after == entry.next_retry_after,
        r.last_error == entry.last_error,
        r.created_at == entry.created_at,
        r.updated_at == now,
{
    MirrorEntryState {
        status: MirrorStatus::InProgress,
        attempt_count: entry.attempt_count + 1,
        last_attempt_at: Some(now),
        next_retry_after: entry.next_retry_after,
        last_error: copy_error(&entry.last_error),
        created_at: entry.created_at,
        updated_at: now,
    }
}

/// The copy succeeded: the entry is done and its retry time and error are cleared.
pub fn mirror_succeeded(entry: &MirrorEntryState, now: Timestamp) -> (r: MirrorEntryState)
    ensures
        r.status == MirrorStatus::Succeeded,
        r.attempt_count == entry.attempt_count,
        r.last_attempt_at == match entry.last_attempt_at {
            Some(t) => Some(t),
            None => Some(now),
        },
        r.next_retry_after is None,
        r.last_error is None,
        r.created_at == entry.created_at,
        r.updated_at == now,
{
    MirrorEntryState {
        status: MirrorStatus::Succeeded,
        attempt_count: entry.attempt_count,
        last_attempt_at: match entry.last_attempt_at {
            Some(t) => Some(t),
            None => Some(now),
        },
        next_retry_after: None,
        last_error: None,
        created_at: entry.created_at,
        updated_at: now,
    }
}

/// The copy failed: the entry fails with the error and waits until `retry_after`.
pub fn mirror_failed(entry: &MirrorEntryState, error: &str, retry_after: Option<Timestamp>, now: Timestamp) -> (r: MirrorEntryState)
    ensures
        r.status == MirrorStatus::Failed,
        r.attempt_count == entry.attempt_count,
        r.last_attempt_at == match entry.last_attempt_at {
            Some(t) => Some(t),
            None => Some(now),
        },
        r.next_retry_after == retry_after,
        r.last_error matches Some(e) && e@ == error@,
        r.created_at == entry.created_at,
        r.updated_at == now,
{
    MirrorEntryState {
        status: MirrorStatus::Failed,
        attempt_count: entry.attempt_count,
        last_attempt_at: match entry.last_attempt_at {
            Some(t) => Some(t),
            None => Some(now),
        },
        next_retry_after: retry_after,
        last_error: Some(crate::text::owned(error)),
        created_at: entry.created_at,
        updated_at: now,
    }
}

/// Whether an entry is due for another attempt at `now`: it is pending or failed and
/// its retry time, if any, has come.
pub open spec fn mirror_due(entry: MirrorEntryState, now: Timestamp) -> bool {
    &&& (entry.status is Pending || entry.status is Failed)
    &&& match entry.next_retry_after {
        Some(t) => !now.earlier_than(t),
        None => true,
    }
}

pub fn is_mirror_due(entry: &MirrorEntryState, now: Timestamp) -> (r: bool)
    ensures
        r == mirror_due(*entry, now),
{
    let waiting = match entry.status {
        MirrorStatus::Pending | MirrorStatus::Failed => true,
        _ => false,
    };
    waiting && match entry.next_retry_after {
        Some(t) => !now.is_before(&t),
        None => true,
    }
}

/// The attempt number a failure is counted as: the attempts already recorded, plus one.
pub fn failed_attempt_number(attempt_count: i32) -> (r: u32)
    requires
        attempt_count < i32::MAX,
    ensures
        r == ((attempt_count + 1) as u32),
{
    (attempt_count + 1) as u32
}

/// The minutes a failed copy waits before its next attempt: one, doubling with each
/// attempt, at most thirty-two.
pub fn mirror_retry_minutes(attempt: u32) -> (r: i64)
    requires
        attempt >= 1,
    ensures
        r == mirror_backoff(attempt as nat),
{
    mirror_backoff_minutes(attempt)
}

/// The state of a run that a failed copy of its handoff raises reactions against.
pub fn mirror_failure_context(bead_id: &BeadId, run_id: &RunId, error: &str, attempt: u32) -> (r: TriggerContext)
    ensures
        r.bead_id == *bead_id,
        r.run_id == *run_id,
        r.run_status == RunStatus::Failed,
        r.activity == AgentActivity::Blocked,
        r.failure_class == Some(FailureClass::BrMirrorFailed),
        r.failure_detail matches Some(d) && d@ == error@,
        r.escalation_tier == EscalationTier::SecondAttempt,
        r.consecutive_failures == attempt,
        r.circuit_state == CircuitState::Closed,
        r.context_pressure_bp is None,
        r.mirror_failed,
{
    TriggerContext {
        bead_id: bead_id.duplicate(),
        run_id: run_id.duplicate(),
        run_status: RunStatus::Failed,
        activity: AgentActivity::Blocked,
        failure_class: Some(FailureClass::BrMirrorFailed),
        failure_detail: Some(crate::text::owned(error)),
        escalation_tier: EscalationTier::SecondAttempt,
        consecutive_failures: attempt,
        circuit_state: CircuitState::Closed,
        context_pressure_bp: None,
        mirror_failed: true,
    }
}

/// A succeeded entry is never attempted again; a failed entry is not due before its
/// retry time and is due from then on; a failure keeps the attempt count.
pub proof fn lemma_mirror_outbox_progress(entry: MirrorEntryState, error: Seq<char>, retry_after: Timestamp, now: Timestamp, later: Timestamp)
    ensures
        entry.status is Succeeded ==> !mirror_due(entry, later),
        (entry.status is Failed && entry.next_retry_after == Some(retry_after)) ==> (later.earlier_than(
            retry_after,
        ) ==> !mirror_due(entry, later)),
        (entry.status is Failed && entry.next_retry_after == Some(retry_after)) ==> (!later.earlier_than(
            retry_after,
        ) ==> mirror_due(entry, later)),
        (entry.status is Pending && entry.next_retry_after is None) ==> mirror_due(entry, later),
{
}

} // verus!
