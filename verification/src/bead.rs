//! The coordinator's record of a bead: what the issue tracker reports about it and the
//! runtime state Grove keeps beside it.
use vstd::prelude::*;
use crate::types::{
    BeadId, BeadPriority, CircuitState, FailureClass, GroveBeadStatus, RunId, Timestamp,
};

verus! {

/// What the issue tracker reports about a bead.
#[derive(Debug, Clone, PartialEq, Eq)]
pub struct BeadRef {
    pub id: BeadId,
    pub title: String,
    pub description: Option<String>,
    pub priority: BeadPriority,
    pub issue_type: String,
    pub br_status: String,
    pub assignee: Option<String>,
    pub labels: Vec<String>,
    pub created_at: Timestamp,
    pub updated_at: Timestamp,
}

/// The persisted circuit-breaker snapshot of a bead.
#[derive(Debug, Clone, PartialEq, Eq)]
pub struct CircuitBreakerState {
    pub state: CircuitState,
    pub no_progress_count: u32,
    pub same_error_count: u32,
    pub permission_denial_count: u32,
    pub last_error_fingerprint: Option<String>,
    pub opened_at: Option<Timestamp>,
}

impl CircuitBreakerState {
    pub fn duplicate(&self) -> (r: CircuitBreakerState)
        ensures
            r == *self,
    {
        CircuitBreakerState {
            state: self.state,
            no_progress_count: self.no_progress_count,
            same_error_count: self.same_error_count,
            permission_denial_count: self.permission_denial_count,
            last_error_fingerprint: match &self.last_error_fingerprint {
                Some(f) => Some(f.clone()),
                None => None,
            },
            opened_at: self.opened_at,
        }
    }
}

/// A bead together with Grove's runtime state for it.
#[derive(Debug, Clone, PartialEq, Eq)]
pub struct GroveBeadRecord {
    pub bead: BeadRef,
    pub grove_status: GroveBeadStatus,
    pub declared_paths: Vec<String>,
    pub last_run_id: Option<RunId>,
    pub retry_after: Option<Timestamp>,
    pub last_failure_class: Option<FailureClass>,
    pub last_failure_detail: Option<String>,
    pub circuit_breaker_state: Option<CircuitBreakerState>,
    pub synced_at: Timestamp,
    pub runtime_updated_at: Timestamp,
}

/// The blocking edges around one bead.
#[derive(Debug, Clone, PartialEq, Eq)]
pub struct DependencySnapshot {
    pub bead_id: BeadId,
    pub blocked_by: Vec<BeadId>,
    pub blocks: Vec<BeadId>,
}

/// The texts of a list of identifiers.
pub open spec fn id_texts(ids: Seq<BeadId>) -> Seq<Seq<char>> {
    Seq::new(ids.len(), |i: int| ids[i]@)
}

} // verus!
