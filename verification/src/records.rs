//! Durable records of runs, sessions, handoffs and the leader lease.
use vstd::prelude::*;
use crate::types::{
    AgentActivity, BeadId, CheckpointId, EscalationTier, FailureClass, PromptId, RunId,
    RunStatus, SessionId, SessionStatus, StopReason, Timestamp,
};

verus! {

/// One run (attempt) of a bead.
#[derive(Debug, Clone, PartialEq, Eq)]
pub struct TaskRunRecord {
    pub id: RunId,
    pub bead_id: BeadId,
    pub attempt_no: i32,
    pub status: RunStatus,
    pub failure_class: Option<FailureClass>,
    pub failure_detail: Option<String>,
    pub started_at: Timestamp,
    pub ended_at: Option<Timestamp>,
    pub session_count: i32,
    pub checkpoint_count: i32,
    pub last_checkpoint_id: Option<CheckpointId>,
    pub activity: Option<AgentActivity>,
    pub last_activity_at: Option<Timestamp>,
    pub escalation_tier: EscalationTier,
}

/// One agent session inside a run.
#[derive(Debug, Clone, PartialEq, Eq)]
pub struct ClaudeSessionRecord {
    pub id: SessionId,
    pub run_id: RunId,
    pub external_session_id: Option<String>,
    pub ordinal_in_run: i32,
    pub status: SessionStatus,
    pub started_at: Timestamp,
    pub ended_at: Option<Timestamp>,
    pub prompt_id: Option<PromptId>,
    pub prompt_manifest_path: Option<String>,
    pub prompt_bytes: i32,
    pub estimated_input_tokens: i32,
    pub estimated_output_tokens: i32,
    pub exit_code: Option<i32>,
    pub stop_reason: Option<StopReason>,
    pub transcript_path: String,
}

/// What a finished run hands to the beads that depend on it.
#[derive(Debug, Clone, PartialEq, Eq)]
pub struct HandoffRecord {
    pub bead_id: BeadId,
    pub run_id: RunId,
    pub summary: String,
    pub artifacts: Vec<String>,
    pub lessons: Vec<String>,
    pub decisions: Vec<String>,
    pub warnings: Vec<String>,
    pub completed_at: Timestamp,
}

/// The single coordinator lease.
#[derive(Debug, Clone, PartialEq, Eq)]
pub struct LeaderLeaseRecord {
    pub owner_label: String,
    pub run_id: Option<RunId>,
    pub acquired_at: Timestamp,
    pub heartbeat_at: Timestamp,
    pub expires_at: Timestamp,
    pub released_at: Option<Timestamp>,
}

/// A schema migration that has been applied.
#[derive(Debug, Clone, PartialEq, Eq)]
pub struct MigrationState {
    pub version: i64,
    pub name: String,
}

/// Why startup recovery released a reservation.
#[derive(Debug, Clone, Copy, PartialEq, Eq, Structural)]
pub enum RecoveryReason {
    RunNoLongerActive,
    ActiveRunInterrupted,
}

/// What an agent reported when it saved a checkpoint (the parts Grove reads).
#[derive(Debug, Clone, PartialEq, Eq)]
pub struct CheckpointPayload {
    pub progress: String,
    pub next_step: String,
    pub open_questions: Vec<String>,
    pub claimed_paths: Vec<String>,
}

/// A structured marker that an agent printed during a session.
#[derive(Debug, Clone, PartialEq, Eq)]
pub enum ProtocolEvent {
    Result { summary: String },
    Artifacts { items: Vec<String> },
    Lessons { items: Vec<String> },
    Decisions { items: Vec<String> },
    Warnings { items: Vec<String> },
    Exit { value: bool },
    Checkpoint { payload: CheckpointPayload },
}

/// Whether a run status counts as a failure for retry streaks.
pub open spec fn is_failure_status(status: RunStatus) -> bool {
    status is Failed || status is WaitingToRetry
}

} // verus!
