//! Durable text encodings of the coordinator's enumerations, as stored in the
//! database: every value is written under its variant name and read back through a
//! forgiving token normalisation (only ASCII letters and digits count, case-insensitively).
use vstd::prelude::*;
use crate::text::{
    append_signed_decimal, ascii_lower, char_ascii_lower, char_is_ascii_alnum, concat2,
    ascii_lower_text, is_ascii_alnum, owned, push_char, signed_decimal_text, text_eq,
};
use crate::types::{
    AgentActivity, BeadPriority, EscalationTier, EventKind, EventOutcome, FailureClass,
    GroveBeadStatus, MirrorStatus, ReservationMode, RunStatus, SessionStatus, StopReason,
};

verus! {

/// Error raised when a stored value cannot be decoded.
#[derive(Debug, Clone, PartialEq, Eq)]
pub struct DecodeError {
    pub message: String,
}

impl View for DecodeError {
    type V = Seq<char>;

    open spec fn view(&self) -> Seq<char> {
        self.message@
    }
}

fn unsupported(prefix: &str, text: &str) -> (r: DecodeError)
    ensures
        r@ == prefix@ + text@,
{
    DecodeError { message: concat2(prefix, text) }
}

/// Only the ASCII letters and digits of a text, lower-cased.
pub open spec fn normalize_token_text(s: Seq<char>) -> Seq<char>
    decreases s.len(),
{
    if s.len() == 0 {
        Seq::empty()
    } else {
        let prefix = normalize_token_text(s.drop_last());
        if is_ascii_alnum(s.last()) {
            prefix.push(ascii_lower(s.last()))
        } else {
            prefix
        }
    }
}

/// Keeps the ASCII letters and digits of `text`, lower-cased.
pub fn normalize_enum_token(text: &str) -> (r: String)
    ensures
        r@ == normalize_token_text(text@),
{
    let n = text.unicode_len();
    let mut out = String::new();
    let mut i: usize = 0;
    while i < n
        invariant
            n == text@.len(),
            i <= n,
            out@ == normalize_token_text(text@.subrange(0, i as int)),
        decreases n - i,
    {
        let c = text.get_char(i);
        let ghost pre = text@.subrange(0, i as int);
        assert(text@.subrange(0, i + 1).drop_last() =~= pre);
        if char_is_ascii_alnum(c) {
            push_char(&mut out, char_ascii_lower(c));
        }
        i = i + 1;
    }
    assert(text@.subrange(0, n as int) =~= text@);
    out
}

/// The value whose normalised token is `t`.
pub open spec fn grove_bead_status_from_token(t: Seq<char>) -> Option<GroveBeadStatus> {
    if t == "idle"@ {
        Some(GroveBeadStatus::Idle)
    } else if t == "ready"@ {
        Some(GroveBeadStatus::Ready)
    } else if t == "running"@ {
        Some(GroveBeadStatus::Running)
    } else if t == "checkpointed"@ {
        Some(GroveBeadStatus::Checkpointed)
    } else if t == "waitingtoretry"@ {
        Some(GroveBeadStatus::WaitingToRetry)
    } else if t == "succeeded"@ {
        Some(GroveBeadStatus::Succeeded)
    } else if t == "failed"@ {
        Some(GroveBeadStatus::Failed)
    } else {
        None
    }
}

/// Reads a stored grove bead status.
pub fn parse_grove_bead_status(text: &str) -> (r: Result<GroveBeadStatus, DecodeError>)
    ensures
        r is Ok <==> grove_bead_status_from_token(normalize_token_text(text@)) is Some,
        r matches Ok(v) ==> grove_bead_status_from_token(normalize_token_text(text@)) == Some(v),
        r matches Err(e) ==> e@ == "unsupported grove bead status "@ + text@,
{
    let normalized = normalize_enum_token(text);
    let t = normalized.as_str();
    if text_eq(t, "idle") {
        return Ok(GroveBeadStatus::Idle);
    }
    if text_eq(t, "ready") {
        return Ok(GroveBeadStatus::Ready);
    }
    if text_eq(t, "running") {
        return Ok(GroveBeadStatus::Running);
    }
    if text_eq(t, "checkpointed") {
        return Ok(GroveBeadStatus::Checkpointed);
    }
    if text_eq(t, "waitingtoretry") {
        return Ok(GroveBeadStatus::WaitingToRetry);
    }
    if text_eq(t, "succeeded") {
        return Ok(GroveBeadStatus::Succeeded);
    }
    if text_eq(t, "failed") {
        return Ok(GroveBeadStatus::Failed);
    }
    Err(unsupported("unsupported grove bead status ", text))
}

/// The stored text of a grove bead status: its variant name.
pub fn encode_grove_bead_status(value: GroveBeadStatus) -> (r: &'static str)
    ensures
        r@ == value.name_text(),
{
    value.name()
}

/// The value whose normalised token is `t`.
pub open spec fn agent_activity_from_token(t: Seq<char>) -> Option<AgentActivity> {
    if t == "active"@ {
        Some(AgentActivity::Active)
    } else if t == "ready"@ {
        Some(AgentActivity::Ready)
    } else if t == "idle"@ {
        Some(AgentActivity::Idle)
    } else if t == "blocked"@ {
        Some(AgentActivity::Blocked)
    } else if t == "exited"@ {
        Some(AgentActivity::Exited)
    } else {
        None
    }
}

/// Reads a stored agent activity.
pub fn parse_agent_activity(text: &str) -> (r: Result<AgentActivity, DecodeError>)
    ensures
        r is Ok <==> agent_activity_from_token(normalize_token_text(text@)) is Some,
        r matches Ok(v) ==> agent_activity_from_token(normalize_token_text(text@)) == Some(v),
        r matches Err(e) ==> e@ == "unsupported agent activity "@ + text@,
{
    let normalized = normalize_enum_token(text);
    let t = normalized.as_str();
    if text_eq(t, "active") {
        return Ok(AgentActivity::Active);
    }
    if text_eq(t, "ready") {
        return Ok(AgentActivity::Ready);
    }
    if text_eq(t, "idle") {
        return Ok(AgentActivity::Idle);
    }
    if text_eq(t, "blocked") {
        return Ok(AgentActivity::Blocked);
    }
    if text_eq(t, "exited") {
        return Ok(AgentActivity::Exited);
    }
    Err(unsupported("unsupported agent activity ", text))
}

/// The stored text of a agent activity: its variant name.
pub fn encode_agent_activity(value: AgentActivity) -> (r: &'static str)
    ensures
        r@ == value.name_text(),
{
    value.name()
}

/// The value whose normalised token is `t`.
pub open spec fn escalation_tier_from_token(t: Seq<char>) -> Option<EscalationTier> {
    if t == "firstattempt"@ {
        Some(EscalationTier::FirstAttempt)
    } else if t == "secondattempt"@ {
        Some(EscalationTier::SecondAttempt)
    } else if t == "thirdattempt"@ {
        Some(EscalationTier::ThirdAttempt)
    } else if t == "finalattempt"@ {
        Some(EscalationTier::FinalAttempt)
    } else if t == "giveup"@ {
        Some(EscalationTier::GiveUp)
    } else {
        None
    }
}

/// Reads a stored escalation tier.
pub fn parse_escalation_tier(text: &str) -> (r: Result<EscalationTier, DecodeError>)
    ensures
        r is Ok <==> escalation_tier_from_token(normalize_token_text(text@)) is Some,
        r matches Ok(v) ==> escalation_tier_from_token(normalize_token_text(text@)) == Some(v),
        r matches Err(e) ==> e@ == "unsupported escalation tier "@ + text@,
{
    let normalized = normalize_enum_token(text);
    let t = normalized.as_str();
    if text_eq(t, "firstattempt") {
        return Ok(EscalationTier::FirstAttempt);
    }
    if text_eq(t, "secondattempt") {
        return Ok(EscalationTier::SecondAttempt);
    }
    if text_eq(t, "thirdattempt") {
        return Ok(EscalationTier::ThirdAttempt);
    }
    if text_eq(t, "finalattempt") {
        return Ok(EscalationTier::FinalAttempt);
    }
    if text_eq(t, "giveup") {
        return Ok(EscalationTier::GiveUp);
    }
    Err(unsupported("unsupported escalation tier ", text))
}

/// The stored text of a escalation tier: its variant name.
pub fn encode_escalation_tier(value: EscalationTier) -> (r: &'static str)
    ensures
        r@ == value.name_text(),
{
    value.name()
}

/// The value whose normalised token is `t`.
pub open spec fn failure_class_from_token(t: Seq<char>) -> Option<FailureClass> {
    if t == "timeout"@ {
        Some(FailureClass::Timeout)
    } else if t == "ratelimit"@ {
        Some(FailureClass::RateLimit)
    } else if t == "permissiondenied"@ {
        Some(FailureClass::PermissionDenied)
    } else if t == "circuitopen"@ {
        Some(FailureClass::CircuitOpen)
    } else if t == "noprogress"@ {
        Some(FailureClass::NoProgress)
    } else if t == "repeatederror"@ {
        Some(FailureClass::RepeatedError)
    } else if t == "protocolmalformed"@ {
        Some(FailureClass::ProtocolMalformed)
    } else if t == "claudecrashed"@ {
        Some(FailureClass::ClaudeCrashed)
    } else if t == "brmirrorfailed"@ {
        Some(FailureClass::BrMirrorFailed)
    } else if t == "interrupted"@ {
        Some(FailureClass::Interrupted)
    } else if t == "unknown"@ {
        Some(FailureClass::Unknown)
    } else {
        None
    }
}

/// Reads a stored failure class.
pub fn parse_failure_class(text: &str) -> (r: Result<FailureClass, DecodeError>)
    ensures
        r is Ok <==> failure_class_from_token(normalize_token_text(text@)) is Some,
        r matches Ok(v) ==> failure_class_from_token(normalize_token_text(text@)) == Some(v),
        r matches Err(e) ==> e@ == "unsupported failure class "@ + text@,
{
    let normalized = normalize_enum_token(text);
    let t = normalized.as_str();
    if text_eq(t, "timeout") {
        return Ok(FailureClass::Timeout);
    }
    if text_eq(t, "ratelimit") {
        return Ok(FailureClass::RateLimit);
    }
    if text_eq(t, "permissiondenied") {
        return Ok(FailureClass::PermissionDenied);
    }
    if text_eq(t, "circuitopen") {
        return Ok(FailureClass::CircuitOpen);
    }
    if text_eq(t, "noprogress") {
        return Ok(FailureClass::NoProgress);
    }
    if text_eq(t, "repeatederror") {
        return Ok(FailureClass::RepeatedError);
    }
    if text_eq(t, "protocolmalformed") {
        return Ok(FailureClass::ProtocolMalformed);
    }
    if text_eq(t, "claudecrashed") {
        return Ok(FailureClass::ClaudeCrashed);
    }
    if text_eq(t, "brmirrorfailed") {
        return Ok(FailureClass::BrMirrorFailed);
    }
    if text_eq(t, "interrupted") {
        return Ok(FailureClass::Interrupted);
    }
    if text_eq(t, "unknown") {
        return Ok(FailureClass::Unknown);
    }
    Err(unsupported("unsupported failure class ", text))
}

/// The stored text of a failure class: its variant name.
pub fn encode_failure_class(value: FailureClass) -> (r: &'static str)
    ensures
        r@ == value.name_text(),
{
    value.name()
}

/// The value whose normalised token is `t`.
pub open spec fn run_status_from_token(t: Seq<char>) -> Option<RunStatus> {
    if t == "active"@ {
        Some(RunStatus::Active)
    } else if t == "waitingtoretry"@ {
        Some(RunStatus::WaitingToRetry)
    } else if t == "checkpointed"@ {
        Some(RunStatus::Checkpointed)
    } else if t == "succeeded"@ {
        Some(RunStatus::Succeeded)
    } else if t == "failed"@ {
        Some(RunStatus::Failed)
    } else {
        None
    }
}

/// Reads a stored run status.
pub fn parse_run_status(text: &str) -> (r: Result<RunStatus, DecodeError>)
    ensures
        r is Ok <==> run_status_from_token(normalize_token_text(text@)) is Some,
        r matches Ok(v) ==> run_status_from_token(normalize_token_text(text@)) == Some(v),
        r matches Err(e) ==> e@ == "unsupported run status "@ + text@,
{
    let normalized = normalize_enum_token(text);
    let t = normalized.as_str();
    if text_eq(t, "active") {
        return Ok(RunStatus::Active);
    }
    if text_eq(t, "waitingtoretry") {
        return Ok(RunStatus::WaitingToRetry);
    }
    if text_eq(t, "checkpointed") {
        return Ok(RunStatus::Checkpointed);
    }
    if text_eq(t, "succeeded") {
        return Ok(RunStatus::Succeeded);
    }
    if text_eq(t, "failed") {
        return Ok(RunStatus::Failed);
    }
    Err(unsupported("unsupported run status ", text))
}

/// The stored text of a run status: its variant name.
pub fn encode_run_status(value: RunStatus) -> (r: &'static str)
    ensures
        r@ == value.name_text(),
{
    value.name()
}

/// The value whose normalised token is `t`.
pub open spec fn session_status_from_token(t: Seq<char>) -> Option<SessionStatus> {
    if t == "starting"@ {
        Some(SessionStatus::Starting)
    } else if t == "running"@ {
        Some(SessionStatus::Running)
    } else if t == "checkpointed"@ {
        Some(SessionStatus::Checkpointed)
    } else if t == "completed"@ {
        Some(SessionStatus::Completed)
    } else if t == "timedout"@ {
        Some(SessionStatus::TimedOut)
    } else if t == "ratelimited"@ {
        Some(SessionStatus::RateLimited)
    } else if t == "permissiondenied"@ {
        Some(SessionStatus::PermissionDenied)
    } else if t == "crashed"@ {
        Some(SessionStatus::Crashed)
    } else if t == "unknownfailure"@ {
        Some(SessionStatus::UnknownFailure)
    } else {
        None
    }
}

/// Reads a stored session status.
pub fn parse_session_status(text: &str) -> (r: Result<SessionStatus, DecodeError>)
    ensures
        r is Ok <==> session_status_from_token(normalize_token_text(text@)) is Some,
        r matches Ok(v) ==> session_status_from_token(normalize_token_text(text@)) == Some(v),
        r matches Err(e) ==> e@ == "unsupported session status "@ + text@,
{
    let normalized = normalize_enum_token(text);
    let t = normalized.as_str();
    if text_eq(t, "starting") {
        return Ok(SessionStatus::Starting);
    }
    if text_eq(t, "running") {
        return Ok(SessionStatus::Running);
    }
    if text_eq(t, "checkpointed") {
        return Ok(SessionStatus::Checkpointed);
    }
    if text_eq(t, "completed") {
        return Ok(SessionStatus::Completed);
    }
    if text_eq(t, "timedout") {
        return Ok(SessionStatus::TimedOut);
    }
    if text_eq(t, "ratelimited") {
        return Ok(SessionStatus::RateLimited);
    }
    if text_eq(t, "permissiondenied") {
        return Ok(SessionStatus::PermissionDenied);
    }
    if text_eq(t, "crashed") {
        return Ok(SessionStatus::Crashed);
    }
    if text_eq(t, "unknownfailure") {
        return Ok(SessionStatus::UnknownFailure);
    }
    Err(unsupported("unsupported session status ", text))
}

/// The stored text of a session status: its variant name.
pub fn encode_session_status(value: SessionStatus) -> (r: &'static str)
    ensures
        r@ == value.name_text(),
{
    value.name()
}

/// The value whose normalised token is `t`.
pub open spec fn stop_reason_from_token(t: Seq<char>) -> Option<StopReason> {
    if t == "exit"@ {
        Some(StopReason::Exit)
    } else if t == "checkpoint"@ {
        Some(StopReason::Checkpoint)
    } else if t == "timeout"@ {
        Some(StopReason::Timeout)
    } else if t == "ratelimit"@ {
        Some(StopReason::RateLimit)
    } else if t == "permissiondenied"@ {
        Some(StopReason::PermissionDenied)
    } else if t == "crash"@ {
        Some(StopReason::Crash)
    } else if t == "kill"@ {
        Some(StopReason::Kill)
    } else if t == "unknown"@ {
        Some(StopReason::Unknown)
    } else {
        None
    }
}

/// Reads a stored stop reason.
pub fn parse_stop_reason(text: &str) -> (r: Result<StopReason, DecodeError>)
    ensures
        r is Ok <==> stop_reason_from_token(normalize_token_text(text@)) is Some,
        r matches Ok(v) ==> stop_reason_from_token(normalize_token_text(text@)) == Some(v),
        r matches Err(e) ==> e@ == "unsupported stop reason "@ + text@,
{
    let normalized = normalize_enum_token(text);
    let t = normalized.as_str();
    if text_eq(t, "exit") {
        return Ok(StopReason::Exit);
    }
    if text_eq(t, "checkpoint") {
        return Ok(StopReason::Checkpoint);
    }
    if text_eq(t, "timeout") {
        return Ok(StopReason::Timeout);
    }
    if text_eq(t, "ratelimit") {
        return Ok(StopReason::RateLimit);
    }
    if text_eq(t, "permissiondenied") {
        return Ok(StopReason::PermissionDenied);
    }
    if text_eq(t, "crash") {
        return Ok(StopReason::Crash);
    }
    if text_eq(t, "kill") {
        return Ok(StopReason::Kill);
    }
    if text_eq(t, "unknown") {
        return Ok(StopReason::Unknown);
    }
    Err(unsupported("unsupported stop reason ", text))
}

/// The stored text of a stop reason: its variant name.
pub fn encode_stop_reason(value: StopReason) -> (r: &'static str)
    ensures
        r@ == value.name_text(),
{
    value.name()
}

/// The value whose normalised token is `t`.
pub open spec fn event_kind_from_token(t: Seq<char>) -> Option<EventKind> {
    if t == "beadcachesynced"@ {
        Some(EventKind::BeadCacheSynced)
    } else if t == "dependencysnapshotsynced"@ {
        Some(EventKind::DependencySnapshotSynced)
    } else if t == "grovestatusupdated"@ {
        Some(EventKind::GroveStatusUpdated)
    } else if t == "runstarted"@ {
        Some(EventKind::RunStarted)
    } else if t == "runcheckpointed"@ {
        Some(EventKind::RunCheckpointed)
    } else if t == "runsucceeded"@ {
        Some(EventKind::RunSucceeded)
    } else if t == "runfailed"@ {
        Some(EventKind::RunFailed)
    } else if t == "sessionstarted"@ {
        Some(EventKind::SessionStarted)
    } else if t == "sessioncheckpointed"@ {
        Some(EventKind::SessionCheckpointed)
    } else if t == "sessionsucceeded"@ {
        Some(EventKind::SessionSucceeded)
    } else if t == "sessionfailed"@ {
        Some(EventKind::SessionFailed)
    } else if t == "handoffwritten"@ {
        Some(EventKind::HandoffWritten)
    } else if t == "reservationgranted"@ {
        Some(EventKind::ReservationGranted)
    } else if t == "reservationconflictdetected"@ {
        Some(EventKind::ReservationConflictDetected)
    } else if t == "reservationexpired"@ {
        Some(EventKind::ReservationExpired)
    } else if t == "recoveryactiontaken"@ {
        Some(EventKind::RecoveryActionTaken)
    } else if t == "leaseacquired"@ {
        Some(EventKind::LeaseAcquired)
    } else if t == "leaseheartbeat"@ {
        Some(EventKind::LeaseHeartbeat)
    } else if t == "leasereleased"@ {
        Some(EventKind::LeaseReleased)
    } else if t == "shutdownrequested"@ {
        Some(EventKind::ShutdownRequested)
    } else if t == "sessionterminationrequested"@ {
        Some(EventKind::SessionTerminationRequested)
    } else if t == "sessionterminationforced"@ {
        Some(EventKind::SessionTerminationForced)
    } else if t == "coordinatorstopped"@ {
        Some(EventKind::CoordinatorStopped)
    } else if t == "archiveingested"@ {
        Some(EventKind::ArchiveIngested)
    } else if t == "playbookbulletadded"@ {
        Some(EventKind::PlaybookBulletAdded)
    } else if t == "playbookbulletpromoted"@ {
        Some(EventKind::PlaybookBulletPromoted)
    } else if t == "playbookbulletdeprecated"@ {
        Some(EventKind::PlaybookBulletDeprecated)
    } else if t == "brmirrorrequested"@ {
        Some(EventKind::BrMirrorRequested)
    } else if t == "brmirrorsucceeded"@ {
        Some(EventKind::BrMirrorSucceeded)
    } else if t == "brmirrorfailed"@ {
        Some(EventKind::BrMirrorFailed)
    } else if t == "reactioninvoked"@ {
        Some(EventKind::ReactionInvoked)
    } else if t == "escalationtierchanged"@ {
        Some(EventKind::EscalationTierChanged)
    } else if t == "escalationtierreset"@ {
        Some(EventKind::EscalationTierReset)
    } else if t == "activitystatechanged"@ {
        Some(EventKind::ActivityStateChanged)
    } else if t == "recoverycapsulecreated"@ {
        Some(EventKind::RecoveryCapsuleCreated)
    } else {
        None
    }
}

/// Reads a stored event kind.
pub fn parse_event_kind(text: &str) -> (r: Result<EventKind, DecodeError>)
    ensures
        r is Ok <==> event_kind_from_token(normalize_token_text(text@)) is Some,
        r matches Ok(v) ==> event_kind_from_token(normalize_token_text(text@)) == Some(v),
        r matches Err(e) ==> e@ == "unsupported event kind "@ + text@,
{
    let normalized = normalize_enum_token(text);
    let t = normalized.as_str();
    if text_eq(t, "beadcachesynced") {
        return Ok(EventKind::BeadCacheSynced);
    }
    if text_eq(t, "dependencysnapshotsynced") {
        return Ok(EventKind::DependencySnapshotSynced);
    }
    if text_eq(t, "grovestatusupdated") {
        return Ok(EventKind::GroveStatusUpdated);
    }
    if text_eq(t, "runstarted") {
        return Ok(EventKind::RunStarted);
    }
    if text_eq(t, "runcheckpointed") {
        return Ok(EventKind::RunCheckpointed);
    }
    if text_eq(t, "runsucceeded") {
        return Ok(EventKind::RunSucceeded);
    }
    if text_eq(t, "runfailed") {
        return Ok(EventKind::RunFailed);
    }
    if text_eq(t, "sessionstarted") {
        return Ok(EventKind::SessionStarted);
    }
    if text_eq(t, "sessioncheckpointed") {
        return Ok(EventKind::SessionCheckpointed);
    }
    if text_eq(t, "sessionsucceeded") {
        return Ok(EventKind::SessionSucceeded);
    }
    if text_eq(t, "sessionfailed") {
        return Ok(EventKind::SessionFailed);
    }
    if text_eq(t, "handoffwritten") {
        return Ok(EventKind::HandoffWritten);
    }
    if text_eq(t, "reservationgranted") {
        return Ok(EventKind::ReservationGranted);
    }
    if text_eq(t, "reservationconflictdetected") {
        return Ok(EventKind::ReservationConflictDetected);
    }
    if text_eq(t, "reservationexpired") {
        return Ok(EventKind::ReservationExpired);
    }
    if text_eq(t, "recoveryactiontaken") {
        return Ok(EventKind::RecoveryActionTaken);
    }
    if text_eq(t, "leaseacquired") {
        return Ok(EventKind::LeaseAcquired);
    }
    if text_eq(t, "leaseheartbeat") {
        return Ok(EventKind::LeaseHeartbeat);
    }
    if text_eq(t, "leasereleased") {
        return Ok(EventKind::LeaseReleased);
    }
    if text_eq(t, "shutdownrequested") {
        return Ok(EventKind::ShutdownRequested);
    }
    if text_eq(t, "sessionterminationrequested") {
        return Ok(EventKind::SessionTerminationRequested);
    }
    if text_eq(t, "sessionterminationforced") {
        return Ok(EventKind::SessionTerminationForced);
    }
    if text_eq(t, "coordinatorstopped") {
        return Ok(EventKind::CoordinatorStopped);
    }
    if text_eq(t, "archiveingested") {
        return Ok(EventKind::ArchiveIngested);
    }
    if text_eq(t, "playbookbulletadded") {
        return Ok(EventKind::PlaybookBulletAdded);
    }
    if text_eq(t, "playbookbulletpromoted") {
        return Ok(EventKind::PlaybookBulletPromoted);
    }
    if text_eq(t, "playbookbulletdeprecated") {
        return Ok(EventKind::PlaybookBulletDeprecated);
    }
    if text_eq(t, "brmirrorrequested") {
        return Ok(EventKind::BrMirrorRequested);
    }
    if text_eq(t, "brmirrorsucceeded") {
        return Ok(EventKind::BrMirrorSucceeded);
    }
    if text_eq(t, "brmirrorfailed") {
        return Ok(EventKind::BrMirrorFailed);
    }
    if text_eq(t, "reactioninvoked") {
        return Ok(EventKind::ReactionInvoked);
    }
    if text_eq(t, "escalationtierchanged") {
        return Ok(EventKind::EscalationTierChanged);
    }
    if text_eq(t, "escalationtierreset") {
        return Ok(EventKind::EscalationTierReset);
    }
    if text_eq(t, "activitystatechanged") {
        return Ok(EventKind::ActivityStateChanged);
    }
    if text_eq(t, "recoverycapsulecreated") {
        return Ok(EventKind::RecoveryCapsuleCreated);
    }
    Err(unsupported("unsupported event kind ", text))
}

/// The stored text of a event kind: its variant name.
pub fn encode_event_kind(value: EventKind) -> (r: &'static str)
    ensures
        r@ == value.name_text(),
{
    value.name()
}

/// The value whose normalised token is `t`; unknown tokens give `None`.
pub open spec fn event_outcome_from_token(t: Seq<char>) -> Option<EventOutcome> {
    if t == "success"@ {
        Some(EventOutcome::Success)
    } else if t == "failure"@ {
        Some(EventOutcome::Failure)
    } else if t == "partial"@ {
        Some(EventOutcome::Partial)
    } else {
        None
    }
}

/// Reads a stored event outcome; text that names no outcome gives `None`.
pub fn parse_event_outcome(text: &str) -> (r: Option<EventOutcome>)
    ensures
        r == event_outcome_from_token(normalize_token_text(text@)),
{
    let normalized = normalize_enum_token(text);
    let t = normalized.as_str();
    if text_eq(t, "success") {
        Some(EventOutcome::Success)
    } else if text_eq(t, "failure") {
        Some(EventOutcome::Failure)
    } else if text_eq(t, "partial") {
        Some(EventOutcome::Partial)
    } else {
        None
    }
}

/// The stored text of an event outcome: its variant name.
pub fn encode_event_outcome(value: EventOutcome) -> (r: &'static str)
    ensures
        r@ == value.name_text(),
{
    value.name()
}

/// The stored text of a mirror status.
pub open spec fn mirror_status_text(status: MirrorStatus) -> Seq<char> {
    match status {
        MirrorStatus::Pending => "pending"@,
        MirrorStatus::InProgress => "in_progress"@,
        MirrorStatus::Succeeded => "succeeded"@,
        MirrorStatus::Failed => "failed"@,
    }
}

/// The stored text of a mirror status.
pub fn encode_mirror_status(status: MirrorStatus) -> (r: &'static str)
    ensures
        r@ == mirror_status_text(status),
{
    match status {
        MirrorStatus::Pending => "pending",
        MirrorStatus::InProgress => "in_progress",
        MirrorStatus::Succeeded => "succeeded",
        MirrorStatus::Failed => "failed",
    }
}

/// Reads a stored mirror status; the text must match exactly.
pub fn mirror_status_from_str(status: &str) -> (r: Option<MirrorStatus>)
    ensures
        r matches Some(s) ==> status@ == mirror_status_text(s),
        r is None ==> forall|s: MirrorStatus| status@ != #[trigger] mirror_status_text(s),
{
    if text_eq(status, "pending") {
        Some(MirrorStatus::Pending)
    } else if text_eq(status, "in_progress") {
        Some(MirrorStatus::InProgress)
    } else if text_eq(status, "succeeded") {
        Some(MirrorStatus::Succeeded)
    } else if text_eq(status, "failed") {
        Some(MirrorStatus::Failed)
    } else {
        None
    }
}

/// The stored text of a reservation mode.
pub open spec fn reservation_mode_text(mode: ReservationMode) -> Seq<char> {
    match mode {
        ReservationMode::Shared => "shared"@,
        ReservationMode::Exclusive => "exclusive"@,
    }
}

pub fn encode_reservation_mode(mode: ReservationMode) -> (r: &'static str)
    ensures
        r@ == reservation_mode_text(mode),
{
    match mode {
        ReservationMode::Shared => "shared",
        ReservationMode::Exclusive => "exclusive",
    }
}

/// The stored number of a bead priority.
pub open spec fn priority_number(p: BeadPriority) -> int {
    match p {
        BeadPriority::P0 => 0,
        BeadPriority::P1 => 1,
        BeadPriority::P2 => 2,
        BeadPriority::P3 => 3,
        BeadPriority::P4 => 4,
    }
}

pub fn bead_priority_to_db(priority: BeadPriority) -> (r: i64)
    ensures
        r == priority_number(priority),
{
    match priority {
        BeadPriority::P0 => 0,
        BeadPriority::P1 => 1,
        BeadPriority::P2 => 2,
        BeadPriority::P3 => 3,
        BeadPriority::P4 => 4,
    }
}

/// Reads a stored bead priority; only 0 to 4 are priorities.
pub fn parse_bead_priority(value: i64) -> (r: Result<BeadPriority, DecodeError>)
    ensures
        r is Ok <==> 0 <= value <= 4,
        r matches Ok(p) ==> priority_number(p) == value,
        r matches Err(e) ==> e@ == "unsupported bead priority value "@ + signed_decimal_text(
            value as int,
        ),
{
    if value == 0 {
        Ok(BeadPriority::P0)
    } else if value == 1 {
        Ok(BeadPriority::P1)
    } else if value == 2 {
        Ok(BeadPriority::P2)
    } else if value == 3 {
        Ok(BeadPriority::P3)
    } else if value == 4 {
        Ok(BeadPriority::P4)
    } else {
        let mut message = owned("unsupported bead priority value ");
        append_signed_decimal(&mut message, value);
        Err(DecodeError { message })
    }
}

} // verus!
verus! {

proof fn lemma_normalize_alnum(s: Seq<char>)
    requires
        forall|i: int| 0 <= i < s.len() ==> is_ascii_alnum(#[trigger] s[i]),
    ensures
        normalize_token_text(s) == ascii_lower_text(s),
    decreases s.len(),
{
    if s.len() > 0 {
        lemma_normalize_alnum(s.drop_last());
        assert(ascii_lower_text(s.drop_last()).push(ascii_lower(s.last())) =~= ascii_lower_text(
            s,
        ));
    } else {
        assert(ascii_lower_text(s) =~= Seq::<char>::empty());
    }
}

/// Decoding the stored text of a value gives the value back.
pub proof fn lemma_grove_bead_status_round_trip(value: GroveBeadStatus)
    ensures
        grove_bead_status_from_token(normalize_token_text(value.name_text())) == Some(value),
{
    reveal_strlit("idle");
    reveal_strlit("ready");
    reveal_strlit("running");
    reveal_strlit("checkpointed");
    reveal_strlit("waitingtoretry");
    reveal_strlit("succeeded");
    reveal_strlit("failed");
    match value {
        GroveBeadStatus::Idle => {
            reveal_strlit("Idle");
            lemma_normalize_alnum("Idle"@);
            assert(ascii_lower_text("Idle"@) =~= "idle"@);
        },
        GroveBeadStatus::Ready => {
            reveal_strlit("Ready");
            lemma_normalize_alnum("Ready"@);
            assert(ascii_lower_text("Ready"@) =~= "ready"@);
        },
        GroveBeadStatus::Running => {
            reveal_strlit("Running");
            lemma_normalize_alnum("Running"@);
            assert(ascii_lower_text("Running"@) =~= "running"@);
        },
        GroveBeadStatus::Checkpointed => {
            reveal_strlit("Checkpointed");
            lemma_normalize_alnum("Checkpointed"@);
            assert(ascii_lower_text("Checkpointed"@) =~= "checkpointed"@);
        },
        GroveBeadStatus::WaitingToRetry => {
            reveal_strlit("WaitingToRetry");
            lemma_normalize_alnum("WaitingToRetry"@);
            assert(ascii_lower_text("WaitingToRetry"@) =~= "waitingtoretry"@);
        },
        GroveBeadStatus::Succeeded => {
            reveal_strlit("Succeeded");
            lemma_normalize_alnum("Succeeded"@);
            assert(ascii_lower_text("Succeeded"@) =~= "succeeded"@);
        },
        GroveBeadStatus::Failed => {
            reveal_strlit("Failed");
            lemma_normalize_alnum("Failed"@);
            assert(ascii_lower_text("Failed"@) =~= "failed"@);
        },
    }
}

/// Decoding the stored text of a value gives the value back.
pub proof fn lemma_agent_activity_round_trip(value: AgentActivity)
    ensures
        agent_activity_from_token(normalize_token_text(value.name_text())) == Some(value),
{
    reveal_strlit("active");
    reveal_strlit("ready");
    reveal_strlit("idle");
    reveal_strlit("blocked");
    reveal_strlit("exited");
    assert("active"@ != "exited"@) by {
        assert("active"@[0] != "exited"@[0]);
    }
    match value {
        AgentActivity::Active => {
            reveal_strlit("Active");
            lemma_normalize_alnum("Active"@);
            assert(ascii_lower_text("Active"@) =~= "active"@);
        },
        AgentActivity::Ready => {
            reveal_strlit("Ready");
            lemma_normalize_alnum("Ready"@);
            assert(ascii_lower_text("Ready"@) =~= "ready"@);
        },
        AgentActivity::Idle => {
            reveal_strlit("Idle");
            lemma_normalize_alnum("Idle"@);
            assert(ascii_lower_text("Idle"@) =~= "idle"@);
        },
        AgentActivity::Blocked => {
            reveal_strlit("Blocked");
            lemma_normalize_alnum("Blocked"@);
            assert(ascii_lower_text("Blocked"@) =~= "blocked"@);
        },
        AgentActivity::Exited => {
            reveal_strlit("Exited");
            lemma_normalize_alnum("Exited"@);
            assert(ascii_lower_text("Exited"@) =~= "exited"@);
        },
    }
}

/// Decoding the stored text of a value gives the value back.
pub proof fn lemma_escalation_tier_round_trip(value: EscalationTier)
    ensures
        escalation_tier_from_token(normalize_token_text(value.name_text())) == Some(value),
{
    reveal_strlit("firstattempt");
    reveal_strlit("secondattempt");
    reveal_strlit("thirdattempt");
    reveal_strlit("finalattempt");
    reveal_strlit("giveup");
    assert("firstattempt"@ != "thirdattempt"@) by {
        assert("firstattempt"@[0] != "thirdattempt"@[0]);
    }
    assert("firstattempt"@ != "finalattempt"@) by {
        assert("firstattempt"@[2] != "finalattempt"@[2]);
    }
    assert("thirdattempt"@ != "finalattempt"@) by {
        assert("thirdattempt"@[0] != "finalattempt"@[0]);
    }
    match value {
        EscalationTier::FirstAttempt => {
            reveal_strlit("FirstAttempt");
            lemma_normalize_alnum("FirstAttempt"@);
            assert(ascii_lower_text("FirstAttempt"@) =~= "firstattempt"@);
        },
        EscalationTier::SecondAttempt => {
            reveal_strlit("SecondAttempt");
            lemma_normalize_alnum("SecondAttempt"@);
            assert(ascii_lower_text("SecondAttempt"@) =~= "secondattempt"@);
        },
        EscalationTier::ThirdAttempt => {
            reveal_strlit("ThirdAttempt");
            lemma_normalize_alnum("ThirdAttempt"@);
            assert(ascii_lower_text("ThirdAttempt"@) =~= "thirdattempt"@);
        },
        EscalationTier::FinalAttempt => {
            reveal_strlit("FinalAttempt");
            lemma_normalize_alnum("FinalAttempt"@);
            assert(ascii_lower_text("FinalAttempt"@) =~= "finalattempt"@);
        },
        EscalationTier::GiveUp => {
            reveal_strlit("GiveUp");
            lemma_normalize_alnum("GiveUp"@);
            assert(ascii_lower_text("GiveUp"@) =~= "giveup"@);
        },
    }
}

/// Decoding the stored text of a value gives the value back.
pub proof fn lemma_failure_class_round_trip(value: FailureClass)
    ensures
        failure_class_from_token(normalize_token_text(value.name_text())) == Some(value),
{
    reveal_strlit("timeout");
    reveal_strlit("ratelimit");
    reveal_strlit("permissiondenied");
    reveal_strlit("circuitopen");
    reveal_strlit("noprogress");
    reveal_strlit("repeatederror");
    reveal_strlit("protocolmalformed");
    reveal_strlit("claudecrashed");
    reveal_strlit("brmirrorfailed");
    reveal_strlit("interrupted");
    reveal_strlit("unknown");
    assert("timeout"@ != "unknown"@) by {
        assert("timeout"@[0] != "unknown"@[0]);
    }
    assert("circuitopen"@ != "interrupted"@) by {
        assert("circuitopen"@[0] != "interrupted"@[0]);
    }
    assert("repeatederror"@ != "claudecrashed"@) by {
        assert("repeatederror"@[0] != "claudecrashed"@[0]);
    }
    match value {
        FailureClass::Timeout => {
            reveal_strlit("Timeout");
            lemma_normalize_alnum("Timeout"@);
            assert(ascii_lower_text("Timeout"@) =~= "timeout"@);
        },
        FailureClass::RateLimit => {
            reveal_strlit("RateLimit");
            lemma_normalize_alnum("RateLimit"@);
            assert(ascii_lower_text("RateLimit"@) =~= "ratelimit"@);
        },
        FailureClass::PermissionDenied => {
            reveal_strlit("PermissionDenied");
            lemma_normalize_alnum("PermissionDenied"@);
            assert(ascii_lower_text("PermissionDenied"@) =~= "permissiondenied"@);
        },
        FailureClass::CircuitOpen => {
            reveal_strlit("CircuitOpen");
            lemma_normalize_alnum("CircuitOpen"@);
            assert(ascii_lower_text("CircuitOpen"@) =~= "circuitopen"@);
        },
        FailureClass::NoProgress => {
            reveal_strlit("NoProgress");
            lemma_normalize_alnum("NoProgress"@);
            assert(ascii_lower_text("NoProgress"@) =~= "noprogress"@);
        },
        FailureClass::RepeatedError => {
            reveal_strlit("RepeatedError");
            lemma_normalize_alnum("RepeatedError"@);
            assert(ascii_lower_text("RepeatedError"@) =~= "repeatederror"@);
        },
        FailureClass::ProtocolMalformed => {
            reveal_strlit("ProtocolMalformed");
            lemma_normalize_alnum("ProtocolMalformed"@);
            assert(ascii_lower_text("ProtocolMalformed"@) =~= "protocolmalformed"@);
        },
        FailureClass::ClaudeCrashed => {
            reveal_strlit("ClaudeCrashed");
            lemma_normalize_alnum("ClaudeCrashed"@);
            assert(ascii_lower_text("ClaudeCrashed"@) =~= "claudecrashed"@);
        },
        FailureClass::BrMirrorFailed => {
            reveal_strlit("BrMirrorFailed");
            lemma_normalize_alnum("BrMirrorFailed"@);
            assert(ascii_lower_text("BrMirrorFailed"@) =~= "brmirrorfailed"@);
        },
        FailureClass::Interrupted => {
            reveal_strlit("Interrupted");
            lemma_normalize_alnum("Interrupted"@);
            assert(ascii_lower_text("Interrupted"@) =~= "interrupted"@);
        },
        FailureClass::Unknown => {
            reveal_strlit("Unknown");
            lemma_normalize_alnum("Unknown"@);
            assert(ascii_lower_text("Unknown"@) =~= "unknown"@);
        },
    }
}

/// Decoding the stored text of a value gives the value back.
pub proof fn lemma_run_status_round_trip(value: RunStatus)
    ensures
        run_status_from_token(normalize_token_text(value.name_text())) == Some(value),
{
    reveal_strlit("active");
    reveal_strlit("waitingtoretry");
    reveal_strlit("checkpointed");
    reveal_strlit("succeeded");
    reveal_strlit("failed");
    assert("active"@ != "failed"@) by {
        assert("active"@[0] != "failed"@[0]);
    }
    match value {
        RunStatus::Active => {
            reveal_strlit("Active");
            lemma_normalize_alnum("Active"@);
            assert(ascii_lower_text("Active"@) =~= "active"@);
        },
        RunStatus::WaitingToRetry => {
            reveal_strlit("WaitingToRetry");
            lemma_normalize_alnum("WaitingToRetry"@);
            assert(ascii_lower_text("WaitingToRetry"@) =~= "waitingtoretry"@);
        },
        RunStatus::Checkpointed => {
            reveal_strlit("Checkpointed");
            lemma_normalize_alnum("Checkpointed"@);
            assert(ascii_lower_text("Checkpointed"@) =~= "checkpointed"@);
        },
        RunStatus::Succeeded => {
            reveal_strlit("Succeeded");
            lemma_normalize_alnum("Succeeded"@);
            assert(ascii_lower_text("Succeeded"@) =~= "succeeded"@);
        },
        RunStatus::Failed => {
            reveal_strlit("Failed");
            lemma_normalize_alnum("Failed"@);
            assert(ascii_lower_text("Failed"@) =~= "failed"@);
        },
    }
}

/// Decoding the stored text of a value gives the value back.
pub proof fn lemma_session_status_round_trip(value: SessionStatus)
    ensures
        session_status_from_token(normalize_token_text(value.name_text())) == Some(value),
{
    reveal_strlit("starting");
    reveal_strlit("running");
    reveal_strlit("checkpointed");
    reveal_strlit("completed");
    reveal_strlit("timedout");
    reveal_strlit("ratelimited");
    reveal_strlit("permissiondenied");
    reveal_strlit("crashed");
    reveal_strlit("unknownfailure");
    assert("starting"@ != "timedout"@) by {
        assert("starting"@[0] != "timedout"@[0]);
    }
    assert("running"@ != "crashed"@) by {
        assert("running"@[0] != "crashed"@[0]);
    }
    match value {
        SessionStatus::Starting => {
            reveal_strlit("Starting");
            lemma_normalize_alnum("Starting"@);
            assert(ascii_lower_text("Starting"@) =~= "starting"@);
        },
        SessionStatus::Running => {
            reveal_strlit("Running");
            lemma_normalize_alnum("Running"@);
            assert(ascii_lower_text("Running"@) =~= "running"@);
        },
        SessionStatus::Checkpointed => {
            reveal_strlit("Checkpointed");
            lemma_normalize_alnum("Checkpointed"@);
            assert(ascii_lower_text("Checkpointed"@) =~= "checkpointed"@);
        },
        SessionStatus::Completed => {
            reveal_strlit("Completed");
            lemma_normalize_alnum("Completed"@);
            assert(ascii_lower_text("Completed"@) =~= "completed"@);
        },
        SessionStatus::TimedOut => {
            reveal_strlit("TimedOut");
            lemma_normalize_alnum("TimedOut"@);
            assert(ascii_lower_text("TimedOut"@) =~= "timedout"@);
        },
        SessionStatus::RateLimited => {
            reveal_strlit("RateLimited");
            lemma_normalize_alnum("RateLimited"@);
            assert(ascii_lower_text("RateLimited"@) =~= "ratelimited"@);
        },
        SessionStatus::PermissionDenied => {
            reveal_strlit("PermissionDenied");
            lemma_normalize_alnum("PermissionDenied"@);
            assert(ascii_lower_text("PermissionDenied"@) =~= "permissiondenied"@);
        },
        SessionStatus::Crashed => {
            reveal_strlit("Crashed");
            lemma_normalize_alnum("Crashed"@);
            assert(ascii_lower_text("Crashed"@) =~= "crashed"@);
        },
        SessionStatus::UnknownFailure => {
            reveal_strlit("UnknownFailure");
            lemma_normalize_alnum("UnknownFailure"@);
            assert(ascii_lower_text("UnknownFailure"@) =~= "unknownfailure"@);
        },
    }
}

/// Decoding the stored text of a value gives the value back.
pub proof fn lemma_stop_reason_round_trip(value: StopReason)
    ensures
        stop_reason_from_token(normalize_token_text(value.name_text())) == Some(value),
{
    reveal_strlit("exit");
    reveal_strlit("checkpoint");
    reveal_strlit("timeout");
    reveal_strlit("ratelimit");
    reveal_strlit("permissiondenied");
    reveal_strlit("crash");
    reveal_strlit("kill");
    reveal_strlit("unknown");
    assert("exit"@ != "kill"@) by {
        assert("exit"@[0] != "kill"@[0]);
    }
    assert("timeout"@ != "unknown"@) by {
        assert("timeout"@[0] != "unknown"@[0]);
    }
    match value {
        StopReason::Exit => {
            reveal_strlit("Exit");
            lemma_normalize_alnum("Exit"@);
            assert(ascii_lower_text("Exit"@) =~= "exit"@);
        },
        StopReason::Checkpoint => {
            reveal_strlit("Checkpoint");
            lemma_normalize_alnum("Checkpoint"@);
            assert(ascii_lower_text("Checkpoint"@) =~= "checkpoint"@);
        },
        StopReason::Timeout => {
            reveal_strlit("Timeout");
            lemma_normalize_alnum("Timeout"@);
            assert(ascii_lower_text("Timeout"@) =~= "timeout"@);
        },
        StopReason::RateLimit => {
            reveal_strlit("RateLimit");
            lemma_normalize_alnum("RateLimit"@);
            assert(ascii_lower_text("RateLimit"@) =~= "ratelimit"@);
        },
        StopReason::PermissionDenied => {
            reveal_strlit("PermissionDenied");
            lemma_normalize_alnum("PermissionDenied"@);
            assert(ascii_lower_text("PermissionDenied"@) =~= "permissiondenied"@);
        },
        StopReason::Crash => {
            reveal_strlit("Crash");
            lemma_normalize_alnum("Crash"@);
            assert(ascii_lower_text("Crash"@) =~= "crash"@);
        },
        StopReason::Kill => {
            reveal_strlit("Kill");
            lemma_normalize_alnum("Kill"@);
            assert(ascii_lower_text("Kill"@) =~= "kill"@);
        },
        StopReason::Unknown => {
            reveal_strlit("Unknown");
            lemma_normalize_alnum("Unknown"@);
            assert(ascii_lower_text("Unknown"@) =~= "unknown"@);
        },
    }
}

/// Decoding the stored text of a value gives the value back.
pub proof fn lemma_event_kind_round_trip(value: EventKind)
    ensures
        event_kind_from_token(normalize_token_text(value.name_text())) == Some(value),
{
    reveal_strlit("beadcachesynced");
    reveal_strlit("dependencysnapshotsynced");
    reveal_strlit("grovestatusupdated");
    reveal_strlit("runstarted");
    reveal_strlit("runcheckpointed");
    reveal_strlit("runsucceeded");
    reveal_strlit("runfailed");
    reveal_strlit("sessionstarted");
    reveal_strlit("sessioncheckpointed");
    reveal_strlit("sessionsucceeded");
    reveal_strlit("sessionfailed");
    reveal_strlit("handoffwritten");
    reveal_strlit("reservationgranted");
    reveal_strlit("reservationconflictdetected");
    reveal_strlit("reservationexpired");
    reveal_strlit("recoveryactiontaken");
    reveal_strlit("leaseacquired");
    reveal_strlit("leaseheartbeat");
    reveal_strlit("leasereleased");
    reveal_strlit("shutdownrequested");
    reveal_strlit("sessionterminationrequested");
    reveal_strlit("sessionterminationforced");
    reveal_strlit("coordinatorstopped");
    reveal_strlit("archiveingested");
    reveal_strlit("playbookbulletadded");
    reveal_strlit("playbookbulletpromoted");
    reveal_strlit("playbookbulletdeprecated");
    reveal_strlit("brmirrorrequested");
    reveal_strlit("brmirrorsucceeded");
    reveal_strlit("brmirrorfailed");
    reveal_strlit("reactioninvoked");
    reveal_strlit("escalationtierchanged");
    reveal_strlit("escalationtierreset");
    reveal_strlit("activitystatechanged");
    reveal_strlit("recoverycapsulecreated");
    assert("beadcachesynced"@ != "runcheckpointed"@) by {
        assert("beadcachesynced"@[0] != "runcheckpointed"@[0]);
    }
    assert("beadcachesynced"@ != "archiveingested"@) by {
        assert("beadcachesynced"@[0] != "archiveingested"@[0]);
    }
    assert("beadcachesynced"@ != "reactioninvoked"@) by {
        assert("beadcachesynced"@[0] != "reactioninvoked"@[0]);
    }
    assert("dependencysnapshotsynced"@ != "sessionterminationforced"@) by {
        assert("dependencysnapshotsynced"@[0] != "sessionterminationforced"@[0]);
    }
    assert("dependencysnapshotsynced"@ != "playbookbulletdeprecated"@) by {
        assert("dependencysnapshotsynced"@[0] != "playbookbulletdeprecated"@[0]);
    }
    assert("grovestatusupdated"@ != "reservationgranted"@) by {
        assert("grovestatusupdated"@[0] != "reservationgranted"@[0]);
    }
    assert("grovestatusupdated"@ != "reservationexpired"@) by {
        assert("grovestatusupdated"@[0] != "reservationexpired"@[0]);
    }
    assert("grovestatusupdated"@ != "coordinatorstopped"@) by {
        assert("grovestatusupdated"@[0] != "coordinatorstopped"@[0]);
    }
    assert("runcheckpointed"@ != "archiveingested"@) by {
        assert("runcheckpointed"@[0] != "archiveingested"@[0]);
    }
    assert("runcheckpointed"@ != "reactioninvoked"@) by {
        assert("runcheckpointed"@[1] != "reactioninvoked"@[1]);
    }
    assert("sessionstarted"@ != "handoffwritten"@) by {
        assert("sessionstarted"@[0] != "handoffwritten"@[0]);
    }
    assert("sessionstarted"@ != "leaseheartbeat"@) by {
        assert("sessionstarted"@[0] != "leaseheartbeat"@[0]);
    }
    assert("sessionstarted"@ != "brmirrorfailed"@) by {
        assert("sessionstarted"@[0] != "brmirrorfailed"@[0]);
    }
    assert("sessioncheckpointed"@ != "recoveryactiontaken"@) by {
        assert("sessioncheckpointed"@[0] != "recoveryactiontaken"@[0]);
    }
    assert("sessioncheckpointed"@ != "playbookbulletadded"@) by {
        assert("sessioncheckpointed"@[0] != "playbookbulletadded"@[0]);
    }
    assert("sessioncheckpointed"@ != "escalationtierreset"@) by {
        assert("sessioncheckpointed"@[0] != "escalationtierreset"@[0]);
    }
    assert("sessionfailed"@ != "leaseacquired"@) by {
        assert("sessionfailed"@[0] != "leaseacquired"@[0]);
    }
    assert("sessionfailed"@ != "leasereleased"@) by {
        assert("sessionfailed"@[0] != "leasereleased"@[0]);
    }
    assert("handoffwritten"@ != "leaseheartbeat"@) by {
        assert("handoffwritten"@[0] != "leaseheartbeat"@[0]);
    }
    assert("handoffwritten"@ != "brmirrorfailed"@) by {
        assert("handoffwritten"@[0] != "brmirrorfailed"@[0]);
    }
    assert("reservationgranted"@ != "reservationexpired"@) by {
        assert("reservationgranted"@[11] != "reservationexpired"@[11]);
    }
    assert("reservationgranted"@ != "coordinatorstopped"@) by {
        assert("reservationgranted"@[0] != "coordinatorstopped"@[0]);
    }
    assert("reservationconflictdetected"@ != "sessionterminationrequested"@) by {
        assert("reservationconflictdetected"@[0] != "sessionterminationrequested"@[0]);
    }
    assert("reservationexpired"@ != "coordinatorstopped"@) by {
        assert("reservationexpired"@[0] != "coordinatorstopped"@[0]);
    }
    assert("recoveryactiontaken"@ != "playbookbulletadded"@) by {
        assert("recoveryactiontaken"@[0] != "playbookbulletadded"@[0]);
    }
    assert("recoveryactiontaken"@ != "escalationtierreset"@) by {
        assert("recoveryactiontaken"@[0] != "escalationtierreset"@[0]);
    }
    assert("leaseacquired"@ != "leasereleased"@) by {
        assert("leaseacquired"@[5] != "leasereleased"@[5]);
    }
    assert("leaseheartbeat"@ != "brmirrorfailed"@) by {
        assert("leaseheartbeat"@[0] != "brmirrorfailed"@[0]);
    }
    assert("shutdownrequested"@ != "brmirrorrequested"@) by {
        assert("shutdownrequested"@[0] != "brmirrorrequested"@[0]);
    }
    assert("shutdownrequested"@ != "brmirrorsucceeded"@) by {
        assert("shutdownrequested"@[0] != "brmirrorsucceeded"@[0]);
    }
    assert("sessionterminationforced"@ != "playbookbulletdeprecated"@) by {
        assert("sessionterminationforced"@[0] != "playbookbulletdeprecated"@[0]);
    }
    assert("archiveingested"@ != "reactioninvoked"@) by {
        assert("archiveingested"@[0] != "reactioninvoked"@[0]);
    }
    assert("playbookbulletadded"@ != "escalationtierreset"@) by {
        assert("playbookbulletadded"@[0] != "escalationtierreset"@[0]);
    }
    assert("playbookbulletpromoted"@ != "recoverycapsulecreated"@) by {
        assert("playbookbulletpromoted"@[0] != "recoverycapsulecreated"@[0]);
    }
    assert("brmirrorrequested"@ != "brmirrorsucceeded"@) by {
        assert("brmirrorrequested"@[8] != "brmirrorsucceeded"@[8]);
    }
    match value {
        EventKind::BeadCacheSynced => {
            reveal_strlit("BeadCacheSynced");
            lemma_normalize_alnum("BeadCacheSynced"@);
            assert(ascii_lower_text("BeadCacheSynced"@) =~= "beadcachesynced"@);
        },
        EventKind::DependencySnapshotSynced => {
            reveal_strlit("DependencySnapshotSynced");
            lemma_normalize_alnum("DependencySnapshotSynced"@);
            assert(ascii_lower_text("DependencySnapshotSynced"@) =~= "dependencysnapshotsynced"@);
        },
        EventKind::GroveStatusUpdated => {
            reveal_strlit("GroveStatusUpdated");
            lemma_normalize_alnum("GroveStatusUpdated"@);
            assert(ascii_lower_text("GroveStatusUpdated"@) =~= "grovestatusupdated"@);
        },
        EventKind::RunStarted => {
            reveal_strlit("RunStarted");
            lemma_normalize_alnum("RunStarted"@);
            assert(ascii_lower_text("RunStarted"@) =~= "runstarted"@);
        },
        EventKind::RunCheckpointed => {
            reveal_strlit("RunCheckpointed");
            lemma_normalize_alnum("RunCheckpointed"@);
            assert(ascii_lower_text("RunCheckpointed"@) =~= "runcheckpointed"@);
        },
        EventKind::RunSucceeded => {
            reveal_strlit("RunSucceeded");
            lemma_normalize_alnum("RunSucceeded"@);
            assert(ascii_lower_text("RunSucceeded"@) =~= "runsucceeded"@);
        },
        EventKind::RunFailed => {
            reveal_strlit("RunFailed");
            lemma_normalize_alnum("RunFailed"@);
            assert(ascii_lower_text("RunFailed"@) =~= "runfailed"@);
        },
        EventKind::SessionStarted => {
            reveal_strlit("SessionStarted");
            lemma_normalize_alnum("SessionStarted"@);
            assert(ascii_lower_text("SessionStarted"@) =~= "sessionstarted"@);
        },
        EventKind::SessionCheckpointed => {
            reveal_strlit("SessionCheckpointed");
            lemma_normalize_alnum("SessionCheckpointed"@);
            assert(ascii_lower_text("SessionCheckpointed"@) =~= "sessioncheckpointed"@);
        },
        EventKind::SessionSucceeded => {
            reveal_strlit("SessionSucceeded");
            lemma_normalize_alnum("SessionSucceeded"@);
            assert(ascii_lower_text("SessionSucceeded"@) =~= "sessionsucceeded"@);
        },
        EventKind::SessionFailed => {
            reveal_strlit("SessionFailed");
            lemma_normalize_alnum("SessionFailed"@);
            assert(ascii_lower_text("SessionFailed"@) =~= "sessionfailed"@);
        },
        EventKind::HandoffWritten => {
            reveal_strlit("HandoffWritten");
            lemma_normalize_alnum("HandoffWritten"@);
            assert(ascii_lower_text("HandoffWritten"@) =~= "handoffwritten"@);
        },
        EventKind::ReservationGranted => {
            reveal_strlit("ReservationGranted");
            lemma_normalize_alnum("ReservationGranted"@);
            assert(ascii_lower_text("ReservationGranted"@) =~= "reservationgranted"@);
        },
        EventKind::ReservationConflictDetected => {
            reveal_strlit("ReservationConflictDetected");
            lemma_normalize_alnum("ReservationConflictDetected"@);
            assert(ascii_lower_text("ReservationConflictDetected"@) =~= "reservationconflictdetected"@);
        },
        EventKind::ReservationExpired => {
            reveal_strlit("ReservationExpired");
            lemma_normalize_alnum("ReservationExpired"@);
            assert(ascii_lower_text("ReservationExpired"@) =~= "reservationexpired"@);
        },
        EventKind::RecoveryActionTaken => {
            reveal_strlit("RecoveryActionTaken");
            lemma_normalize_alnum("RecoveryActionTaken"@);
            assert(ascii_lower_text("RecoveryActionTaken"@) =~= "recoveryactiontaken"@);
        },
        EventKind::LeaseAcquired => {
            reveal_strlit("LeaseAcquired");
            lemma_normalize_alnum("LeaseAcquired"@);
            assert(ascii_lower_text("LeaseAcquired"@) =~= "leaseacquired"@);
        },
        EventKind::LeaseHeartbeat => {
            reveal_strlit("LeaseHeartbeat");
            lemma_normalize_alnum("LeaseHeartbeat"@);
            assert(ascii_lower_text("LeaseHeartbeat"@) =~= "leaseheartbeat"@);
        },
        EventKind::LeaseReleased => {
            reveal_strlit("LeaseReleased");
            lemma_normalize_alnum("LeaseReleased"@);
            assert(ascii_lower_text("LeaseReleased"@) =~= "leasereleased"@);
        },
        EventKind::ShutdownRequested => {
            reveal_strlit("ShutdownRequested");
            lemma_normalize_alnum("ShutdownRequested"@);
            assert(ascii_lower_text("ShutdownRequested"@) =~= "shutdownrequested"@);
        },
        EventKind::SessionTerminationRequested => {
            reveal_strlit("SessionTerminationRequested");
            lemma_normalize_alnum("SessionTerminationRequested"@);
            assert(ascii_lower_text("SessionTerminationRequested"@) =~= "sessionterminationrequested"@);
        },
        EventKind::SessionTerminationForced => {
            reveal_strlit("SessionTerminationForced");
            lemma_normalize_alnum("SessionTerminationForced"@);
            assert(ascii_lower_text("SessionTerminationForced"@) =~= "sessionterminationforced"@);
        },
        EventKind::CoordinatorStopped => {
            reveal_strlit("CoordinatorStopped");
            lemma_normalize_alnum("CoordinatorStopped"@);
            assert(ascii_lower_text("CoordinatorStopped"@) =~= "coordinatorstopped"@);
        },
        EventKind::ArchiveIngested => {
            reveal_strlit("ArchiveIngested");
            lemma_normalize_alnum("ArchiveIngested"@);
            assert(ascii_lower_text("ArchiveIngested"@) =~= "archiveingested"@);
        },
        EventKind::PlaybookBulletAdded => {
            reveal_strlit("PlaybookBulletAdded");
            lemma_normalize_alnum("PlaybookBulletAdded"@);
            assert(ascii_lower_text("PlaybookBulletAdded"@) =~= "playbookbulletadded"@);
        },
        EventKind::PlaybookBulletPromoted => {
            reveal_strlit("PlaybookBulletPromoted");
            lemma_normalize_alnum("PlaybookBulletPromoted"@);
            assert(ascii_lower_text("PlaybookBulletPromoted"@) =~= "playbookbulletpromoted"@);
        },
        EventKind::PlaybookBulletDeprecated => {
            reveal_strlit("PlaybookBulletDeprecated");
            lemma_normalize_alnum("PlaybookBulletDeprecated"@);
            assert(ascii_lower_text("PlaybookBulletDeprecated"@) =~= "playbookbulletdeprecated"@);
        },
        EventKind::BrMirrorRequested => {
            reveal_strlit("BrMirrorRequested");
            lemma_normalize_alnum("BrMirrorRequested"@);
            assert(ascii_lower_text("BrMirrorRequested"@) =~= "brmirrorrequested"@);
        },
        EventKind::BrMirrorSucceeded => {
            reveal_strlit("BrMirrorSucceeded");
            lemma_normalize_alnum("BrMirrorSucceeded"@);
            assert(ascii_lower_text("BrMirrorSucceeded"@) =~= "brmirrorsucceeded"@);
        },
        EventKind::BrMirrorFailed => {
            reveal_strlit("BrMirrorFailed");
            lemma_normalize_alnum("BrMirrorFailed"@);
            assert(ascii_lower_text("BrMirrorFailed"@) =~= "brmirrorfailed"@);
        },
        EventKind::ReactionInvoked => {
            reveal_strlit("ReactionInvoked");
            lemma_normalize_alnum("ReactionInvoked"@);
            assert(ascii_lower_text("ReactionInvoked"@) =~= "reactioninvoked"@);
        },
        EventKind::EscalationTierChanged => {
            reveal_strlit("EscalationTierChanged");
            lemma_normalize_alnum("EscalationTierChanged"@);
            assert(ascii_lower_text("EscalationTierChanged"@) =~= "escalationtierchanged"@);
        },
        EventKind::EscalationTierReset => {
            reveal_strlit("EscalationTierReset");
            lemma_normalize_alnum("EscalationTierReset"@);
            assert(ascii_lower_text("EscalationTierReset"@) =~= "escalationtierreset"@);
        },
        EventKind::ActivityStateChanged => {
            reveal_strlit("ActivityStateChanged");
            lemma_normalize_alnum("ActivityStateChanged"@);
            assert(ascii_lower_text("ActivityStateChanged"@) =~= "activitystatechanged"@);
        },
        EventKind::RecoveryCapsuleCreated => {
            reveal_strlit("RecoveryCapsuleCreated");
            lemma_normalize_alnum("RecoveryCapsuleCreated"@);
            assert(ascii_lower_text("RecoveryCapsuleCreated"@) =~= "recoverycapsulecreated"@);
        },
    }
}

} // verus!
