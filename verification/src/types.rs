use vstd::prelude::*;

verus! {

/// Identifier of a bead (a unit of work tracked by the issue tracker).
#[derive(Debug, Clone, PartialEq, Eq, Hash, PartialOrd, Ord)]
pub struct BeadId {
    pub value: String,
}

impl View for BeadId {
    type V = Seq<char>;

    open spec fn view(&self) -> Seq<char> {
        self.value@
    }
}

impl BeadId {
    pub fn new(value: &str) -> (r: BeadId)
        ensures
            r@ == value@,
    {
        BeadId { value: value.to_owned() }
    }

    pub fn from_string(value: String) -> (r: BeadId)
        ensures
            r@ == value@,
    {
        BeadId { value }
    }

    pub fn as_str(&self) -> (r: &str)
        ensures
            r@ == self@,
    {
        self.value.as_str()
    }

    pub fn same_as(&self, other: &BeadId) -> (r: bool)
        ensures
            r == (self@ == other@),
    {
        self.value == other.value
    }

    pub fn duplicate(&self) -> (r: BeadId)
        ensures
            r == *self,
    {
        BeadId { value: self.value.clone() }
    }
}

/// Identifier of one run (attempt) of a bead.
#[derive(Debug, Clone, PartialEq, Eq, Hash, PartialOrd, Ord)]
pub struct RunId {
    pub value: String,
}

impl View for RunId {
    type V = Seq<char>;

    open spec fn view(&self) -> Seq<char> {
        self.value@
    }
}

impl RunId {
    pub fn new(value: &str) -> (r: RunId)
        ensures
            r@ == value@,
    {
        RunId { value: value.to_owned() }
    }

    pub fn from_string(value: String) -> (r: RunId)
        ensures
            r@ == value@,
    {
        RunId { value }
    }

    pub fn as_str(&self) -> (r: &str)
        ensures
            r@ == self@,
    {
        self.value.as_str()
    }

    pub fn same_as(&self, other: &RunId) -> (r: bool)
        ensures
            r == (self@ == other@),
    {
        self.value == other.value
    }

    pub fn duplicate(&self) -> (r: RunId)
        ensures
            r == *self,
    {
        RunId { value: self.value.clone() }
    }
}

/// Identifier of one agent session inside a run.
#[derive(Debug, Clone, PartialEq, Eq, Hash, PartialOrd, Ord)]
pub struct SessionId {
    pub value: String,
}

impl View for SessionId {
    type V = Seq<char>;

    open spec fn view(&self) -> Seq<char> {
        self.value@
    }
}

impl SessionId {
    pub fn new(value: &str) -> (r: SessionId)
        ensures
            r@ == value@,
    {
        SessionId { value: value.to_owned() }
    }

    pub fn from_string(value: String) -> (r: SessionId)
        ensures
            r@ == value@,
    {
        SessionId { value }
    }

    pub fn as_str(&self) -> (r: &str)
        ensures
            r@ == self@,
    {
        self.value.as_str()
    }

    pub fn same_as(&self, other: &SessionId) -> (r: bool)
        ensures
            r == (self@ == other@),
    {
        self.value == other.value
    }

    pub fn duplicate(&self) -> (r: SessionId)
        ensures
            r == *self,
    {
        SessionId { value: self.value.clone() }
    }
}

/// Identifier of a saved checkpoint.
#[derive(Debug, Clone, PartialEq, Eq, Hash, PartialOrd, Ord)]
pub struct CheckpointId {
    pub value: String,
}

impl View for CheckpointId {
    type V = Seq<char>;

    open spec fn view(&self) -> Seq<char> {
        self.value@
    }
}

impl CheckpointId {
    pub fn new(value: &str) -> (r: CheckpointId)
        ensures
            r@ == value@,
    {
        CheckpointId { value: value.to_owned() }
    }

    pub fn from_string(value: String) -> (r: CheckpointId)
        ensures
            r@ == value@,
    {
        CheckpointId { value }
    }

    pub fn as_str(&self) -> (r: &str)
        ensures
            r@ == self@,
    {
        self.value.as_str()
    }

    pub fn same_as(&self, other: &CheckpointId) -> (r: bool)
        ensures
            r == (self@ == other@),
    {
        self.value == other.value
    }

    pub fn duplicate(&self) -> (r: CheckpointId)
        ensures
            r == *self,
    {
        CheckpointId { value: self.value.clone() }
    }
}

/// Identifier of a materialized prompt.
#[derive(Debug, Clone, PartialEq, Eq, Hash, PartialOrd, Ord)]
pub struct PromptId {
    pub value: String,
}

impl View for PromptId {
    type V = Seq<char>;

    open spec fn view(&self) -> Seq<char> {
        self.value@
    }
}

impl PromptId {
    pub fn new(value: &str) -> (r: PromptId)
        ensures
            r@ == value@,
    {
        PromptId { value: value.to_owned() }
    }

    pub fn from_string(value: String) -> (r: PromptId)
        ensures
            r@ == value@,
    {
        PromptId { value }
    }

    pub fn as_str(&self) -> (r: &str)
        ensures
            r@ == self@,
    {
        self.value.as_str()
    }

    pub fn same_as(&self, other: &PromptId) -> (r: bool)
        ensures
            r == (self@ == other@),
    {
        self.value == other.value
    }

    pub fn duplicate(&self) -> (r: PromptId)
        ensures
            r == *self,
    {
        PromptId { value: self.value.clone() }
    }
}

/// Identifier of a playbook bullet.
#[derive(Debug, Clone, PartialEq, Eq, Hash, PartialOrd, Ord)]
pub struct BulletId {
    pub value: String,
}

impl View for BulletId {
    type V = Seq<char>;

    open spec fn view(&self) -> Seq<char> {
        self.value@
    }
}

impl BulletId {
    pub fn new(value: &str) -> (r: BulletId)
        ensures
            r@ == value@,
    {
        BulletId { value: value.to_owned() }
    }

    pub fn from_string(value: String) -> (r: BulletId)
        ensures
            r@ == value@,
    {
        BulletId { value }
    }

    pub fn as_str(&self) -> (r: &str)
        ensures
            r@ == self@,
    {
        self.value.as_str()
    }

    pub fn same_as(&self, other: &BulletId) -> (r: bool)
        ensures
            r == (self@ == other@),
    {
        self.value == other.value
    }

    pub fn duplicate(&self) -> (r: BulletId)
        ensures
            r == *self,
    {
        BulletId { value: self.value.clone() }
    }
}

/// Lifecycle state Grove keeps for a bead.
#[derive(Debug, Clone, Copy, PartialEq, Eq, Structural, Hash)]
pub enum GroveBeadStatus {
    Idle,
    Ready,
    Running,
    Checkpointed,
    WaitingToRetry,
    Succeeded,
    Failed,
}

impl GroveBeadStatus {
    /// The variant's name, as it is written in logs and in the database.
    pub open spec fn name_text(self) -> Seq<char> {
        match self {
            GroveBeadStatus::Idle => "Idle"@,
            GroveBeadStatus::Ready => "Ready"@,
            GroveBeadStatus::Running => "Running"@,
            GroveBeadStatus::Checkpointed => "Checkpointed"@,
            GroveBeadStatus::WaitingToRetry => "WaitingToRetry"@,
            GroveBeadStatus::Succeeded => "Succeeded"@,
            GroveBeadStatus::Failed => "Failed"@,
        }
    }

    pub fn name(&self) -> (r: &'static str)
        ensures
            r@ == self.name_text(),
    {
        match self {
            GroveBeadStatus::Idle => "Idle",
            GroveBeadStatus::Ready => "Ready",
            GroveBeadStatus::Running => "Running",
            GroveBeadStatus::Checkpointed => "Checkpointed",
            GroveBeadStatus::WaitingToRetry => "WaitingToRetry",
            GroveBeadStatus::Succeeded => "Succeeded",
            GroveBeadStatus::Failed => "Failed",
        }
    }
}

/// Status of one run of a bead.
#[derive(Debug, Clone, Copy, PartialEq, Eq, Structural, Hash)]
pub enum RunStatus {
    Active,
    WaitingToRetry,
    Checkpointed,
    Succeeded,
    Failed,
}

impl RunStatus {
    /// The variant's name, as it is written in logs and in the database.
    pub open spec fn name_text(self) -> Seq<char> {
        match self {
            RunStatus::Active => "Active"@,
            RunStatus::WaitingToRetry => "WaitingToRetry"@,
            RunStatus::Checkpointed => "Checkpointed"@,
            RunStatus::Succeeded => "Succeeded"@,
            RunStatus::Failed => "Failed"@,
        }
    }

    pub fn name(&self) -> (r: &'static str)
        ensures
            r@ == self.name_text(),
    {
        match self {
            RunStatus::Active => "Active",
            RunStatus::WaitingToRetry => "WaitingToRetry",
            RunStatus::Checkpointed => "Checkpointed",
            RunStatus::Succeeded => "Succeeded",
            RunStatus::Failed => "Failed",
        }
    }
}

/// Status of one agent session.
#[derive(Debug, Clone, Copy, PartialEq, Eq, Structural, Hash)]
pub enum SessionStatus {
    Starting,
    Running,
    Checkpointed,
    Completed,
    TimedOut,
    RateLimited,
    PermissionDenied,
    Crashed,
    UnknownFailure,
}

impl SessionStatus {
    /// The variant's name, as it is written in logs and in the database.
    pub open spec fn name_text(self) -> Seq<char> {
        match self {
            SessionStatus::Starting => "Starting"@,
            SessionStatus::Running => "Running"@,
            SessionStatus::Checkpointed => "Checkpointed"@,
            SessionStatus::Completed => "Completed"@,
            SessionStatus::TimedOut => "TimedOut"@,
            SessionStatus::RateLimited => "RateLimited"@,
            SessionStatus::PermissionDenied => "PermissionDenied"@,
            SessionStatus::Crashed => "Crashed"@,
            SessionStatus::UnknownFailure => "UnknownFailure"@,
        }
    }

    pub fn name(&self) -> (r: &'static str)
        ensures
            r@ == self.name_text(),
    {
        match self {
            SessionStatus::Starting => "Starting",
            SessionStatus::Running => "Running",
            SessionStatus::Checkpointed => "Checkpointed",
            SessionStatus::Completed => "Completed",
            SessionStatus::TimedOut => "TimedOut",
            SessionStatus::RateLimited => "RateLimited",
            SessionStatus::PermissionDenied => "PermissionDenied",
            SessionStatus::Crashed => "Crashed",
            SessionStatus::UnknownFailure => "UnknownFailure",
        }
    }
}

/// Why an agent session stopped.
#[derive(Debug, Clone, Copy, PartialEq, Eq, Structural, Hash)]
pub enum StopReason {
    Exit,
    Checkpoint,
    Timeout,
    RateLimit,
    PermissionDenied,
    Crash,
    Kill,
    Unknown,
}

impl StopReason {
    /// The variant's name, as it is written in logs and in the database.
    pub open spec fn name_text(self) -> Seq<char> {
        match self {
            StopReason::Exit => "Exit"@,
            StopReason::Checkpoint => "Checkpoint"@,
            StopReason::Timeout => "Timeout"@,
            StopReason::RateLimit => "RateLimit"@,
            StopReason::PermissionDenied => "PermissionDenied"@,
            StopReason::Crash => "Crash"@,
            StopReason::Kill => "Kill"@,
            StopReason::Unknown => "Unknown"@,
        }
    }

    pub fn name(&self) -> (r: &'static str)
        ensures
            r@ == self.name_text(),
    {
        match self {
            StopReason::Exit => "Exit",
            StopReason::Checkpoint => "Checkpoint",
            StopReason::Timeout => "Timeout",
            StopReason::RateLimit => "RateLimit",
            StopReason::PermissionDenied => "PermissionDenied",
            StopReason::Crash => "Crash",
            StopReason::Kill => "Kill",
            StopReason::Unknown => "Unknown",
        }
    }
}

/// Classification of a failed run.
#[derive(Debug, Clone, Copy, PartialEq, Eq, Structural, Hash)]
pub enum FailureClass {
    Timeout,
    RateLimit,
    PermissionDenied,
    CircuitOpen,
    NoProgress,
    RepeatedError,
    ProtocolMalformed,
    ClaudeCrashed,
    BrMirrorFailed,
    Interrupted,
    Unknown,
}

impl FailureClass {
    /// The variant's name, as it is written in logs and in the database.
    pub open spec fn name_text(self) -> Seq<char> {
        match self {
            FailureClass::Timeout => "Timeout"@,
            FailureClass::RateLimit => "RateLimit"@,
            FailureClass::PermissionDenied => "PermissionDenied"@,
            FailureClass::CircuitOpen => "CircuitOpen"@,
            FailureClass::NoProgress => "NoProgress"@,
            FailureClass::RepeatedError => "RepeatedError"@,
            FailureClass::ProtocolMalformed => "ProtocolMalformed"@,
            FailureClass::ClaudeCrashed => "ClaudeCrashed"@,
            FailureClass::BrMirrorFailed => "BrMirrorFailed"@,
            FailureClass::Interrupted => "Interrupted"@,
            FailureClass::Unknown => "Unknown"@,
        }
    }

    pub fn name(&self) -> (r: &'static str)
        ensures
            r@ == self.name_text(),
    {
        match self {
            FailureClass::Timeout => "Timeout",
            FailureClass::RateLimit => "RateLimit",
            FailureClass::PermissionDenied => "PermissionDenied",
            FailureClass::CircuitOpen => "CircuitOpen",
            FailureClass::NoProgress => "NoProgress",
            FailureClass::RepeatedError => "RepeatedError",
            FailureClass::ProtocolMalformed => "ProtocolMalformed",
            FailureClass::ClaudeCrashed => "ClaudeCrashed",
            FailureClass::BrMirrorFailed => "BrMirrorFailed",
            FailureClass::Interrupted => "Interrupted",
            FailureClass::Unknown => "Unknown",
        }
    }
}

/// Observed activity of the agent behind a run.
#[derive(Debug, Clone, Copy, PartialEq, Eq, Structural, Hash)]
pub enum AgentActivity {
    Active,
    Ready,
    Idle,
    Blocked,
    Exited,
}

impl AgentActivity {
    /// The variant's name, as it is written in logs and in the database.
    pub open spec fn name_text(self) -> Seq<char> {
        match self {
            AgentActivity::Active => "Active"@,
            AgentActivity::Ready => "Ready"@,
            AgentActivity::Idle => "Idle"@,
            AgentActivity::Blocked => "Blocked"@,
            AgentActivity::Exited => "Exited"@,
        }
    }

    pub fn name(&self) -> (r: &'static str)
        ensures
            r@ == self.name_text(),
    {
        match self {
            AgentActivity::Active => "Active",
            AgentActivity::Ready => "Ready",
            AgentActivity::Idle => "Idle",
            AgentActivity::Blocked => "Blocked",
            AgentActivity::Exited => "Exited",
        }
    }
}

/// How far the retry ladder of a bead has climbed.
#[derive(Debug, Clone, Copy, PartialEq, Eq, Structural, Hash)]
pub enum EscalationTier {
    FirstAttempt,
    SecondAttempt,
    ThirdAttempt,
    FinalAttempt,
    GiveUp,
}

impl EscalationTier {
    /// The variant's name, as it is written in logs and in the database.
    pub open spec fn name_text(self) -> Seq<char> {
        match self {
            EscalationTier::FirstAttempt => "FirstAttempt"@,
            EscalationTier::SecondAttempt => "SecondAttempt"@,
            EscalationTier::ThirdAttempt => "ThirdAttempt"@,
            EscalationTier::FinalAttempt => "FinalAttempt"@,
            EscalationTier::GiveUp => "GiveUp"@,
        }
    }

    pub fn name(&self) -> (r: &'static str)
        ensures
            r@ == self.name_text(),
    {
        match self {
            EscalationTier::FirstAttempt => "FirstAttempt",
            EscalationTier::SecondAttempt => "SecondAttempt",
            EscalationTier::ThirdAttempt => "ThirdAttempt",
            EscalationTier::FinalAttempt => "FinalAttempt",
            EscalationTier::GiveUp => "GiveUp",
        }
    }

    /// The tier's position, counting from zero at the first attempt.
    pub open spec fn rank(self) -> nat {
        match self {
            EscalationTier::FirstAttempt => 0,
            EscalationTier::SecondAttempt => 1,
            EscalationTier::ThirdAttempt => 2,
            EscalationTier::FinalAttempt => 3,
            EscalationTier::GiveUp => 4,
        }
    }

    /// The next tier up; giving up is the last.
    pub open spec fn next(self) -> EscalationTier {
        match self {
            EscalationTier::FirstAttempt => EscalationTier::SecondAttempt,
            EscalationTier::SecondAttempt => EscalationTier::ThirdAttempt,
            EscalationTier::ThirdAttempt => EscalationTier::FinalAttempt,
            EscalationTier::FinalAttempt => EscalationTier::GiveUp,
            EscalationTier::GiveUp => EscalationTier::GiveUp,
        }
    }

    pub fn tier_number(&self) -> (r: u8)
        ensures
            r == self.rank(),
    {
        match self {
            EscalationTier::FirstAttempt => 0,
            EscalationTier::SecondAttempt => 1,
            EscalationTier::ThirdAttempt => 2,
            EscalationTier::FinalAttempt => 3,
            EscalationTier::GiveUp => 4,
        }
    }

    pub fn escalate(&self) -> (r: EscalationTier)
        ensures
            r == self.next(),
    {
        match self {
            EscalationTier::FirstAttempt => EscalationTier::SecondAttempt,
            EscalationTier::SecondAttempt => EscalationTier::ThirdAttempt,
            EscalationTier::ThirdAttempt => EscalationTier::FinalAttempt,
            EscalationTier::FinalAttempt => EscalationTier::GiveUp,
            EscalationTier::GiveUp => EscalationTier::GiveUp,
        }
    }

    /// Whether the retry budget is spent.
    pub fn is_terminal(&self) -> (r: bool)
        ensures
            r == (*self is GiveUp),
    {
        match self {
            EscalationTier::GiveUp => true,
            _ => false,
        }
    }
}

/// Escalation only moves up, one tier at a time, and stops at giving up.
pub proof fn lemma_escalation_is_monotone(tier: EscalationTier)
    ensures
        tier.next().rank() >= tier.rank(),
        tier.next().rank() <= tier.rank() + 1,
        tier.next() == tier <==> tier is GiveUp,
{
}

/// Kind of a durable event-log entry.
#[derive(Debug, Clone, Copy, PartialEq, Eq, Structural, Hash)]
pub enum EventKind {
    BeadCacheSynced,
    DependencySnapshotSynced,
    GroveStatusUpdated,
    RunStarted,
    RunCheckpointed,
    RunSucceeded,
    RunFailed,
    SessionStarted,
    SessionCheckpointed,
    SessionSucceeded,
    SessionFailed,
    HandoffWritten,
    ReservationGranted,
    ReservationConflictDetected,
    ReservationExpired,
    RecoveryActionTaken,
    LeaseAcquired,
    LeaseHeartbeat,
    LeaseReleased,
    ShutdownRequested,
    SessionTerminationRequested,
    SessionTerminationForced,
    CoordinatorStopped,
    ArchiveIngested,
    PlaybookBulletAdded,
    PlaybookBulletPromoted,
    PlaybookBulletDeprecated,
    BrMirrorRequested,
    BrMirrorSucceeded,
    BrMirrorFailed,
    ReactionInvoked,
    EscalationTierChanged,
    EscalationTierReset,
    ActivityStateChanged,
    RecoveryCapsuleCreated,
}

impl EventKind {
    /// The variant's name, as it is written in logs and in the database.
    pub open spec fn name_text(self) -> Seq<char> {
        match self {
            EventKind::BeadCacheSynced => "BeadCacheSynced"@,
            EventKind::DependencySnapshotSynced => "DependencySnapshotSynced"@,
            EventKind::GroveStatusUpdated => "GroveStatusUpdated"@,
            EventKind::RunStarted => "RunStarted"@,
            EventKind::RunCheckpointed => "RunCheckpointed"@,
            EventKind::RunSucceeded => "RunSucceeded"@,
            EventKind::RunFailed => "RunFailed"@,
            EventKind::SessionStarted => "SessionStarted"@,
            EventKind::SessionCheckpointed => "SessionCheckpointed"@,
            EventKind::SessionSucceeded => "SessionSucceeded"@,
            EventKind::SessionFailed => "SessionFailed"@,
            EventKind::HandoffWritten => "HandoffWritten"@,
            EventKind::ReservationGranted => "ReservationGranted"@,
            EventKind::ReservationConflictDetected => "ReservationConflictDetected"@,
            EventKind::ReservationExpired => "ReservationExpired"@,
            EventKind::RecoveryActionTaken => "RecoveryActionTaken"@,
            EventKind::LeaseAcquired => "LeaseAcquired"@,
            EventKind::LeaseHeartbeat => "LeaseHeartbeat"@,
            EventKind::LeaseReleased => "LeaseReleased"@,
            EventKind::ShutdownRequested => "ShutdownRequested"@,
            EventKind::SessionTerminationRequested => "SessionTerminationRequested"@,
            EventKind::SessionTerminationForced => "SessionTerminationForced"@,
            EventKind::CoordinatorStopped => "CoordinatorStopped"@,
            EventKind::ArchiveIngested => "ArchiveIngested"@,
            EventKind::PlaybookBulletAdded => "PlaybookBulletAdded"@,
            EventKind::PlaybookBulletPromoted => "PlaybookBulletPromoted"@,
            EventKind::PlaybookBulletDeprecated => "PlaybookBulletDeprecated"@,
            EventKind::BrMirrorRequested => "BrMirrorRequested"@,
            EventKind::BrMirrorSucceeded => "BrMirrorSucceeded"@,
            EventKind::BrMirrorFailed => "BrMirrorFailed"@,
            EventKind::ReactionInvoked => "ReactionInvoked"@,
            EventKind::EscalationTierChanged => "EscalationTierChanged"@,
            EventKind::EscalationTierReset => "EscalationTierReset"@,
            EventKind::ActivityStateChanged => "ActivityStateChanged"@,
            EventKind::RecoveryCapsuleCreated => "RecoveryCapsuleCreated"@,
        }
    }

    pub fn name(&self) -> (r: &'static str)
        ensures
            r@ == self.name_text(),
    {
        match self {
            EventKind::BeadCacheSynced => "BeadCacheSynced",
            EventKind::DependencySnapshotSynced => "DependencySnapshotSynced",
            EventKind::GroveStatusUpdated => "GroveStatusUpdated",
            EventKind::RunStarted => "RunStarted",
            EventKind::RunCheckpointed => "RunCheckpointed",
            EventKind::RunSucceeded => "RunSucceeded",
            EventKind::RunFailed => "RunFailed",
            EventKind::SessionStarted => "SessionStarted",
            EventKind::SessionCheckpointed => "SessionCheckpointed",
            EventKind::SessionSucceeded => "SessionSucceeded",
            EventKind::SessionFailed => "SessionFailed",
            EventKind::HandoffWritten => "HandoffWritten",
            EventKind::ReservationGranted => "ReservationGranted",
            EventKind::ReservationConflictDetected => "ReservationConflictDetected",
            EventKind::ReservationExpired => "ReservationExpired",
            EventKind::RecoveryActionTaken => "RecoveryActionTaken",
            EventKind::LeaseAcquired => "LeaseAcquired",
            EventKind::LeaseHeartbeat => "LeaseHeartbeat",
            EventKind::LeaseReleased => "LeaseReleased",
            EventKind::ShutdownRequested => "ShutdownRequested",
            EventKind::SessionTerminationRequested => "SessionTerminationRequested",
            EventKind::SessionTerminationForced => "SessionTerminationForced",
            EventKind::CoordinatorStopped => "CoordinatorStopped",
            EventKind::ArchiveIngested => "ArchiveIngested",
            EventKind::PlaybookBulletAdded => "PlaybookBulletAdded",
            EventKind::PlaybookBulletPromoted => "PlaybookBulletPromoted",
            EventKind::PlaybookBulletDeprecated => "PlaybookBulletDeprecated",
            EventKind::BrMirrorRequested => "BrMirrorRequested",
            EventKind::BrMirrorSucceeded => "BrMirrorSucceeded",
            EventKind::BrMirrorFailed => "BrMirrorFailed",
            EventKind::ReactionInvoked => "ReactionInvoked",
            EventKind::EscalationTierChanged => "EscalationTierChanged",
            EventKind::EscalationTierReset => "EscalationTierReset",
            EventKind::ActivityStateChanged => "ActivityStateChanged",
            EventKind::RecoveryCapsuleCreated => "RecoveryCapsuleCreated",
        }
    }
}

/// Outcome recorded with an observable event.
#[derive(Debug, Clone, Copy, PartialEq, Eq, Structural, Hash)]
pub enum EventOutcome {
    Success,
    Failure,
    Partial,
}

impl EventOutcome {
    /// The variant's name, as it is written in logs and in the database.
    pub open spec fn name_text(self) -> Seq<char> {
        match self {
            EventOutcome::Success => "Success"@,
            EventOutcome::Failure => "Failure"@,
            EventOutcome::Partial => "Partial"@,
        }
    }

    pub fn name(&self) -> (r: &'static str)
        ensures
            r@ == self.name_text(),
    {
        match self {
            EventOutcome::Success => "Success",
            EventOutcome::Failure => "Failure",
            EventOutcome::Partial => "Partial",
        }
    }
}

/// State of a queued mirror operation towards the issue tracker.
#[derive(Debug, Clone, Copy, PartialEq, Eq, Structural, Hash)]
pub enum MirrorStatus {
    Pending,
    InProgress,
    Succeeded,
    Failed,
}

impl MirrorStatus {
    /// The variant's name, as it is written in logs and in the database.
    pub open spec fn name_text(self) -> Seq<char> {
        match self {
            MirrorStatus::Pending => "Pending"@,
            MirrorStatus::InProgress => "InProgress"@,
            MirrorStatus::Succeeded => "Succeeded"@,
            MirrorStatus::Failed => "Failed"@,
        }
    }

    pub fn name(&self) -> (r: &'static str)
        ensures
            r@ == self.name_text(),
    {
        match self {
            MirrorStatus::Pending => "Pending",
            MirrorStatus::InProgress => "InProgress",
            MirrorStatus::Succeeded => "Succeeded",
            MirrorStatus::Failed => "Failed",
        }
    }
}

/// Whether a file reservation excludes other holders.
#[derive(Debug, Clone, Copy, PartialEq, Eq, Structural, Hash)]
pub enum ReservationMode {
    Shared,
    Exclusive,
}

impl ReservationMode {
    /// The variant's name, as it is written in logs and in the database.
    pub open spec fn name_text(self) -> Seq<char> {
        match self {
            ReservationMode::Shared => "Shared"@,
            ReservationMode::Exclusive => "Exclusive"@,
        }
    }

    pub fn name(&self) -> (r: &'static str)
        ensures
            r@ == self.name_text(),
    {
        match self {
            ReservationMode::Shared => "Shared",
            ReservationMode::Exclusive => "Exclusive",
        }
    }
}

/// Priority of a bead, P0 being the most urgent.
#[derive(Debug, Clone, Copy, PartialEq, Eq, Structural, Hash)]
pub enum BeadPriority {
    P0,
    P1,
    P2,
    P3,
    P4,
}

impl BeadPriority {
    /// The variant's name, as it is written in logs and in the database.
    pub open spec fn name_text(self) -> Seq<char> {
        match self {
            BeadPriority::P0 => "P0"@,
            BeadPriority::P1 => "P1"@,
            BeadPriority::P2 => "P2"@,
            BeadPriority::P3 => "P3"@,
            BeadPriority::P4 => "P4"@,
        }
    }

    pub fn name(&self) -> (r: &'static str)
        ensures
            r@ == self.name_text(),
    {
        match self {
            BeadPriority::P0 => "P0",
            BeadPriority::P1 => "P1",
            BeadPriority::P2 => "P2",
            BeadPriority::P3 => "P3",
            BeadPriority::P4 => "P4",
        }
    }
}

/// State of the circuit breaker of a bead.
#[derive(Debug, Clone, Copy, PartialEq, Eq, Structural, Hash)]
pub enum CircuitState {
    Closed,
    Open,
    HalfOpen,
}

impl CircuitState {
    /// The variant's name, as it is written in logs and in the database.
    pub open spec fn name_text(self) -> Seq<char> {
        match self {
            CircuitState::Closed => "Closed"@,
            CircuitState::Open => "Open"@,
            CircuitState::HalfOpen => "HalfOpen"@,
        }
    }

    pub fn name(&self) -> (r: &'static str)
        ensures
            r@ == self.name_text(),
    {
        match self {
            CircuitState::Closed => "Closed",
            CircuitState::Open => "Open",
            CircuitState::HalfOpen => "HalfOpen",
        }
    }
}

/// Durable reason recorded when the coordinator stops.
#[derive(Debug, Clone, Copy, PartialEq, Eq, Structural, Hash)]
pub enum CoordinatorStopReason {
    QueueEmpty,
    DispatchBlocked,
    MaxRunsReached,
    LeaderContested,
    MaxPollCycles,
    UserStopped,
    Interrupted,
}

impl CoordinatorStopReason {
    /// The variant's name, as it is written in logs and in the database.
    pub open spec fn name_text(self) -> Seq<char> {
        match self {
            CoordinatorStopReason::QueueEmpty => "QueueEmpty"@,
            CoordinatorStopReason::DispatchBlocked => "DispatchBlocked"@,
            CoordinatorStopReason::MaxRunsReached => "MaxRunsReached"@,
            CoordinatorStopReason::LeaderContested => "LeaderContested"@,
            CoordinatorStopReason::MaxPollCycles => "MaxPollCycles"@,
            CoordinatorStopReason::UserStopped => "UserStopped"@,
            CoordinatorStopReason::Interrupted => "Interrupted"@,
        }
    }

    pub fn name(&self) -> (r: &'static str)
        ensures
            r@ == self.name_text(),
    {
        match self {
            CoordinatorStopReason::QueueEmpty => "QueueEmpty",
            CoordinatorStopReason::DispatchBlocked => "DispatchBlocked",
            CoordinatorStopReason::MaxRunsReached => "MaxRunsReached",
            CoordinatorStopReason::LeaderContested => "LeaderContested",
            CoordinatorStopReason::MaxPollCycles => "MaxPollCycles",
            CoordinatorStopReason::UserStopped => "UserStopped",
            CoordinatorStopReason::Interrupted => "Interrupted",
        }
    }
}

/// How the run that a recovery capsule describes ended.
#[derive(Debug, Clone, Copy, PartialEq, Eq, Structural, Hash)]
pub enum RecoveryCapsuleOutcome {
    Failed,
    Interrupted,
    Checkpointed,
}

impl RecoveryCapsuleOutcome {
    /// The variant's name, as it is written in logs and in the database.
    pub open spec fn name_text(self) -> Seq<char> {
        match self {
            RecoveryCapsuleOutcome::Failed => "Failed"@,
            RecoveryCapsuleOutcome::Interrupted => "Interrupted"@,
            RecoveryCapsuleOutcome::Checkpointed => "Checkpointed"@,
        }
    }

    pub fn name(&self) -> (r: &'static str)
        ensures
            r@ == self.name_text(),
    {
        match self {
            RecoveryCapsuleOutcome::Failed => "Failed",
            RecoveryCapsuleOutcome::Interrupted => "Interrupted",
            RecoveryCapsuleOutcome::Checkpointed => "Checkpointed",
        }
    }
}

/// Scope in which a playbook bullet applies.
#[derive(Debug, Clone, Copy, PartialEq, Eq, Structural, Hash)]
pub enum BulletScope {
    Global,
    Workspace,
    Language,
    Framework,
    Bead,
}

impl BulletScope {
    /// The variant's name, as it is written in logs and in the database.
    pub open spec fn name_text(self) -> Seq<char> {
        match self {
            BulletScope::Global => "Global"@,
            BulletScope::Workspace => "Workspace"@,
            BulletScope::Language => "Language"@,
            BulletScope::Framework => "Framework"@,
            BulletScope::Bead => "Bead"@,
        }
    }

    pub fn name(&self) -> (r: &'static str)
        ensures
            r@ == self.name_text(),
    {
        match self {
            BulletScope::Global => "Global",
            BulletScope::Workspace => "Workspace",
            BulletScope::Language => "Language",
            BulletScope::Framework => "Framework",
            BulletScope::Bead => "Bead",
        }
    }
}

/// Whether a playbook bullet is a rule or an anti-pattern.
#[derive(Debug, Clone, Copy, PartialEq, Eq, Structural, Hash)]
pub enum BulletType {
    Rule,
    AntiPattern,
}

impl BulletType {
    /// The variant's name, as it is written in logs and in the database.
    pub open spec fn name_text(self) -> Seq<char> {
        match self {
            BulletType::Rule => "Rule"@,
            BulletType::AntiPattern => "AntiPattern"@,
        }
    }

    pub fn name(&self) -> (r: &'static str)
        ensures
            r@ == self.name_text(),
    {
        match self {
            BulletType::Rule => "Rule",
            BulletType::AntiPattern => "AntiPattern",
        }
    }
}

/// Curation state of a playbook bullet.
#[derive(Debug, Clone, Copy, PartialEq, Eq, Structural, Hash)]
pub enum BulletState {
    Draft,
    Active,
    Retired,
}

impl BulletState {
    /// The variant's name, as it is written in logs and in the database.
    pub open spec fn name_text(self) -> Seq<char> {
        match self {
            BulletState::Draft => "Draft"@,
            BulletState::Active => "Active"@,
            BulletState::Retired => "Retired"@,
        }
    }

    pub fn name(&self) -> (r: &'static str)
        ensures
            r@ == self.name_text(),
    {
        match self {
            BulletState::Draft => "Draft",
            BulletState::Active => "Active",
            BulletState::Retired => "Retired",
        }
    }
}

/// Maturity of a playbook bullet.
#[derive(Debug, Clone, Copy, PartialEq, Eq, Structural, Hash)]
pub enum BulletMaturity {
    Candidate,
    Established,
    Proven,
    Deprecated,
}

impl BulletMaturity {
    /// The variant's name, as it is written in logs and in the database.
    pub open spec fn name_text(self) -> Seq<char> {
        match self {
            BulletMaturity::Candidate => "Candidate"@,
            BulletMaturity::Established => "Established"@,
            BulletMaturity::Proven => "Proven"@,
            BulletMaturity::Deprecated => "Deprecated"@,
        }
    }

    pub fn name(&self) -> (r: &'static str)
        ensures
            r@ == self.name_text(),
    {
        match self {
            BulletMaturity::Candidate => "Candidate",
            BulletMaturity::Established => "Established",
            BulletMaturity::Proven => "Proven",
            BulletMaturity::Deprecated => "Deprecated",
        }
    }
}

/// Direction of a feedback event on a playbook bullet.
#[derive(Debug, Clone, Copy, PartialEq, Eq, Structural, Hash)]
pub enum FeedbackKind {
    Helpful,
    Harmful,
}

impl FeedbackKind {
    /// The variant's name, as it is written in logs and in the database.
    pub open spec fn name_text(self) -> Seq<char> {
        match self {
            FeedbackKind::Helpful => "Helpful"@,
            FeedbackKind::Harmful => "Harmful"@,
        }
    }

    pub fn name(&self) -> (r: &'static str)
        ensures
            r@ == self.name_text(),
    {
        match self {
            FeedbackKind::Helpful => "Helpful",
            FeedbackKind::Harmful => "Harmful",
        }
    }
}

/// What happened to a reaction once it fired.
#[derive(Debug, Clone, Copy, PartialEq, Eq, Structural, Hash)]
pub enum ReactionOutcome {
    Applied,
    Escalated,
    Skipped,
}

impl ReactionOutcome {
    /// The variant's name, as it is written in logs and in the database.
    pub open spec fn name_text(self) -> Seq<char> {
        match self {
            ReactionOutcome::Applied => "Applied"@,
            ReactionOutcome::Escalated => "Escalated"@,
            ReactionOutcome::Skipped => "Skipped"@,
        }
    }

    pub fn name(&self) -> (r: &'static str)
        ensures
            r@ == self.name_text(),
    {
        match self {
            ReactionOutcome::Applied => "Applied",
            ReactionOutcome::Escalated => "Escalated",
            ReactionOutcome::Skipped => "Skipped",
        }
    }
}

/// An instant on the UTC time line: whole seconds since the Unix epoch and the
/// nanoseconds past that second.
#[derive(Debug, Clone, Copy, PartialEq, Eq, Structural, Hash, PartialOrd, Ord)]
pub struct Timestamp {
    pub secs: i64,
    pub nanos: u32,
}

impl Timestamp {
    /// Whether `self` lies strictly before `other`.
    pub open spec fn earlier_than(self, other: Timestamp) -> bool {
        self.secs < other.secs || (self.secs == other.secs && self.nanos < other.nanos)
    }

    pub fn is_before(&self, other: &Timestamp) -> (r: bool)
        ensures
            r == self.earlier_than(*other),
    {
        self.secs < other.secs || (self.secs == other.secs && self.nanos < other.nanos)
    }

    pub fn from_unix_seconds(secs: i64) -> (r: Timestamp)
        ensures
            r.secs == secs,
            r.nanos == 0,
    {
        Timestamp { secs, nanos: 0 }
    }
}

} // verus!
