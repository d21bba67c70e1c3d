//! Dispatch eligibility: whether a bead that the issue tracker reports ready may be
//! dispatched by Grove, and every local reason that holds it back; plus the sanity
//! check of cached dependency snapshots.
use vstd::prelude::*;
use crate::bead::{id_texts, DependencySnapshot, GroveBeadRecord};
use crate::reservation::{ReservationConflict, copy_conflict};
use crate::text::{
    append_decimal, decimal_text, eq_ignore_ascii_case, eq_ignore_ascii_case_text,
    lemma_text_lt_transitive, lemma_text_lt_trichotomy, owned, text_less, text_lt,
};
use crate::types::{BeadId, CircuitState, GroveBeadStatus, RunId, Timestamp};

verus! {

// ---------------------------------------------------------------------------
// Suppression label and circuit state
// ---------------------------------------------------------------------------

/// The first label that equals `dispatch:no` ignoring ASCII case.
pub open spec fn first_suppression_label(labels: Seq<String>) -> Option<String>
    decreases labels.len(),
{
    if labels.len() == 0 {
        None
    } else if eq_ignore_ascii_case_text(labels[0]@, "dispatch:no"@) {
        Some(labels[0])
    } else {
        first_suppression_label(labels.drop_first())
    }
}

/// The label that opts a bead out of dispatch, if it carries one.
pub fn dispatch_suppression_label(labels: &Vec<String>) -> (r: Option<String>)
    ensures
        r == first_suppression_label(labels@),
{
    let mut i: usize = 0;
    assert(labels@.subrange(0, labels.len() as int) =~= labels@);
    while i < labels.len()
        invariant
            i <= labels.len(),
            first_suppression_label(labels@) == first_suppression_label(
                labels@.subrange(i as int, labels.len() as int),
            ),
        decreases labels.len() - i,
    {
        let ghost rest = labels@.subrange(i as int, labels.len() as int);
        assert(rest[0] == labels@[i as int]);
        assert(rest.drop_first() =~= labels@.subrange(i + 1, labels.len() as int));
        if eq_ignore_ascii_case(labels[i].as_str(), "dispatch:no") {
            return Some(labels[i].clone());
        }
        i = i + 1;
    }
    None
}

/// The circuit state the persisted breaker snapshot records; closed when there is none.
pub open spec fn bead_circuit_state(bead: GroveBeadRecord) -> CircuitState {
    match bead.circuit_breaker_state {
        Some(state) => state.state,
        None => CircuitState::Closed,
    }
}

pub fn circuit_state_for_bead(bead: &GroveBeadRecord) -> (r: CircuitState)
    ensures
        r == bead_circuit_state(*bead),
{
    match &bead.circuit_breaker_state {
        Some(state) => state.state,
        None => CircuitState::Closed,
    }
}

// ---------------------------------------------------------------------------
// Eligibility
// ---------------------------------------------------------------------------

/// What the scheduler knows besides the bead itself.
#[derive(Debug, Clone, PartialEq, Eq)]
pub struct DispatchEligibilityContext {
    pub ready_in_br: bool,
    pub circuit_state: CircuitState,
    pub reservation_conflicts: Vec<ReservationConflict>,
    pub now: Timestamp,
}

/// Why Grove holds back a bead that the issue tracker may report ready.
#[derive(Debug, Clone, PartialEq, Eq)]
pub enum LocalSuppressionReason {
    SuppressedByLabel { label: String },
    ActiveRun { run_id: Option<RunId> },
    CheckpointPendingResume { run_id: Option<RunId> },
    RetryBackoffPending { retry_after: Option<Timestamp> },
    CircuitOpen,
    ReservationConflict { conflict: ReservationConflict },
    AlreadySucceeded,
    FailedAwaitingManualRetry,
}

impl LocalSuppressionReason {
    pub open spec fn code_text(self) -> Seq<char> {
        match self {
            LocalSuppressionReason::SuppressedByLabel { .. } => "suppressed_by_label"@,
            LocalSuppressionReason::ActiveRun { .. } => "active_run"@,
            LocalSuppressionReason::CheckpointPendingResume { .. } => "checkpoint_pending_resume"@,
            LocalSuppressionReason::RetryBackoffPending { .. } => "retry_backoff_pending"@,
            LocalSuppressionReason::CircuitOpen => "circuit_open"@,
            LocalSuppressionReason::ReservationConflict { .. } => "reservation_conflict"@,
            LocalSuppressionReason::AlreadySucceeded => "already_succeeded"@,
            LocalSuppressionReason::FailedAwaitingManualRetry => "failed_awaiting_manual_retry"@,
        }
    }

    /// A stable machine-readable code for the reason.
    pub fn code(&self) -> (r: &'static str)
        ensures
            r@ == self.code_text(),
    {
        match self {
            LocalSuppressionReason::SuppressedByLabel { .. } => "suppressed_by_label",
            LocalSuppressionReason::ActiveRun { .. } => "active_run",
            LocalSuppressionReason::CheckpointPendingResume { .. } => "checkpoint_pending_resume",
            LocalSuppressionReason::RetryBackoffPending { .. } => "retry_backoff_pending",
            LocalSuppressionReason::CircuitOpen => "circuit_open",
            LocalSuppressionReason::ReservationConflict { .. } => "reservation_conflict",
            LocalSuppressionReason::AlreadySucceeded => "already_succeeded",
            LocalSuppressionReason::FailedAwaitingManualRetry => "failed_awaiting_manual_retry",
        }
    }
}

/// The verdict on one bead.
#[derive(Debug, Clone, PartialEq, Eq)]
pub struct DispatchEligibility {
    pub ready_in_br: bool,
    pub dispatchable_in_grove: bool,
    pub local_suppression_reasons: Vec<LocalSuppressionReason>,
}

impl DispatchEligibility {
    pub fn has_local_suppressions(&self) -> (r: bool)
        ensures
            r == (self.local_suppression_reasons.len() > 0),
    {
        self.local_suppression_reasons.len() > 0
    }
}

/// Whether a bead waiting to retry is still inside its backoff window: without a
/// retry time it always is, with one while that time lies after `now`.
pub open spec fn backoff_pending(retry_after: Option<Timestamp>, now: Timestamp) -> bool {
    match retry_after {
        None => true,
        Some(t) => now.earlier_than(t),
    }
}

/// The reasons derived from the bead's own status.
pub open spec fn status_suppressions(bead: GroveBeadRecord, now: Timestamp) -> Seq<
    LocalSuppressionReason,
> {
    match bead.grove_status {
        GroveBeadStatus::Idle | GroveBeadStatus::Ready | GroveBeadStatus::Checkpointed => Seq::empty(),
        GroveBeadStatus::Running => seq![
            LocalSuppressionReason::ActiveRun { run_id: bead.last_run_id },
        ],
        GroveBeadStatus::WaitingToRetry => if backoff_pending(bead.retry_after, now) {
            seq![LocalSuppressionReason::RetryBackoffPending { retry_after: bead.retry_after }]
        } else {
            Seq::empty()
        },
        GroveBeadStatus::Succeeded => seq![LocalSuppressionReason::AlreadySucceeded],
        GroveBeadStatus::Failed => seq![LocalSuppressionReason::FailedAwaitingManualRetry],
    }
}

pub open spec fn conflict_reasons(conflicts: Seq<ReservationConflict>) -> Seq<
    LocalSuppressionReason,
> {
    Seq::new(
        conflicts.len(),
        |i: int| LocalSuppressionReason::ReservationConflict { conflict: conflicts[i] },
    )
}

/// Every local reason that holds the bead back, in a fixed order: the opt-out label,
/// the bead's status, an open circuit, then each reservation conflict.
pub open spec fn suppressions_for(
    bead: GroveBeadRecord,
    circuit_state: CircuitState,
    conflicts: Seq<ReservationConflict>,
    now: Timestamp,
) -> Seq<LocalSuppressionReason> {
    let label = match first_suppression_label(bead.bead.labels@) {
        Some(label) => seq![LocalSuppressionReason::SuppressedByLabel { label }],
        None => Seq::empty(),
    };
    let circuit = if circuit_state is Open {
        seq![LocalSuppressionReason::CircuitOpen]
    } else {
        Seq::empty()
    };
    label + status_suppressions(bead, now) + circuit + conflict_reasons(conflicts)
}

pub open spec fn local_suppressions(
    bead: GroveBeadRecord,
    context: DispatchEligibilityContext,
) -> Seq<LocalSuppressionReason> {
    suppressions_for(bead, context.circuit_state, context.reservation_conflicts@, context.now)
}

/// Whether Grove may dispatch the bead now.
pub open spec fn dispatchable(bead: GroveBeadRecord, context: DispatchEligibilityContext) -> bool {
    context.ready_in_br && local_suppressions(bead, context).len() == 0
}

fn push_all(out: &mut Vec<LocalSuppressionReason>, conflicts: &Vec<ReservationConflict>)
    ensures
        final(out)@ == old(out)@ + conflict_reasons(conflicts@),
{
    let mut i: usize = 0;
    while i < conflicts.len()
        invariant
            i <= conflicts.len(),
            out@ == old(out)@ + conflict_reasons(conflicts@.subrange(0, i as int)),
        decreases conflicts.len() - i,
    {
        let conflict = copy_conflict(&conflicts[i]);
        out.push(LocalSuppressionReason::ReservationConflict { conflict });
        i = i + 1;
        assert(out@ =~= old(out)@ + conflict_reasons(conflicts@.subrange(0, i as int)));
    }
    assert(conflicts@.subrange(0, conflicts.len() as int) =~= conflicts@);
}

fn copy_run_id(run: &Option<RunId>) -> (r: Option<RunId>)
    ensures
        r == *run,
{
    match run {
        Some(id) => Some(id.duplicate()),
        None => None,
    }
}

/// Collects the local reasons that hold the bead back.
pub fn collect_local_suppressions(
    bead: &GroveBeadRecord,
    context: &DispatchEligibilityContext,
) -> (r: Vec<LocalSuppressionReason>)
    ensures
        r@ == local_suppressions(*bead, *context),
{
    let mut reasons: Vec<LocalSuppressionReason> = Vec::new();
    if let Some(label) = dispatch_suppression_label(&bead.bead.labels) {
        reasons.push(LocalSuppressionReason::SuppressedByLabel { label });
    }
    let ghost after_label = reasons@;
    match bead.grove_status {
        GroveBeadStatus::Idle | GroveBeadStatus::Ready | GroveBeadStatus::Checkpointed => {},
        GroveBeadStatus::Running => {
            reasons.push(
                LocalSuppressionReason::ActiveRun { run_id: copy_run_id(&bead.last_run_id) },
            );
        },
        GroveBeadStatus::WaitingToRetry => {
            let pending = match &bead.retry_after {
                None => true,
                Some(t) => context.now.is_before(t),
            };
            if pending {
                reasons.push(
                    LocalSuppressionReason::RetryBackoffPending { retry_after: bead.retry_after },
                );
            }
        },
        GroveBeadStatus::Succeeded => {
            reasons.push(LocalSuppressionReason::AlreadySucceeded);
        },
        GroveBeadStatus::Failed => {
            reasons.push(LocalSuppressionReason::FailedAwaitingManualRetry);
        },
    }
    assert(reasons@ =~= after_label + status_suppressions(*bead, context.now));
    let ghost after_status = reasons@;
    if let CircuitState::Open = context.circuit_state {
        reasons.push(LocalSuppressionReason::CircuitOpen);
    }
    push_all(&mut reasons, &context.reservation_conflicts);
    assert(reasons@ =~= local_suppressions(*bead, *context));
    reasons
}

/// Evaluates whether the bead may be dispatched and why not.
pub fn evaluate_dispatch_eligibility(
    bead: &GroveBeadRecord,
    context: &DispatchEligibilityContext,
) -> (r: DispatchEligibility)
    ensures
        r.ready_in_br == context.ready_in_br,
        r.local_suppression_reasons@ == local_suppressions(*bead, *context),
        r.dispatchable_in_grove == dispatchable(*bead, *context),
{
    let local_suppression_reasons = collect_local_suppressions(bead, context);
    let dispatchable_in_grove = context.ready_in_br && local_suppression_reasons.len() == 0;
    DispatchEligibility {
        ready_in_br: context.ready_in_br,
        dispatchable_in_grove,
        local_suppression_reasons,
    }
}

/// A bead that the issue tracker does not report ready is never dispatchable.
pub proof fn lemma_not_ready_never_dispatchable(
    bead: GroveBeadRecord,
    context: DispatchEligibilityContext,
)
    requires
        !context.ready_in_br,
    ensures
        !dispatchable(bead, context),
{
}

/// A bead that succeeded, failed or is running is never dispatchable.
pub proof fn lemma_settled_or_running_never_dispatchable(
    bead: GroveBeadRecord,
    context: DispatchEligibilityContext,
)
    requires
        bead.grove_status is Succeeded || bead.grove_status is Failed
            || bead.grove_status is Running,
    ensures
        !dispatchable(bead, context),
{
    assert(status_suppressions(bead, context.now).len() > 0);
}

/// An open circuit or any reservation conflict holds a bead back.
pub proof fn lemma_circuit_or_conflict_blocks(
    bead: GroveBeadRecord,
    context: DispatchEligibilityContext,
)
    requires
        context.circuit_state is Open || context.reservation_conflicts.len() > 0,
    ensures
        !dispatchable(bead, context),
{
}

/// A ready bead without a label, in an idle, ready or checkpointed state, with a
/// closed circuit and no conflicts is dispatchable; so is one waiting to retry whose
/// retry time has come.
pub proof fn lemma_clean_ready_bead_is_dispatchable(
    bead: GroveBeadRecord,
    context: DispatchEligibilityContext,
)
    requires
        context.ready_in_br,
        first_suppression_label(bead.bead.labels@) is None,
        context.circuit_state !is Open,
        context.reservation_conflicts.len() == 0,
        bead.grove_status is Idle || bead.grove_status is Ready || bead.grove_status is Checkpointed
            || (bead.grove_status is WaitingToRetry && !backoff_pending(
            bead.retry_after,
            context.now,
        )),
    ensures
        dispatchable(bead, context),
{
    assert(local_suppressions(bead, context) =~= Seq::<LocalSuppressionReason>::empty());
}

// ---------------------------------------------------------------------------
// Dependency snapshot sanity
// ---------------------------------------------------------------------------

/// A defect of a cached dependency snapshot.
#[derive(Debug, Clone, PartialEq, Eq)]
pub enum DependencySnapshotIssue {
    SelfBlockedBy,
    SelfBlocks,
    DuplicateBlockedBy { bead_id: BeadId, occurrences: usize },
    DuplicateBlocks { bead_id: BeadId, occurrences: usize },
}

/// Plain-value image of an issue: a kind (0 to 3, in declaration order), the bead
/// named and the number of occurrences (empty and 0 for the self-edge kinds).
pub type IssueView = (int, Seq<char>, nat);

impl View for DependencySnapshotIssue {
    type V = IssueView;

    open spec fn view(&self) -> IssueView {
        match self {
            DependencySnapshotIssue::SelfBlockedBy => (0, Seq::empty(), 0),
            DependencySnapshotIssue::SelfBlocks => (1, Seq::empty(), 0),
            DependencySnapshotIssue::DuplicateBlockedBy { bead_id, occurrences } => (
                2,
                bead_id@,
                *occurrences as nat,
            ),
            DependencySnapshotIssue::DuplicateBlocks { bead_id, occurrences } => (
                3,
                bead_id@,
                *occurrences as nat,
            ),
        }
    }
}

pub open spec fn issue_code_text(kind: int) -> Seq<char> {
    if kind == 0 {
        "self_blocked_by"@
    } else if kind == 1 {
        "self_blocks"@
    } else if kind == 2 {
        "duplicate_blocked_by"@
    } else {
        "duplicate_blocks"@
    }
}

pub open spec fn issue_summary_text(issue: IssueView) -> Seq<char> {
    if issue.0 == 0 {
        "cached dependency snapshot lists the bead as blocking itself"@
    } else if issue.0 == 1 {
        "cached dependency snapshot lists the bead as its own dependent"@
    } else if issue.0 == 2 {
        "cached dependency snapshot repeats blocker "@ + issue.1 + " "@ + decimal_text(issue.2)
            + " times"@
    } else {
        "cached dependency snapshot repeats dependent "@ + issue.1 + " "@ + decimal_text(issue.2)
            + " times"@
    }
}

impl DependencySnapshotIssue {
    pub fn code(&self) -> (r: &'static str)
        ensures
            r@ == issue_code_text(self@.0),
    {
        match self {
            DependencySnapshotIssue::SelfBlockedBy => "self_blocked_by",
            DependencySnapshotIssue::SelfBlocks => "self_blocks",
            DependencySnapshotIssue::DuplicateBlockedBy { .. } => "duplicate_blocked_by",
            DependencySnapshotIssue::DuplicateBlocks { .. } => "duplicate_blocks",
        }
    }

    pub fn summary(&self) -> (r: String)
        ensures
            r@ == issue_summary_text(self@),
    {
        match self {
            DependencySnapshotIssue::SelfBlockedBy => owned(
                "cached dependency snapshot lists the bead as blocking itself",
            ),
            DependencySnapshotIssue::SelfBlocks => owned(
                "cached dependency snapshot lists the bead as its own dependent",
            ),
            DependencySnapshotIssue::DuplicateBlockedBy { bead_id, occurrences } => {
                let mut s = owned("cached dependency snapshot repeats blocker ");
                s.append(bead_id.as_str());
                s.append(" ");
                append_decimal(&mut s, *occurrences as u64);
                s.append(" times");
                s
            },
            DependencySnapshotIssue::DuplicateBlocks { bead_id, occurrences } => {
                let mut s = owned("cached dependency snapshot repeats dependent ");
                s.append(bead_id.as_str());
                s.append(" ");
                append_decimal(&mut s, *occurrences as u64);
                s.append(" times");
                s
            },
        }
    }
}

/// A snapshot and its defects.
#[derive(Debug, Clone, PartialEq, Eq)]
pub struct DependencySnapshotSanity {
    pub snapshot: DependencySnapshot,
    pub issues: Vec<DependencySnapshotIssue>,
}

impl DependencySnapshotSanity {
    pub fn is_sane(&self) -> (r: bool)
        ensures
            r == (self.issues.len() == 0),
    {
        self.issues.len() == 0
    }
}

/// How often `x` occurs in `ids`.
pub open spec fn count_of(ids: Seq<Seq<char>>, x: Seq<char>) -> nat
    decreases ids.len(),
{
    if ids.len() == 0 {
        0
    } else {
        count_of(ids.drop_last(), x) + if ids.last() == x {
            1nat
        } else {
            0nat
        }
    }
}

/// `entries` lists exactly the identifiers that occur more than once in `ids`, each
/// with its number of occurrences, in ascending text order.
pub open spec fn duplicates_listed(ids: Seq<Seq<char>>, entries: Seq<(Seq<char>, nat)>) -> bool {
    &&& forall|i: int, j: int| 0 <= i < j < entries.len() ==> text_lt(#[trigger] entries[i].0, #[trigger] entries[j].0)
    &&& forall|i: int| 0 <= i < entries.len() ==> {
        &&& (#[trigger] entries[i]).1 == count_of(ids, entries[i].0)
        &&& entries[i].1 > 1
    }
    &&& forall|x: Seq<char>| count_of(ids, x) > 1 ==> exists|i: int| 0 <= i < entries.len() && (#[trigger] entries[i]).0 == x
}

proof fn lemma_count_positive_means_present(ids: Seq<Seq<char>>, x: Seq<char>)
    requires
        count_of(ids, x) > 0,
    ensures
        ids.contains(x),
    decreases ids.len(),
{
    if ids.last() != x {
        lemma_count_positive_means_present(ids.drop_last(), x);
        let k = choose|k: int| 0 <= k < ids.drop_last().len() && ids.drop_last()[k] == x;
        assert(ids[k] == x);
    } else {
        assert(ids[ids.len() - 1] == x);
    }
}

/// Counts how often `x` occurs in `ids`.
fn count_occurrences(ids: &Vec<BeadId>, x: &BeadId) -> (r: usize)
    ensures
        r == count_of(id_texts(ids@), x@),
{
    let mut n: usize = 0;
    let mut i: usize = 0;
    while i < ids.len()
        invariant
            i <= ids.len(),
            n <= i,
            n == count_of(id_texts(ids@).subrange(0, i as int), x@),
        decreases ids.len() - i,
    {
        let ghost pre = id_texts(ids@).subrange(0, i as int);
        assert(id_texts(ids@).subrange(0, i + 1).drop_last() =~= pre);
        if ids[i].same_as(x) {
            n = n + 1;
        }
        i = i + 1;
    }
    assert(id_texts(ids@).subrange(0, ids.len() as int) =~= id_texts(ids@));
    n
}

/// The identifiers that occur more than once, with their counts, in ascending order.
pub fn duplicate_dependency_ids(ids: &Vec<BeadId>) -> (r: Vec<(BeadId, usize)>)
    ensures
        duplicates_listed(id_texts(ids@), Seq::new(r.len() as nat, |i: int| (r@[i].0@, r@[i].1 as nat))),
{
    let ghost all = id_texts(ids@);
    let mut out: Vec<(BeadId, usize)> = Vec::new();
    let mut i: usize = 0;
    while i < ids.len()
        invariant
            i <= ids.len(),
            all == id_texts(ids@),
            forall|a: int, b: int| 0 <= a < b < out.len() ==> text_lt(#[trigger] out@[a].0@, #[trigger] out@[b].0@),
            forall|a: int| 0 <= a < out.len() ==> {
                &&& (#[trigger] out@[a]).1 == count_of(all, out@[a].0@)
                &&& out@[a].1 > 1
            },
            forall|k: int| 0 <= k < i && count_of(all, #[trigger] all[k]) > 1 ==> exists|a: int| 0 <= a < out.len() && (#[trigger] out@[a]).0@ == all[k],
        decreases ids.len() - i,
    {
        let id = &ids[i];
        let n = count_occurrences(ids, id);
        // skip identifiers already listed
        let mut listed = false;
        let mut pos: usize = 0;
        let mut j: usize = 0;
        while j < out.len()
            invariant
                j <= out.len(),
                pos <= j,
                forall|a: int, b: int| 0 <= a < b < out.len() ==> text_lt(#[trigger] out@[a].0@, #[trigger] out@[b].0@),
                listed ==> exists|a: int| 0 <= a < out.len() && (#[trigger] out@[a]).0@ == id@,
                !listed ==> forall|a: int| 0 <= a < j ==> (#[trigger] out@[a]).0@ != id@,
                !listed ==> pos == j || (pos < j),
                !listed ==> forall|a: int| 0 <= a < pos ==> text_lt(#[trigger] out@[a].0@, id@),
                !listed ==> forall|a: int| pos <= a < j ==> text_lt(id@, #[trigger] out@[a].0@),
            decreases out.len() - j,
        {
            if out[j].0.same_as(id) {
                listed = true;
            } else if !listed {
                if text_less(out[j].0.as_str(), id.as_str()) {
                    proof {
                        // everything before j sorts before out[j], hence before id
                        assert forall|a: int| pos <= a < j implies #[trigger] out@[a].0@ != out@[a].0@ by {
                            lemma_text_lt_transitive(id@, out@[a].0@, out@[j as int].0@);
                            lemma_text_lt_trichotomy(id@, out@[j as int].0@);
                        }
                    }
                    pos = j + 1;
                } else {
                    proof {
                        lemma_text_lt_trichotomy(id@, out@[j as int].0@);
                    }
                }
            }
            j = j + 1;
        }
        if !listed && n > 1 {
            let ghost before = out@;
            out.insert(pos, (id.duplicate(), n));
            proof {
                assert forall|a: int, b: int| 0 <= a < b < out.len() implies text_lt(#[trigger] out@[a].0@, #[trigger] out@[b].0@) by {
                    if b < pos {
                    } else if a < pos && b == pos {
                    } else if a < pos && b > pos {
                        lemma_text_lt_transitive(out@[a].0@, id@, out@[b].0@);
                    } else if a == pos {
                    } else {
                        assert(out@[a] == before[a - 1] && out@[b] == before[b - 1]);
                    }
                }
                assert forall|a: int| 0 <= a < out.len() implies {
                    &&& (#[trigger] out@[a]).1 == count_of(all, out@[a].0@)
                    &&& out@[a].1 > 1
                } by {
                    if a < pos {
                        assert(out@[a] == before[a]);
                    } else if a > pos {
                        assert(out@[a] == before[a - 1]);
                    }
                }
                assert forall|k: int| 0 <= k < i + 1 && count_of(all, #[trigger] all[k]) > 1 implies exists|a: int| 0 <= a < out.len() && (#[trigger] out@[a]).0@ == all[k] by {
                    if k == i {
                        assert(out@[pos as int].0@ == all[k]);
                    } else {
                        let a0 = choose|a: int| 0 <= a < before.len() && (#[trigger] before[a]).0@ == all[k];
                        if a0 < pos {
                            assert(out@[a0] == before[a0]);
                        } else {
                            assert(out@[a0 + 1] == before[a0]);
                        }
                    }
                }
            }
        } else {
            proof {
                assert forall|k: int| 0 <= k < i + 1 && count_of(all, #[trigger] all[k]) > 1 implies exists|a: int| 0 <= a < out.len() && (#[trigger] out@[a]).0@ == all[k] by {
                    if k == i && !listed {
                        assert(false);
                    }
                }
            }
        }
        i = i + 1;
    }
    proof {
        let entries = Seq::new(out.len() as nat, |a: int| (out@[a].0@, out@[a].1 as nat));
        assert forall|x: Seq<char>| count_of(all, x) > 1 implies exists|a: int| 0 <= a < entries.len() && (#[trigger] entries[a]).0 == x by {
            lemma_count_positive_means_present(all, x);
            let k = choose|k: int| 0 <= k < all.len() && all[k] == x;
            let a = choose|a: int| 0 <= a < out.len() && (#[trigger] out@[a]).0@ == all[k];
            assert(entries[a].0 == x);
        }
    }
    out
}

pub open spec fn issue_views(issues: Seq<DependencySnapshotIssue>) -> Seq<IssueView> {
    Seq::new(issues.len(), |i: int| issues[i]@)
}

pub open spec fn tagged(kind: int, entries: Seq<(Seq<char>, nat)>) -> Seq<IssueView> {
    Seq::new(entries.len(), |i: int| (kind, entries[i].0, entries[i].1))
}

/// The self-edge issues of a snapshot: blocked by itself, then blocking itself.
pub open spec fn self_edge_issues(snapshot: DependencySnapshot) -> Seq<IssueView> {
    let by: Seq<IssueView> = if id_texts(snapshot.blocked_by@).contains(snapshot.bead_id@) {
        seq![(0, Seq::empty(), 0nat)]
    } else {
        Seq::empty()
    };
    let blocks: Seq<IssueView> = if id_texts(snapshot.blocks@).contains(snapshot.bead_id@) {
        seq![(1, Seq::empty(), 0nat)]
    } else {
        Seq::empty()
    };
    by + blocks
}

fn contains_id(ids: &Vec<BeadId>, x: &BeadId) -> (r: bool)
    ensures
        r == id_texts(ids@).contains(x@),
{
    let mut i: usize = 0;
    while i < ids.len()
        invariant
            i <= ids.len(),
            forall|k: int| 0 <= k < i ==> id_texts(ids@)[k] != x@,
        decreases ids.len() - i,
    {
        if ids[i].same_as(x) {
            assert(id_texts(ids@)[i as int] == x@);
            return true;
        }
        i = i + 1;
    }
    false
}

fn push_duplicates(
    issues: &mut Vec<DependencySnapshotIssue>,
    dups: Vec<(BeadId, usize)>,
    blocked_by: bool,
)
    ensures
        issue_views(final(issues)@) == issue_views(old(issues)@) + tagged(
            if blocked_by { 2 } else { 3 },
            Seq::new(dups.len() as nat, |i: int| (dups@[i].0@, dups@[i].1 as nat)),
        ),
{
    let ghost entries = Seq::new(dups.len() as nat, |i: int| (dups@[i].0@, dups@[i].1 as nat));
    let ghost kind: int = if blocked_by { 2 } else { 3 };
    let ghost start = old(issues)@;
    let mut i: usize = 0;
    while i < dups.len()
        invariant
            i <= dups.len(),
            entries == Seq::new(dups.len() as nat, |k: int| (dups@[k].0@, dups@[k].1 as nat)),
            kind == (if blocked_by { 2int } else { 3int }),
            issues@.len() == start.len() + i,
            forall|k: int| 0 <= k < start.len() ==> issues@[k] == start[k],
            forall|k: int| 0 <= k < i ==> (#[trigger] issues@[start.len() + k])@ == (kind, entries[k].0, entries[k].1),
        decreases dups.len() - i,
    {
        let bead_id = dups[i].0.duplicate();
        let occurrences = dups[i].1;
        if blocked_by {
            issues.push(DependencySnapshotIssue::DuplicateBlockedBy { bead_id, occurrences });
        } else {
            issues.push(DependencySnapshotIssue::DuplicateBlocks { bead_id, occurrences });
        }
        i = i + 1;
    }
    let ghost expected = issue_views(start) + tagged(kind, entries);
    assert forall|k: int| 0 <= k < issues@.len() implies issue_views(issues@)[k] == expected[k] by {
        if k >= start.len() {
            let t = k - start.len();
            assert(issues@[start.len() + t]@ == (kind, entries[t].0, entries[t].1));
        }
    }
    assert(issue_views(issues@) =~= expected);
}

/// The snapshot's self-edges, then its repeated blockers, then its repeated
/// dependents (each list in ascending identifier order).
pub fn validate_dependency_snapshot(snapshot: &DependencySnapshot) -> (r: Vec<
    DependencySnapshotIssue,
>)
    ensures
        exists|by_dups: Seq<(Seq<char>, nat)>, block_dups: Seq<(Seq<char>, nat)>|
            {
                &&& duplicates_listed(id_texts(snapshot.blocked_by@), by_dups)
                &&& duplicates_listed(id_texts(snapshot.blocks@), block_dups)
                &&& issue_views(r@) == self_edge_issues(*snapshot) + tagged(2, by_dups) + tagged(
                    3,
                    block_dups,
                )
            },
{
    let mut issues: Vec<DependencySnapshotIssue> = Vec::new();
    if contains_id(&snapshot.blocked_by, &snapshot.bead_id) {
        issues.push(DependencySnapshotIssue::SelfBlockedBy);
    }
    if contains_id(&snapshot.blocks, &snapshot.bead_id) {
        issues.push(DependencySnapshotIssue::SelfBlocks);
    }
    assert(issue_views(issues@) =~= self_edge_issues(*snapshot));
    let by = duplicate_dependency_ids(&snapshot.blocked_by);
    let ghost by_dups = Seq::new(by.len() as nat, |i: int| (by@[i].0@, by@[i].1 as nat));
    push_duplicates(&mut issues, by, true);
    let blocks = duplicate_dependency_ids(&snapshot.blocks);
    let ghost block_dups = Seq::new(blocks.len() as nat, |i: int| (blocks@[i].0@, blocks@[i].1 as nat));
    push_duplicates(&mut issues, blocks, false);
    assert(issue_views(issues@) == self_edge_issues(*snapshot) + tagged(2, by_dups) + tagged(3, block_dups));
    issues
}

/// A snapshot without self-edges or repeated identifiers has no issues.
pub proof fn lemma_unique_edges_are_sane(snapshot: DependencySnapshot, by_dups: Seq<(Seq<char>, nat)>, block_dups: Seq<(Seq<char>, nat)>)
    requires
        !id_texts(snapshot.blocked_by@).contains(snapshot.bead_id@),
        !id_texts(snapshot.blocks@).contains(snapshot.bead_id@),
        forall|x: Seq<char>| count_of(id_texts(snapshot.blocked_by@), x) <= 1,
        forall|x: Seq<char>| count_of(id_texts(snapshot.blocks@), x) <= 1,
        duplicates_listed(id_texts(snapshot.blocked_by@), by_dups),
        duplicates_listed(id_texts(snapshot.blocks@), block_dups),
    ensures
        self_edge_issues(snapshot) + tagged(2, by_dups) + tagged(3, block_dups) == Seq::<IssueView>::empty(),
{
    if by_dups.len() > 0 {
        assert(by_dups[0].1 > 1);
        assert(by_dups[0].1 == count_of(id_texts(snapshot.blocked_by@), by_dups[0].0));
    }
    if block_dups.len() > 0 {
        assert(block_dups[0].1 > 1);
        assert(block_dups[0].1 == count_of(id_texts(snapshot.blocks@), block_dups[0].0));
    }
    assert(self_edge_issues(snapshot) + tagged(2, by_dups) + tagged(3, block_dups) =~= Seq::<IssueView>::empty());
}

} // verus!
