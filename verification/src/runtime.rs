//! The runtime state Grove keeps for each bead, and how each lifecycle write changes
//! it: which fields a write replaces, which it keeps, and which it clears.
use vstd::prelude::*;
use crate::bead::CircuitBreakerState;
use crate::lifecycle::{session_failure, session_failure_class, session_finish_effects, session_finish_event, stop_detail, stop_reason_detail};
use crate::inspect::RecoveryCapsule;
use crate::records::TaskRunRecord;
use crate::text::owned;
use crate::types::{
    BeadId, FailureClass, GroveBeadStatus, RecoveryCapsuleOutcome, RunId, RunStatus, SessionStatus, StopReason,
    Timestamp,
};

verus! {

/// The stored runtime row of a bead. A status of `None` reads as idle.
#[derive(Debug, Clone, PartialEq, Eq)]
pub struct BeadRuntimeRow {
    pub grove_status: Option<GroveBeadStatus>,
    pub declared_paths: Vec<String>,
    pub last_run_id: Option<RunId>,
    pub retry_after: Option<Timestamp>,
    pub last_failure_class: Option<FailureClass>,
    pub last_failure_detail: Option<String>,
    pub circuit_breaker: Option<CircuitBreakerState>,
    pub runtime_updated_at: Timestamp,
}

/// One write to a bead's runtime row. For the status, the declared paths and the
/// circuit breaker, `None` keeps what is stored; for the other fields the inner value
/// is written, and `None` at either level clears them.
#[derive(Debug, Clone, PartialEq, Eq)]
pub struct RuntimeUpdate {
    pub grove_status: Option<GroveBeadStatus>,
    pub declared_paths: Option<Vec<String>>,
    pub last_run_id: Option<Option<RunId>>,
    pub retry_after: Option<Option<Timestamp>>,
    pub last_failure_class: Option<Option<FailureClass>>,
    pub last_failure_detail: Option<Option<String>>,
    pub circuit_breaker: Option<Option<CircuitBreakerState>>,
    pub updated_at: Timestamp,
}

pub open spec fn flatten<T>(o: Option<Option<T>>) -> Option<T> {
    match o {
        Some(inner) => inner,
        None => None,
    }
}

/// The row after `update`, starting from `current` (`None` when the bead has no row).
pub open spec fn updated_row(current: Option<BeadRuntimeRow>, update: RuntimeUpdate) -> (
    Option<GroveBeadStatus>,
    Seq<Seq<char>>,
    Option<RunId>,
    Option<Timestamp>,
    Option<FailureClass>,
    Option<String>,
    Option<CircuitBreakerState>,
    Timestamp,
) {
    (
        match update.grove_status {
            Some(s) => Some(s),
            None => match current {
                Some(row) => row.grove_status,
                None => None,
            },
        },
        match update.declared_paths {
            Some(p) => p.deep_view(),
            None => match current {
                Some(row) => row.declared_paths.deep_view(),
                None => Seq::empty(),
            },
        },
        flatten(update.last_run_id),
        flatten(update.retry_after),
        flatten(update.last_failure_class),
        flatten(update.last_failure_detail),
        match update.circuit_breaker {
            Some(c) => c,
            None => match current {
                Some(row) => row.circuit_breaker,
                None => None,
            },
        },
        update.updated_at,
    )
}

pub open spec fn row_fields(row: BeadRuntimeRow) -> (
    Option<GroveBeadStatus>,
    Seq<Seq<char>>,
    Option<RunId>,
    Option<Timestamp>,
    Option<FailureClass>,
    Option<String>,
    Option<CircuitBreakerState>,
    Timestamp,
) {
    (
        row.grove_status,
        row.declared_paths.deep_view(),
        row.last_run_id,
        row.retry_after,
        row.last_failure_class,
        row.last_failure_detail,
        row.circuit_breaker,
        row.runtime_updated_at,
    )
}

fn copy_paths(v: &Vec<String>) -> (r: Vec<String>)
    ensures
        r.deep_view() == v.deep_view(),
{
    let mut out: Vec<String> = Vec::new();
    let mut i: usize = 0;
    while i < v.len()
        invariant
            i <= v.len(),
            out.deep_view() == v.deep_view().subrange(0, i as int),
        decreases v.len() - i,
    {
        let ghost before = out.deep_view();
        let s = v[i].clone();
        assert(s@ == v.deep_view()[i as int]);
        out.push(s);
        assert(out.deep_view() =~= before.push(s@));
        i = i + 1;
        assert(out.deep_view() =~= v.deep_view().subrange(0, i as int));
    }
    assert(v.deep_view().subrange(0, v.len() as int) =~= v.deep_view());
    out
}

fn copy_run(o: &Option<RunId>) -> (r: Option<RunId>)
    ensures
        r == *o,
{
    match o {
        Some(id) => Some(id.duplicate()),
        None => None,
    }
}

fn copy_breaker(o: &Option<CircuitBreakerState>) -> (r: Option<CircuitBreakerState>)
    ensures
        r == *o,
{
    match o {
        Some(c) => Some(c.duplicate()),
        None => None,
    }
}

fn copy_detail(o: &Option<String>) -> (r: Option<String>)
    ensures
        r == *o,
{
    match o {
        Some(s) => Some(s.clone()),
        None => None,
    }
}

/// Applies one write to a bead's runtime row.
pub fn apply_runtime_update(current: Option<&BeadRuntimeRow>, update: &RuntimeUpdate) -> (r: BeadRuntimeRow)
    ensures
        row_fields(r) == updated_row(
            match current {
                Some(row) => Some(*row),
                None => None,
            },
            *update,
        ),
{
    let grove_status = match update.grove_status {
        Some(s) => Some(s),
        None => match current {
            Some(row) => row.grove_status,
            None => None,
        },
    };
    let declared_paths = match &update.declared_paths {
        Some(p) => copy_paths(p),
        None => match current {
            Some(row) => copy_paths(&row.declared_paths),
            None => Vec::new(),
        },
    };
    let last_run_id = match &update.last_run_id {
        Some(inner) => copy_run(inner),
        None => None,
    };
    let retry_after = match update.retry_after {
        Some(inner) => inner,
        None => None,
    };
    let last_failure_class = match update.last_failure_class {
        Some(inner) => inner,
        None => None,
    };
    let last_failure_detail = match &update.last_failure_detail {
        Some(inner) => copy_detail(inner),
        None => None,
    };
    let circuit_breaker = match &update.circuit_breaker {
        Some(c) => copy_breaker(c),
        None => match current {
            Some(row) => copy_breaker(&row.circuit_breaker),
            None => None,
        },
    };
    let r = BeadRuntimeRow {
        grove_status,
        declared_paths,
        last_run_id,
        retry_after,
        last_failure_class,
        last_failure_detail,
        circuit_breaker,
        runtime_updated_at: update.updated_at,
    };
    assert(declared_paths_view_ok(r, current, *update)) by {
        if update.declared_paths is None && current is None {
            assert(r.declared_paths.deep_view() =~= Seq::<Seq<char>>::empty());
        }
    }
    r
}

spec fn declared_paths_view_ok(r: BeadRuntimeRow, current: Option<&BeadRuntimeRow>, update: RuntimeUpdate) -> bool {
    r.declared_paths.deep_view() == match update.declared_paths {
        Some(p) => p.deep_view(),
        None => match current {
            Some(row) => row.declared_paths.deep_view(),
            None => Seq::empty(),
        },
    }
}

// ---------------------------------------------------------------------------
// The writes of each lifecycle step
// ---------------------------------------------------------------------------

/// Starting a run: the bead runs, the run is its last, and earlier failure and retry
/// details are cleared.
pub fn run_started_update(run_id: &RunId, started_at: Timestamp) -> (r: RuntimeUpdate)
    ensures
        r == (RuntimeUpdate {
            grove_status: Some(GroveBeadStatus::Running),
            declared_paths: None,
            last_run_id: Some(Some(*run_id)),
            retry_after: Some(None),
            last_failure_class: Some(None),
            last_failure_detail: Some(None),
            circuit_breaker: None,
            updated_at: started_at,
        }),
{
    RuntimeUpdate {
        grove_status: Some(GroveBeadStatus::Running),
        declared_paths: None,
        last_run_id: Some(Some(run_id.duplicate())),
        retry_after: Some(None),
        last_failure_class: Some(None),
        last_failure_detail: Some(None),
        circuit_breaker: None,
        updated_at: started_at,
    }
}

/// Starting a session: the bead runs and its failure details are cleared; the retry
/// time is not given, so it is cleared too.
pub fn session_started_update(run_id: &RunId, started_at: Timestamp) -> (r: RuntimeUpdate)
    ensures
        r == (RuntimeUpdate {
            grove_status: Some(GroveBeadStatus::Running),
            declared_paths: None,
            last_run_id: Some(Some(*run_id)),
            retry_after: None,
            last_failure_class: Some(None),
            last_failure_detail: Some(None),
            circuit_breaker: None,
            updated_at: started_at,
        }),
{
    RuntimeUpdate {
        grove_status: Some(GroveBeadStatus::Running),
        declared_paths: None,
        last_run_id: Some(Some(run_id.duplicate())),
        retry_after: None,
        last_failure_class: Some(None),
        last_failure_detail: Some(None),
        circuit_breaker: None,
        updated_at: started_at,
    }
}

/// Finishing a session with `status`: the bead takes the status the outcome maps to,
/// and the failure class and stop-reason detail of the session are recorded.
pub fn session_finished_update(
    run_id: &RunId,
    status: SessionStatus,
    stop_reason: Option<StopReason>,
    at: Timestamp,
) -> (r: RuntimeUpdate)
    ensures
        r.grove_status == Some(session_finish_effects(status).1),
        r.declared_paths is None,
        r.last_run_id == Some(Some(*run_id)),
        r.retry_after == Some(None::<Timestamp>),
        r.last_failure_class == Some(session_failure(status, stop_reason)),
        r.last_failure_detail matches Some(d) && match d {
            Some(text) => stop_detail(stop_reason) == Some(text@),
            None => stop_detail(stop_reason) is None,
        },
        r.circuit_breaker is None,
        r.updated_at == at,
{
    let (_, runtime_status) = session_finish_event(status);
    RuntimeUpdate {
        grove_status: Some(runtime_status),
        declared_paths: None,
        last_run_id: Some(Some(run_id.duplicate())),
        retry_after: Some(None),
        last_failure_class: Some(session_failure_class(status, stop_reason)),
        last_failure_detail: Some(stop_reason_detail(stop_reason)),
        circuit_breaker: None,
        updated_at: at,
    }
}

/// Saving a checkpoint: the bead is checkpointed and declares the paths the agent
/// claimed.
pub fn checkpoint_saved_update(run_id: &RunId, claimed_paths: &Vec<String>, saved_at: Timestamp) -> (r: RuntimeUpdate)
    ensures
        r.grove_status == Some(GroveBeadStatus::Checkpointed),
        r.declared_paths matches Some(p) && p.deep_view() == claimed_paths.deep_view(),
        r.last_run_id == Some(Some(*run_id)),
        r.retry_after == Some(None::<Timestamp>),
        r.last_failure_class == Some(None::<FailureClass>),
        r.last_failure_detail == Some(None::<String>),
        r.circuit_breaker is None,
        r.updated_at == saved_at,
{
    RuntimeUpdate {
        grove_status: Some(GroveBeadStatus::Checkpointed),
        declared_paths: Some(copy_paths(claimed_paths)),
        last_run_id: Some(Some(run_id.duplicate())),
        retry_after: Some(None),
        last_failure_class: Some(None),
        last_failure_detail: Some(None),
        circuit_breaker: None,
        updated_at: saved_at,
    }
}

/// The bead status a finished run leaves behind.
pub open spec fn bead_status_for_run(status: RunStatus) -> GroveBeadStatus {
    match status {
        RunStatus::Active => GroveBeadStatus::Running,
        RunStatus::Checkpointed => GroveBeadStatus::Checkpointed,
        RunStatus::WaitingToRetry => GroveBeadStatus::WaitingToRetry,
        RunStatus::Succeeded => GroveBeadStatus::Succeeded,
        RunStatus::Failed => GroveBeadStatus::Failed,
    }
}

/// Finishing a run: the bead takes the run's status, drops its declared paths unless
/// the run checkpointed, and records the retry time, failure and circuit breaker given.
pub fn run_finished_update(
    run_id: &RunId,
    status: RunStatus,
    retry_after: Option<Timestamp>,
    failure_class: Option<FailureClass>,
    failure_detail: &Option<String>,
    circuit_breaker: Option<CircuitBreakerState>,
    ended_at: Timestamp,
) -> (r: RuntimeUpdate)
    ensures
        r.grove_status == Some(bead_status_for_run(status)),
        status is Checkpointed ==> r.declared_paths is None,
        !(status is Checkpointed) ==> (r.declared_paths matches Some(p) && p.len() == 0),
        r.last_run_id == Some(Some(*run_id)),
        r.retry_after == Some(retry_after),
        r.last_failure_class == Some(failure_class),
        r.last_failure_detail == Some(*failure_detail),
        r.circuit_breaker == Some(circuit_breaker),
        r.updated_at == ended_at,
{
    let runtime_status = match status {
        RunStatus::Active => GroveBeadStatus::Running,
        RunStatus::Checkpointed => GroveBeadStatus::Checkpointed,
        RunStatus::WaitingToRetry => GroveBeadStatus::WaitingToRetry,
        RunStatus::Succeeded => GroveBeadStatus::Succeeded,
        RunStatus::Failed => GroveBeadStatus::Failed,
    };
    let declared_paths = match status {
        RunStatus::Checkpointed => None,
        _ => Some(Vec::new()),
    };
    RuntimeUpdate {
        grove_status: Some(runtime_status),
        declared_paths,
        last_run_id: Some(Some(run_id.duplicate())),
        retry_after: Some(retry_after),
        last_failure_class: Some(failure_class),
        last_failure_detail: Some(copy_detail(failure_detail)),
        circuit_breaker: Some(circuit_breaker),
        updated_at: ended_at,
    }
}

/// The failure detail recorded for a run that was active when the coordinator
/// restarted.
pub open spec fn interrupted_detail_text() -> Seq<char> {
    "startup reconciliation marked previously active run as interrupted"@
}

pub fn interrupted_detail() -> (r: &'static str)
    ensures
        r@ == interrupted_detail_text(),
{
    "startup reconciliation marked previously active run as interrupted"
}

/// The bead of a run that was active when the coordinator restarted waits to be
/// retried, with the interrupted class and the reconciliation detail.
pub fn interrupted_run_update(run_id: &RunId, now: Timestamp) -> (r: RuntimeUpdate)
    ensures
        r.grove_status == Some(GroveBeadStatus::WaitingToRetry),
        r.declared_paths is None,
        r.last_run_id == Some(Some(*run_id)),
        r.retry_after == Some(None::<Timestamp>),
        r.last_failure_class == Some(Some(FailureClass::Interrupted)),
        r.last_failure_detail matches Some(Some(d)) && d@ == interrupted_detail_text(),
        r.circuit_breaker is None,
        r.updated_at == now,
{
    RuntimeUpdate {
        grove_status: Some(GroveBeadStatus::WaitingToRetry),
        declared_paths: None,
        last_run_id: Some(Some(run_id.duplicate())),
        retry_after: Some(None),
        last_failure_class: Some(Some(FailureClass::Interrupted)),
        last_failure_detail: Some(Some(owned(interrupted_detail()))),
        circuit_breaker: None,
        updated_at: now,
    }
}

// ---------------------------------------------------------------------------
// Reconciling interrupted runs
// ---------------------------------------------------------------------------

/// What startup reconciliation did to one run that was active: the run as recorded
/// afterwards, its bead, and the recovery capsule left for the next attempt.
#[derive(Debug, Clone, PartialEq, Eq)]
pub struct InterruptedRunRecovery {
    pub run: TaskRunRecord,
    pub bead_id: BeadId,
    pub recovery_capsule: Option<RecoveryCapsule>,
}

/// The summary of the capsule that an interrupted run leaves.
pub open spec fn interrupted_summary_text() -> Seq<char> {
    "run was interrupted when the coordinator stopped; the next attempt resumes from persisted durable state"@
}

/// Whether `after` is `before` marked interrupted at `now`: waiting to be retried, with
/// the interrupted class, the reconciliation detail and `now` as its end; every other
/// field as it was.
pub open spec fn is_interrupted_run(after: TaskRunRecord, before: TaskRunRecord, now: Timestamp) -> bool {
    &&& after.id == before.id
    &&& after.bead_id == before.bead_id
    &&& after.attempt_no == before.attempt_no
    &&& after.status == RunStatus::WaitingToRetry
    &&& after.failure_class == Some(FailureClass::Interrupted)
    &&& after.failure_detail matches Some(d) && d@ == interrupted_detail_text()
    &&& after.started_at == before.started_at
    &&& after.ended_at == Some(now)
    &&& after.session_count == before.session_count
    &&& after.checkpoint_count == before.checkpoint_count
    &&& after.last_checkpoint_id == before.last_checkpoint_id
    &&& after.activity == before.activity
    &&& after.last_activity_at == before.last_activity_at
    &&& after.escalation_tier == before.escalation_tier
}

/// Whether `c` is the capsule an interrupted run leaves: the interrupted outcome, the
/// summary above, the reconciliation detail as its one piece of evidence, and nothing
/// else.
pub open spec fn is_interrupted_capsule(c: RecoveryCapsule) -> bool {
    &&& c.outcome == RecoveryCapsuleOutcome::Interrupted
    &&& c.summary@ == interrupted_summary_text()
    &&& c.strongest_evidence.len() == 1 && c.strongest_evidence@[0]@ == interrupted_detail_text()
    &&& c.likely_root_causes.len() == 0
    &&& c.risky_paths.len() == 0
    &&& c.do_not_repeat.len() == 0
    &&& c.next_attempt_contract is None
    &&& c.retry_delta_summary is None
    &&& c.checkpoint_progress is None
    &&& c.checkpoint_next_step is None
    &&& c.artifacts.len() == 0
}

/// The runs that are active, in order.
pub open spec fn active_runs(runs: Seq<TaskRunRecord>) -> Seq<TaskRunRecord>
    decreases runs.len(),
{
    if runs.len() == 0 {
        Seq::empty()
    } else {
        active_runs(runs.drop_last()) + if runs.last().status is Active {
            seq![runs.last()]
        } else {
            Seq::empty()
        }
    }
}

/// The capsule an interrupted run leaves.
pub fn interrupted_capsule() -> (r: RecoveryCapsule)
    ensures
        is_interrupted_capsule(r),
{
    let mut evidence: Vec<String> = Vec::new();
    evidence.push(owned(interrupted_detail()));
    RecoveryCapsule {
        outcome: RecoveryCapsuleOutcome::Interrupted,
        summary: owned(
            "run was interrupted when the coordinator stopped; the next attempt resumes from persisted durable state",
        ),
        strongest_evidence: evidence,
        likely_root_causes: Vec::new(),
        risky_paths: Vec::new(),
        do_not_repeat: Vec::new(),
        next_attempt_contract: None,
        retry_delta_summary: None,
        checkpoint_progress: None,
        checkpoint_next_step: None,
        artifacts: Vec::new(),
    }
}

/// Reconciles the runs of the store at startup. `runs` are all recorded runs, ordered by
/// start and id; each one that is still active is marked interrupted and waiting to be
/// retried at `now`, and leaves an interrupted capsule. The result lists them in order.
pub fn recover_interrupted_runs(runs: Vec<TaskRunRecord>, now: Timestamp) -> (r: Vec<InterruptedRunRecovery>)
    ensures
        r.len() == active_runs(runs@).len(),
        forall|k: int|
            0 <= k < r.len() ==> {
                &&& is_interrupted_run((#[trigger] r@[k]).run, active_runs(runs@)[k], now)
                &&& r@[k].bead_id == active_runs(runs@)[k].bead_id
                &&& r@[k].recovery_capsule matches Some(c) && is_interrupted_capsule(c)
            },
{
    let ghost all = runs@;
    let n = runs.len();
    let mut rest = runs;
    let mut out: Vec<InterruptedRunRecovery> = Vec::new();
    let mut i: usize = 0;
    while i < n
        invariant
            n == all.len(),
            i <= n,
            rest@ == all.subrange(i as int, n as int),
            out.len() == active_runs(all.subrange(0, i as int)).len(),
            forall|k: int|
                0 <= k < out.len() ==> {
                    &&& is_interrupted_run((#[trigger] out@[k]).run, active_runs(all.subrange(0, i as int))[k], now)
                    &&& out@[k].bead_id == active_runs(all.subrange(0, i as int))[k].bead_id
                    &&& out@[k].recovery_capsule matches Some(c) && is_interrupted_capsule(c)
                },
        decreases n - i,
    {
        let ghost prefix = all.subrange(0, i as int);
        assert(all.subrange(0, i + 1).drop_last() =~= prefix);
        assert(all.subrange(0, i + 1).last() == all[i as int]);
        let run = rest.remove(0);
        assert(rest@ =~= all.subrange(i + 1, n as int));
        if matches!(run.status, RunStatus::Active) {
            let bead_id = run.bead_id.duplicate();
            let updated = TaskRunRecord {
                status: RunStatus::WaitingToRetry,
                failure_class: Some(FailureClass::Interrupted),
                failure_detail: Some(owned(interrupted_detail())),
                ended_at: Some(now),
                ..run
            };
            out.push(InterruptedRunRecovery { run: updated, bead_id, recovery_capsule: Some(interrupted_capsule()) });
        }
        i = i + 1;
    }
    assert(all.subrange(0, n as int) =~= all);
    out
}

// ---------------------------------------------------------------------------
// Laws of the runtime row
// ---------------------------------------------------------------------------

/// Reconciliation leaves no run active: once every active run is replaced by its
/// interrupted form and the others are left as they were, a second reconciliation finds
/// nothing to do.
pub proof fn lemma_reconciliation_is_idempotent(before: Seq<TaskRunRecord>, after: Seq<TaskRunRecord>, now: Timestamp)
    requires
        after.len() == before.len(),
        forall|i: int|
            0 <= i < before.len() ==> if (#[trigger] before[i]).status is Active {
                is_interrupted_run(after[i], before[i], now)
            } else {
                after[i] == before[i]
            },
    ensures
        active_runs(after).len() == 0,
    decreases before.len(),
{
    if before.len() > 0 {
        let k = before.len() - 1;
        assert(before[k] == before.last());
        lemma_reconciliation_is_idempotent(before.drop_last(), after.drop_last(), now);
        assert(after.last() == after[k]);
    }
}


/// A write that leaves the status, the declared paths or the circuit breaker unset keeps
/// the stored ones; every other field takes the written value.
pub proof fn lemma_unset_fields_are_kept(current: BeadRuntimeRow, update: RuntimeUpdate)
    ensures
        update.grove_status is None ==> updated_row(Some(current), update).0 == current.grove_status,
        update.declared_paths is None ==> updated_row(Some(current), update).1 == current.declared_paths.deep_view(),
        update.circuit_breaker is None ==> updated_row(Some(current), update).6 == current.circuit_breaker,
        updated_row(Some(current), update).2 == flatten(update.last_run_id),
        updated_row(Some(current), update).7 == update.updated_at,
{
}

/// After a run finishes the bead names it as its last run, carries the run's status,
/// and keeps declared paths only when the run checkpointed.
pub proof fn lemma_finished_run_shapes_runtime(
    current: Option<BeadRuntimeRow>,
    update: RuntimeUpdate,
    run_id: RunId,
    status: RunStatus,
)
    requires
        update.grove_status == Some(bead_status_for_run(status)),
        status is Checkpointed ==> update.declared_paths is None,
        !(status is Checkpointed) ==> (update.declared_paths matches Some(p) && p.len() == 0),
        update.last_run_id == Some(Some(run_id)),
    ensures
        updated_row(current, update).0 == Some(bead_status_for_run(status)),
        updated_row(current, update).2 == Some(run_id),
        !(status is Checkpointed) ==> updated_row(current, update).1.len() == 0,
        status is Checkpointed ==> (current matches Some(row) ==> updated_row(current, update).1
            == row.declared_paths.deep_view()),
{
}

} // verus!
