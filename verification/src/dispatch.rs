//! Decisions of the dispatch loop: why it stops, how often the leader lease is
//! renewed, how long failed mirror operations back off, how long a failure streak is,
//! and which ready bead to dispatch next.
use vstd::prelude::*;
use crate::bead::GroveBeadRecord;
use crate::eligibility::{
    bead_circuit_state, circuit_state_for_bead, evaluate_dispatch_eligibility,
    suppressions_for, DispatchEligibilityContext,
};
use crate::records::{is_failure_status, TaskRunRecord};
use crate::reservation::{copy_conflict, ReservationConflict};
use crate::text::{append_decimal, decimal_text, lemma_text_lt_transitive, lemma_text_lt_trichotomy, owned, text_less, text_lt};
use crate::types::{BeadId, BeadPriority, CoordinatorStopReason, EscalationTier, GroveBeadStatus, RunId, RunStatus, Timestamp};

verus! {

// ---------------------------------------------------------------------------
// Exit reasons
// ---------------------------------------------------------------------------

/// Why the dispatch loop stopped.
#[derive(Debug, Clone, Copy, PartialEq, Eq, Structural)]
pub enum DispatchExitReason {
    /// No more dispatchable beads remain.
    QueueEmpty,
    /// Ready beads exist, but all are blocked by local Grove state.
    DispatchBlocked,
    /// Reached the maximum number of total dispatches.
    MaxRunsReached,
    /// Leader lease was contested or lost.
    LeaderContested,
    /// The configured maximum number of poll cycles was exceeded.
    MaxPollCycles { limit: u32 },
    /// A shutdown signal was received.
    ShutdownRequested,
}

impl DispatchExitReason {
    pub open spec fn message_text(self) -> Seq<char> {
        match self {
            DispatchExitReason::QueueEmpty => "no dispatchable beads remain"@,
            DispatchExitReason::DispatchBlocked => "ready beads are blocked by local Grove state"@,
            DispatchExitReason::MaxRunsReached => "reached max total runs"@,
            DispatchExitReason::LeaderContested => "leader lease contested"@,
            DispatchExitReason::MaxPollCycles { limit } => "exceeded max poll cycles ("@
                + decimal_text(limit as nat) + ")"@,
            DispatchExitReason::ShutdownRequested => "shutdown signal received"@,
        }
    }

    /// The operator-facing description of the reason.
    pub fn to_string(&self) -> (r: String)
        ensures
            r@ == self.message_text(),
    {
        match self {
            DispatchExitReason::QueueEmpty => owned("no dispatchable beads remain"),
            DispatchExitReason::DispatchBlocked => owned(
                "ready beads are blocked by local Grove state",
            ),
            DispatchExitReason::MaxRunsReached => owned("reached max total runs"),
            DispatchExitReason::LeaderContested => owned("leader lease contested"),
            DispatchExitReason::MaxPollCycles { limit } => {
                let mut s = owned("exceeded max poll cycles (");
                append_decimal(&mut s, *limit as u64);
                s.append(")");
                s
            },
            DispatchExitReason::ShutdownRequested => owned("shutdown signal received"),
        }
    }

    pub open spec fn stop_reason(self) -> CoordinatorStopReason {
        match self {
            DispatchExitReason::QueueEmpty => CoordinatorStopReason::QueueEmpty,
            DispatchExitReason::DispatchBlocked => CoordinatorStopReason::DispatchBlocked,
            DispatchExitReason::MaxRunsReached => CoordinatorStopReason::MaxRunsReached,
            DispatchExitReason::LeaderContested => CoordinatorStopReason::LeaderContested,
            DispatchExitReason::MaxPollCycles { .. } => CoordinatorStopReason::MaxPollCycles,
            DispatchExitReason::ShutdownRequested => CoordinatorStopReason::UserStopped,
        }
    }

    /// The durable stop reason recorded for this exit.
    pub fn to_stop_reason(&self) -> (r: CoordinatorStopReason)
        ensures
            r == self.stop_reason(),
    {
        match self {
            DispatchExitReason::QueueEmpty => CoordinatorStopReason::QueueEmpty,
            DispatchExitReason::DispatchBlocked => CoordinatorStopReason::DispatchBlocked,
            DispatchExitReason::MaxRunsReached => CoordinatorStopReason::MaxRunsReached,
            DispatchExitReason::LeaderContested => CoordinatorStopReason::LeaderContested,
            DispatchExitReason::MaxPollCycles { .. } => CoordinatorStopReason::MaxPollCycles,
            DispatchExitReason::ShutdownRequested => CoordinatorStopReason::UserStopped,
        }
    }
}

/// One suppression reason, as a blocked-dispatch summary reports it.
#[derive(Debug, Clone, PartialEq, Eq)]
pub struct BlockedSampleReason {
    pub code: &'static str,
    pub summary: String,
}

/// How many ready beads one suppression reason holds back.
#[derive(Debug, Clone, PartialEq, Eq)]
pub struct BlockedReasonCount {
    pub code: &'static str,
    pub summary: String,
    pub count: usize,
}

/// A ready bead that local state holds back, with its reasons.
#[derive(Debug, Clone, PartialEq, Eq)]
pub struct BlockedSampleBead {
    pub bead_id: BeadId,
    pub reasons: Vec<BlockedSampleReason>,
}

/// Summary reported when ready work exists but local Grove state blocks all of it.
#[derive(Debug, Clone, PartialEq, Eq)]
pub struct DispatchBlockedSummary {
    pub blocked_ready_count: usize,
    pub reason_counts: Vec<BlockedReasonCount>,
    pub sample_beads: Vec<BlockedSampleBead>,
}

/// Outcome of one run of the dispatch loop.
#[derive(Debug, Clone, PartialEq, Eq)]
pub struct DispatchLoopOutcome {
    pub dispatched_count: u32,
    pub poll_cycles: u32,
    pub exit_reason: DispatchExitReason,
    pub stop_reason: CoordinatorStopReason,
    pub blocked_summary: Option<DispatchBlockedSummary>,
}

/// The outcome that records `exit_reason`, with the stop reason derived from it.
pub fn dispatch_loop_outcome(
    dispatched_count: u32,
    poll_cycles: u32,
    exit_reason: DispatchExitReason,
    blocked_summary: Option<DispatchBlockedSummary>,
) -> (r: DispatchLoopOutcome)
    ensures
        r.dispatched_count == dispatched_count,
        r.poll_cycles == poll_cycles,
        r.exit_reason == exit_reason,
        r.stop_reason == exit_reason.stop_reason(),
        r.blocked_summary == blocked_summary,
{
    let stop_reason = exit_reason.to_stop_reason();
    DispatchLoopOutcome { dispatched_count, poll_cycles, exit_reason, stop_reason, blocked_summary }
}

// ---------------------------------------------------------------------------
// Timing
// ---------------------------------------------------------------------------

/// Rust's truncating division by three.
pub open spec fn trunc_third(x: int) -> int {
    if x >= 0 {
        x / 3
    } else {
        -((-x) / 3)
    }
}

/// The lease is renewed every third of its time to live, at least every millisecond.
pub open spec fn renew_interval_ms(ttl_ms: int) -> int {
    if trunc_third(ttl_ms) >= 1 {
        trunc_third(ttl_ms)
    } else {
        1
    }
}

/// How often the leader lease is renewed, in milliseconds, for a lease that lives
/// `lease_ttl_ms` milliseconds.
pub fn lease_renew_interval(lease_ttl_ms: i64) -> (r: i64)
    ensures
        r == renew_interval_ms(lease_ttl_ms as int),
{
    let third = if lease_ttl_ms >= 0 {
        lease_ttl_ms / 3
    } else {
        let magnitude: i64 = if lease_ttl_ms == i64::MIN {
            i64::MAX
        } else {
            -lease_ttl_ms
        };
        assert(lease_ttl_ms == i64::MIN ==> (magnitude as int) / 3 == ((-lease_ttl_ms) as int) / 3);
        -(magnitude / 3)
    };
    if third >= 1 {
        third
    } else {
        1
    }
}

/// Minutes a failed mirror operation waits before attempt `attempt + 1`: one minute,
/// doubling per attempt, from the sixth attempt on 32 minutes (under the 60-minute cap).
pub open spec fn mirror_backoff(attempt: nat) -> int
    decreases attempt,
{
    if attempt <= 1 {
        1
    } else if attempt >= 6 {
        32
    } else {
        2 * mirror_backoff((attempt - 1) as nat)
    }
}

pub fn mirror_backoff_minutes(attempt: u32) -> (r: i64)
    requires
        attempt >= 1,
    ensures
        r == mirror_backoff(attempt as nat),
        1 <= r <= 60,
{
    proof {
        reveal_with_fuel(mirror_backoff, 7);
    }
    if attempt <= 1 {
        1
    } else if attempt == 2 {
        2
    } else if attempt == 3 {
        4
    } else if attempt == 4 {
        8
    } else if attempt == 5 {
        16
    } else {
        32
    }
}

// ---------------------------------------------------------------------------
// Failure streaks
// ---------------------------------------------------------------------------

/// Whether run `i` of `runs` is visited before run `j` when the history is sorted by
/// attempt number (stably) and walked from the newest attempt back.
pub open spec fn visited_before(runs: Seq<TaskRunRecord>, i: int, j: int) -> bool {
    runs[i].attempt_no > runs[j].attempt_no || (runs[i].attempt_no == runs[j].attempt_no && i > j)
}

/// Whether run `i` belongs to the streak that ends at attempt `current`: it is a failure
/// no later than `current`, and every non-failure no later than `current` is visited after it.
pub open spec fn in_streak(runs: Seq<TaskRunRecord>, current: i32, i: int) -> bool {
    &&& runs[i].attempt_no <= current
    &&& is_failure_status(runs[i].status)
    &&& forall|j: int|
        0 <= j < runs.len() && runs[j].attempt_no <= current && !is_failure_status(
            #[trigger] runs[j].status,
        ) ==> visited_before(runs, i, j)
}

/// How many of the first `n` runs are in the streak.
pub open spec fn streak_count(runs: Seq<TaskRunRecord>, current: i32, n: int) -> nat
    decreases n,
{
    if n <= 0 {
        0
    } else {
        streak_count(runs, current, n - 1) + if in_streak(runs, current, n - 1) {
            1nat
        } else {
            0nat
        }
    }
}

/// The index of the first run with the given identifier.
pub open spec fn first_run_index(runs: Seq<TaskRunRecord>, id: Seq<char>) -> Option<int>
    decreases runs.len(),
{
    if runs.len() == 0 {
        None
    } else {
        match first_run_index(runs.drop_last(), id) {
            Some(i) => Some(i),
            None => if runs.last().id@ == id {
                Some(runs.len() - 1)
            } else {
                None
            },
        }
    }
}

/// The number of consecutive failed attempts ending with the current run.
pub open spec fn consecutive_failures(
    history: Option<Seq<TaskRunRecord>>,
    current_run: Seq<char>,
    current_status: RunStatus,
) -> nat {
    if !is_failure_status(current_status) {
        0
    } else {
        match history {
            None => 1,
            Some(runs) => match first_run_index(runs, current_run) {
                None => 1,
                Some(k) => {
                    let n = streak_count(runs, runs[k].attempt_no, runs.len() as int);
                    if n >= 1 {
                        n
                    } else {
                        1
                    }
                },
            },
        }
    }
}

proof fn lemma_first_run_index_valid(runs: Seq<TaskRunRecord>, id: Seq<char>)
    ensures
        first_run_index(runs, id) matches Some(k) ==> 0 <= k < runs.len() && runs[k].id@ == id,
        first_run_index(runs, id) is None ==> forall|k: int| 0 <= k < runs.len() ==> runs[k].id@ != id,
    decreases runs.len(),
{
    if runs.len() > 0 {
        lemma_first_run_index_valid(runs.drop_last(), id);
        assert forall|k: int| 0 <= k < runs.len() - 1 implies runs[k] == runs.drop_last()[k] by {}
    }
}

proof fn lemma_streak_count_bounded(runs: Seq<TaskRunRecord>, current: i32, n: int)
    ensures
        streak_count(runs, current, n) <= if n > 0 { n as nat } else { 0nat },
    decreases n,
{
    if n > 0 {
        lemma_streak_count_bounded(runs, current, n - 1);
    }
}

/// Counts the failed attempts, newest first, that end with the current run.
pub fn consecutive_failures_from_history(
    run_history: Option<&Vec<TaskRunRecord>>,
    current_run_id: &RunId,
    current_status: RunStatus,
) -> (r: u32)
    requires
        run_history matches Some(h) ==> h.len() < u32::MAX,
    ensures
        r == consecutive_failures(
            match run_history {
                Some(h) => Some(h@),
                None => None,
            },
            current_run_id@,
            current_status,
        ),
{
    match current_status {
        RunStatus::Failed | RunStatus::WaitingToRetry => {},
        _ => {
            return 0;
        },
    }
    let runs = match run_history {
        None => {
            return 1;
        },
        Some(runs) => runs,
    };
    // locate the current run
    let mut position: Option<usize> = None;
    let mut k: usize = 0;
    while k < runs.len()
        invariant
            k <= runs.len(),
            position is None ==> first_run_index(runs@.subrange(0, k as int), current_run_id@) is None,
            position matches Some(p) ==> p < runs.len() && first_run_index(runs@, current_run_id@) == Some(p as int),
        decreases runs.len() - k,
    {
        let ghost pre = runs@.subrange(0, k as int);
        assert(runs@.subrange(0, k + 1).drop_last() =~= pre);
        if position.is_none() && runs[k].id.same_as(current_run_id) {
            proof {
                lemma_first_run_index_prefix(runs@, current_run_id@, k as int);
            }
            position = Some(k);
        }
        k = k + 1;
    }
    let k = match position {
        None => {
            assert(runs@.subrange(0, runs.len() as int) =~= runs@);
            return 1;
        },
        Some(p) => p,
    };
    let current = runs[k].attempt_no;
    // the non-failure visited first, if any
    let mut blocker: Option<usize> = None;
    let mut j: usize = 0;
    while j < runs.len()
        invariant
            j <= runs.len(),
            blocker matches Some(b) ==> b < j && runs@[b as int].attempt_no <= current && !is_failure_status(runs@[b as int].status),
            blocker matches Some(b) ==> forall|t: int| 0 <= t < j && t != b && runs@[t].attempt_no <= current && !is_failure_status(#[trigger] runs@[t].status) ==> visited_before(runs@, b as int, t),
            blocker is None ==> forall|t: int| 0 <= t < j ==> !(runs@[t].attempt_no <= current && !is_failure_status(#[trigger] runs@[t].status)),
        decreases runs.len() - j,
    {
        let run = &runs[j];
        let failure = match run.status {
            RunStatus::Failed | RunStatus::WaitingToRetry => true,
            _ => false,
        };
        if run.attempt_no <= current && !failure {
            match blocker {
                None => {
                    blocker = Some(j);
                },
                Some(b) => {
                    if run.attempt_no >= runs[b].attempt_no {
                        proof {
                            assert forall|t: int| 0 <= t < j + 1 && t != j && runs@[t].attempt_no <= current && !is_failure_status(#[trigger] runs@[t].status) implies visited_before(runs@, j as int, t) by {
                                if t != b {
                                    assert(visited_before(runs@, b as int, t));
                                }
                            }
                        }
                        blocker = Some(j);
                    }
                },
            }
        }
        j = j + 1;
    }
    // count the failures no later than `current` visited before the blocker
    let mut count: u32 = 0;
    let mut i: usize = 0;
    while i < runs.len()
        invariant
            i <= runs.len(),
            runs.len() < u32::MAX,
            count <= i,
            blocker matches Some(b) ==> b < runs.len() && runs@[b as int].attempt_no <= current && !is_failure_status(runs@[b as int].status),
            blocker matches Some(b) ==> forall|t: int| 0 <= t < runs.len() && t != b && runs@[t].attempt_no <= current && !is_failure_status(#[trigger] runs@[t].status) ==> visited_before(runs@, b as int, t),
            blocker is None ==> forall|t: int| 0 <= t < runs.len() ==> !(runs@[t].attempt_no <= current && !is_failure_status(#[trigger] runs@[t].status)),
            count == streak_count(runs@, current, i as int),
        decreases runs.len() - i,
    {
        let run = &runs[i];
        let failure = match run.status {
            RunStatus::Failed | RunStatus::WaitingToRetry => true,
            _ => false,
        };
        let before_blocker = match blocker {
            None => true,
            Some(b) => run.attempt_no > runs[b].attempt_no || (run.attempt_no == runs[b].attempt_no && i > b),
        };
        proof {
            let ii = i as int;
            if run.attempt_no <= current && failure {
                match blocker {
                    None => {
                        assert(in_streak(runs@, current, ii));
                    },
                    Some(b) => {
                        if before_blocker {
                            assert forall|t: int| 0 <= t < runs.len() && runs@[t].attempt_no <= current && !is_failure_status(#[trigger] runs@[t].status) implies visited_before(runs@, ii, t) by {
                                if t != b {
                                    assert(visited_before(runs@, b as int, t));
                                }
                            }
                            assert(in_streak(runs@, current, ii));
                        } else {
                            assert(!visited_before(runs@, ii, b as int));
                            assert(!in_streak(runs@, current, ii));
                        }
                    },
                }
            } else {
                assert(!in_streak(runs@, current, ii));
            }
        }
        if run.attempt_no <= current && failure && before_blocker {
            count = count + 1;
        }
        i = i + 1;
    }
    proof {
        lemma_first_run_index_valid(runs@, current_run_id@);
    }
    if count >= 1 {
        count
    } else {
        1
    }
}

/// The position of the first run with the given identifier.
pub fn find_run_index(runs: &Vec<TaskRunRecord>, id: &RunId) -> (r: Option<usize>)
    ensures
        match r {
            Some(p) => first_run_index(runs@, id@) == Some(p as int),
            None => first_run_index(runs@, id@) is None,
        },
{
    let mut k: usize = 0;
    while k < runs.len()
        invariant
            k <= runs.len(),
            first_run_index(runs@.subrange(0, k as int), id@) is None,
        decreases runs.len() - k,
    {
        assert(runs@.subrange(0, k + 1).drop_last() =~= runs@.subrange(0, k as int));
        if runs[k].id.same_as(id) {
            proof {
                lemma_first_run_index_prefix(runs@, id@, k as int);
            }
            return Some(k);
        }
        k = k + 1;
    }
    assert(runs@.subrange(0, runs.len() as int) =~= runs@);
    None
}

/// The escalation tier the run history records for a run, or `fallback` when the
/// history is missing or does not hold the run.
pub open spec fn recorded_tier(
    history: Option<Seq<TaskRunRecord>>,
    run: Seq<char>,
    fallback: EscalationTier,
) -> EscalationTier {
    match history {
        Some(runs) => match first_run_index(runs, run) {
            Some(k) => runs[k].escalation_tier,
            None => fallback,
        },
        None => fallback,
    }
}

pub fn existing_escalation_tier(
    run_history: Option<&Vec<TaskRunRecord>>,
    run_id: &RunId,
    fallback: EscalationTier,
) -> (r: EscalationTier)
    ensures
        r == recorded_tier(
            match run_history {
                Some(h) => Some(h@),
                None => None,
            },
            run_id@,
            fallback,
        ),
{
    match run_history {
        None => fallback,
        Some(runs) => match find_run_index(runs, run_id) {
            Some(k) => {
                proof {
                    lemma_first_run_index_valid(runs@, run_id@);
                }
                runs[k].escalation_tier
            },
            None => fallback,
        },
    }
}

proof fn lemma_first_run_index_prefix(runs: Seq<TaskRunRecord>, id: Seq<char>, k: int)
    requires
        0 <= k < runs.len(),
        first_run_index(runs.subrange(0, k), id) is None,
        runs[k].id@ == id,
    ensures
        first_run_index(runs, id) == Some(k),
    decreases runs.len(),
{
    if runs.len() - 1 > k {
        assert(runs.drop_last().subrange(0, k) =~= runs.subrange(0, k));
        lemma_first_run_index_prefix(runs.drop_last(), id, k);
    } else {
        assert(runs.drop_last() =~= runs.subrange(0, k));
    }
}

// ---------------------------------------------------------------------------
// Candidate selection
// ---------------------------------------------------------------------------

pub open spec fn priority_base(p: BeadPriority) -> int {
    match p {
        BeadPriority::P0 => 100,
        BeadPriority::P1 => 75,
        BeadPriority::P2 => 50,
        BeadPriority::P3 => 25,
        BeadPriority::P4 => 10,
    }
}

/// The dispatch score of a bead: its priority's base score, less the retry penalty
/// while it waits to retry.
pub open spec fn bead_score(bead: GroveBeadRecord, retry_penalty: i32) -> int {
    priority_base(bead.bead.priority) - if bead.grove_status is WaitingToRetry {
        retry_penalty as int
    } else {
        0
    }
}

pub fn score_bead(bead: &GroveBeadRecord, retry_penalty: i32) -> (r: i64)
    ensures
        r == bead_score(*bead, retry_penalty),
{
    let base: i64 = match bead.bead.priority {
        BeadPriority::P0 => 100,
        BeadPriority::P1 => 75,
        BeadPriority::P2 => 50,
        BeadPriority::P3 => 25,
        BeadPriority::P4 => 10,
    };
    match bead.grove_status {
        GroveBeadStatus::WaitingToRetry => base - retry_penalty as i64,
        _ => base,
    }
}

pub open spec fn ids_contain(ids: Seq<BeadId>, id: Seq<char>) -> bool {
    exists|k: int| 0 <= k < ids.len() && (#[trigger] ids[k])@ == id
}

/// Whether the bead may be dispatched next: ready in the issue tracker, not excluded,
/// and held back by no local reason (judged with its own circuit state and no
/// reservation conflicts).
pub open spec fn is_candidate(
    bead: GroveBeadRecord,
    ready_ids: Seq<BeadId>,
    excluded_ids: Seq<BeadId>,
    now: Timestamp,
) -> bool {
    &&& !ids_contain(excluded_ids, bead.bead.id@)
    &&& ids_contain(ready_ids, bead.bead.id@)
    &&& suppressions_for(bead, bead_circuit_state(bead), Seq::empty(), now).len() == 0
}

/// Whether bead `i` is ranked ahead of bead `j`: a higher score, then the smaller
/// identifier, then the earlier position.
pub open spec fn ranked_ahead(beads: Seq<GroveBeadRecord>, retry_penalty: i32, i: int, j: int) -> bool {
    let si = bead_score(beads[i], retry_penalty);
    let sj = bead_score(beads[j], retry_penalty);
    si > sj || (si == sj && (text_lt(beads[i].bead.id@, beads[j].bead.id@) || (beads[i].bead.id@ == beads[j].bead.id@ && i < j)))
}

/// `best` is the candidate ranked ahead of every other candidate.
pub open spec fn is_best_candidate(
    beads: Seq<GroveBeadRecord>,
    ready_ids: Seq<BeadId>,
    excluded_ids: Seq<BeadId>,
    retry_penalty: i32,
    now: Timestamp,
    best: int,
) -> bool {
    &&& 0 <= best < beads.len()
    &&& is_candidate(beads[best], ready_ids, excluded_ids, now)
    &&& forall|j: int| 0 <= j < beads.len() && j != best && is_candidate(#[trigger] beads[j], ready_ids, excluded_ids, now) ==> ranked_ahead(beads, retry_penalty, best, j)
}

pub(crate) fn contains_bead_id(ids: &Vec<BeadId>, id: &BeadId) -> (r: bool)
    ensures
        r == ids_contain(ids@, id@),
{
    let mut i: usize = 0;
    while i < ids.len()
        invariant
            i <= ids.len(),
            forall|k: int| 0 <= k < i ==> (#[trigger] ids@[k])@ != id@,
        decreases ids.len() - i,
    {
        if ids[i].same_as(id) {
            return true;
        }
        i = i + 1;
    }
    false
}

/// The index of the bead to dispatch next among `beads`: the highest-scored bead that
/// is ready in the issue tracker, not excluded and dispatchable by Grove, ties going
/// to the smaller identifier; `None` when no bead qualifies.
pub fn select_best_candidate_excluding(
    beads: &Vec<GroveBeadRecord>,
    ready_ids: &Vec<BeadId>,
    excluded_ids: &Vec<BeadId>,
    retry_penalty: i32,
    now: Timestamp,
) -> (r: Option<usize>)
    ensures
        r matches Some(best) ==> is_best_candidate(beads@, ready_ids@, excluded_ids@, retry_penalty, now, best as int),
        r is None ==> forall|j: int| 0 <= j < beads.len() ==> !is_candidate(#[trigger] beads@[j], ready_ids@, excluded_ids@, now),
{
    let mut best: Option<usize> = None;
    let mut i: usize = 0;
    while i < beads.len()
        invariant
            i <= beads.len(),
            best matches Some(b) ==> b < i && is_candidate(beads@[b as int], ready_ids@, excluded_ids@, now),
            best matches Some(b) ==> forall|j: int| 0 <= j < i && j != b && is_candidate(#[trigger] beads@[j], ready_ids@, excluded_ids@, now) ==> ranked_ahead(beads@, retry_penalty, b as int, j),
            best is None ==> forall|j: int| 0 <= j < i ==> !is_candidate(#[trigger] beads@[j], ready_ids@, excluded_ids@, now),
        decreases beads.len() - i,
    {
        let bead = &beads[i];
        let excluded = contains_bead_id(excluded_ids, &bead.bead.id);
        let candidate = if excluded {
            false
        } else {
            let context = DispatchEligibilityContext {
                ready_in_br: contains_bead_id(ready_ids, &bead.bead.id),
                circuit_state: circuit_state_for_bead(bead),
                reservation_conflicts: Vec::new(),
                now,
            };
            assert(context.reservation_conflicts@ =~= Seq::<ReservationConflict>::empty());
            evaluate_dispatch_eligibility(bead, &context).dispatchable_in_grove
        };
        if candidate {
            match best {
                None => {
                    best = Some(i);
                },
                Some(b) => {
                    let si = score_bead(bead, retry_penalty);
                    let sb = score_bead(&beads[b], retry_penalty);
                    let ahead = si > sb || (si == sb && text_less(bead.bead.id.as_str(), beads[b].bead.id.as_str()));
                    proof {
                        let ii = i as int;
                        let bb = b as int;
                        lemma_text_lt_trichotomy(beads@[ii].bead.id@, beads@[bb].bead.id@);
                        if ahead {
                            assert(ranked_ahead(beads@, retry_penalty, ii, bb));
                            assert forall|j: int| 0 <= j < i + 1 && j != ii && is_candidate(#[trigger] beads@[j], ready_ids@, excluded_ids@, now) implies ranked_ahead(beads@, retry_penalty, ii, j) by {
                                if j != bb {
                                    assert(ranked_ahead(beads@, retry_penalty, bb, j));
                                    lemma_ranked_ahead_transitive(beads@, retry_penalty, ii, bb, j);
                                }
                            }
                        } else {
                            assert(ranked_ahead(beads@, retry_penalty, bb, ii));
                        }
                    }
                    if ahead {
                        best = Some(i);
                    }
                },
            }
        }
        i = i + 1;
    }
    best
}

proof fn lemma_ranked_ahead_transitive(beads: Seq<GroveBeadRecord>, penalty: i32, a: int, b: int, c: int)
    requires
        0 <= a < beads.len(),
        0 <= b < beads.len(),
        0 <= c < beads.len(),
        ranked_ahead(beads, penalty, a, b),
        ranked_ahead(beads, penalty, b, c),
    ensures
        ranked_ahead(beads, penalty, a, c),
{
    let ia = beads[a].bead.id@;
    let ib = beads[b].bead.id@;
    let ic = beads[c].bead.id@;
    if text_lt(ia, ib) && text_lt(ib, ic) {
        lemma_text_lt_transitive(ia, ib, ic);
    }
}

/// The bead to dispatch next, as `select_best_candidate_excluding` without exclusions.
pub fn select_best_candidate(
    beads: &Vec<GroveBeadRecord>,
    ready_ids: &Vec<BeadId>,
    retry_penalty: i32,
    now: Timestamp,
) -> (r: Option<usize>)
    ensures
        r matches Some(best) ==> is_best_candidate(beads@, ready_ids@, Seq::empty(), retry_penalty, now, best as int),
        r is None ==> forall|j: int| 0 <= j < beads.len() ==> !is_candidate(#[trigger] beads@[j], ready_ids@, Seq::empty(), now),
{
    let excluded: Vec<BeadId> = Vec::new();
    assert(excluded@ =~= Seq::<BeadId>::empty());
    select_best_candidate_excluding(beads, ready_ids, &excluded, retry_penalty, now)
}

/// The conflicts in which the bead takes part, either side.
pub open spec fn involves(conflict: ReservationConflict, bead: Seq<char>) -> bool {
    conflict.requested_by_bead@ == bead || conflict.conflicting_bead@ == bead
}

pub open spec fn conflicts_involving(conflicts: Seq<ReservationConflict>, bead: Seq<char>) -> Seq<ReservationConflict>
    decreases conflicts.len(),
{
    if conflicts.len() == 0 {
        Seq::empty()
    } else {
        let prefix = conflicts_involving(conflicts.drop_last(), bead);
        if involves(conflicts.last(), bead) {
            prefix.push(conflicts.last())
        } else {
            prefix
        }
    }
}

/// The conflicts that involve the bead, in the order given.
pub fn reservation_conflicts_for_bead(
    bead: &GroveBeadRecord,
    reservation_conflicts: &Vec<ReservationConflict>,
) -> (r: Vec<ReservationConflict>)
    ensures
        r@ == conflicts_involving(reservation_conflicts@, bead.bead.id@),
{
    let mut out: Vec<ReservationConflict> = Vec::new();
    let mut i: usize = 0;
    while i < reservation_conflicts.len()
        invariant
            i <= reservation_conflicts.len(),
            out@ == conflicts_involving(reservation_conflicts@.subrange(0, i as int), bead.bead.id@),
        decreases reservation_conflicts.len() - i,
    {
        let c = &reservation_conflicts[i];
        assert(reservation_conflicts@.subrange(0, i + 1).drop_last() =~= reservation_conflicts@.subrange(0, i as int));
        if c.requested_by_bead.same_as(&bead.bead.id) || c.conflicting_bead.same_as(&bead.bead.id) {
            out.push(copy_conflict(c));
        }
        i = i + 1;
    }
    assert(reservation_conflicts@.subrange(0, reservation_conflicts.len() as int) =~= reservation_conflicts@);
    out
}

/// Whether a bead that is ready and not excluded would be dispatched now, judged with
/// its own circuit state and the reservation conflicts that involve it.
pub open spec fn dispatchable_now(
    bead: GroveBeadRecord,
    ready_ids: Seq<BeadId>,
    excluded_ids: Seq<BeadId>,
    conflicts: Seq<ReservationConflict>,
    now: Timestamp,
) -> bool {
    &&& ids_contain(ready_ids, bead.bead.id@)
    &&& !ids_contain(excluded_ids, bead.bead.id@)
    &&& suppressions_for(
        bead,
        bead_circuit_state(bead),
        conflicts_involving(conflicts, bead.bead.id@),
        now,
    ).len() == 0
}

/// Whether any bead is still dispatchable in this cycle.
pub fn any_dispatchable(
    beads: &Vec<GroveBeadRecord>,
    ready_ids: &Vec<BeadId>,
    excluded_ids: &Vec<BeadId>,
    conflicts: &Vec<ReservationConflict>,
    now: Timestamp,
) -> (r: bool)
    ensures
        r == exists|k: int|
            0 <= k < beads.len() && dispatchable_now(#[trigger] beads@[k], ready_ids@, excluded_ids@, conflicts@, now),
{
    let mut i: usize = 0;
    while i < beads.len()
        invariant
            i <= beads.len(),
            forall|k: int| 0 <= k < i ==> !dispatchable_now(#[trigger] beads@[k], ready_ids@, excluded_ids@, conflicts@, now),
        decreases beads.len() - i,
    {
        let bead = &beads[i];
        if contains_bead_id(ready_ids, &bead.bead.id) && !contains_bead_id(excluded_ids, &bead.bead.id) {
            let context = DispatchEligibilityContext {
                ready_in_br: true,
                circuit_state: circuit_state_for_bead(bead),
                reservation_conflicts: reservation_conflicts_for_bead(bead, conflicts),
                now,
            };
            if evaluate_dispatch_eligibility(bead, &context).dispatchable_in_grove {
                return true;
            }
        }
        i = i + 1;
    }
    false
}

} // verus!
