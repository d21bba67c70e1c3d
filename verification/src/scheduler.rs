//! The decisions of one poll cycle of the dispatch loop, as a state machine: the loop
//! driver performs the waiting, the worker handling and the storage calls, and asks
//! these functions whether to stop, wait, or dispatch and how many beads.
use vstd::prelude::*;
use crate::coordinator::{add_millis, after_millis, nanos_of, valid_instant};
use crate::dispatch::{dispatch_loop_outcome, DispatchBlockedSummary, DispatchExitReason, DispatchLoopOutcome};
use crate::reservation::ReservationRequest;
use crate::types::{BeadId, GroveBeadStatus, ReservationMode, RunId, RunStatus, StopReason, Timestamp};
use crate::text::{
    owned, trim, trim_text, byte_len, char_is_alphanumeric, join, join_text, lemma_words_bounded, push_char, split_whitespace,
    unicode_alphanumeric, utf8_len, words_text,
};

verus! {

/// How many empty polls in a row end the loop.
pub const EMPTY_POLLS_TO_EXIT: u32 = 3;

/// The counters the dispatch loop keeps across poll cycles.
#[derive(Debug, Clone, Copy, PartialEq, Eq, Structural)]
pub struct DispatchLoopState {
    pub dispatched_count: u32,
    pub poll_cycles: u32,
    pub consecutive_empty_polls: u32,
}

/// The limits a dispatch loop runs under.
#[derive(Debug, Clone, Copy, PartialEq, Eq, Structural)]
pub struct DispatchLimits {
    pub max_poll_cycles: Option<u32>,
    pub max_total_runs: Option<u32>,
    pub max_parallel: usize,
}

/// What the loop does next at one point of a poll cycle.
#[derive(Debug, Clone, Copy, PartialEq, Eq, Structural)]
pub enum CycleDecision {
    /// Stop with `reason`; when `drain` is set, wait for in-flight workers first.
    Exit { reason: DispatchExitReason, drain: bool },
    /// Sleep one poll interval and start the next cycle.
    Wait,
    /// Go on with this cycle.
    Proceed,
}

/// How many beads the loop may dispatch in this cycle, if any.
#[derive(Debug, Clone, Copy, PartialEq, Eq, Structural)]
pub enum SlotDecision {
    Exit { reason: DispatchExitReason },
    Wait,
    Dispatch { slots: usize },
}

impl DispatchLoopState {
    pub fn initial() -> (r: DispatchLoopState)
        ensures
            r.dispatched_count == 0,
            r.poll_cycles == 0,
            r.consecutive_empty_polls == 0,
    {
        DispatchLoopState { dispatched_count: 0, poll_cycles: 0, consecutive_empty_polls: 0 }
    }
}

/// The state at the start of a poll cycle: one more cycle counted.
pub fn start_cycle(state: DispatchLoopState) -> (r: DispatchLoopState)
    requires
        state.poll_cycles < u32::MAX,
    ensures
        r == (DispatchLoopState { poll_cycles: (state.poll_cycles + 1) as u32, ..state }),
{
    DispatchLoopState { poll_cycles: state.poll_cycles + 1, ..state }
}

/// The checks at the head of a cycle, in order: a contested lease, a shutdown
/// request, the poll-cycle limit, the dispatch limit.
pub open spec fn cycle_gate(
    state: DispatchLoopState,
    lease_contested: bool,
    shutdown_requested: bool,
    inflight: usize,
    limits: DispatchLimits,
) -> CycleDecision {
    if lease_contested {
        CycleDecision::Exit { reason: DispatchExitReason::LeaderContested, drain: true }
    } else if shutdown_requested {
        if inflight == 0 {
            CycleDecision::Exit { reason: DispatchExitReason::ShutdownRequested, drain: false }
        } else {
            CycleDecision::Wait
        }
    } else if limits.max_poll_cycles matches Some(limit) && state.poll_cycles > limit {
        CycleDecision::Exit {
            reason: DispatchExitReason::MaxPollCycles { limit: limits.max_poll_cycles->0 },
            drain: false,
        }
    } else if limits.max_total_runs matches Some(max_runs) && state.dispatched_count >= max_runs {
        CycleDecision::Exit { reason: DispatchExitReason::MaxRunsReached, drain: true }
    } else {
        CycleDecision::Proceed
    }
}

pub fn gate_cycle(
    state: DispatchLoopState,
    lease_contested: bool,
    shutdown_requested: bool,
    inflight: usize,
    limits: DispatchLimits,
) -> (r: CycleDecision)
    ensures
        r == cycle_gate(state, lease_contested, shutdown_requested, inflight, limits),
{
    if lease_contested {
        return CycleDecision::Exit { reason: DispatchExitReason::LeaderContested, drain: true };
    }
    if shutdown_requested {
        if inflight == 0 {
            return CycleDecision::Exit { reason: DispatchExitReason::ShutdownRequested, drain: false };
        }
        return CycleDecision::Wait;
    }
    if let Some(limit) = limits.max_poll_cycles {
        if state.poll_cycles > limit {
            return CycleDecision::Exit { reason: DispatchExitReason::MaxPollCycles { limit }, drain: false };
        }
    }
    if let Some(max_runs) = limits.max_total_runs {
        if state.dispatched_count >= max_runs {
            return CycleDecision::Exit { reason: DispatchExitReason::MaxRunsReached, drain: true };
        }
    }
    CycleDecision::Proceed
}

/// One more empty poll, counted up to the exit threshold.
pub open spec fn next_empty_count(count: u32) -> u32 {
    if count < EMPTY_POLLS_TO_EXIT {
        (count + 1) as u32
    } else {
        EMPTY_POLLS_TO_EXIT
    }
}

fn count_empty_poll(count: u32) -> (r: u32)
    ensures
        r == next_empty_count(count),
{
    if count < EMPTY_POLLS_TO_EXIT {
        count + 1
    } else {
        EMPTY_POLLS_TO_EXIT
    }
}

/// The worker slots this cycle may fill: the free places under `max_parallel`, and
/// never more than what is left of the dispatch budget.
pub open spec fn free_slots(state: DispatchLoopState, limits: DispatchLimits, inflight: usize) -> nat {
    let free: nat = if limits.max_parallel >= inflight {
        (limits.max_parallel - inflight) as nat
    } else {
        0
    };
    match limits.max_total_runs {
        Some(max_runs) => {
            let left: nat = if max_runs >= state.dispatched_count {
                (max_runs - state.dispatched_count) as nat
            } else {
                0
            };
            if left < free {
                left
            } else {
                free
            }
        },
        None => free,
    }
}

/// The slots to fill and the empty-poll count once the ready list is known.
pub open spec fn slot_plan(
    state: DispatchLoopState,
    limits: DispatchLimits,
    inflight: usize,
    ready_count: usize,
) -> (DispatchLoopState, SlotDecision) {
    let slots = free_slots(state, limits, inflight);
    if slots == 0 {
        (DispatchLoopState { consecutive_empty_polls: 0, ..state }, SlotDecision::Wait)
    } else if ready_count == 0 {
        if inflight == 0 {
            let empty = next_empty_count(state.consecutive_empty_polls);
            if empty >= EMPTY_POLLS_TO_EXIT {
                (
                    DispatchLoopState { consecutive_empty_polls: empty, ..state },
                    SlotDecision::Exit { reason: DispatchExitReason::QueueEmpty },
                )
            } else {
                (DispatchLoopState { consecutive_empty_polls: empty, ..state }, SlotDecision::Wait)
            }
        } else {
            (DispatchLoopState { consecutive_empty_polls: 0, ..state }, SlotDecision::Wait)
        }
    } else {
        (state, SlotDecision::Dispatch { slots: slots as usize })
    }
}

pub fn plan_slots(
    state: DispatchLoopState,
    limits: DispatchLimits,
    inflight: usize,
    ready_count: usize,
) -> (r: (DispatchLoopState, SlotDecision))
    ensures
        r == slot_plan(state, limits, inflight, ready_count),
{
    let mut slots = limits.max_parallel.saturating_sub(inflight);
    if let Some(max_runs) = limits.max_total_runs {
        let left = max_runs.saturating_sub(state.dispatched_count) as usize;
        if left < slots {
            slots = left;
        }
    }
    if slots == 0 {
        return (DispatchLoopState { consecutive_empty_polls: 0, ..state }, SlotDecision::Wait);
    }
    if ready_count == 0 {
        if inflight == 0 {
            let empty = count_empty_poll(state.consecutive_empty_polls);
            if empty >= EMPTY_POLLS_TO_EXIT {
                return (
                    DispatchLoopState { consecutive_empty_polls: empty, ..state },
                    SlotDecision::Exit { reason: DispatchExitReason::QueueEmpty },
                );
            }
            return (DispatchLoopState { consecutive_empty_polls: empty, ..state }, SlotDecision::Wait);
        }
        return (DispatchLoopState { consecutive_empty_polls: 0, ..state }, SlotDecision::Wait);
    }
    (state, SlotDecision::Dispatch { slots })
}

/// The state after one more bead has been dispatched.
pub fn note_dispatch(state: DispatchLoopState) -> (r: DispatchLoopState)
    requires
        state.dispatched_count < u32::MAX,
    ensures
        r == (DispatchLoopState { dispatched_count: (state.dispatched_count + 1) as u32, ..state }),
{
    DispatchLoopState { dispatched_count: state.dispatched_count + 1, ..state }
}

/// The end of a cycle that had free slots and ready beads. When nothing was launched,
/// no worker is in flight and no ready bead is dispatchable, the poll counts as empty;
/// the third in a row ends the loop, as blocked when some ready bead is held back by
/// local state.
pub open spec fn round_end(
    state: DispatchLoopState,
    launched_any: bool,
    inflight: usize,
    any_dispatchable: bool,
    some_blocked: bool,
) -> (DispatchLoopState, CycleDecision) {
    if launched_any {
        (DispatchLoopState { consecutive_empty_polls: 0, ..state }, CycleDecision::Proceed)
    } else if inflight == 0 && !any_dispatchable {
        let empty = next_empty_count(state.consecutive_empty_polls);
        if empty >= EMPTY_POLLS_TO_EXIT {
            (
                DispatchLoopState { consecutive_empty_polls: empty, ..state },
                CycleDecision::Exit {
                    reason: if some_blocked {
                        DispatchExitReason::DispatchBlocked
                    } else {
                        DispatchExitReason::QueueEmpty
                    },
                    drain: false,
                },
            )
        } else {
            (DispatchLoopState { consecutive_empty_polls: empty, ..state }, CycleDecision::Wait)
        }
    } else {
        (DispatchLoopState { consecutive_empty_polls: 0, ..state }, CycleDecision::Wait)
    }
}

pub fn finish_round(
    state: DispatchLoopState,
    launched_any: bool,
    inflight: usize,
    any_dispatchable: bool,
    some_blocked: bool,
) -> (r: (DispatchLoopState, CycleDecision))
    ensures
        r == round_end(state, launched_any, inflight, any_dispatchable, some_blocked),
{
    if launched_any {
        return (DispatchLoopState { consecutive_empty_polls: 0, ..state }, CycleDecision::Proceed);
    }
    if inflight == 0 && !any_dispatchable {
        let empty = count_empty_poll(state.consecutive_empty_polls);
        if empty >= EMPTY_POLLS_TO_EXIT {
            let reason = if some_blocked {
                DispatchExitReason::DispatchBlocked
            } else {
                DispatchExitReason::QueueEmpty
            };
            return (
                DispatchLoopState { consecutive_empty_polls: empty, ..state },
                CycleDecision::Exit { reason, drain: false },
            );
        }
        return (DispatchLoopState { consecutive_empty_polls: empty, ..state }, CycleDecision::Wait);
    }
    (DispatchLoopState { consecutive_empty_polls: 0, ..state }, CycleDecision::Wait)
}

// ---------------------------------------------------------------------------
// The cycle as three steps
// ---------------------------------------------------------------------------

/// What the loop driver does after one step of a cycle.
#[derive(Debug, Clone, PartialEq, Eq)]
pub enum LoopStep {
    /// Stop with `outcome`; when `drain` is set, wait for in-flight workers first.
    Finish { outcome: DispatchLoopOutcome, drain: bool },
    /// Sleep one poll interval and start the next cycle.
    Wait,
    /// Go on with this cycle.
    Continue,
    /// Dispatch up to `slots` beads, counting each with `note_dispatch`.
    Dispatch { slots: usize },
}

/// The outcome of a loop that stops at `state` for `reason`.
pub open spec fn loop_outcome(
    state: DispatchLoopState,
    reason: DispatchExitReason,
    blocked_summary: Option<DispatchBlockedSummary>,
) -> DispatchLoopOutcome {
    DispatchLoopOutcome {
        dispatched_count: state.dispatched_count,
        poll_cycles: state.poll_cycles,
        exit_reason: reason,
        stop_reason: reason.stop_reason(),
        blocked_summary,
    }
}

/// The opening step: count the cycle, then the checks at its head.
pub open spec fn open_step(
    prev: DispatchLoopState,
    lease_contested: bool,
    shutdown_requested: bool,
    inflight: usize,
    limits: DispatchLimits,
) -> (DispatchLoopState, LoopStep) {
    let state = DispatchLoopState { poll_cycles: (prev.poll_cycles + 1) as u32, ..prev };
    (
        state,
        match cycle_gate(state, lease_contested, shutdown_requested, inflight, limits) {
            CycleDecision::Exit { reason, drain } => LoopStep::Finish { outcome: loop_outcome(state, reason, None), drain },
            CycleDecision::Wait => LoopStep::Wait,
            CycleDecision::Proceed => LoopStep::Continue,
        },
    )
}

/// The planning step, once the ready list is known.
pub open spec fn plan_step(
    state: DispatchLoopState,
    limits: DispatchLimits,
    inflight: usize,
    ready_count: usize,
) -> (DispatchLoopState, LoopStep) {
    let (next, decision) = slot_plan(state, limits, inflight, ready_count);
    (
        next,
        match decision {
            SlotDecision::Exit { reason } => LoopStep::Finish { outcome: loop_outcome(next, reason, None), drain: false },
            SlotDecision::Wait => LoopStep::Wait,
            SlotDecision::Dispatch { slots } => LoopStep::Dispatch { slots },
        },
    )
}

/// The closing step of a cycle that had slots and ready beads; `blocked_summary`
/// describes the ready beads that local state holds back, if any.
pub open spec fn close_step(
    state: DispatchLoopState,
    launched_any: bool,
    inflight: usize,
    any_dispatchable: bool,
    blocked_summary: Option<DispatchBlockedSummary>,
) -> (DispatchLoopState, LoopStep) {
    let (next, decision) = round_end(state, launched_any, inflight, any_dispatchable, blocked_summary is Some);
    (
        next,
        match decision {
            CycleDecision::Exit { reason, drain } => LoopStep::Finish {
                outcome: loop_outcome(next, reason, blocked_summary),
                drain,
            },
            CycleDecision::Wait => LoopStep::Wait,
            CycleDecision::Proceed => LoopStep::Continue,
        },
    )
}

pub fn open_cycle(
    prev: DispatchLoopState,
    lease_contested: bool,
    shutdown_requested: bool,
    inflight: usize,
    limits: DispatchLimits,
) -> (r: (DispatchLoopState, LoopStep))
    requires
        prev.poll_cycles < u32::MAX,
    ensures
        r == open_step(prev, lease_contested, shutdown_requested, inflight, limits),
{
    let state = start_cycle(prev);
    let step = match gate_cycle(state, lease_contested, shutdown_requested, inflight, limits) {
        CycleDecision::Exit { reason, drain } => LoopStep::Finish {
            outcome: dispatch_loop_outcome(state.dispatched_count, state.poll_cycles, reason, None),
            drain,
        },
        CycleDecision::Wait => LoopStep::Wait,
        CycleDecision::Proceed => LoopStep::Continue,
    };
    (state, step)
}

pub fn plan_cycle(
    state: DispatchLoopState,
    limits: DispatchLimits,
    inflight: usize,
    ready_count: usize,
) -> (r: (DispatchLoopState, LoopStep))
    ensures
        r == plan_step(state, limits, inflight, ready_count),
{
    let (next, decision) = plan_slots(state, limits, inflight, ready_count);
    let step = match decision {
        SlotDecision::Exit { reason } => LoopStep::Finish {
            outcome: dispatch_loop_outcome(next.dispatched_count, next.poll_cycles, reason, None),
            drain: false,
        },
        SlotDecision::Wait => LoopStep::Wait,
        SlotDecision::Dispatch { slots } => LoopStep::Dispatch { slots },
    };
    (next, step)
}

pub fn close_cycle(
    state: DispatchLoopState,
    launched_any: bool,
    inflight: usize,
    any_dispatchable: bool,
    blocked_summary: Option<DispatchBlockedSummary>,
) -> (r: (DispatchLoopState, LoopStep))
    ensures
        r == close_step(state, launched_any, inflight, any_dispatchable, blocked_summary),
{
    let some_blocked = blocked_summary.is_some();
    let (next, decision) = finish_round(state, launched_any, inflight, any_dispatchable, some_blocked);
    let step = match decision {
        CycleDecision::Exit { reason, drain } => LoopStep::Finish {
            outcome: dispatch_loop_outcome(next.dispatched_count, next.poll_cycles, reason, blocked_summary),
            drain,
        },
        CycleDecision::Wait => LoopStep::Wait,
        CycleDecision::Proceed => LoopStep::Continue,
    };
    (next, step)
}

// ---------------------------------------------------------------------------
// Laws of the loop
// ---------------------------------------------------------------------------

/// Every decision keeps the empty-poll count below the threshold unless it ends the
/// loop, so the next decision's requirement holds.
pub proof fn lemma_decisions_keep_count_below_threshold(
    state: DispatchLoopState,
    limits: DispatchLimits,
    inflight: usize,
    ready_count: usize,
    launched_any: bool,
    any_dispatchable: bool,
    some_blocked: bool,
)
    requires
        state.consecutive_empty_polls < EMPTY_POLLS_TO_EXIT,
    ensures
        !(slot_plan(state, limits, inflight, ready_count).1 is Exit) ==> slot_plan(
            state,
            limits,
            inflight,
            ready_count,
        ).0.consecutive_empty_polls < EMPTY_POLLS_TO_EXIT,
        !(round_end(state, launched_any, inflight, any_dispatchable, some_blocked).1 is Exit)
            ==> round_end(state, launched_any, inflight, any_dispatchable, some_blocked).0.consecutive_empty_polls
            < EMPTY_POLLS_TO_EXIT,
{
}

/// The loop ends for lack of work only on the third empty poll in a row, never while a
/// worker is in flight, and a launch resets the count.
pub proof fn lemma_idle_exit_needs_three_empty_polls(
    state: DispatchLoopState,
    limits: DispatchLimits,
    inflight: usize,
    ready_count: usize,
    launched_any: bool,
    any_dispatchable: bool,
    some_blocked: bool,
)
    requires
        state.consecutive_empty_polls < EMPTY_POLLS_TO_EXIT,
    ensures
        slot_plan(state, limits, inflight, ready_count).1 is Exit ==> {
            &&& state.consecutive_empty_polls == EMPTY_POLLS_TO_EXIT - 1
            &&& inflight == 0
        },
        round_end(state, launched_any, inflight, any_dispatchable, some_blocked).1 is Exit ==> {
            &&& state.consecutive_empty_polls == EMPTY_POLLS_TO_EXIT - 1
            &&& inflight == 0
            &&& !launched_any
            &&& !any_dispatchable
        },
        launched_any ==> round_end(state, launched_any, inflight, any_dispatchable, some_blocked) == (
            DispatchLoopState { consecutive_empty_polls: 0, ..state },
            CycleDecision::Proceed,
        ),
{
}

/// A contested lease always ends the loop after draining its workers, and a shutdown
/// request never ends it while a worker is in flight.
pub proof fn lemma_exits_respect_inflight_workers(
    state: DispatchLoopState,
    lease_contested: bool,
    shutdown_requested: bool,
    inflight: usize,
    limits: DispatchLimits,
)
    ensures
        lease_contested ==> cycle_gate(state, lease_contested, shutdown_requested, inflight, limits)
            == (CycleDecision::Exit { reason: DispatchExitReason::LeaderContested, drain: true }),
        cycle_gate(state, lease_contested, shutdown_requested, inflight, limits) matches CycleDecision::Exit {
            reason,
            drain,
        } ==> (reason is ShutdownRequested ==> inflight == 0) && (reason is LeaderContested
            || reason is MaxRunsReached <==> drain),
{
}

/// The loop has dispatched no more beads than its budget allows.
pub open spec fn within_budget(state: DispatchLoopState, limits: DispatchLimits) -> bool {
    limits.max_total_runs matches Some(max_runs) ==> state.dispatched_count <= max_runs
}

/// The dispatch budget is never overrun. A cycle is granted no more slots than are free
/// under `max_parallel` and no more than what is left of `max_total_runs`; planning and
/// ending a round leave the dispatch count alone; so every bead of a grant can be
/// dispatched and the count stays within the budget.
pub proof fn lemma_dispatch_stays_within_budget(
    state: DispatchLoopState,
    limits: DispatchLimits,
    inflight: usize,
    ready_count: usize,
    launched: nat,
    launched_any: bool,
    any_dispatchable: bool,
    some_blocked: bool,
)
    ensures
        slot_plan(state, limits, inflight, ready_count).0.dispatched_count == state.dispatched_count,
        round_end(state, launched_any, inflight, any_dispatchable, some_blocked).0.dispatched_count
            == state.dispatched_count,
        slot_plan(state, limits, inflight, ready_count).1 matches SlotDecision::Dispatch { slots } ==> {
            &&& inflight + slots <= limits.max_parallel
            &&& limits.max_total_runs matches Some(max_runs) ==> state.dispatched_count + slots <= max_runs
        },
        slot_plan(state, limits, inflight, ready_count).1 matches SlotDecision::Dispatch { slots } && launched
            <= slots ==> within_budget(
            DispatchLoopState { dispatched_count: (state.dispatched_count + launched) as u32, ..state },
            limits,
        ),
{
}

/// What holds of the loop's state between steps. `shutdown_seen` records whether a
/// shutdown was requested in an earlier cycle; until then no cycle has passed the
/// poll-cycle limit.
pub open spec fn loop_invariant(state: DispatchLoopState, limits: DispatchLimits, shutdown_seen: bool) -> bool {
    &&& within_budget(state, limits)
    &&& state.consecutive_empty_polls < EMPTY_POLLS_TO_EXIT
    &&& !shutdown_seen ==> (limits.max_poll_cycles matches Some(limit) ==> state.poll_cycles <= limit)
}

/// What every outcome of the loop satisfies: its stop reason follows from its exit
/// reason, it carries a blocked summary exactly when it ends as blocked, a poll-limit
/// exit names the configured limit and comes in the cycle just past it, and no more
/// beads were dispatched than the budget allows.
pub open spec fn consistent_outcome(o: DispatchLoopOutcome, limits: DispatchLimits) -> bool {
    &&& o.stop_reason == o.exit_reason.stop_reason()
    &&& (o.blocked_summary is Some <==> o.exit_reason is DispatchBlocked)
    &&& o.exit_reason matches DispatchExitReason::MaxPollCycles { limit } ==> limits.max_poll_cycles == Some(limit)
        && o.poll_cycles == limit + 1
    &&& limits.max_total_runs matches Some(max_runs) ==> o.dispatched_count <= max_runs
}

/// The loop starts in a state that keeps the invariant.
pub proof fn lemma_loop_starts_within_invariant(limits: DispatchLimits)
    ensures
        loop_invariant(
            DispatchLoopState { dispatched_count: 0, poll_cycles: 0, consecutive_empty_polls: 0 },
            limits,
            false,
        ),
{
}

/// The opening step of a cycle keeps the invariant, and any outcome it ends the loop
/// with is consistent. A shutdown request, once seen, is assumed to stay requested.
pub proof fn lemma_open_step_keeps_the_loop_consistent(
    prev: DispatchLoopState,
    lease_contested: bool,
    shutdown_requested: bool,
    inflight: usize,
    limits: DispatchLimits,
    shutdown_seen: bool,
)
    requires
        loop_invariant(prev, limits, shutdown_seen),
        shutdown_seen ==> shutdown_requested,
        prev.poll_cycles < u32::MAX,
    ensures
        ({
            let (state, step) = open_step(prev, lease_contested, shutdown_requested, inflight, limits);
            &&& step matches LoopStep::Finish { outcome, .. } ==> consistent_outcome(outcome, limits)
            &&& !(step is Finish) ==> loop_invariant(state, limits, shutdown_seen || shutdown_requested)
            &&& !(step is Dispatch)
        }),
{
}

/// The planning step keeps the invariant, any outcome it ends the loop with is
/// consistent, and after dispatching any part of its grant, one `note_dispatch` per
/// bead, the invariant still holds.
pub proof fn lemma_plan_step_keeps_the_loop_consistent(
    state: DispatchLoopState,
    limits: DispatchLimits,
    inflight: usize,
    ready_count: usize,
    shutdown_seen: bool,
    launched: nat,
)
    requires
        loop_invariant(state, limits, shutdown_seen),
    ensures
        ({
            let (next, step) = plan_step(state, limits, inflight, ready_count);
            &&& step matches LoopStep::Finish { outcome, .. } ==> consistent_outcome(outcome, limits)
            &&& !(step is Finish) ==> loop_invariant(next, limits, shutdown_seen)
            &&& step matches LoopStep::Dispatch { slots } ==> (launched <= slots ==> loop_invariant(
                DispatchLoopState { dispatched_count: (next.dispatched_count + launched) as u32, ..next },
                limits,
                shutdown_seen,
            ))
        }),
{
}

/// The closing step keeps the invariant, and any outcome it ends the loop with is
/// consistent: in particular it ends as blocked exactly when it carries the summary.
pub proof fn lemma_close_step_keeps_the_loop_consistent(
    state: DispatchLoopState,
    launched_any: bool,
    inflight: usize,
    any_dispatchable: bool,
    blocked_summary: Option<DispatchBlockedSummary>,
    limits: DispatchLimits,
    shutdown_seen: bool,
)
    requires
        loop_invariant(state, limits, shutdown_seen),
    ensures
        ({
            let (next, step) = close_step(state, launched_any, inflight, any_dispatchable, blocked_summary);
            &&& step matches LoopStep::Finish { outcome, .. } ==> consistent_outcome(outcome, limits)
            &&& !(step is Finish) ==> loop_invariant(next, limits, shutdown_seen)
            &&& !(step is Dispatch)
        }),
{
}

// ---------------------------------------------------------------------------
// The retrieval query of a dispatched bead
// ---------------------------------------------------------------------------

/// How many search tokens the retrieval query keeps.
pub const MAX_SEARCH_TOKENS: usize = 5;

/// `s` with every character that is not alphanumeric replaced by a space.
pub open spec fn blank_non_alnum(s: Seq<char>) -> Seq<char> {
    Seq::new(s.len(), |i: int| if unicode_alphanumeric(s[i]) { s[i] } else { ' ' })
}

/// The search tokens of a bead: the alphanumeric words of its title, then those of its
/// description.
pub open spec fn search_tokens(title: Seq<char>, description: Option<Seq<char>>) -> Seq<Seq<char>> {
    words_text(blank_non_alnum(title)) + match description {
        Some(d) => words_text(blank_non_alnum(d)),
        None => Seq::empty(),
    }
}

/// The position of the first token shorter (in UTF-8 bytes) than `n`.
pub open spec fn first_shorter(s: Seq<Seq<char>>, n: nat) -> nat
    decreases s.len(),
{
    if s.len() == 0 {
        0
    } else if utf8_len(s[0]) < n {
        0
    } else {
        1 + first_shorter(s.drop_first(), n)
    }
}

/// The tokens ordered by UTF-8 length, longest first; tokens of equal length keep
/// their order.
pub open spec fn longest_first(s: Seq<Seq<char>>) -> Seq<Seq<char>>
    decreases s.len(),
{
    if s.len() == 0 {
        s
    } else {
        let rest = longest_first(s.drop_last());
        rest.insert(first_shorter(rest, utf8_len(s.last())) as int, s.last())
    }
}

/// The full-text query of a bead: its five longest search tokens joined by ` OR `.
pub open spec fn retrieval_query_text(title: Seq<char>, description: Option<Seq<char>>) -> Seq<char> {
    let sorted = longest_first(search_tokens(title, description));
    let kept = if sorted.len() > MAX_SEARCH_TOKENS {
        sorted.take(MAX_SEARCH_TOKENS as int)
    } else {
        sorted
    };
    join_text(kept, " OR "@)
}

proof fn lemma_longest_first_len(s: Seq<Seq<char>>)
    ensures
        longest_first(s).len() == s.len(),
        forall|k: int| 0 <= k < s.len() ==> exists|j: int| 0 <= j < s.len() && #[trigger] longest_first(s)[k] == s[j],
    decreases s.len(),
{
    if s.len() > 0 {
        let rest = longest_first(s.drop_last());
        lemma_longest_first_len(s.drop_last());
        lemma_first_shorter_bounded(rest, utf8_len(s.last()));
        let p = first_shorter(rest, utf8_len(s.last())) as int;
        assert forall|k: int| 0 <= k < s.len() implies exists|j: int| 0 <= j < s.len() && #[trigger] longest_first(s)[k] == s[j] by {
            if k < p {
                let j = choose|j: int| 0 <= j < s.len() - 1 && #[trigger] rest[k] == s.drop_last()[j];
                assert(longest_first(s)[k] == s[j]);
            } else if k == p {
                assert(longest_first(s)[k] == s[s.len() - 1]);
            } else {
                let j = choose|j: int| 0 <= j < s.len() - 1 && #[trigger] rest[k - 1] == s.drop_last()[j];
                assert(longest_first(s)[k] == s[j]);
            }
        }
    }
}

proof fn lemma_first_shorter_bounded(s: Seq<Seq<char>>, n: nat)
    ensures
        first_shorter(s, n) <= s.len(),
    decreases s.len(),
{
    if s.len() > 0 {
        lemma_first_shorter_bounded(s.drop_first(), n);
    }
}

proof fn lemma_first_shorter_skip(s: Seq<Seq<char>>, n: nat, i: int)
    requires
        0 <= i <= s.len(),
        forall|j: int| 0 <= j < i ==> utf8_len(#[trigger] s[j]) >= n,
    ensures
        first_shorter(s, n) == i + first_shorter(s.subrange(i, s.len() as int), n),
    decreases i,
{
    if i > 0 {
        let t = s.drop_first();
        assert forall|j: int| 0 <= j < i - 1 implies utf8_len(#[trigger] t[j]) >= n by {
            assert(t[j] == s[j + 1]);
        }
        lemma_first_shorter_skip(t, n, i - 1);
        assert(t.subrange(i - 1, t.len() as int) =~= s.subrange(i, s.len() as int));
    } else {
        assert(s.subrange(0, s.len() as int) =~= s);
    }
}

fn blank_non_alphanumeric(s: &str) -> (r: String)
    ensures
        r@ == blank_non_alnum(s@),
{
    let n = s.unicode_len();
    let mut out = String::new();
    let mut i: usize = 0;
    while i < n
        invariant
            n == s@.len(),
            i <= n,
            out@ == blank_non_alnum(s@).subrange(0, i as int),
        decreases n - i,
    {
        let c = s.get_char(i);
        let kept = if char_is_alphanumeric(c) {
            c
        } else {
            ' '
        };
        push_char(&mut out, kept);
        i = i + 1;
        assert(out@ =~= blank_non_alnum(s@).subrange(0, i as int));
    }
    assert(blank_non_alnum(s@).subrange(0, n as int) =~= blank_non_alnum(s@));
    out
}

/// Inserts `token` after every token at least as long.
fn insert_longest_first(sorted: &mut Vec<String>, token: String)
    requires
        forall|k: int| 0 <= k < old(sorted).len() ==> 4 * (#[trigger] old(sorted)@[k])@.len() <= usize::MAX,
        4 * token@.len() <= usize::MAX,
    ensures
        final(sorted).deep_view() == old(sorted).deep_view().insert(
            first_shorter(old(sorted).deep_view(), utf8_len(token@)) as int,
            token@,
        ),
        forall|k: int| 0 <= k < final(sorted).len() ==> 4 * (#[trigger] final(sorted)@[k])@.len() <= usize::MAX,
{
    let ghost before = sorted.deep_view();
    let n = byte_len(token.as_str());
    let mut i: usize = 0;
    while i < sorted.len() && byte_len(sorted[i].as_str()) >= n
        invariant
            sorted.deep_view() == before,
            i <= sorted.len(),
            forall|k: int| 0 <= k < sorted.len() ==> 4 * (#[trigger] sorted@[k])@.len() <= usize::MAX,
            forall|j: int| 0 <= j < i ==> utf8_len(#[trigger] before[j]) >= n,
        decreases sorted.len() - i,
    {
        i = i + 1;
    }
    proof {
        lemma_first_shorter_skip(before, n as nat, i as int);
        if i < sorted.len() {
            let rest = before.subrange(i as int, before.len() as int);
            assert(rest[0] == before[i as int]);
        }
        assert(first_shorter(before, n as nat) == i);
    }
    sorted.insert(i, token);
    assert(sorted.deep_view() =~= before.insert(i as int, token@));
}

/// The full-text query built from a bead's title and description, or `None` when they
/// hold no alphanumeric word.
pub fn retrieval_query(title: &str, description: Option<&str>) -> (r: Option<String>)
    requires
        4 * title@.len() <= usize::MAX,
        description matches Some(d) ==> 4 * d@.len() <= usize::MAX,
    ensures
        ({
            let q = retrieval_query_text(
                title@,
                match description {
                    Some(d) => Some(d@),
                    None => None,
                },
            );
            &&& (r is None <==> q.len() == 0)
            &&& (r matches Some(s) ==> s@ == q)
        }),
{
    let ghost desc = match description {
        Some(d) => Some(d@),
        None => None,
    };
    let title_blank = blank_non_alphanumeric(title);
    let mut tokens = split_whitespace(title_blank.as_str());
    proof {
        lemma_words_bounded(blank_non_alnum(title@));
    }
    match description {
        Some(d) => {
            let d_blank = blank_non_alphanumeric(d);
            let more = split_whitespace(d_blank.as_str());
            proof {
                lemma_words_bounded(blank_non_alnum(d@));
            }
            let ghost first = tokens.deep_view();
            let mut j: usize = 0;
            while j < more.len()
                invariant
                    j <= more.len(),
                    more.deep_view() == words_text(blank_non_alnum(d@)),
                    tokens.deep_view() == first + more.deep_view().subrange(0, j as int),
                decreases more.len() - j,
            {
                let ghost prev = tokens.deep_view();
                let token = more[j].clone();
                assert(token@ == more.deep_view()[j as int]);
                tokens.push(token);
                j = j + 1;
                assert(tokens.deep_view() =~= prev.push(token@));
                assert(tokens.deep_view() =~= first + more.deep_view().subrange(0, j as int));
            }
            assert(more.deep_view().subrange(0, more.len() as int) =~= more.deep_view());
        },
        None => {
            assert(tokens.deep_view() =~= tokens.deep_view() + Seq::<Seq<char>>::empty());
        },
    }
    let ghost all = tokens.deep_view();
    assert(all == search_tokens(title@, desc));
    assert forall|k: int| 0 <= k < tokens.len() implies 4 * (#[trigger] tokens@[k])@.len() <= usize::MAX by {
        assert(tokens@[k]@ == all[k]);
    }
    let mut sorted: Vec<String> = Vec::new();
    let mut i: usize = 0;
    while i < tokens.len()
        invariant
            i <= tokens.len(),
            tokens.deep_view() == all,
            forall|k: int| 0 <= k < tokens.len() ==> 4 * (#[trigger] tokens@[k])@.len() <= usize::MAX,
            forall|k: int| 0 <= k < sorted.len() ==> 4 * (#[trigger] sorted@[k])@.len() <= usize::MAX,
            sorted.deep_view() == longest_first(all.subrange(0, i as int)),
        decreases tokens.len() - i,
    {
        proof {
            let next = all.subrange(0, i + 1);
            assert(next.drop_last() =~= all.subrange(0, i as int));
            assert(next.last() == tokens@[i as int]@);
        }
        insert_longest_first(&mut sorted, tokens[i].clone());
        i = i + 1;
    }
    assert(all.subrange(0, tokens.len() as int) =~= all);
    if sorted.len() > MAX_SEARCH_TOKENS {
        sorted.truncate(MAX_SEARCH_TOKENS);
    }
    let ghost kept = sorted.deep_view();
    proof {
        let full = longest_first(all);
        if full.len() > MAX_SEARCH_TOKENS {
            assert(kept =~= full.take(MAX_SEARCH_TOKENS as int));
        }
    }
    let query = join(&sorted, " OR ");
    proof {
        reveal_strlit(" OR ");
        lemma_join_empty_iff(kept, " OR "@);
        if kept.len() == 1 {
            let full = longest_first(all);
            lemma_longest_first_len(all);
            assert(kept[0] == full[0]);
            let j = choose|j: int| 0 <= j < all.len() && #[trigger] full[0] == all[j];
            lemma_words_bounded(blank_non_alnum(title@));
            let tw = words_text(blank_non_alnum(title@));
            if j < tw.len() {
                assert(all[j] == tw[j]);
            } else {
                let d = description->0;
                lemma_words_bounded(blank_non_alnum(d@));
                assert(all[j] == words_text(blank_non_alnum(d@))[j - tw.len()]);
            }
        }
    }
    if sorted.len() == 0 {
        None
    } else {
        Some(query)
    }
}

/// A join is empty exactly when there is nothing to join, provided no item is empty
/// or the separator is not.
proof fn lemma_join_empty_iff(items: Seq<Seq<char>>, sep: Seq<char>)
    requires
        sep.len() > 0,
    ensures
        items.len() > 1 ==> join_text(items, sep).len() > 0,
        items.len() == 0 ==> join_text(items, sep).len() == 0,
    decreases items.len(),
{
    if items.len() > 1 {
        lemma_join_empty_iff(items.drop_last(), sep);
    }
}

// ---------------------------------------------------------------------------
// Preparing one dispatch
// ---------------------------------------------------------------------------

/// The expiry of the reservations taken for a dispatch at `now`, `ttl_minutes` later;
/// the result must be representable.
pub fn dispatch_reservation_expiry(now: Timestamp, ttl_minutes: i64) -> (r: Timestamp)
    requires
        valid_instant(now),
        i64::MIN < ttl_minutes * 60_000 <= i64::MAX,
        i64::MIN as int * 1_000_000_000 <= after_millis(now, ttl_minutes * 60_000) < (i64::MAX as int + 1)
            * 1_000_000_000,
    ensures
        valid_instant(r),
        nanos_of(r) == after_millis(now, ttl_minutes * 60_000),
{
    add_millis(now, ttl_minutes * 60_000)
}

/// One exclusive reservation per declared path of a dispatched bead, each with the
/// reason `dispatch <bead>` and the same expiry.
pub fn dispatch_reservation_requests(
    bead_id: &BeadId,
    declared_paths: &Vec<String>,
    expires_at: Timestamp,
) -> (r: Vec<ReservationRequest>)
    ensures
        r.len() == declared_paths.len(),
        forall|k: int|
            0 <= k < r.len() ==> {
                let q = #[trigger] r@[k];
                &&& q.path_pattern@ == declared_paths@[k]@
                &&& q.mode == ReservationMode::Exclusive
                &&& q.reason matches Some(reason) && reason@ == "dispatch "@ + bead_id@
                &&& q.expires_at == expires_at
            },
{
    let mut out: Vec<ReservationRequest> = Vec::new();
    let mut i: usize = 0;
    while i < declared_paths.len()
        invariant
            i <= declared_paths.len(),
            out.len() == i,
            forall|k: int|
                0 <= k < i ==> {
                    let q = #[trigger] out@[k];
                    &&& q.path_pattern@ == declared_paths@[k]@
                    &&& q.mode == ReservationMode::Exclusive
                    &&& q.reason matches Some(reason) && reason@ == "dispatch "@ + bead_id@
                    &&& q.expires_at == expires_at
                },
        decreases declared_paths.len() - i,
    {
        let mut reason = owned("dispatch ");
        reason.append(bead_id.as_str());
        out.push(
            ReservationRequest {
                path_pattern: declared_paths[i].clone(),
                mode: ReservationMode::Exclusive,
                reason: Some(reason),
                expires_at,
            },
        );
        i = i + 1;
    }
    out
}

/// The attempt number of the next run of a bead: one more than the runs on record, or
/// the first attempt when they could not be read.
pub fn next_attempt_no(previous_runs: Option<usize>) -> (r: i32)
    requires
        previous_runs matches Some(n) ==> n < i32::MAX,
    ensures
        r == match previous_runs {
            Some(n) => n + 1,
            None => 1,
        },
{
    match previous_runs {
        Some(n) => n as i32 + 1,
        None => 1,
    }
}

/// Whether a dispatch resumes from the latest checkpoint: the bead is checkpointed and
/// the checkpoint was saved by the bead's last run.
pub open spec fn resumes(status: GroveBeadStatus, last_run: Option<Seq<char>>, checkpoint_run: Option<Seq<char>>) -> bool {
    &&& status is Checkpointed
    &&& checkpoint_run is Some
    &&& last_run is Some
    &&& checkpoint_run == last_run
}

pub fn resumes_from_checkpoint(
    status: GroveBeadStatus,
    last_run_id: Option<&RunId>,
    checkpoint_run_id: Option<&RunId>,
) -> (r: bool)
    ensures
        r == resumes(
            status,
            match last_run_id {
                Some(id) => Some(id@),
                None => None,
            },
            match checkpoint_run_id {
                Some(id) => Some(id@),
                None => None,
            },
        ),
{
    match (status, last_run_id, checkpoint_run_id) {
        (GroveBeadStatus::Checkpointed, Some(last), Some(checkpoint)) => checkpoint.same_as(last),
        _ => false,
    }
}

/// The startup prompt taken from the text of its file: the trimmed text, or `None`
/// when nothing is left.
pub fn startup_prompt_from_text(text: &str) -> (r: Option<String>)
    ensures
        (r is None) == (trim_text(text@).len() == 0),
        r matches Some(s) ==> s@ == trim_text(text@),
{
    let trimmed = trim(text);
    if trimmed.unicode_len() == 0 {
        None
    } else {
        Some(owned(trimmed))
    }
}

/// The last `n` items of `items` (all of them when there are fewer).
pub open spec fn tail_of<T>(items: Seq<T>, n: nat) -> Seq<T> {
    if items.len() > n {
        items.subrange(items.len() - n, items.len() as int)
    } else {
        items
    }
}

/// The last `n` lines of a session's output.
pub fn tail_lines(lines: &Vec<String>, n: usize) -> (r: Vec<String>)
    ensures
        r@ == tail_of(lines@, n as nat),
{
    let start = if lines.len() > n {
        lines.len() - n
    } else {
        0
    };
    let mut out: Vec<String> = Vec::new();
    let mut i: usize = start;
    while i < lines.len()
        invariant
            start <= i <= lines.len(),
            out@ == lines@.subrange(start as int, i as int),
        decreases lines.len() - i,
    {
        out.push(lines[i].clone());
        i = i + 1;
        assert(out@ =~= lines@.subrange(start as int, i as int));
    }
    assert(lines@.subrange(0, lines.len() as int) =~= lines@);
    out
}

/// What the loop does when a worker finishes: whether it logs a forced coordinator
/// stop, releases the run's reservations, and mirrors the handoff to the tracker.
#[derive(Debug, Clone, Copy, PartialEq, Eq, Structural)]
pub struct CompletionPlan {
    pub log_forced_stop: bool,
    pub release_reservations: bool,
    pub mirror_handoff: bool,
}

/// `run_status` and `stop_reason` are those of the worker's outcome, `None` when the
/// worker failed without one.
pub fn plan_worker_completion(
    run_status: Option<RunStatus>,
    stop_reason: Option<StopReason>,
    has_handoff: bool,
    reservations_enabled: bool,
) -> (r: CompletionPlan)
    ensures
        r.log_forced_stop == (run_status is Some && stop_reason == Some(StopReason::Kill)),
        r.release_reservations == reservations_enabled,
        r.mirror_handoff == (run_status == Some(RunStatus::Succeeded) && has_handoff),
{
    let log_forced_stop = match (run_status, stop_reason) {
        (Some(_), Some(StopReason::Kill)) => true,
        _ => false,
    };
    let mirror_handoff = match run_status {
        Some(RunStatus::Succeeded) => has_handoff,
        _ => false,
    };
    CompletionPlan { log_forced_stop, release_reservations: reservations_enabled, mirror_handoff }
}

} // verus!
