use grove_core::dispatch::{DispatchBlockedSummary, DispatchExitReason};
use grove_core::rows::parse_timestamp;
use grove_core::scheduler::{
    dispatch_reservation_expiry, dispatch_reservation_requests, close_cycle, open_cycle, plan_cycle, LoopStep, finish_round, gate_cycle,
    next_attempt_no, plan_slots, plan_worker_completion, resumes_from_checkpoint,
    retrieval_query, start_cycle, startup_prompt_from_text, tail_lines, CycleDecision,
    DispatchLimits, DispatchLoopState, SlotDecision,
};
use grove_core::types::{BeadId, GroveBeadStatus, ReservationMode, RunId, RunStatus, StopReason, Timestamp};

fn ts(text: &str) -> Timestamp {
    parse_timestamp(text).expect("valid timestamp")
}

fn parallel(max_parallel: usize) -> DispatchLimits {
    DispatchLimits { max_poll_cycles: None, max_total_runs: None, max_parallel }
}

fn limits() -> DispatchLimits {
    DispatchLimits {
        max_poll_cycles: Some(100),
        max_total_runs: Some(2),
        max_parallel: 2,
    }
}

#[test]
fn lost_lease_exits_and_drains_before_anything_else() {
    let state = DispatchLoopState::initial();
    assert_eq!(
        gate_cycle(state, true, true, 1, limits()),
        CycleDecision::Exit { reason: DispatchExitReason::LeaderContested, drain: true }
    );
}

#[test]
fn shutdown_waits_for_inflight_workers() {
    let state = DispatchLoopState::initial();
    assert_eq!(gate_cycle(state, false, true, 1, limits()), CycleDecision::Wait);
    assert_eq!(
        gate_cycle(state, false, true, 0, limits()),
        CycleDecision::Exit { reason: DispatchExitReason::ShutdownRequested, drain: false }
    );
}

#[test]
fn poll_and_run_limits_end_the_loop() {
    let mut state = DispatchLoopState::initial();
    for _ in 0..101 {
        state = start_cycle(state);
    }
    assert_eq!(
        gate_cycle(state, false, false, 0, limits()),
        CycleDecision::Exit { reason: DispatchExitReason::MaxPollCycles { limit: 100 }, drain: false }
    );
    let dispatched = DispatchLoopState { dispatched_count: 2, poll_cycles: 1, consecutive_empty_polls: 0 };
    assert_eq!(
        gate_cycle(dispatched, false, false, 0, limits()),
        CycleDecision::Exit { reason: DispatchExitReason::MaxRunsReached, drain: true }
    );
    assert_eq!(gate_cycle(DispatchLoopState::initial(), false, false, 0, limits()), CycleDecision::Proceed);
}

#[test]
fn three_empty_polls_end_the_loop_as_queue_empty() {
    let mut state = DispatchLoopState::initial();
    let (next, decision) = plan_slots(state, parallel(2), 0, 0);
    assert_eq!(decision, SlotDecision::Wait);
    state = next;
    let (next, decision) = plan_slots(state, parallel(2), 0, 0);
    assert_eq!(decision, SlotDecision::Wait);
    state = next;
    let (next, decision) = plan_slots(state, parallel(2), 0, 0);
    assert_eq!(decision, SlotDecision::Exit { reason: DispatchExitReason::QueueEmpty });
    assert_eq!(next.consecutive_empty_polls, 3);
}

#[test]
fn free_slots_are_offered_to_ready_beads() {
    let state = DispatchLoopState::initial();
    assert_eq!(plan_slots(state, parallel(3), 1, 4).1, SlotDecision::Dispatch { slots: 2 });
    assert_eq!(plan_slots(state, parallel(2), 2, 4).1, SlotDecision::Wait);
    let launched = finish_round(state, true, 1, true, false);
    assert_eq!(launched.1, CycleDecision::Proceed);
}

#[test]
fn a_cycle_never_dispatches_past_the_run_budget() {
    let budget_one = DispatchLimits { max_poll_cycles: None, max_total_runs: Some(1), max_parallel: 2 };
    let (next, decision) = plan_slots(DispatchLoopState::initial(), budget_one, 0, 2);
    assert_eq!(decision, SlotDecision::Dispatch { slots: 1 });
    assert_eq!(next.dispatched_count, 0);
    let budget_three = DispatchLimits { max_poll_cycles: None, max_total_runs: Some(3), max_parallel: 4 };
    let mut state = DispatchLoopState::initial();
    state.dispatched_count = 1;
    assert_eq!(plan_slots(state, budget_three, 0, 5).1, SlotDecision::Dispatch { slots: 2 });
    state.dispatched_count = 3;
    assert_eq!(plan_slots(state, budget_three, 0, 5).1, SlotDecision::Wait);
}

#[test]
fn blocked_rounds_end_the_loop_as_dispatch_blocked() {
    let mut state = DispatchLoopState::initial();
    let mut last = CycleDecision::Proceed;
    for _ in 0..3 {
        let (next, decision) = finish_round(state, false, 0, false, true);
        state = next;
        last = decision;
    }
    assert_eq!(last, CycleDecision::Exit { reason: DispatchExitReason::DispatchBlocked, drain: false });
}

#[test]
fn retrieval_query_keeps_five_longest_words() {
    assert_eq!(
        retrieval_query("Fix db: lock-timeout in scheduler", Some("retry the migrations quickly")),
        Some("migrations OR scheduler OR timeout OR quickly OR retry".to_owned())
    );
    assert_eq!(retrieval_query("--- ...", None), None);
    assert_eq!(retrieval_query("a b", Some("c")), Some("a OR b OR c".to_owned()));
}

#[test]
fn dispatch_reservations_are_exclusive_and_named_for_the_bead() {
    let expires = dispatch_reservation_expiry(ts("2026-03-16T12:00:00Z"), 30);
    assert_eq!(expires, ts("2026-03-16T12:30:00Z"));
    let requests = dispatch_reservation_requests(
        &BeadId::new("grove-7"),
        &vec!["src/**".to_owned(), "docs/a.md".to_owned()],
        expires,
    );
    assert_eq!(requests.len(), 2);
    assert_eq!(requests[1].path_pattern, "docs/a.md");
    assert_eq!(requests[0].mode, ReservationMode::Exclusive);
    assert_eq!(requests[0].reason.as_deref(), Some("dispatch grove-7"));
    assert_eq!(requests[0].expires_at, expires);
}

#[test]
fn attempt_numbers_follow_earlier_runs() {
    assert_eq!(next_attempt_no(None), 1);
    assert_eq!(next_attempt_no(Some(0)), 1);
    assert_eq!(next_attempt_no(Some(3)), 4);
}

#[test]
fn checkpoint_resume_needs_the_same_run() {
    let run = RunId::new("run-1");
    assert!(resumes_from_checkpoint(GroveBeadStatus::Checkpointed, Some(&run), Some(&RunId::new("run-1"))));
    assert!(!resumes_from_checkpoint(GroveBeadStatus::Checkpointed, Some(&run), Some(&RunId::new("run-0"))));
    assert!(!resumes_from_checkpoint(GroveBeadStatus::Ready, Some(&run), Some(&RunId::new("run-1"))));
}

#[test]
fn startup_prompt_and_tails() {
    assert_eq!(startup_prompt_from_text("  go  \n"), Some("go".to_owned()));
    assert_eq!(startup_prompt_from_text("\n\t"), None);
    let lines: Vec<String> = ["a", "b", "c"].iter().map(|s| (*s).to_owned()).collect();
    assert_eq!(tail_lines(&lines, 2), vec!["b".to_owned(), "c".to_owned()]);
    assert_eq!(tail_lines(&lines, 5), lines);
}

#[test]
fn worker_completion_plan() {
    let plan = plan_worker_completion(Some(RunStatus::Succeeded), None, true, true);
    assert!(plan.mirror_handoff && plan.release_reservations && !plan.log_forced_stop);
    let killed = plan_worker_completion(Some(RunStatus::WaitingToRetry), Some(StopReason::Kill), true, false);
    assert!(killed.log_forced_stop && !killed.mirror_handoff && !killed.release_reservations);
}

#[test]
fn an_exhausted_loop_reports_blocked_only_with_a_summary() {
    let mut state = DispatchLoopState::initial();
    state.dispatched_count = 2;
    state.poll_cycles = 7;
    state.consecutive_empty_polls = 2;
    let (_, empty) = close_cycle(state, false, 0, false, None);
    match empty {
        LoopStep::Finish { outcome, drain } => {
            assert!(!drain);
            assert_eq!(outcome.exit_reason, DispatchExitReason::QueueEmpty);
            assert_eq!(outcome.blocked_summary, None);
            assert_eq!((outcome.dispatched_count, outcome.poll_cycles), (2, 7));
        }
        other => panic!("expected the loop to finish, got {other:?}"),
    }
    let summary = DispatchBlockedSummary { blocked_ready_count: 1, reason_counts: vec![], sample_beads: vec![] };
    let (_, blocked) = close_cycle(state, false, 0, false, Some(summary.clone()));
    match blocked {
        LoopStep::Finish { outcome, .. } => {
            assert_eq!(outcome.exit_reason, DispatchExitReason::DispatchBlocked);
            assert_eq!(outcome.stop_reason, DispatchExitReason::DispatchBlocked.to_stop_reason());
            assert_eq!(outcome.blocked_summary, Some(summary));
        }
        other => panic!("expected the loop to finish, got {other:?}"),
    }
    state.consecutive_empty_polls = 0;
    assert_eq!(close_cycle(state, false, 0, false, None).1, LoopStep::Wait);
}

#[test]
fn the_poll_limit_ends_the_loop_one_cycle_past_it() {
    let limits = DispatchLimits { max_poll_cycles: Some(2), max_total_runs: None, max_parallel: 1 };
    let mut state = DispatchLoopState::initial();
    for _ in 0..2 {
        let (next, step) = open_cycle(state, false, false, 0, limits);
        assert_eq!(step, LoopStep::Continue);
        state = next;
    }
    let (_, step) = open_cycle(state, false, false, 0, limits);
    match step {
        LoopStep::Finish { outcome, drain } => {
            assert!(!drain);
            assert_eq!(outcome.exit_reason, DispatchExitReason::MaxPollCycles { limit: 2 });
            assert_eq!(outcome.poll_cycles, 3);
        }
        other => panic!("expected the loop to finish, got {other:?}"),
    }
}

#[test]
fn planning_grants_no_more_than_the_budget_left() {
    let limits = DispatchLimits { max_poll_cycles: None, max_total_runs: Some(3), max_parallel: 5 };
    let mut state = DispatchLoopState::initial();
    state.dispatched_count = 1;
    assert_eq!(plan_cycle(state, limits, 0, 4).1, LoopStep::Dispatch { slots: 2 });
    let (_, step) = plan_cycle(DispatchLoopState { consecutive_empty_polls: 2, ..state }, limits, 0, 0);
    match step {
        LoopStep::Finish { outcome, .. } => assert_eq!(outcome.exit_reason, DispatchExitReason::QueueEmpty),
        other => panic!("expected the loop to finish, got {other:?}"),
    }
}
