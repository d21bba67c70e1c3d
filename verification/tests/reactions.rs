use grove_core::reactions::{
    apply_action, evaluate_reactions, infer_agent_activity, prior_attempt_count,
    reaction_effect, trigger_matches, ReactionAction, ReactionEffect, ReactionRule,
    ReactionTrigger, TriggerContext,
};
use grove_core::rows::parse_timestamp;
use grove_core::types::{
    AgentActivity, BeadId, CircuitState, EscalationTier, FailureClass, ReactionOutcome,
    RecoveryCapsuleOutcome, RunId, RunStatus, StopReason, Timestamp,
};

fn ts(text: &str) -> Timestamp {
    parse_timestamp(text).expect("valid timestamp")
}

fn make_ctx(status: RunStatus, failures: u32, tier: EscalationTier) -> TriggerContext {
    TriggerContext {
        bead_id: BeadId::new("test-1"),
        run_id: RunId::new("run-1"),
        run_status: status,
        activity: AgentActivity::Active,
        failure_class: Some(FailureClass::NoProgress),
        failure_detail: None,
        escalation_tier: tier,
        consecutive_failures: failures,
        circuit_state: CircuitState::Closed,
        context_pressure_bp: None,
        mirror_failed: false,
    }
}

fn rule(trigger: ReactionTrigger, action: ReactionAction, max_attempts: u32) -> ReactionRule {
    ReactionRule {
        trigger,
        action,
        enabled: true,
        max_attempts,
        escalate_to: None,
    }
}

/// One rule for each trigger, the shape of a stock rule set.
fn sample_rules() -> Vec<ReactionRule> {
    vec![
        rule(ReactionTrigger::NoProgress { iterations: 3 }, ReactionAction::RetryWithMutation, 2),
        rule(ReactionTrigger::CircuitOpen, ReactionAction::ForceCheckpoint, 1),
        rule(ReactionTrigger::AgentIdle { duration_secs: 300 }, ReactionAction::InjectRescue {
            prompt: "continue".into(),
        }, 1),
        rule(ReactionTrigger::ContextPressureHigh, ReactionAction::ForceCheckpoint, 1),
        rule(ReactionTrigger::MirrorFailed, ReactionAction::EnqueueMirrorRetry, 3),
        rule(ReactionTrigger::RetryBudgetExhausted, ReactionAction::GiveUp, 1),
    ]
}

#[test]
fn no_reactions_on_success() {
    let rules = sample_rules();
    let ctx = make_ctx(RunStatus::Succeeded, 0, EscalationTier::FirstAttempt);
    for rule in &rules {
        assert!(!trigger_matches(&rule.trigger, &ctx), "No trigger should fire on success");
    }
}

#[test]
fn no_progress_triggers_after_threshold() {
    let rules = sample_rules();
    let ctx = make_ctx(RunStatus::Failed, 3, EscalationTier::FirstAttempt);
    let no_progress_rule = rules
        .iter()
        .find(|r| matches!(r.trigger, ReactionTrigger::NoProgress { .. }))
        .unwrap();
    assert!(trigger_matches(&no_progress_rule.trigger, &ctx));
    let below = make_ctx(RunStatus::Failed, 2, EscalationTier::FirstAttempt);
    assert!(!trigger_matches(&no_progress_rule.trigger, &below));
}

#[test]
fn retry_budget_exhausted_at_give_up() {
    let ctx = make_ctx(RunStatus::Failed, 5, EscalationTier::GiveUp);
    assert!(trigger_matches(&ReactionTrigger::RetryBudgetExhausted, &ctx));
}

#[test]
fn context_pressure_triggers_above_85() {
    let mut ctx = make_ctx(RunStatus::Active, 0, EscalationTier::FirstAttempt);
    ctx.context_pressure_bp = Some(9000);
    assert!(trigger_matches(&ReactionTrigger::ContextPressureHigh, &ctx));
}

#[test]
fn context_pressure_triggers_at_threshold() {
    let mut ctx = make_ctx(RunStatus::Active, 0, EscalationTier::FirstAttempt);
    ctx.context_pressure_bp = Some(8500);
    assert!(trigger_matches(&ReactionTrigger::ContextPressureHigh, &ctx));
}

#[test]
fn context_pressure_below_threshold_or_missing_does_not_trigger() {
    let mut ctx = make_ctx(RunStatus::Active, 0, EscalationTier::FirstAttempt);
    ctx.context_pressure_bp = Some(8499);
    assert!(!trigger_matches(&ReactionTrigger::ContextPressureHigh, &ctx));
    ctx.context_pressure_bp = None;
    assert!(!trigger_matches(&ReactionTrigger::ContextPressureHigh, &ctx));
}

#[test]
fn idle_trigger_matches_idle_activity() {
    let mut ctx = make_ctx(RunStatus::WaitingToRetry, 1, EscalationTier::SecondAttempt);
    ctx.activity = AgentActivity::Idle;
    assert!(trigger_matches(&ReactionTrigger::AgentIdle { duration_secs: 300 }, &ctx));
}

#[test]
fn action_escalates_at_terminal_tier() {
    let action = ReactionAction::InjectRescue { prompt: "test".into() };
    let (outcome, _, _) = apply_action(&action, None, &EscalationTier::GiveUp);
    assert_eq!(outcome, ReactionOutcome::Escalated);
}

#[test]
fn mutation_waits_for_third_tier_and_falls_back_otherwise() {
    let fallback = ReactionAction::ScheduleBackoff { base_secs: 60 };
    let early = apply_action(
        &ReactionAction::RetryWithMutation,
        Some(&fallback),
        &EscalationTier::SecondAttempt,
    );
    assert_eq!(early, (ReactionOutcome::Escalated, fallback.clone(), Some(fallback.clone())));
    let skipped = apply_action(&ReactionAction::RetryWithMutation, None, &EscalationTier::FirstAttempt);
    assert_eq!(skipped.0, ReactionOutcome::Skipped);
    let applied = apply_action(&ReactionAction::RetryWithMutation, None, &EscalationTier::ThirdAttempt);
    assert_eq!(applied, (ReactionOutcome::Applied, ReactionAction::RetryWithMutation, None));
}

#[test]
fn mirror_failed_trigger_matches_explicit_context_flag() {
    let mut ctx = make_ctx(RunStatus::Failed, 1, EscalationTier::SecondAttempt);
    ctx.failure_class = Some(FailureClass::BrMirrorFailed);
    ctx.mirror_failed = true;
    assert!(trigger_matches(&ReactionTrigger::MirrorFailed, &ctx));
}

#[test]
fn circuit_open_trigger_matches_failure_class() {
    let mut ctx = make_ctx(RunStatus::Failed, 1, EscalationTier::SecondAttempt);
    ctx.failure_class = Some(FailureClass::CircuitOpen);
    assert!(trigger_matches(&ReactionTrigger::CircuitOpen, &ctx));
}

#[test]
fn infer_blocked_activity_from_permission_denial() {
    assert_eq!(
        infer_agent_activity(Some(StopReason::PermissionDenied), 1, false, RunStatus::Failed),
        AgentActivity::Blocked
    );
}

#[test]
fn infer_activity_from_run_status() {
    assert_eq!(infer_agent_activity(None, 0, false, RunStatus::Succeeded), AgentActivity::Ready);
    assert_eq!(infer_agent_activity(None, 0, false, RunStatus::WaitingToRetry), AgentActivity::Idle);
    assert_eq!(infer_agent_activity(Some(StopReason::Kill), 3, true, RunStatus::Failed), AgentActivity::Exited);
    assert_eq!(infer_agent_activity(None, 0, true, RunStatus::Failed), AgentActivity::Idle);
    assert_eq!(infer_agent_activity(None, 0, false, RunStatus::Active), AgentActivity::Active);
}

fn mirror_ctx() -> TriggerContext {
    TriggerContext {
        bead_id: BeadId::new("grove-reaction-cap"),
        run_id: RunId::new("run-cap-1"),
        run_status: RunStatus::Failed,
        activity: AgentActivity::Blocked,
        failure_class: Some(FailureClass::BrMirrorFailed),
        failure_detail: Some("mirror failed".into()),
        escalation_tier: EscalationTier::SecondAttempt,
        consecutive_failures: 1,
        circuit_state: CircuitState::Closed,
        context_pressure_bp: None,
        mirror_failed: true,
    }
}

#[test]
fn evaluate_reactions_stops_after_max_attempts() {
    let ctx = mirror_ctx();
    let rules = vec![rule(ReactionTrigger::MirrorFailed, ReactionAction::EnqueueMirrorRetry, 1)];
    let prior = vec![ReactionTrigger::MirrorFailed];

    let result = evaluate_reactions(&ctx, &rules, &prior, ts("2026-03-21T00:00:00Z"));
    assert!(result.records.is_empty());
    assert_eq!(result.new_tier, EscalationTier::SecondAttempt);
}

#[test]
fn evaluate_reactions_records_each_firing_and_escalates_once_per_firing() {
    let ctx = mirror_ctx();
    let mut disabled = rule(ReactionTrigger::MirrorFailed, ReactionAction::GiveUp, 5);
    disabled.enabled = false;
    let rules = vec![
        rule(ReactionTrigger::MirrorFailed, ReactionAction::EnqueueMirrorRetry, 2),
        disabled,
        rule(ReactionTrigger::CircuitOpen, ReactionAction::ForceCheckpoint, 1),
        rule(ReactionTrigger::MirrorFailed, ReactionAction::CreateRecoveryCapsule {
            outcome: RecoveryCapsuleOutcome::Failed,
        }, 3),
    ];
    let prior = vec![ReactionTrigger::MirrorFailed];
    let now = ts("2026-03-21T00:00:00Z");

    let result = evaluate_reactions(&ctx, &rules, &prior, now);
    assert_eq!(result.records.len(), 2);
    assert_eq!(result.new_tier, EscalationTier::FinalAttempt);
    assert_eq!(result.records[0].id, "rxn-grove-reaction-cap-run-cap-1-0");
    assert_eq!(result.records[1].id, "rxn-grove-reaction-cap-run-cap-1-1");
    assert_eq!(result.records[0].action, ReactionAction::EnqueueMirrorRetry);
    assert_eq!(result.records[0].outcome, ReactionOutcome::Applied);
    assert!(result.records[0].success);
    assert_eq!(result.records[0].invoked_at, now);
    assert_eq!(
        result.records[1].context.as_ref().and_then(|c| c.escalation_tier),
        Some(EscalationTier::ThirdAttempt)
    );
    assert_eq!(result.records[1].run_id, Some(RunId::new("run-cap-1")));
}

#[test]
fn prior_attempt_count_counts_matching_triggers() {
    let prior = vec![
        ReactionTrigger::MirrorFailed,
        ReactionTrigger::CircuitOpen,
        ReactionTrigger::MirrorFailed,
        ReactionTrigger::NoProgress { iterations: 3 },
    ];
    assert_eq!(prior_attempt_count(&prior, &ReactionTrigger::MirrorFailed), 2);
    assert_eq!(prior_attempt_count(&prior, &ReactionTrigger::NoProgress { iterations: 4 }), 0);
}

#[test]
fn reaction_effects_follow_the_action() {
    assert_eq!(
        reaction_effect(&ReactionAction::ScheduleBackoff { base_secs: 90 }),
        ReactionEffect::RetryAfter { delay_secs: 90 }
    );
    assert_eq!(reaction_effect(&ReactionAction::GiveUp), ReactionEffect::AbandonRun);
    assert_eq!(reaction_effect(&ReactionAction::EnqueueMirrorRetry), ReactionEffect::LogOnly);
}
