//! Reaction rules: triggers evaluated against the state of a run after each dispatch
//! outcome, the action each rule takes at the current escalation tier, and the
//! auditable records that describe what fired.
use vstd::prelude::*;
use crate::text::{append_decimal, decimal_text, owned};
use crate::types::{
    AgentActivity, BeadId, CircuitState, EscalationTier, FailureClass, ReactionOutcome,
    RecoveryCapsuleOutcome, RunId, RunStatus, StopReason, Timestamp,
};

verus! {

/// Context-window pressure, in basis points, from which the pressure trigger fires.
pub const CONTEXT_PRESSURE_THRESHOLD_BP: u32 = 8500;

/// The lowest tier (counted from zero) at which a retry with a mutated prompt applies.
pub const MUTATION_MIN_TIER: u8 = 2;

/// A condition on the state of a run that a reaction rule watches for.
#[derive(Debug, Clone, Copy, PartialEq, Eq, Structural)]
pub enum ReactionTrigger {
    CircuitOpen,
    NoProgress { iterations: u32 },
    AgentIdle { duration_secs: u64 },
    ContextPressureHigh,
    MirrorFailed,
    RetryBudgetExhausted,
}

/// What a reaction rule does when its trigger fires.
#[derive(Debug, Clone, PartialEq, Eq)]
pub enum ReactionAction {
    RetryWithMutation,
    InjectRescue { prompt: String },
    CreateRecoveryCapsule { outcome: RecoveryCapsuleOutcome },
    ScheduleBackoff { base_secs: u64 },
    ForceCheckpoint,
    EnqueueMirrorRetry,
    GiveUp,
}

impl ReactionAction {
    pub fn duplicate(&self) -> (r: ReactionAction)
        ensures
            r == *self,
    {
        match self {
            ReactionAction::RetryWithMutation => ReactionAction::RetryWithMutation,
            ReactionAction::InjectRescue { prompt } => ReactionAction::InjectRescue {
                prompt: prompt.clone(),
            },
            ReactionAction::CreateRecoveryCapsule { outcome } => ReactionAction::CreateRecoveryCapsule {
                outcome: *outcome,
            },
            ReactionAction::ScheduleBackoff { base_secs } => ReactionAction::ScheduleBackoff {
                base_secs: *base_secs,
            },
            ReactionAction::ForceCheckpoint => ReactionAction::ForceCheckpoint,
            ReactionAction::EnqueueMirrorRetry => ReactionAction::EnqueueMirrorRetry,
            ReactionAction::GiveUp => ReactionAction::GiveUp,
        }
    }
}

/// A configured reaction: its trigger, its action, whether it is on, how many times it
/// may fire for one run, and the action to fall back to when its own does not apply.
#[derive(Debug, Clone, PartialEq, Eq)]
pub struct ReactionRule {
    pub trigger: ReactionTrigger,
    pub action: ReactionAction,
    pub enabled: bool,
    pub max_attempts: u32,
    pub escalate_to: Option<ReactionAction>,
}

/// The state of a run against which triggers are evaluated.
#[derive(Debug, Clone)]
pub struct TriggerContext {
    pub bead_id: BeadId,
    pub run_id: RunId,
    pub run_status: RunStatus,
    pub activity: AgentActivity,
    pub failure_class: Option<FailureClass>,
    pub failure_detail: Option<String>,
    pub escalation_tier: EscalationTier,
    pub consecutive_failures: u32,
    pub circuit_state: CircuitState,
    /// Context-window pressure in basis points (10000 is a full window).
    pub context_pressure_bp: Option<u32>,
    pub mirror_failed: bool,
}

/// The state of the run that a reaction record keeps alongside it.
#[derive(Debug, Clone, PartialEq, Eq)]
pub struct ReactionContextSnapshot {
    pub run_status: Option<RunStatus>,
    pub activity: Option<AgentActivity>,
    pub escalation_tier: Option<EscalationTier>,
    pub failure_class: Option<FailureClass>,
    pub failure_detail: Option<String>,
    pub checkpoint_progress: Option<String>,
    pub checkpoint_next_step: Option<String>,
    pub retry_delta_summary: Option<String>,
}

/// The auditable record of one reaction that fired.
#[derive(Debug, Clone, PartialEq, Eq)]
pub struct ReactionRecord {
    pub id: String,
    pub trigger: ReactionTrigger,
    pub action: ReactionAction,
    pub outcome: ReactionOutcome,
    pub escalated_to: Option<ReactionAction>,
    pub context: Option<ReactionContextSnapshot>,
    pub invoked_at: Timestamp,
    pub success: bool,
    pub error: Option<String>,
    pub run_id: Option<RunId>,
}

/// The reactions that fired for one dispatch outcome and the escalation tier after them.
#[derive(Debug, Clone)]
pub struct ReactionEvalResult {
    pub records: Vec<ReactionRecord>,
    pub new_tier: EscalationTier,
}

// ---------------------------------------------------------------------------
// Triggers
// ---------------------------------------------------------------------------

/// Whether `trigger` holds in `ctx`. A missing pressure reading counts as none.
pub open spec fn trigger_holds(trigger: ReactionTrigger, ctx: TriggerContext) -> bool {
    match trigger {
        ReactionTrigger::CircuitOpen => ctx.circuit_state == CircuitState::Open || ctx.failure_class
            == Some(FailureClass::CircuitOpen),
        ReactionTrigger::NoProgress { iterations } => ctx.consecutive_failures >= iterations
            && ctx.failure_class == Some(FailureClass::NoProgress),
        ReactionTrigger::AgentIdle { .. } => ctx.activity == AgentActivity::Idle,
        ReactionTrigger::ContextPressureHigh => match ctx.context_pressure_bp {
            Some(p) => p >= CONTEXT_PRESSURE_THRESHOLD_BP,
            None => false,
        },
        ReactionTrigger::MirrorFailed => ctx.mirror_failed || ctx.failure_class == Some(
            FailureClass::BrMirrorFailed,
        ),
        ReactionTrigger::RetryBudgetExhausted => ctx.escalation_tier is GiveUp,
    }
}

pub fn trigger_matches(trigger: &ReactionTrigger, ctx: &TriggerContext) -> (r: bool)
    ensures
        r == trigger_holds(*trigger, *ctx),
{
    match trigger {
        ReactionTrigger::CircuitOpen => {
            ctx.circuit_state == CircuitState::Open || ctx.failure_class == Some(FailureClass::CircuitOpen)
        },
        ReactionTrigger::NoProgress { iterations } => {
            ctx.consecutive_failures >= *iterations && ctx.failure_class == Some(FailureClass::NoProgress)
        },
        ReactionTrigger::AgentIdle { .. } => ctx.activity == AgentActivity::Idle,
        ReactionTrigger::ContextPressureHigh => match ctx.context_pressure_bp {
            Some(p) => p >= CONTEXT_PRESSURE_THRESHOLD_BP,
            None => false,
        },
        ReactionTrigger::MirrorFailed => {
            ctx.mirror_failed || ctx.failure_class == Some(FailureClass::BrMirrorFailed)
        },
        ReactionTrigger::RetryBudgetExhausted => ctx.escalation_tier.is_terminal(),
    }
}

// ---------------------------------------------------------------------------
// Actions
// ---------------------------------------------------------------------------

/// Whether an action applies at `tier`: a retry with a mutated prompt needs the third
/// tier or later; every other action applies at once.
pub open spec fn applies_at(action: ReactionAction, tier: EscalationTier) -> bool {
    action is RetryWithMutation ==> tier.rank() >= MUTATION_MIN_TIER
}

/// The outcome, the action taken and the action escalated to, when a rule with `action`
/// and fallback `escalate_to` fires at `tier`.
pub open spec fn action_result(
    action: ReactionAction,
    escalate_to: Option<ReactionAction>,
    tier: EscalationTier,
) -> (ReactionOutcome, ReactionAction, Option<ReactionAction>) {
    if tier is GiveUp {
        (ReactionOutcome::Escalated, ReactionAction::GiveUp, Some(ReactionAction::GiveUp))
    } else if applies_at(action, tier) {
        (ReactionOutcome::Applied, action, None)
    } else {
        match escalate_to {
            Some(fallback) => (ReactionOutcome::Escalated, fallback, Some(fallback)),
            None => (ReactionOutcome::Skipped, action, None),
        }
    }
}

pub fn apply_action(
    action: &ReactionAction,
    escalate_to: Option<&ReactionAction>,
    tier: &EscalationTier,
) -> (r: (ReactionOutcome, ReactionAction, Option<ReactionAction>))
    ensures
        r == action_result(
            *action,
            match escalate_to {
                Some(a) => Some(*a),
                None => None,
            },
            *tier,
        ),
{
    if tier.is_terminal() {
        return (ReactionOutcome::Escalated, ReactionAction::GiveUp, Some(ReactionAction::GiveUp));
    }
    let can_apply = match action {
        ReactionAction::RetryWithMutation => tier.tier_number() >= MUTATION_MIN_TIER,
        _ => true,
    };
    if can_apply {
        (ReactionOutcome::Applied, action.duplicate(), None)
    } else {
        match escalate_to {
            Some(fallback) => (ReactionOutcome::Escalated, fallback.duplicate(), Some(fallback.duplicate())),
            None => (ReactionOutcome::Skipped, action.duplicate(), None),
        }
    }
}

// ---------------------------------------------------------------------------
// Agent activity
// ---------------------------------------------------------------------------

/// What the agent is doing, judged from how its session ended and the status its run
/// was given.
pub open spec fn inferred_activity(
    stop_reason: Option<StopReason>,
    permission_denials: u32,
    repeated_error: bool,
    run_status: RunStatus,
) -> AgentActivity {
    match run_status {
        RunStatus::Succeeded | RunStatus::Checkpointed => AgentActivity::Ready,
        RunStatus::WaitingToRetry => AgentActivity::Idle,
        RunStatus::Failed => match stop_reason {
            Some(StopReason::Kill) | Some(StopReason::Crash) => AgentActivity::Exited,
            Some(StopReason::PermissionDenied) => AgentActivity::Blocked,
            _ => if permission_denials > 0 {
                AgentActivity::Blocked
            } else if repeated_error {
                AgentActivity::Idle
            } else {
                AgentActivity::Exited
            },
        },
        RunStatus::Active => AgentActivity::Active,
    }
}

/// `repeated_error` says whether the session's analysis found a repeated error
/// fingerprint.
pub fn infer_agent_activity(
    stop_reason: Option<StopReason>,
    permission_denials: u32,
    repeated_error: bool,
    run_status: RunStatus,
) -> (r: AgentActivity)
    ensures
        r == inferred_activity(stop_reason, permission_denials, repeated_error, run_status),
{
    match run_status {
        RunStatus::Succeeded | RunStatus::Checkpointed => AgentActivity::Ready,
        RunStatus::WaitingToRetry => AgentActivity::Idle,
        RunStatus::Failed => match stop_reason {
            Some(StopReason::Kill) | Some(StopReason::Crash) => AgentActivity::Exited,
            Some(StopReason::PermissionDenied) => AgentActivity::Blocked,
            _ => if permission_denials > 0 {
                AgentActivity::Blocked
            } else if repeated_error {
                AgentActivity::Idle
            } else {
                AgentActivity::Exited
            },
        },
        RunStatus::Active => AgentActivity::Active,
    }
}

/// The activity assumed for a failure that left no session outcome behind.
pub open spec fn failure_activity(failure_class: Option<FailureClass>) -> AgentActivity {
    match failure_class {
        Some(FailureClass::PermissionDenied) => AgentActivity::Blocked,
        Some(FailureClass::NoProgress) => AgentActivity::Idle,
        _ => AgentActivity::Exited,
    }
}

pub fn activity_for_failure(failure_class: Option<FailureClass>) -> (r: AgentActivity)
    ensures
        r == failure_activity(failure_class),
{
    match failure_class {
        Some(FailureClass::PermissionDenied) => AgentActivity::Blocked,
        Some(FailureClass::NoProgress) => AgentActivity::Idle,
        _ => AgentActivity::Exited,
    }
}

// ---------------------------------------------------------------------------
// Evaluation
// ---------------------------------------------------------------------------

/// How many earlier reaction records of the run carry `trigger`.
pub open spec fn trigger_count(prior: Seq<ReactionTrigger>, trigger: ReactionTrigger) -> nat
    decreases prior.len(),
{
    if prior.len() == 0 {
        0
    } else {
        trigger_count(prior.drop_last(), trigger) + if prior.last() == trigger {
            1nat
        } else {
            0nat
        }
    }
}

/// Whether `rule` fires: it is enabled, its trigger holds, and it has fired fewer times
/// for the run than it may (the count taken as a 32-bit number).
pub open spec fn rule_fires(rule: ReactionRule, ctx: TriggerContext, prior: Seq<ReactionTrigger>) -> bool {
    &&& rule.enabled
    &&& trigger_holds(rule.trigger, ctx)
    &&& !((trigger_count(prior, rule.trigger) as u32) >= rule.max_attempts)
}

/// Whether reactions to a run with this status escalate its tier.
pub open spec fn escalates(status: RunStatus) -> bool {
    status is Failed || status is WaitingToRetry
}

/// The rules that fire, in order, each as its index and the tier it fired at, and the
/// tier after all of them.
pub open spec fn firings(ctx: TriggerContext, rules: Seq<ReactionRule>, prior: Seq<ReactionTrigger>) -> (
    Seq<(int, EscalationTier)>,
    EscalationTier,
)
    decreases rules.len(),
{
    if rules.len() == 0 {
        (Seq::empty(), ctx.escalation_tier)
    } else {
        let (fired, tier) = firings(ctx, rules.drop_last(), prior);
        if rule_fires(rules.last(), ctx, prior) {
            (
                fired.push((rules.len() - 1, tier)),
                if escalates(ctx.run_status) {
                    tier.next()
                } else {
                    tier
                },
            )
        } else {
            (fired, tier)
        }
    }
}

/// `rxn-<bead>-<run>-<k>`, the id of the `k`-th record of one evaluation.
pub open spec fn reaction_id_text(bead: Seq<char>, run: Seq<char>, k: nat) -> Seq<char> {
    "rxn-"@ + bead + "-"@ + run + "-"@ + decimal_text(k)
}

/// The state of the run kept with a record fired at `tier`.
pub open spec fn snapshot_of(ctx: TriggerContext, tier: EscalationTier) -> ReactionContextSnapshot {
    ReactionContextSnapshot {
        run_status: Some(ctx.run_status),
        activity: Some(ctx.activity),
        escalation_tier: Some(tier),
        failure_class: ctx.failure_class,
        failure_detail: ctx.failure_detail,
        checkpoint_progress: None,
        checkpoint_next_step: None,
        retry_delta_summary: None,
    }
}

/// Whether `rec` is the `k`-th record of an evaluation, for `rule` fired at `tier`.
pub open spec fn record_describes(
    rec: ReactionRecord,
    k: int,
    rule: ReactionRule,
    tier: EscalationTier,
    ctx: TriggerContext,
    now: Timestamp,
) -> bool {
    let (outcome, action, escalated_to) = action_result(rule.action, rule.escalate_to, tier);
    &&& rec.id@ == reaction_id_text(ctx.bead_id@, ctx.run_id@, k as nat)
    &&& rec.trigger == rule.trigger
    &&& rec.action == action
    &&& rec.outcome == outcome
    &&& rec.escalated_to == escalated_to
    &&& rec.context == Some(snapshot_of(ctx, tier))
    &&& rec.invoked_at == now
    &&& rec.success == (outcome is Applied || outcome is Escalated)
    &&& rec.error is None
    &&& rec.run_id == Some(ctx.run_id)
}

/// How many of the earlier records of the run carry `trigger`, as a 32-bit number.
pub fn prior_attempt_count(prior: &Vec<ReactionTrigger>, trigger: &ReactionTrigger) -> (r: u32)
    ensures
        r == trigger_count(prior@, *trigger) as u32,
{
    let mut count: usize = 0;
    let mut i: usize = 0;
    while i < prior.len()
        invariant
            i <= prior.len(),
            count == trigger_count(prior@.subrange(0, i as int), *trigger),
            count <= i,
        decreases prior.len() - i,
    {
        assert(prior@.subrange(0, i + 1).drop_last() =~= prior@.subrange(0, i as int));
        if prior[i] == *trigger {
            count = count + 1;
        }
        i = i + 1;
    }
    assert(prior@.subrange(0, prior.len() as int) =~= prior@);
    count as u32
}

fn copy_optional_text(o: &Option<String>) -> (r: Option<String>)
    ensures
        r == *o,
{
    match o {
        Some(s) => Some(s.clone()),
        None => None,
    }
}

fn copy_optional_action(o: &Option<ReactionAction>) -> (r: Option<&ReactionAction>)
    ensures
        match r {
            Some(a) => *o == Some(*a),
            None => o is None,
        },
{
    match o {
        Some(a) => Some(a),
        None => None,
    }
}

/// Evaluates `rules` in order against `ctx`. `prior` holds the triggers of the reaction
/// records already logged for the run; `now` is the time stamped on new records.
pub fn evaluate_reactions(
    ctx: &TriggerContext,
    rules: &Vec<ReactionRule>,
    prior: &Vec<ReactionTrigger>,
    now: Timestamp,
) -> (r: ReactionEvalResult)
    ensures
        r.new_tier == firings(*ctx, rules@, prior@).1,
        r.records.len() == firings(*ctx, rules@, prior@).0.len(),
        (ctx.run_status == RunStatus::Failed || ctx.run_status == RunStatus::WaitingToRetry) ==> r.new_tier
            == escalated_by(ctx.escalation_tier, r.records.len() as nat),
        !(ctx.run_status == RunStatus::Failed || ctx.run_status == RunStatus::WaitingToRetry) ==> r.new_tier
            == ctx.escalation_tier,
        forall|k: int|
            0 <= k < r.records.len() ==> {
                let (idx, tier) = #[trigger] firings(*ctx, rules@, prior@).0[k];
                record_describes(r.records@[k], k, rules@[idx], tier, *ctx, now)
            },
{
    let mut records: Vec<ReactionRecord> = Vec::new();
    let mut tier = ctx.escalation_tier;
    let mut i: usize = 0;
    while i < rules.len()
        invariant
            i <= rules.len(),
            tier == firings(*ctx, rules@.subrange(0, i as int), prior@).1,
            records.len() == firings(*ctx, rules@.subrange(0, i as int), prior@).0.len(),
            forall|k: int|
                0 <= k < records.len() ==> {
                    let (idx, t) = #[trigger] firings(*ctx, rules@.subrange(0, i as int), prior@).0[k];
                    &&& 0 <= idx < i
                    &&& record_describes(records@[k], k, rules@[idx], t, *ctx, now)
                },
        decreases rules.len() - i,
    {
        let ghost before = firings(*ctx, rules@.subrange(0, i as int), prior@);
        let ghost next_rules = rules@.subrange(0, i + 1);
        assert(next_rules.drop_last() =~= rules@.subrange(0, i as int));
        assert(next_rules.last() == rules@[i as int]);
        let rule = &rules[i];
        let fires = rule.enabled && trigger_matches(&rule.trigger, ctx) && !(prior_attempt_count(
            prior,
            &rule.trigger,
        ) >= rule.max_attempts);
        if fires {
            let k = records.len();
            let mut id = owned("rxn-");
            id.append(ctx.bead_id.as_str());
            id.append("-");
            id.append(ctx.run_id.as_str());
            id.append("-");
            append_decimal(&mut id, k as u64);
            let (outcome, applied_action, escalated_to) = apply_action(
                &rule.action,
                copy_optional_action(&rule.escalate_to),
                &tier,
            );
            let success = match outcome {
                ReactionOutcome::Applied | ReactionOutcome::Escalated => true,
                ReactionOutcome::Skipped => false,
            };
            let record = ReactionRecord {
                id,
                trigger: rule.trigger,
                action: applied_action,
                outcome,
                escalated_to,
                context: Some(
                    ReactionContextSnapshot {
                        run_status: Some(ctx.run_status),
                        activity: Some(ctx.activity),
                        escalation_tier: Some(tier),
                        failure_class: ctx.failure_class,
                        failure_detail: copy_optional_text(&ctx.failure_detail),
                        checkpoint_progress: None,
                        checkpoint_next_step: None,
                        retry_delta_summary: None,
                    },
                ),
                invoked_at: now,
                success,
                error: None,
                run_id: Some(ctx.run_id.duplicate()),
            };
            proof {
                assert(record.id@ =~= reaction_id_text(ctx.bead_id@, ctx.run_id@, k as nat));
                assert(record_describes(record, k as int, rules@[i as int], tier, *ctx, now));
            }
            records.push(record);
            if ctx.run_status == RunStatus::Failed || ctx.run_status == RunStatus::WaitingToRetry {
                tier = tier.escalate();
            }
        }
        i = i + 1;
        proof {
            let after = firings(*ctx, rules@.subrange(0, i as int), prior@);
            assert forall|k: int| 0 <= k < records.len() implies {
                let (idx, t) = #[trigger] after.0[k];
                &&& 0 <= idx < i
                &&& record_describes(records@[k], k, rules@[idx], t, *ctx, now)
            } by {
                if k < before.0.len() {
                    assert(after.0[k] == before.0[k]);
                }
            }
        }
    }
    assert(rules@.subrange(0, rules.len() as int) =~= rules@);
    proof {
        lemma_reactions_escalate_once_per_firing(*ctx, rules@, prior@);
    }
    ReactionEvalResult { records, new_tier: tier }
}

/// `tier` escalated `n` times.
pub open spec fn escalated_by(tier: EscalationTier, n: nat) -> EscalationTier
    decreases n,
{
    if n == 0 {
        tier
    } else {
        escalated_by(tier, (n - 1) as nat).next()
    }
}

/// Each reaction to a failed or retryable run escalates the tier one step up the
/// ladder (first, second, third, final attempt, give up), stopping at give up;
/// reactions to any other run leave it where it was.
pub proof fn lemma_reactions_escalate_once_per_firing(
    ctx: TriggerContext,
    rules: Seq<ReactionRule>,
    prior: Seq<ReactionTrigger>,
)
    ensures
        (ctx.run_status == RunStatus::Failed || ctx.run_status == RunStatus::WaitingToRetry) ==> firings(
            ctx,
            rules,
            prior,
        ).1 == escalated_by(ctx.escalation_tier, firings(ctx, rules, prior).0.len()),
        (ctx.run_status == RunStatus::Failed || ctx.run_status == RunStatus::WaitingToRetry) && firings(
            ctx,
            rules,
            prior,
        ).0.len() > 0 && ctx.escalation_tier != EscalationTier::GiveUp ==> firings(ctx, rules, prior).1
            != ctx.escalation_tier,
        (ctx.run_status == RunStatus::Failed || ctx.run_status == RunStatus::WaitingToRetry) ==> tier_rank(
            firings(ctx, rules, prior).1,
        ) == if tier_rank(ctx.escalation_tier) + firings(ctx, rules, prior).0.len() <= 4 {
            tier_rank(ctx.escalation_tier) + firings(ctx, rules, prior).0.len()
        } else {
            4
        },
        !(ctx.run_status == RunStatus::Failed || ctx.run_status == RunStatus::WaitingToRetry) ==> firings(
            ctx,
            rules,
            prior,
        ).1 == ctx.escalation_tier,
    decreases rules.len(),
{
    if rules.len() > 0 {
        lemma_reactions_escalate_once_per_firing(ctx, rules.drop_last(), prior);
        lemma_escalation_moves(ctx.escalation_tier, firings(ctx, rules, prior).0.len());
    }
}

/// Escalating a tier that has not given up, at least once, moves it.
proof fn lemma_escalation_moves(tier: EscalationTier, n: nat)
    ensures
        n > 0 && tier != EscalationTier::GiveUp ==> escalated_by(tier, n) != tier,
        tier_rank(escalated_by(tier, n)) == if tier_rank(tier) + n <= 4 {
            tier_rank(tier) + n
        } else {
            4
        },
    decreases n,
{
    if n > 0 {
        lemma_escalation_moves(tier, (n - 1) as nat);
    }
}

/// The position of a tier on the retry ladder.
pub open spec fn tier_rank(tier: EscalationTier) -> nat {
    match tier {
        EscalationTier::FirstAttempt => 0,
        EscalationTier::SecondAttempt => 1,
        EscalationTier::ThirdAttempt => 2,
        EscalationTier::FinalAttempt => 3,
        EscalationTier::GiveUp => 4,
    }
}

/// The records name enabled rules whose triggers hold and whose attempt budget is not
/// spent, each at most once and in the order the rules are given.
pub proof fn lemma_firings_are_due_rules(ctx: TriggerContext, rules: Seq<ReactionRule>, prior: Seq<ReactionTrigger>)
    ensures
        forall|k: int|
            0 <= k < firings(ctx, rules, prior).0.len() ==> {
                let idx = (#[trigger] firings(ctx, rules, prior).0[k]).0;
                &&& 0 <= idx < rules.len()
                &&& rule_fires(rules[idx], ctx, prior)
            },
        forall|j: int, k: int|
            0 <= j < k < firings(ctx, rules, prior).0.len() ==> (#[trigger] firings(ctx, rules, prior).0[j]).0
                < (#[trigger] firings(ctx, rules, prior).0[k]).0,
        forall|idx: int|
            0 <= idx < rules.len() && rule_fires(#[trigger] rules[idx], ctx, prior) ==> exists|k: int|
                0 <= k < firings(ctx, rules, prior).0.len() && (#[trigger] firings(ctx, rules, prior).0[k]).0 == idx,
    decreases rules.len(),
{
    if rules.len() > 0 {
        let shorter = rules.drop_last();
        lemma_firings_are_due_rules(ctx, shorter, prior);
        let before = firings(ctx, shorter, prior).0;
        let after = firings(ctx, rules, prior).0;
        assert forall|k: int| 0 <= k < before.len() implies after[k] == before[k] by {}
        assert forall|k: int| 0 <= k < after.len() implies {
            let idx = (#[trigger] after[k]).0;
            &&& 0 <= idx < rules.len()
            &&& rule_fires(rules[idx], ctx, prior)
        } by {
            if k < before.len() {
                assert(shorter[before[k].0] == rules[before[k].0]);
            }
        }
        assert forall|idx: int| 0 <= idx < rules.len() && rule_fires(#[trigger] rules[idx], ctx, prior) implies exists|k: int|
            0 <= k < after.len() && (#[trigger] after[k]).0 == idx by {
            if idx < rules.len() - 1 {
                assert(shorter[idx] == rules[idx]);
                let k = choose|k: int| 0 <= k < before.len() && (#[trigger] before[k]).0 == idx;
                assert(after[k] == before[k]);
            } else {
                assert(after[before.len() as int].0 == idx);
            }
        }
    }
}

/// Once the retry budget is exhausted, every reaction that fires gives up.
pub proof fn lemma_exhausted_budget_always_gives_up(
    ctx: TriggerContext,
    rules: Seq<ReactionRule>,
    prior: Seq<ReactionTrigger>,
)
    requires
        ctx.escalation_tier is GiveUp,
    ensures
        firings(ctx, rules, prior).1 is GiveUp,
        forall|k: int|
            0 <= k < firings(ctx, rules, prior).0.len() ==> {
                let (idx, tier) = #[trigger] firings(ctx, rules, prior).0[k];
                &&& tier is GiveUp
                &&& action_result(rules[idx].action, rules[idx].escalate_to, tier) == (
                    ReactionOutcome::Escalated,
                    ReactionAction::GiveUp,
                    Some(ReactionAction::GiveUp),
                )
            },
    decreases rules.len(),
{
    if rules.len() > 0 {
        lemma_exhausted_budget_always_gives_up(ctx, rules.drop_last(), prior);
        let before = firings(ctx, rules.drop_last(), prior).0;
        let after = firings(ctx, rules, prior).0;
        assert forall|k: int| 0 <= k < before.len() implies after[k] == before[k] by {}
    }
}

// ---------------------------------------------------------------------------
// Follow-up of an evaluation
// ---------------------------------------------------------------------------

/// The inputs of an evaluation for a worker that failed before leaving a session
/// outcome: the run status, failure class, starting tier and agent activity assumed.
pub open spec fn inputs_without_outcome(mirror_failed: bool) -> (
    RunStatus,
    Option<FailureClass>,
    EscalationTier,
    AgentActivity,
) {
    let class = if mirror_failed {
        Some(FailureClass::BrMirrorFailed)
    } else {
        Some(FailureClass::Unknown)
    };
    (RunStatus::Failed, class, EscalationTier::FirstAttempt, failure_activity(class))
}

pub fn reaction_inputs_without_outcome(mirror_failed: bool) -> (r: (
    RunStatus,
    Option<FailureClass>,
    EscalationTier,
    AgentActivity,
))
    ensures
        r == inputs_without_outcome(mirror_failed),
{
    let class = if mirror_failed {
        Some(FailureClass::BrMirrorFailed)
    } else {
        Some(FailureClass::Unknown)
    };
    (RunStatus::Failed, class, EscalationTier::FirstAttempt, activity_for_failure(class))
}

/// What the dispatch loop does for one logged reaction record.
#[derive(Debug, Clone, Copy, PartialEq, Eq, Structural)]
pub enum ReactionEffect {
    /// Write a recovery capsule built from a plan for a mutated retry.
    MutationCapsule,
    /// Write a recovery capsule with the given outcome, built from the failure.
    FailureCapsule { outcome: RecoveryCapsuleOutcome },
    /// Close the run as waiting to retry once `delay_secs` have passed.
    RetryAfter { delay_secs: u64 },
    /// Write a failed recovery capsule and close the run as failed.
    AbandonRun,
    /// Nothing beyond the record itself.
    LogOnly,
}

pub open spec fn effect_of(action: ReactionAction) -> ReactionEffect {
    match action {
        ReactionAction::RetryWithMutation => ReactionEffect::MutationCapsule,
        ReactionAction::CreateRecoveryCapsule { outcome } => ReactionEffect::FailureCapsule { outcome },
        ReactionAction::ScheduleBackoff { base_secs } => ReactionEffect::RetryAfter { delay_secs: base_secs },
        ReactionAction::GiveUp => ReactionEffect::AbandonRun,
        _ => ReactionEffect::LogOnly,
    }
}

pub fn reaction_effect(action: &ReactionAction) -> (r: ReactionEffect)
    ensures
        r == effect_of(*action),
{
    match action {
        ReactionAction::RetryWithMutation => ReactionEffect::MutationCapsule,
        ReactionAction::CreateRecoveryCapsule { outcome } => ReactionEffect::FailureCapsule {
            outcome: *outcome,
        },
        ReactionAction::ScheduleBackoff { base_secs } => ReactionEffect::RetryAfter {
            delay_secs: *base_secs,
        },
        ReactionAction::GiveUp => ReactionEffect::AbandonRun,
        _ => ReactionEffect::LogOnly,
    }
}

/// Whether an effect closes the run.
pub open spec fn closes_run(effect: ReactionEffect) -> bool {
    effect is RetryAfter || effect is AbandonRun
}

/// What follows an evaluation: the tier to store when it changed, whether the tier is
/// reset after a success, one effect per record, and whether the run must still be
/// closed as failed.
#[derive(Debug, Clone)]
pub struct ReactionFollowUp {
    pub tier_update: Option<EscalationTier>,
    pub reset_tier: bool,
    pub effects: Vec<ReactionEffect>,
    pub finish_as_failed: bool,
}

/// `outcome_status` is the status of the run when the worker left a session outcome.
pub fn plan_reaction_follow_up(
    result: &ReactionEvalResult,
    existing_tier: EscalationTier,
    outcome_status: Option<RunStatus>,
) -> (r: ReactionFollowUp)
    ensures
        r.tier_update == (if result.new_tier != existing_tier {
            Some(result.new_tier)
        } else {
            None
        }),
        r.reset_tier == (outcome_status == Some(RunStatus::Succeeded) || outcome_status == Some(
            RunStatus::Checkpointed,
        )),
        r.effects.len() == result.records.len(),
        forall|k: int| 0 <= k < r.effects.len() ==> r.effects@[k] == effect_of(#[trigger] result.records@[k].action),
        r.finish_as_failed == (outcome_status is None && forall|k: int|
            0 <= k < result.records.len() ==> !closes_run(effect_of(#[trigger] result.records@[k].action))),
{
    let tier_update = if result.new_tier != existing_tier {
        Some(result.new_tier)
    } else {
        None
    };
    let reset_tier = match outcome_status {
        Some(RunStatus::Succeeded) | Some(RunStatus::Checkpointed) => true,
        _ => false,
    };
    let mut effects: Vec<ReactionEffect> = Vec::new();
    let mut closed = false;
    let mut i: usize = 0;
    while i < result.records.len()
        invariant
            i <= result.records.len(),
            effects.len() == i,
            forall|k: int| 0 <= k < i ==> effects@[k] == effect_of(#[trigger] result.records@[k].action),
            closed == exists|k: int| 0 <= k < i && closes_run(effect_of(#[trigger] result.records@[k].action)),
        decreases result.records.len() - i,
    {
        let effect = reaction_effect(&result.records[i].action);
        match effect {
            ReactionEffect::RetryAfter { .. } | ReactionEffect::AbandonRun => {
                closed = true;
            },
            _ => {},
        }
        effects.push(effect);
        i = i + 1;
    }
    let finish_as_failed = outcome_status.is_none() && !closed;
    ReactionFollowUp { tier_update, reset_tier, effects, finish_as_failed }
}

} // verus!
