//! Execution policy: which operator-visible actions the coordinator may take on its
//! own, which it may take with escalation, and which need explicit confirmation.
use vstd::prelude::*;
use crate::text::{
    append_decimal, ascii_lower_text, chars_of, contains, contains_text, decimal_text, join,
    join_text, owned, to_ascii_lower,
};
use crate::types::{BeadId, FailureClass, GroveBeadStatus};

verus! {

/// How an action may proceed.
#[derive(Debug, Clone, Copy, PartialEq, Eq, Structural)]
pub enum PolicyVerdict {
    Allow,
    AllowWithEscalation,
    RequireConfirmation,
    Deny,
}

impl PolicyVerdict {
    /// Whether the action may run without further operator input.
    pub open spec fn permits(self) -> bool {
        self is Allow || self is AllowWithEscalation
    }

    pub fn permits_execution(self) -> (r: bool)
        ensures
            r == self.permits(),
    {
        match self {
            PolicyVerdict::Allow | PolicyVerdict::AllowWithEscalation => true,
            _ => false,
        }
    }
}

/// A verdict together with the operator-facing explanation.
#[derive(Debug, Clone, PartialEq, Eq)]
pub struct PolicyDecision {
    pub verdict: PolicyVerdict,
    pub reason: String,
}

impl PolicyDecision {
    pub fn allow(reason: String) -> (r: PolicyDecision)
        ensures
            r.verdict == PolicyVerdict::Allow,
            r.reason@ == reason@,
    {
        PolicyDecision { verdict: PolicyVerdict::Allow, reason }
    }

    pub fn allow_with_escalation(reason: String) -> (r: PolicyDecision)
        ensures
            r.verdict == PolicyVerdict::AllowWithEscalation,
            r.reason@ == reason@,
    {
        PolicyDecision { verdict: PolicyVerdict::AllowWithEscalation, reason }
    }

    pub fn require_confirmation(reason: String) -> (r: PolicyDecision)
        ensures
            r.verdict == PolicyVerdict::RequireConfirmation,
            r.reason@ == reason@,
    {
        PolicyDecision { verdict: PolicyVerdict::RequireConfirmation, reason }
    }

    pub fn deny(reason: String) -> (r: PolicyDecision)
        ensures
            r.verdict == PolicyVerdict::Deny,
            r.reason@ == reason@,
    {
        PolicyDecision { verdict: PolicyVerdict::Deny, reason }
    }
}

/// What a provider process is launched for.
#[derive(Debug, Clone, Copy, PartialEq, Eq, Structural)]
pub enum ProviderAction {
    TaskSession,
    CleanupCompaction,
}

impl ProviderAction {
    pub open spec fn summary_text(self) -> Seq<char> {
        match self {
            ProviderAction::TaskSession => "task session dispatch"@,
            ProviderAction::CleanupCompaction => "cleanup synthesis compaction"@,
        }
    }

    pub fn summary(self) -> (r: &'static str)
        ensures
            r@ == self.summary_text(),
    {
        match self {
            ProviderAction::TaskSession => "task session dispatch",
            ProviderAction::CleanupCompaction => "cleanup synthesis compaction",
        }
    }
}

/// Agent runtime a session is launched with.
#[derive(Debug, Clone, Copy, PartialEq, Eq, Structural)]
pub enum RuntimeProvider {
    Claude,
}

impl RuntimeProvider {
    pub open spec fn text(self) -> Seq<char> {
        match self {
            RuntimeProvider::Claude => "claude_code"@,
        }
    }

    pub fn as_str(self) -> (r: &'static str)
        ensures
            r@ == self.text(),
    {
        match self {
            RuntimeProvider::Claude => "claude_code",
        }
    }
}

/// An action that the coordinator or an operator command is about to take.
#[derive(Debug, Clone, PartialEq, Eq)]
pub enum ExecutionPolicyAction {
    RetryReset {
        bead_id: BeadId,
        status: GroveBeadStatus,
        failure_class: Option<FailureClass>,
        ready_in_br: bool,
    },
    WorkspaceClean { dry_run: bool, confirmed: bool },
    ProviderLaunch {
        provider: RuntimeProvider,
        provider_bin: String,
        init_args: Vec<String>,
        action: ProviderAction,
    },
    GitMutation { command_summary: String, destructive: bool, confirmed: bool },
    ReservationEscalation {
        requested_patterns: Vec<String>,
        conflicting_patterns: Vec<String>,
        exclusive: bool,
    },
}

// ---------------------------------------------------------------------------
// Specifications of the decisions
// ---------------------------------------------------------------------------

pub open spec fn retry_reset_allowed(status: GroveBeadStatus) -> bool {
    status is Failed || status is Checkpointed
}

pub open spec fn retry_reset_reason(
    bead_id: Seq<char>,
    status: GroveBeadStatus,
    failure_class: Option<FailureClass>,
    ready_in_br: bool,
) -> Seq<char> {
    if retry_reset_allowed(status) {
        let base = "retry reset allowed for bead "@ + bead_id + " because grove status "@
            + status.name_text() + " is retryable"@;
        let with_failure = match failure_class {
            Some(fc) => base + " (last failure: "@ + fc.name_text() + ")"@,
            None => base,
        };
        if ready_in_br {
            with_failure
        } else {
            with_failure
                + "; br does not currently report the bead as ready, so Grove will only reset local retry state"@
        }
    } else {
        "retry reset denied for bead "@ + bead_id + " because grove status "@ + status.name_text()
            + " is not retryable; only Failed or Checkpointed beads can be retried"@
    }
}

pub open spec fn workspace_clean_verdict(dry_run: bool, confirmed: bool) -> PolicyVerdict {
    if dry_run || confirmed {
        PolicyVerdict::Allow
    } else {
        PolicyVerdict::RequireConfirmation
    }
}

pub open spec fn workspace_clean_reason(dry_run: bool, confirmed: bool) -> Seq<char> {
    if dry_run {
        "workspace cleanup allowed because --dry-run only inspects cleanup candidates"@
    } else if confirmed {
        "workspace cleanup allowed because the operator confirmed the mutating cleanup with --yes"@
    } else {
        "`grove clean` is mutating and may delete artifacts or compact logs; re-run with `--yes` or inspect with `--dry-run`"@
    }
}

/// The markers that make a provider argument risky.
pub open spec fn is_risky_arg(arg: Seq<char>) -> bool {
    let lower = ascii_lower_text(arg);
    ||| contains_text(lower, "danger"@)
    ||| contains_text(lower, "skip-permission"@)
    ||| contains_text(lower, "skip_permission"@)
    ||| contains_text(lower, "skippermissions"@)
    ||| contains_text(lower, "yolo"@)
}

/// The risky arguments, in the order given.
pub open spec fn risky_args(args: Seq<Seq<char>>) -> Seq<Seq<char>>
    decreases args.len(),
{
    if args.len() == 0 {
        Seq::empty()
    } else {
        let prefix = risky_args(args.drop_last());
        if is_risky_arg(args.last()) {
            prefix.push(args.last())
        } else {
            prefix
        }
    }
}

pub open spec fn provider_launch_reason(
    provider: RuntimeProvider,
    provider_bin: Seq<char>,
    init_args: Seq<Seq<char>>,
    action: ProviderAction,
) -> Seq<char> {
    let risky = risky_args(init_args);
    if risky.len() == 0 {
        "provider launch allowed for "@ + provider.text() + " via "@ + provider_bin + " using "@
            + action.summary_text()
    } else {
        "provider launch for "@ + provider.text() + " via "@ + provider_bin
            + " is escalated because "@ + action.summary_text() + " uses risky init args: "@
            + join_text(risky, ", "@)
    }
}

pub open spec fn git_mutation_reason(command: Seq<char>, destructive: bool, confirmed: bool) -> Seq<
    char,
> {
    if !destructive {
        "git mutation allowed because `"@ + command + "` is classified as non-destructive"@
    } else if confirmed {
        "git mutation allowed because `"@ + command + "` was explicitly confirmed"@
    } else {
        "git mutation `"@ + command
            + "` is destructive and requires explicit operator confirmation"@
    }
}

pub open spec fn reservation_escalation_reason(
    requested: Seq<Seq<char>>,
    conflicting: Seq<Seq<char>>,
    exclusive: bool,
) -> Seq<char> {
    if !exclusive || conflicting.len() == 0 {
        "file reservation request allowed for "@ + decimal_text(requested.len())
            + " pattern(s)"@
    } else {
        "exclusive reservation escalation requires operator review because "@ + decimal_text(
            conflicting.len(),
        ) + " conflicting pattern(s) were detected: "@ + join_text(conflicting, ", "@)
    }
}

/// The decision that the execution policy reaches on an action.
pub open spec fn policy_outcome(action: ExecutionPolicyAction) -> (PolicyVerdict, Seq<char>) {
    match action {
        ExecutionPolicyAction::RetryReset { bead_id, status, failure_class, ready_in_br } => (
            if retry_reset_allowed(status) {
                PolicyVerdict::Allow
            } else {
                PolicyVerdict::Deny
            },
            retry_reset_reason(bead_id@, status, failure_class, ready_in_br),
        ),
        ExecutionPolicyAction::WorkspaceClean { dry_run, confirmed } => (
            workspace_clean_verdict(dry_run, confirmed),
            workspace_clean_reason(dry_run, confirmed),
        ),
        ExecutionPolicyAction::ProviderLaunch { provider, provider_bin, init_args, action } => (
            if risky_args(init_args.deep_view()).len() == 0 {
                PolicyVerdict::Allow
            } else {
                PolicyVerdict::AllowWithEscalation
            },
            provider_launch_reason(provider, provider_bin@, init_args.deep_view(), action),
        ),
        ExecutionPolicyAction::GitMutation { command_summary, destructive, confirmed } => (
            if !destructive || confirmed {
                PolicyVerdict::Allow
            } else {
                PolicyVerdict::RequireConfirmation
            },
            git_mutation_reason(command_summary@, destructive, confirmed),
        ),
        ExecutionPolicyAction::ReservationEscalation {
            requested_patterns,
            conflicting_patterns,
            exclusive,
        } => (
            if !exclusive || conflicting_patterns.len() == 0 {
                PolicyVerdict::Allow
            } else {
                PolicyVerdict::RequireConfirmation
            },
            reservation_escalation_reason(
                requested_patterns.deep_view(),
                conflicting_patterns.deep_view(),
                exclusive,
            ),
        ),
    }
}

// ---------------------------------------------------------------------------
// The decisions
// ---------------------------------------------------------------------------

/// Decides whether an action may run, and explains why.
pub fn evaluate_execution_policy(action: &ExecutionPolicyAction) -> (r: PolicyDecision)
    ensures
        (r.verdict, r.reason@) == policy_outcome(*action),
{
    match action {
        ExecutionPolicyAction::RetryReset { bead_id, status, failure_class, ready_in_br } => {
            evaluate_retry_reset(bead_id, *status, *failure_class, *ready_in_br)
        },
        ExecutionPolicyAction::WorkspaceClean { dry_run, confirmed } => {
            evaluate_workspace_clean(*dry_run, *confirmed)
        },
        ExecutionPolicyAction::ProviderLaunch { provider, provider_bin, init_args, action } => {
            evaluate_provider_launch(*provider, provider_bin.as_str(), init_args, *action)
        },
        ExecutionPolicyAction::GitMutation { command_summary, destructive, confirmed } => {
            evaluate_git_mutation(command_summary.as_str(), *destructive, *confirmed)
        },
        ExecutionPolicyAction::ReservationEscalation {
            requested_patterns,
            conflicting_patterns,
            exclusive,
        } => { evaluate_reservation_escalation(requested_patterns, conflicting_patterns, *exclusive)
        },
    }
}

fn evaluate_retry_reset(
    bead_id: &BeadId,
    status: GroveBeadStatus,
    failure_class: Option<FailureClass>,
    ready_in_br: bool,
) -> (r: PolicyDecision)
    ensures
        r.verdict == (if retry_reset_allowed(status) {
            PolicyVerdict::Allow
        } else {
            PolicyVerdict::Deny
        }),
        r.reason@ == retry_reset_reason(bead_id@, status, failure_class, ready_in_br),
{
    match status {
        GroveBeadStatus::Failed | GroveBeadStatus::Checkpointed => {
            let mut reason = owned("retry reset allowed for bead ");
            reason.append(bead_id.as_str());
            reason.append(" because grove status ");
            reason.append(status.name());
            reason.append(" is retryable");
            if let Some(fc) = failure_class {
                reason.append(" (last failure: ");
                reason.append(fc.name());
                reason.append(")");
            }
            if !ready_in_br {
                reason.append(
                    "; br does not currently report the bead as ready, so Grove will only reset local retry state",
                );
            }
            PolicyDecision::allow(reason)
        },
        _ => {
            let mut reason = owned("retry reset denied for bead ");
            reason.append(bead_id.as_str());
            reason.append(" because grove status ");
            reason.append(status.name());
            reason.append(
                " is not retryable; only Failed or Checkpointed beads can be retried",
            );
            PolicyDecision::deny(reason)
        },
    }
}

fn evaluate_workspace_clean(dry_run: bool, confirmed: bool) -> (r: PolicyDecision)
    ensures
        r.verdict == workspace_clean_verdict(dry_run, confirmed),
        r.reason@ == workspace_clean_reason(dry_run, confirmed),
{
    if dry_run {
        return PolicyDecision::allow(
            owned("workspace cleanup allowed because --dry-run only inspects cleanup candidates"),
        );
    }
    if confirmed {
        return PolicyDecision::allow(
            owned(
                "workspace cleanup allowed because the operator confirmed the mutating cleanup with --yes",
            ),
        );
    }
    PolicyDecision::require_confirmation(
        owned(
            "`grove clean` is mutating and may delete artifacts or compact logs; re-run with `--yes` or inspect with `--dry-run`",
        ),
    )
}

fn evaluate_provider_launch(
    provider: RuntimeProvider,
    provider_bin: &str,
    init_args: &Vec<String>,
    action: ProviderAction,
) -> (r: PolicyDecision)
    ensures
        r.verdict == (if risky_args(init_args.deep_view()).len() == 0 {
            PolicyVerdict::Allow
        } else {
            PolicyVerdict::AllowWithEscalation
        }),
        r.reason@ == provider_launch_reason(provider, provider_bin@, init_args.deep_view(), action),
{
    let risky_flags = risky_provider_flags(init_args);
    if risky_flags.len() == 0 {
        let mut reason = owned("provider launch allowed for ");
        reason.append(provider.as_str());
        reason.append(" via ");
        reason.append(provider_bin);
        reason.append(" using ");
        reason.append(action.summary());
        return PolicyDecision::allow(reason);
    }
    let mut reason = owned("provider launch for ");
    reason.append(provider.as_str());
    reason.append(" via ");
    reason.append(provider_bin);
    reason.append(" is escalated because ");
    reason.append(action.summary());
    reason.append(" uses risky init args: ");
    let joined = join(&risky_flags, ", ");
    reason.append(joined.as_str());
    PolicyDecision::allow_with_escalation(reason)
}

fn evaluate_git_mutation(command_summary: &str, destructive: bool, confirmed: bool) -> (r:
    PolicyDecision)
    ensures
        r.verdict == (if !destructive || confirmed {
            PolicyVerdict::Allow
        } else {
            PolicyVerdict::RequireConfirmation
        }),
        r.reason@ == git_mutation_reason(command_summary@, destructive, confirmed),
{
    if !destructive {
        let mut reason = owned("git mutation allowed because `");
        reason.append(command_summary);
        reason.append("` is classified as non-destructive");
        return PolicyDecision::allow(reason);
    }
    if confirmed {
        let mut reason = owned("git mutation allowed because `");
        reason.append(command_summary);
        reason.append("` was explicitly confirmed");
        return PolicyDecision::allow(reason);
    }
    let mut reason = owned("git mutation `");
    reason.append(command_summary);
    reason.append("` is destructive and requires explicit operator confirmation");
    PolicyDecision::require_confirmation(reason)
}

fn evaluate_reservation_escalation(
    requested_patterns: &Vec<String>,
    conflicting_patterns: &Vec<String>,
    exclusive: bool,
) -> (r: PolicyDecision)
    ensures
        r.verdict == (if !exclusive || conflicting_patterns.len() == 0 {
            PolicyVerdict::Allow
        } else {
            PolicyVerdict::RequireConfirmation
        }),
        r.reason@ == reservation_escalation_reason(
            requested_patterns.deep_view(),
            conflicting_patterns.deep_view(),
            exclusive,
        ),
{
    if !exclusive || conflicting_patterns.len() == 0 {
        let mut reason = owned("file reservation request allowed for ");
        append_decimal(&mut reason, requested_patterns.len() as u64);
        reason.append(" pattern(s)");
        return PolicyDecision::allow(reason);
    }
    let mut reason = owned(
        "exclusive reservation escalation requires operator review because ",
    );
    append_decimal(&mut reason, conflicting_patterns.len() as u64);
    reason.append(" conflicting pattern(s) were detected: ");
    let joined = join(conflicting_patterns, ", ");
    reason.append(joined.as_str());
    PolicyDecision::require_confirmation(reason)
}

fn is_risky_provider_arg(arg: &str) -> (r: bool)
    ensures
        r == is_risky_arg(arg@),
{
    let lowered = to_ascii_lower(arg);
    let lower = chars_of(lowered.as_str());
    let m1 = chars_of("danger");
    let m2 = chars_of("skip-permission");
    let m3 = chars_of("skip_permission");
    let m4 = chars_of("skippermissions");
    let m5 = chars_of("yolo");
    contains(lower.as_slice(), m1.as_slice()) || contains(lower.as_slice(), m2.as_slice())
        || contains(lower.as_slice(), m3.as_slice()) || contains(
        lower.as_slice(),
        m4.as_slice(),
    ) || contains(lower.as_slice(), m5.as_slice())
}

/// The provider arguments that bypass permission checks, in the order given.
pub fn risky_provider_flags(init_args: &Vec<String>) -> (r: Vec<String>)
    ensures
        r.deep_view() == risky_args(init_args.deep_view()),
{
    let mut out: Vec<String> = Vec::new();
    let mut i: usize = 0;
    while i < init_args.len()
        invariant
            i <= init_args.len(),
            out.deep_view() == risky_args(init_args.deep_view().subrange(0, i as int)),
        decreases init_args.len() - i,
    {
        let ghost pre = init_args.deep_view().subrange(0, i as int);
        let ghost next = init_args.deep_view().subrange(0, i + 1);
        assert(next.drop_last() =~= pre);
        assert(next.last() == init_args[i as int]@);
        if is_risky_provider_arg(init_args[i].as_str()) {
            let ghost before = out.deep_view();
            out.push(init_args[i].clone());
            assert(out.deep_view() =~= before.push(init_args[i as int]@));
        }
        i = i + 1;
    }
    assert(init_args.deep_view().subrange(0, init_args.len() as int) =~= init_args.deep_view());
    out
}

// ---------------------------------------------------------------------------
// Laws of the policy
// ---------------------------------------------------------------------------

/// A git mutation is allowed when it is not destructive or was confirmed, and needs
/// confirmation otherwise; it is never denied or escalated, and its reason names the
/// command.
pub proof fn lemma_git_mutation_policy(command_summary: String, destructive: bool, confirmed: bool)
    ensures
        ({
            let outcome = policy_outcome(
                ExecutionPolicyAction::GitMutation { command_summary, destructive, confirmed },
            );
            &&& outcome.0 == (if !destructive || confirmed {
                PolicyVerdict::Allow
            } else {
                PolicyVerdict::RequireConfirmation
            })
            &&& !(outcome.0 is Deny) && !(outcome.0 is AllowWithEscalation)
            &&& contains_text(outcome.1, command_summary@)
        }),
{
    let command = command_summary@;
    let reason = git_mutation_reason(command, destructive, confirmed);
    let head: Seq<char> = if !destructive || confirmed {
        "git mutation allowed because `"@
    } else {
        "git mutation `"@
    };
    assert(reason.subrange(head.len() as int, (head.len() + command.len()) as int) =~= command);
}

/// An exclusive reservation that conflicts with held patterns needs confirmation and its
/// reason lists the conflicting patterns; every other reservation request is allowed and
/// its reason counts the requested patterns.
pub proof fn lemma_reservation_escalation_policy(
    requested_patterns: Vec<String>,
    conflicting_patterns: Vec<String>,
    exclusive: bool,
)
    ensures
        ({
            let outcome = policy_outcome(
                ExecutionPolicyAction::ReservationEscalation {
                    requested_patterns,
                    conflicting_patterns,
                    exclusive,
                },
            );
            &&& outcome.0 == (if exclusive && conflicting_patterns.len() > 0 {
                PolicyVerdict::RequireConfirmation
            } else {
                PolicyVerdict::Allow
            })
            &&& outcome.0 is RequireConfirmation ==> contains_text(
                outcome.1,
                join_text(conflicting_patterns.deep_view(), ", "@),
            )
            &&& outcome.0 is Allow ==> contains_text(
                outcome.1,
                decimal_text(requested_patterns.len() as nat) + " pattern(s)"@,
            )
        }),
{
    let requested = requested_patterns.deep_view();
    let conflicting = conflicting_patterns.deep_view();
    assert(requested.len() == requested_patterns.len());
    assert(conflicting.len() == conflicting_patterns.len());
    let reason = reservation_escalation_reason(requested, conflicting, exclusive);
    if !exclusive || conflicting.len() == 0 {
        let head = "file reservation request allowed for "@;
        let needle = decimal_text(requested.len()) + " pattern(s)"@;
        assert(reason.subrange(head.len() as int, (head.len() + needle.len()) as int) =~= needle);
    } else {
        let head = "exclusive reservation escalation requires operator review because "@ + decimal_text(
            conflicting.len(),
        ) + " conflicting pattern(s) were detected: "@;
        let needle = join_text(conflicting, ", "@);
        assert(reason.subrange(head.len() as int, (head.len() + needle.len()) as int) =~= needle);
    }
}

/// A retry reset is allowed exactly for a bead whose grove status is Failed or
/// Checkpointed, and denied for every other status; the reason says which, for the
/// named bead.
pub proof fn lemma_retry_reset_policy(
    bead_id: BeadId,
    status: GroveBeadStatus,
    failure_class: Option<FailureClass>,
    ready_in_br: bool,
)
    ensures
        ({
            let outcome = policy_outcome(
                ExecutionPolicyAction::RetryReset { bead_id, status, failure_class, ready_in_br },
            );
            let allowed_head = "retry reset allowed for bead "@ + bead_id@;
            let denied_head = "retry reset denied for bead "@ + bead_id@;
            &&& (status == GroveBeadStatus::Failed || status == GroveBeadStatus::Checkpointed) ==> {
                &&& outcome.0 == PolicyVerdict::Allow
                &&& outcome.1.len() >= allowed_head.len()
                &&& outcome.1.subrange(0, allowed_head.len() as int) == allowed_head
            }
            &&& !(status == GroveBeadStatus::Failed || status == GroveBeadStatus::Checkpointed) ==> {
                &&& outcome.0 == PolicyVerdict::Deny
                &&& outcome.1.len() >= denied_head.len()
                &&& outcome.1.subrange(0, denied_head.len() as int) == denied_head
            }
            &&& (status == GroveBeadStatus::Failed || status == GroveBeadStatus::Checkpointed) && ready_in_br
                && failure_class is Some ==> {
                let tail = " (last failure: "@ + failure_class->0.name_text() + ")"@;
                &&& outcome.1.len() >= tail.len()
                &&& outcome.1.subrange(outcome.1.len() - tail.len(), outcome.1.len() as int) == tail
            }
            &&& (status == GroveBeadStatus::Failed || status == GroveBeadStatus::Checkpointed) && !ready_in_br ==> {
                let tail = "; br does not currently report the bead as ready, so Grove will only reset local retry state"@;
                &&& outcome.1.len() >= tail.len()
                &&& outcome.1.subrange(outcome.1.len() - tail.len(), outcome.1.len() as int) == tail
            }
        }),
{
    let reason = retry_reset_reason(bead_id@, status, failure_class, ready_in_br);
    if status == GroveBeadStatus::Failed || status == GroveBeadStatus::Checkpointed {
        let head = "retry reset allowed for bead "@ + bead_id@;
        assert(reason.subrange(0, head.len() as int) =~= head);
        if ready_in_br && failure_class is Some {
            let tail = " (last failure: "@ + failure_class->0.name_text() + ")"@;
            assert(reason.subrange(reason.len() - tail.len(), reason.len() as int) =~= tail);
        }
        if !ready_in_br {
            let tail = "; br does not currently report the bead as ready, so Grove will only reset local retry state"@;
            assert(reason.subrange(reason.len() - tail.len(), reason.len() as int) =~= tail);
        }
    } else {
        let head = "retry reset denied for bead "@ + bead_id@;
        assert(reason.subrange(0, head.len() as int) =~= head);
    }
}

/// Workspace cleanup is allowed for a dry run or once the operator confirmed it, and
/// otherwise needs confirmation; it is never denied or escalated.
pub proof fn lemma_workspace_clean_policy(dry_run: bool, confirmed: bool)
    ensures
        ({
            let outcome = policy_outcome(ExecutionPolicyAction::WorkspaceClean { dry_run, confirmed });
            &&& (dry_run || confirmed) ==> outcome.0 == PolicyVerdict::Allow
            &&& !(dry_run || confirmed) ==> outcome.0 == PolicyVerdict::RequireConfirmation
        }),
{
}

/// Whether a provider argument asks to bypass the agent's safety checks: it mentions,
/// in any letter case, danger, skipping permissions or yolo.
pub open spec fn bypasses_safety(arg: Seq<char>) -> bool {
    let lower = ascii_lower_text(arg);
    ||| contains_text(lower, "danger"@)
    ||| contains_text(lower, "skip-permission"@)
    ||| contains_text(lower, "skip_permission"@)
    ||| contains_text(lower, "skippermissions"@)
    ||| contains_text(lower, "yolo"@)
}

proof fn lemma_risky_args_are_the_bypassing_ones(args: Seq<Seq<char>>)
    ensures
        risky_args(args).len() == 0 <==> forall|i: int| 0 <= i < args.len() ==> !bypasses_safety(#[trigger] args[i]),
        risky_args(args).len() <= args.len(),
        forall|j: int|
            0 <= j < risky_args(args).len() ==> bypasses_safety(#[trigger] risky_args(args)[j]),
    decreases args.len(),
{
    if args.len() > 0 {
        let shorter = args.drop_last();
        lemma_risky_args_are_the_bypassing_ones(shorter);
        assert(args.last() == args[args.len() - 1]);
        assert forall|i: int| 0 <= i < shorter.len() implies shorter[i] == args[i] by {}
        let prefix = risky_args(shorter);
        let all = risky_args(args);
        assert forall|j: int| 0 <= j < all.len() implies bypasses_safety(#[trigger] all[j]) by {
            if j < prefix.len() {
                assert(all[j] == prefix[j]);
            }
        }
        if forall|i: int| 0 <= i < args.len() ==> !bypasses_safety(#[trigger] args[i]) {
            assert(!bypasses_safety(args[args.len() - 1]));
            assert forall|i: int| 0 <= i < shorter.len() implies !bypasses_safety(#[trigger] shorter[i]) by {
                assert(shorter[i] == args[i]);
            }
        }
    }
}

/// A provider launch is allowed when no init argument bypasses the agent's safety
/// checks, and allowed with escalation when one does, every such argument being named
/// in the reason; it never needs confirmation and is never denied.
pub proof fn lemma_provider_launch_policy(
    provider: RuntimeProvider,
    provider_bin: String,
    init_args: Vec<String>,
    action: ProviderAction,
)
    ensures
        ({
            let outcome = policy_outcome(
                ExecutionPolicyAction::ProviderLaunch { provider, provider_bin, init_args, action },
            );
            let args = init_args.deep_view();
            &&& (forall|i: int| 0 <= i < args.len() ==> !bypasses_safety(#[trigger] args[i])) ==> outcome.0
                == PolicyVerdict::Allow
            &&& (exists|i: int| 0 <= i < args.len() && bypasses_safety(#[trigger] args[i])) ==> {
                &&& outcome.0 == PolicyVerdict::AllowWithEscalation
                &&& contains_text(outcome.1, join_text(risky_args(args), ", "@))
                &&& forall|j: int|
                    0 <= j < risky_args(args).len() ==> bypasses_safety(#[trigger] risky_args(args)[j])
            }
        }),
{
    let args = init_args.deep_view();
    lemma_risky_args_are_the_bypassing_ones(args);
    let risky = risky_args(args);
    if risky.len() > 0 {
        let reason = provider_launch_reason(provider, provider_bin@, args, action);
        let head = "provider launch for "@ + provider.text() + " via "@ + provider_bin@ + " is escalated because "@
            + action.summary_text() + " uses risky init args: "@;
        let needle = join_text(risky, ", "@);
        assert(reason.subrange(head.len() as int, (head.len() + needle.len()) as int) =~= needle);
    }
}

} // verus!
