use grove_core::policy::{
    evaluate_execution_policy, risky_provider_flags, ExecutionPolicyAction, PolicyVerdict,
    ProviderAction, RuntimeProvider,
};
use grove_core::types::{BeadId, GroveBeadStatus};

#[test]
fn dry_run_clean_is_allowed() {
    let decision = evaluate_execution_policy(&ExecutionPolicyAction::WorkspaceClean {
        dry_run: true,
        confirmed: false,
    });

    assert_eq!(decision.verdict, PolicyVerdict::Allow);
    assert!(decision.reason.contains("--dry-run"));
}

#[test]
fn mutating_clean_requires_confirmation() {
    let decision = evaluate_execution_policy(&ExecutionPolicyAction::WorkspaceClean {
        dry_run: false,
        confirmed: false,
    });

    assert_eq!(decision.verdict, PolicyVerdict::RequireConfirmation);
    assert!(decision.reason.contains("--yes"));
}

#[test]
fn confirmed_clean_is_allowed() {
    let decision = evaluate_execution_policy(&ExecutionPolicyAction::WorkspaceClean {
        dry_run: false,
        confirmed: true,
    });
    assert_eq!(decision.verdict, PolicyVerdict::Allow);
}

#[test]
fn retry_reset_allows_retryable_statuses() {
    let decision = evaluate_execution_policy(&ExecutionPolicyAction::RetryReset {
        bead_id: BeadId::new("grove-1af.2"),
        status: GroveBeadStatus::Checkpointed,
        failure_class: None,
        ready_in_br: false,
    });

    assert_eq!(decision.verdict, PolicyVerdict::Allow);
    assert!(decision.reason.contains("Checkpointed"));
    assert!(decision
        .reason
        .contains("does not currently report the bead as ready"));
}

#[test]
fn retry_reset_denies_non_retryable_statuses() {
    let decision = evaluate_execution_policy(&ExecutionPolicyAction::RetryReset {
        bead_id: BeadId::new("grove-1af.2"),
        status: GroveBeadStatus::Ready,
        failure_class: None,
        ready_in_br: true,
    });

    assert_eq!(decision.verdict, PolicyVerdict::Deny);
    assert!(decision.reason.contains("not retryable"));
}

#[test]
fn dangerous_provider_flags_raise_escalation() {
    let decision = evaluate_execution_policy(&ExecutionPolicyAction::ProviderLaunch {
        provider: RuntimeProvider::Claude,
        provider_bin: "/usr/local/bin/agent".to_owned(),
        init_args: vec![
            "--print".to_owned(),
            "--dangerously-skip-permissions".to_owned(),
        ],
        action: ProviderAction::TaskSession,
    });

    assert_eq!(decision.verdict, PolicyVerdict::AllowWithEscalation);
    assert!(decision.reason.contains("risky init args"));
    assert!(decision.reason.contains("--dangerously-skip-permissions"));
}

#[test]
fn plain_provider_launch_is_allowed() {
    let decision = evaluate_execution_policy(&ExecutionPolicyAction::ProviderLaunch {
        provider: RuntimeProvider::Claude,
        provider_bin: "/usr/local/bin/agent".to_owned(),
        init_args: vec!["--print".to_owned()],
        action: ProviderAction::TaskSession,
    });
    assert_eq!(decision.verdict, PolicyVerdict::Allow);
}

#[test]
fn risky_flags_are_found_without_regard_to_case_and_punctuation() {
    let args = vec![
        "--print".to_owned(),
        "--YOLO".to_owned(),
        "--skip_permission-checks".to_owned(),
        "--verbose".to_owned(),
    ];
    assert_eq!(
        risky_provider_flags(&args),
        vec!["--YOLO".to_owned(), "--skip_permission-checks".to_owned()]
    );
}

#[test]
fn destructive_git_mutation_needs_confirmation() {
    let unconfirmed = evaluate_execution_policy(&ExecutionPolicyAction::GitMutation {
        command_summary: "git reset --hard".to_owned(),
        destructive: true,
        confirmed: false,
    });
    assert_eq!(unconfirmed.verdict, PolicyVerdict::RequireConfirmation);
    let confirmed = evaluate_execution_policy(&ExecutionPolicyAction::GitMutation {
        command_summary: "git reset --hard".to_owned(),
        destructive: true,
        confirmed: true,
    });
    assert_ne!(confirmed.verdict, PolicyVerdict::RequireConfirmation);
}

#[test]
fn git_mutation_reasons_name_the_command() {
    for (destructive, confirmed, verdict) in [
        (false, false, PolicyVerdict::Allow),
        (true, true, PolicyVerdict::Allow),
        (true, false, PolicyVerdict::RequireConfirmation),
    ] {
        let decision = evaluate_execution_policy(&ExecutionPolicyAction::GitMutation {
            command_summary: "git push --force".to_owned(),
            destructive,
            confirmed,
        });
        assert_eq!(decision.verdict, verdict);
        assert!(decision.reason.contains("git push --force"));
    }
}

#[test]
fn reservation_escalation_reasons_count_or_list_patterns() {
    let requested = vec!["src/**".to_owned(), "docs/*.md".to_owned()];
    let allowed = evaluate_execution_policy(&ExecutionPolicyAction::ReservationEscalation {
        requested_patterns: requested.clone(),
        conflicting_patterns: vec!["src/lib.rs".to_owned()],
        exclusive: false,
    });
    assert_eq!(allowed.verdict, PolicyVerdict::Allow);
    assert!(allowed.reason.contains("2 pattern(s)"));
    let escalated = evaluate_execution_policy(&ExecutionPolicyAction::ReservationEscalation {
        requested_patterns: requested,
        conflicting_patterns: vec!["src/lib.rs".to_owned(), "src/main.rs".to_owned()],
        exclusive: true,
    });
    assert_eq!(escalated.verdict, PolicyVerdict::RequireConfirmation);
    assert!(escalated.reason.contains("src/lib.rs, src/main.rs"));
}
