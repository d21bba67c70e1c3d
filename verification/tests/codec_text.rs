use grove_core::codec::{
    bead_priority_to_db, encode_escalation_tier, encode_event_kind, encode_failure_class,
    encode_grove_bead_status, encode_session_status, encode_stop_reason,
    normalize_enum_token, parse_bead_priority, parse_escalation_tier, parse_event_kind,
    parse_failure_class, parse_grove_bead_status, parse_run_status, parse_session_status,
    parse_stop_reason,
};
use grove_core::shutdown::ShutdownSignal;
use grove_core::text::{join, parse_i64, split_whitespace, text_less, trim};
use grove_core::types::{
    BeadPriority, EscalationTier, EventKind, FailureClass, GroveBeadStatus, RunStatus,
    SessionStatus, StopReason,
};
use std::sync::atomic::Ordering;

#[test]
fn enum_tokens_ignore_case_and_punctuation() {
    assert_eq!(normalize_enum_token("Waiting_To-Retry"), "waitingtoretry");
    assert_eq!(parse_grove_bead_status("waiting_to_retry"), Ok(GroveBeadStatus::WaitingToRetry));
    assert_eq!(parse_run_status("SUCCEEDED"), Ok(RunStatus::Succeeded));
    assert_eq!(
        parse_grove_bead_status("sleeping").unwrap_err().message,
        "unsupported grove bead status sleeping"
    );
}

#[test]
fn stored_names_read_back() {
    for status in [
        GroveBeadStatus::Idle,
        GroveBeadStatus::Ready,
        GroveBeadStatus::Running,
        GroveBeadStatus::Checkpointed,
        GroveBeadStatus::WaitingToRetry,
        GroveBeadStatus::Succeeded,
        GroveBeadStatus::Failed,
    ] {
        assert_eq!(parse_grove_bead_status(encode_grove_bead_status(status)), Ok(status));
    }
    for class in [FailureClass::Timeout, FailureClass::ClaudeCrashed, FailureClass::BrMirrorFailed, FailureClass::Unknown] {
        assert_eq!(parse_failure_class(encode_failure_class(class)), Ok(class));
    }
    for tier in [EscalationTier::FirstAttempt, EscalationTier::FinalAttempt, EscalationTier::GiveUp] {
        assert_eq!(parse_escalation_tier(encode_escalation_tier(tier)), Ok(tier));
    }
    for status in [SessionStatus::Starting, SessionStatus::RateLimited, SessionStatus::UnknownFailure] {
        assert_eq!(parse_session_status(encode_session_status(status)), Ok(status));
    }
    for reason in [StopReason::Exit, StopReason::Kill, StopReason::Unknown] {
        assert_eq!(parse_stop_reason(encode_stop_reason(reason)), Ok(reason));
    }
    for kind in [EventKind::RunStarted, EventKind::ReservationGranted, EventKind::BrMirrorFailed] {
        assert_eq!(parse_event_kind(encode_event_kind(kind)), Ok(kind));
    }
}

#[test]
fn priorities_are_stored_as_numbers() {
    assert_eq!(bead_priority_to_db(BeadPriority::P3), 3);
    assert_eq!(parse_bead_priority(0), Ok(BeadPriority::P0));
    assert_eq!(
        parse_bead_priority(7).unwrap_err().message,
        "unsupported bead priority value 7"
    );
    assert_eq!(
        parse_bead_priority(-1).unwrap_err().message,
        "unsupported bead priority value -1"
    );
}

#[test]
fn escalation_moves_up_to_give_up_and_stays() {
    let mut tier = EscalationTier::FirstAttempt;
    let mut ranks = vec![tier.tier_number()];
    for _ in 0..5 {
        tier = tier.escalate();
        ranks.push(tier.tier_number());
    }
    assert_eq!(ranks, vec![0, 1, 2, 3, 4, 4]);
    assert!(tier.is_terminal());
    assert!(!EscalationTier::FinalAttempt.is_terminal());
}

#[test]
fn text_helpers() {
    assert_eq!(trim("  a b \n"), "a b");
    assert_eq!(split_whitespace(" one  two\tthree "), vec!["one", "two", "three"]);
    assert_eq!(join(&vec!["a".to_owned(), "b".to_owned()], ", "), "a, b");
    assert_eq!(join(&Vec::new(), ", "), "");
    assert_eq!(parse_i64("+15"), Some(15));
    assert_eq!(parse_i64("-9223372036854775808"), Some(i64::MIN));
    assert_eq!(parse_i64("9223372036854775808"), None);
    assert_eq!(parse_i64(""), None);
    assert!(text_less("abc", "abd"));
    assert!(text_less("ab", "abc"));
    assert!(!text_less("b", "abc"));
}

#[test]
fn shutdown_signal_is_shared() {
    let signal = ShutdownSignal::new();
    assert!(!signal.is_triggered());
    let flag = signal.shared_flag();
    let copy = signal.clone();
    copy.trigger();
    assert!(signal.is_triggered());
    assert!(flag.load(Ordering::SeqCst));
}

#[test]
fn trimming_follows_unicode_white_space() {
    assert_eq!(trim("\u{3000}\u{a0}word\u{85}\u{2029}"), "word");
    assert_eq!(split_whitespace("a\u{2003}b"), vec!["a", "b"]);
    assert_eq!(trim("\u{200b}x"), "\u{200b}x");
}
