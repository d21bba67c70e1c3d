use grove_core::playbook::{
    changed_maturity_count, classify_bullet_type, content_hash, created_after, hex16, inverted_rule, is_near_duplicate, lesson_action,
    lesson_text, scoring_change, target_maturity, DiaryEntry, LessonAction, MaturityPolicy,
    ScoreSignals,
};
use grove_core::types::{
    BeadId, BulletId, BulletMaturity, BulletState, BulletType, RunId, SessionStatus,
};

// The stock thresholds of the scoring pass.
const PROMOTE_THRESHOLD: f64 = 2.0;
const PROVEN_THRESHOLD: f64 = 5.0;
const HARMFUL_RATIO_THRESHOLD: f64 = 0.3;
const PRUNE_THRESHOLD: f64 = -3.0;

fn policy() -> MaturityPolicy {
    MaturityPolicy {
        min_events_for_promotion: 3,
        staleness_days: 90,
    }
}

/// The comparisons the scoring pass makes of a decayed score and harmful ratio.
fn signals(score: f64, ratio: f64) -> ScoreSignals {
    ScoreSignals {
        harmful_ratio_exceeded: ratio > HARMFUL_RATIO_THRESHOLD,
        below_prune_threshold: score < PRUNE_THRESHOLD,
        above_promote_threshold: score > PROMOTE_THRESHOLD,
        above_proven_threshold: score > PROVEN_THRESHOLD,
        negative: score < 0.0,
    }
}

#[test]
fn candidate_with_strong_evidence_should_promote_to_established() {
    // Five fresh helpful events of weight one, at half weight for a candidate.
    let new_maturity = target_maturity(
        BulletMaturity::Candidate,
        BulletState::Active,
        5,
        0,
        0,
        policy(),
        signals(5.0 * 0.5, 0.0),
    );
    assert_eq!(new_maturity, BulletMaturity::Established);
}

#[test]
fn high_harmful_ratio_triggers_deprecation() {
    // Five fresh harmful events of weight one, weighed four times, at half weight.
    let score = (0.0 - 4.0 * 5.0) * 0.5;
    let ratio = 5.0 / 5.0;
    let new_maturity = target_maturity(
        BulletMaturity::Candidate,
        BulletState::Active,
        1,
        5,
        0,
        policy(),
        signals(score, ratio),
    );
    assert_eq!(new_maturity, BulletMaturity::Deprecated);
}

#[test]
fn insufficient_events_prevents_promotion() {
    let new_maturity = target_maturity(
        BulletMaturity::Candidate,
        BulletState::Active,
        1,
        0,
        0,
        policy(),
        signals(5.0 * 0.5, 0.0),
    );
    assert_eq!(new_maturity, BulletMaturity::Candidate);
}

#[test]
fn stale_draft_without_evidence_is_deprecated() {
    let quiet = signals(0.0, 0.0);
    assert_eq!(
        target_maturity(BulletMaturity::Candidate, BulletState::Draft, 1, 0, 91, policy(), quiet),
        BulletMaturity::Deprecated
    );
    assert_eq!(
        target_maturity(BulletMaturity::Candidate, BulletState::Draft, 1, 0, 90, policy(), quiet),
        BulletMaturity::Candidate
    );
}

#[test]
fn negative_score_demotes_one_level() {
    let low = signals(-1.0, 0.0);
    assert_eq!(
        target_maturity(BulletMaturity::Proven, BulletState::Active, 4, 0, 0, policy(), low),
        BulletMaturity::Established
    );
    assert_eq!(
        target_maturity(BulletMaturity::Established, BulletState::Active, 4, 0, 0, policy(), low),
        BulletMaturity::Candidate
    );
}

#[test]
fn deprecating_a_rule_with_evidence_inverts_it() {
    let change = scoring_change(
        BulletType::Rule,
        BulletState::Active,
        BulletMaturity::Established,
        6,
        3,
        BulletMaturity::Deprecated,
    );
    assert!(change.changed);
    assert!(change.deprecate);
    assert!(change.invert_to_anti_pattern);
    assert_eq!(change.new_state, BulletState::Retired);
    assert_eq!(change.curation_action, Some("promote"));
}

#[test]
fn promoting_a_draft_activates_it() {
    let change = scoring_change(
        BulletType::AntiPattern,
        BulletState::Draft,
        BulletMaturity::Candidate,
        3,
        3,
        BulletMaturity::Established,
    );
    assert_eq!(change.new_state, BulletState::Active);
    assert!(change.changed);
    assert!(!change.deprecate);
    assert!(!change.invert_to_anti_pattern);
}

#[test]
fn unchanged_bullet_reports_no_change() {
    let change = scoring_change(
        BulletType::Rule,
        BulletState::Active,
        BulletMaturity::Candidate,
        1,
        3,
        BulletMaturity::Candidate,
    );
    assert!(!change.changed);
    assert_eq!(change.curation_action, None);
}

#[test]
fn inverted_rule_prefixes_avoid() {
    let (id, text, category) = inverted_rule(&BulletId::new("blt-1"), "use unwrap", "rust");
    assert_eq!(id.as_str(), "blt-1-inv");
    assert_eq!(text, "AVOID: use unwrap");
    assert_eq!(category, "rust_inverted");
}

#[test]
fn avoidance_markers_make_anti_patterns() {
    assert_eq!(classify_bullet_type("Never push to main"), BulletType::AntiPattern);
    assert_eq!(classify_bullet_type("Don't skip tests"), BulletType::AntiPattern);
    assert_eq!(classify_bullet_type("Always validate inputs"), BulletType::Rule);
}

#[test]
fn hex16_pads_to_sixteen_digits() {
    assert_eq!(hex16(255), "00000000000000ff");
    assert_eq!(hex16(u64::MAX), "ffffffffffffffff");
}

#[test]
fn content_hash_ignores_case_and_surrounding_space() {
    let a = content_hash("  Always Validate Inputs ");
    let b = content_hash("always validate inputs");
    assert_eq!(a, b);
    assert_eq!(a.len(), 16);
    assert_ne!(a, content_hash("never validate inputs"));
}

#[test]
fn near_duplicates_share_three_quarters_of_their_words() {
    assert!(is_near_duplicate("run the tests first", "run the tests first please"));
    assert!(!is_near_duplicate("run the tests first", "write docs later"));
}

#[test]
fn lesson_text_trims_and_rejects_blank() {
    assert_eq!(lesson_text("  keep it short \n"), Some("keep it short".to_owned()));
    assert_eq!(lesson_text(" \t "), None);
}

#[test]
fn lesson_action_prefers_hash_then_near_duplicate_then_creates() {
    let run_id = RunId::new("run-7");
    let existing = vec![(BulletId::new("blt-a"), "run the tests first please".to_owned())];
    assert_eq!(
        lesson_action("anything", Some(BulletId::new("blt-h")), &existing, &run_id, 0),
        LessonAction::Reinforce { bullet_id: BulletId::new("blt-h") }
    );
    assert_eq!(
        lesson_action("run the tests first", None, &existing, &run_id, 0),
        LessonAction::Reinforce { bullet_id: BulletId::new("blt-a") }
    );
    assert_eq!(
        lesson_action("avoid global state", None, &existing, &run_id, 2),
        LessonAction::Create {
            bullet_id: BulletId::new("blt-run-7-2"),
            text: "avoid global state".to_owned(),
            bullet_type: BulletType::AntiPattern,
        }
    );
}

#[test]
fn implicit_feedback_weighs_outcome_duration_errors_and_retries() {
    let completed = DiaryEntry {
        session_id: "ses-1".into(),
        bead_id: Some(BeadId::new("grove-1")),
        outcome: SessionStatus::Completed,
        duration_secs: 120,
        error_count: 0,
        had_retries: false,
    };
    assert_eq!(completed.implicit_feedback_tenths(), (15, 0));
    let crashed = DiaryEntry {
        session_id: "ses-2".into(),
        bead_id: None,
        outcome: SessionStatus::Crashed,
        duration_secs: 4000,
        error_count: 9,
        had_retries: true,
    };
    assert_eq!(crashed.implicit_feedback_tenths(), (0, 20));
}

#[test]
fn a_scoring_pass_counts_only_maturity_changes() {
    let activated_only = scoring_change(
        BulletType::Rule,
        BulletState::Draft,
        BulletMaturity::Established,
        4,
        3,
        BulletMaturity::Established,
    );
    assert!(activated_only.changed);
    assert!(!activated_only.maturity_changed);
    let promoted = scoring_change(
        BulletType::Rule,
        BulletState::Active,
        BulletMaturity::Established,
        9,
        3,
        BulletMaturity::Proven,
    );
    assert!(promoted.maturity_changed);
    let unchanged = scoring_change(BulletType::Rule, BulletState::Active, BulletMaturity::Candidate, 1, 3, BulletMaturity::Candidate);
    assert_eq!(changed_maturity_count(&vec![activated_only, promoted, unchanged]), 1);
}

#[test]
fn ingestion_counts_only_created_bullets() {
    let create = LessonAction::Create {
        bullet_id: BulletId::new("blt-run-1-0"),
        text: "keep migrations small".to_owned(),
        bullet_type: BulletType::Rule,
    };
    let reinforce = LessonAction::Reinforce { bullet_id: BulletId::new("blt-h") };
    assert_eq!(created_after(&create, 0), 1);
    assert_eq!(created_after(&reinforce, 1), 1);
}
