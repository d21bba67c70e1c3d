//! Operator-facing views of a bead's history: its runs, its latest session and prompt,
//! its recovery capsule, its handoff, its mirror actions and why it is or is not
//! dispatched.
use vstd::prelude::*;
use crate::lifecycle::{first_result, first_result_summary, last_exit, last_exit_value};
use crate::records::{ClaudeSessionRecord, HandoffRecord, ProtocolEvent, TaskRunRecord};
use crate::text::{append_decimal, decimal_text, owned, parse_i64, parsed_i64, text_eq};
use crate::types::{
    BeadPriority, CheckpointId, EventKind, FailureClass, GroveBeadStatus, RecoveryCapsuleOutcome,
    RunId, SessionId, Timestamp,
};

verus! {

// ---------------------------------------------------------------------------
// Recovery capsules
// ---------------------------------------------------------------------------

/// What a failed or interrupted run leaves for the next attempt.
#[derive(Debug, Clone, PartialEq, Eq)]
pub struct RecoveryCapsule {
    pub outcome: RecoveryCapsuleOutcome,
    pub summary: String,
    pub strongest_evidence: Vec<String>,
    pub likely_root_causes: Vec<String>,
    pub risky_paths: Vec<String>,
    pub do_not_repeat: Vec<String>,
    pub next_attempt_contract: Option<String>,
    pub retry_delta_summary: Option<String>,
    pub checkpoint_progress: Option<String>,
    pub checkpoint_next_step: Option<String>,
    pub artifacts: Vec<String>,
}

/// A recovery capsule as the inspect view shows it.
#[derive(Debug, Clone, PartialEq, Eq)]
pub struct RecoveryCapsuleView {
    pub outcome: String,
    pub summary: String,
    pub strongest_evidence: Vec<String>,
    pub likely_root_causes: Vec<String>,
    pub risky_paths: Vec<String>,
    pub do_not_repeat: Vec<String>,
    pub next_attempt_contract: Option<String>,
    pub retry_delta_summary: Option<String>,
    pub checkpoint_progress: Option<String>,
    pub checkpoint_next_step: Option<String>,
    pub artifacts: Vec<String>,
}

pub open spec fn capsule_outcome_text(outcome: RecoveryCapsuleOutcome) -> Seq<char> {
    match outcome {
        RecoveryCapsuleOutcome::Failed => "failed"@,
        RecoveryCapsuleOutcome::Interrupted => "interrupted"@,
        RecoveryCapsuleOutcome::Checkpointed => "checkpointed"@,
    }
}

impl RecoveryCapsuleView {
    /// The view of a capsule: its outcome in lowercase words, every other field as is.
    pub fn from_capsule(capsule: RecoveryCapsule) -> (r: RecoveryCapsuleView)
        ensures
            r.outcome@ == capsule_outcome_text(capsule.outcome),
            r.summary == capsule.summary,
            r.strongest_evidence == capsule.strongest_evidence,
            r.likely_root_causes == capsule.likely_root_causes,
            r.risky_paths == capsule.risky_paths,
            r.do_not_repeat == capsule.do_not_repeat,
            r.next_attempt_contract == capsule.next_attempt_contract,
            r.retry_delta_summary == capsule.retry_delta_summary,
            r.checkpoint_progress == capsule.checkpoint_progress,
            r.checkpoint_next_step == capsule.checkpoint_next_step,
            r.artifacts == capsule.artifacts,
    {
        let outcome = match capsule.outcome {
            RecoveryCapsuleOutcome::Failed => "failed",
            RecoveryCapsuleOutcome::Interrupted => "interrupted",
            RecoveryCapsuleOutcome::Checkpointed => "checkpointed",
        };
        RecoveryCapsuleView {
            outcome: owned(outcome),
            summary: capsule.summary,
            strongest_evidence: capsule.strongest_evidence,
            likely_root_causes: capsule.likely_root_causes,
            risky_paths: capsule.risky_paths,
            do_not_repeat: capsule.do_not_repeat,
            next_attempt_contract: capsule.next_attempt_contract,
            retry_delta_summary: capsule.retry_delta_summary,
            checkpoint_progress: capsule.checkpoint_progress,
            checkpoint_next_step: capsule.checkpoint_next_step,
            artifacts: capsule.artifacts,
        }
    }
}

/// The outcome of the capsule the inspect view builds when none was persisted: a
/// checkpointed bead resumes, a failed or retrying bead whose latest run was
/// interrupted is interrupted, any other failed or retrying bead failed; other beads
/// get none.
pub open spec fn inspect_capsule_outcome(
    status: GroveBeadStatus,
    run_failure: Option<FailureClass>,
) -> Option<RecoveryCapsuleOutcome> {
    match status {
        GroveBeadStatus::Checkpointed => Some(RecoveryCapsuleOutcome::Checkpointed),
        GroveBeadStatus::Failed | GroveBeadStatus::WaitingToRetry => if run_failure == Some(
            FailureClass::Interrupted,
        ) {
            Some(RecoveryCapsuleOutcome::Interrupted)
        } else {
            Some(RecoveryCapsuleOutcome::Failed)
        },
        _ => None,
    }
}

pub fn inspect_recovery_outcome(
    status: GroveBeadStatus,
    run_failure: Option<FailureClass>,
) -> (r: Option<RecoveryCapsuleOutcome>)
    ensures
        r == inspect_capsule_outcome(status, run_failure),
{
    match status {
        GroveBeadStatus::Checkpointed => Some(RecoveryCapsuleOutcome::Checkpointed),
        GroveBeadStatus::Failed | GroveBeadStatus::WaitingToRetry => match run_failure {
            Some(FailureClass::Interrupted) => Some(RecoveryCapsuleOutcome::Interrupted),
            _ => Some(RecoveryCapsuleOutcome::Failed),
        },
        _ => None,
    }
}

/// The capsule the inspect view shows: the persisted one when there is one.
pub fn inspect_recovery_capsule(persisted: Option<RecoveryCapsule>) -> (r: Option<RecoveryCapsuleView>)
    ensures
        persisted is None <==> r is None,
        r matches Some(v) ==> v.outcome@ == capsule_outcome_text(persisted->0.outcome)
            && v.checkpoint_next_step == persisted->0.checkpoint_next_step
            && v.summary == persisted->0.summary,
{
    match persisted {
        Some(capsule) => Some(RecoveryCapsuleView::from_capsule(capsule)),
        None => None,
    }
}

/// Whether the latest checkpoint of a bead belongs in its view: the latest run names it
/// as its last checkpoint.
pub fn checkpoint_is_current(run_last_checkpoint: Option<&CheckpointId>, checkpoint_id: &CheckpointId) -> (r: bool)
    ensures
        r == (run_last_checkpoint matches Some(id) && id@ == checkpoint_id@),
{
    match run_last_checkpoint {
        Some(id) => id.same_as(checkpoint_id),
        None => false,
    }
}

/// Whether the latest run, the first of `runs`, names the latest checkpoint as its last.
pub open spec fn shows_checkpoint<T>(runs: Seq<TaskRunRecord>, latest: Option<(CheckpointId, T)>) -> bool {
    &&& runs.len() > 0
    &&& latest matches Some((checkpoint_id, _))
    &&& runs[0].last_checkpoint_id matches Some(id) && id@ == checkpoint_id@
}

/// The checkpoint an inspect view shows: the bead's latest checkpoint (`latest`, its id
/// with whatever the view carries of it), but only when the bead's latest run (the first
/// of `runs`, newest first) names that checkpoint as its last one; a checkpoint of an
/// older run is hidden.
pub fn current_checkpoint<T>(runs: &Vec<TaskRunRecord>, latest: Option<(CheckpointId, T)>) -> (r: Option<
    (CheckpointId, T),
>)
    ensures
        r is Some <==> shows_checkpoint(runs@, latest),
        r is Some ==> r == latest,
{
    if runs.len() == 0 {
        return None;
    }
    match latest {
        Some(checkpoint) => {
            if checkpoint_is_current(runs[0].last_checkpoint_id.as_ref(), &checkpoint.0) {
                Some(checkpoint)
            } else {
                None
            }
        },
        None => None,
    }
}

// ---------------------------------------------------------------------------
// Runs, sessions and handoffs
// ---------------------------------------------------------------------------

/// One run as the inspect view lists it.
#[derive(Debug, Clone, PartialEq, Eq)]
pub struct RunSummaryView {
    pub run_id: RunId,
    pub attempt_no: i32,
    pub status: String,
    pub failure_class: Option<String>,
    pub failure_detail: Option<String>,
    pub started_at: Timestamp,
    pub ended_at: Option<Timestamp>,
    pub session_count: i32,
    pub checkpoint_count: i32,
    pub last_checkpoint_id: Option<String>,
}

impl RunSummaryView {
    /// The summary of a run: its status and failure class by name, the rest as is.
    pub fn from_run(run: TaskRunRecord) -> (r: RunSummaryView)
        ensures
            r.run_id == run.id,
            r.attempt_no == run.attempt_no,
            r.status@ == run.status.name_text(),
            match r.failure_class {
                Some(c) => run.failure_class matches Some(f) && c@ == f.name_text(),
                None => run.failure_class is None,
            },
            r.failure_detail == run.failure_detail,
            r.started_at == run.started_at,
            r.ended_at == run.ended_at,
            r.session_count == run.session_count,
            r.checkpoint_count == run.checkpoint_count,
            match r.last_checkpoint_id {
                Some(c) => run.last_checkpoint_id matches Some(id) && c@ == id@,
                None => run.last_checkpoint_id is None,
            },
    {
        let status = owned(run.status.name());
        let failure_class = match run.failure_class {
            Some(f) => Some(owned(f.name())),
            None => None,
        };
        let last_checkpoint_id = match &run.last_checkpoint_id {
            Some(id) => Some(owned(id.as_str())),
            None => None,
        };
        RunSummaryView {
            run_id: run.id,
            attempt_no: run.attempt_no,
            status,
            failure_class,
            failure_detail: run.failure_detail,
            started_at: run.started_at,
            ended_at: run.ended_at,
            session_count: run.session_count,
            checkpoint_count: run.checkpoint_count,
            last_checkpoint_id,
        }
    }
}

/// A parent's handoff as the inspect view shows it.
#[derive(Debug, Clone, PartialEq, Eq)]
pub struct HandoffSummaryView {
    pub run_id: RunId,
    pub summary: String,
    pub artifacts: Vec<String>,
    pub lessons: Vec<String>,
    pub decisions: Vec<String>,
    pub warnings: Vec<String>,
    pub completed_at: Timestamp,
}

impl HandoffSummaryView {
    pub fn from_handoff(handoff: HandoffRecord) -> (r: HandoffSummaryView)
        ensures
            r.run_id == handoff.run_id,
            r.summary == handoff.summary,
            r.artifacts == handoff.artifacts,
            r.lessons == handoff.lessons,
            r.decisions == handoff.decisions,
            r.warnings == handoff.warnings,
            r.completed_at == handoff.completed_at,
    {
        HandoffSummaryView {
            run_id: handoff.run_id,
            summary: handoff.summary,
            artifacts: handoff.artifacts,
            lessons: handoff.lessons,
            decisions: handoff.decisions,
            warnings: handoff.warnings,
            completed_at: handoff.completed_at,
        }
    }
}

/// One section of a materialized prompt, as the inspect view shows it.
#[derive(Debug, Clone, PartialEq, Eq)]
pub struct PromptSectionView {
    pub ordinal: u32,
    pub kind: String,
    pub heading: String,
    pub included: bool,
    pub estimated_tokens: u32,
    pub trim_reason: Option<String>,
    pub source_ids: Vec<String>,
    pub bullet_ids: Vec<String>,
    pub checkpoint_id: Option<String>,
    pub handoff_run_id: Option<String>,
    pub preview_message_id: Option<i64>,
    pub preview: String,
}

/// Where a materialized prompt came from, as the inspect view shows it.
#[derive(Debug, Clone, PartialEq, Eq)]
pub struct PromptProvenanceView {
    pub contract: String,
    pub estimated_tokens: u32,
    pub prompt_bytes: u32,
    pub trimmed: bool,
    pub retry_delta_summary: Option<String>,
    pub sections: Vec<PromptSectionView>,
}

/// The archive message a section previews, when its provenance names one as a decimal
/// integer.
pub fn preview_message_id(archive_message_id: Option<&str>) -> (r: Option<i64>)
    ensures
        r == match archive_message_id {
            Some(text) => parsed_i64(text@),
            None => None,
        },
{
    match archive_message_id {
        Some(text) => parse_i64(text),
        None => None,
    }
}

/// The playbook bullets a prompt injected: those of its included playbook sections, in
/// section order.
pub open spec fn injected_bullets(sections: Seq<PromptSectionView>) -> Seq<Seq<char>>
    decreases sections.len(),
{
    if sections.len() == 0 {
        Seq::empty()
    } else {
        let last = sections.last();
        injected_bullets(sections.drop_last()) + if last.kind@ == "playbook"@ && last.included {
            last.bullet_ids.deep_view()
        } else {
            Seq::empty()
        }
    }
}

pub fn selected_bullet_ids(sections: &Vec<PromptSectionView>) -> (r: Vec<String>)
    ensures
        r.deep_view() == injected_bullets(sections@),
{
    let mut out: Vec<String> = Vec::new();
    let mut i: usize = 0;
    while i < sections.len()
        invariant
            i <= sections.len(),
            out.deep_view() == injected_bullets(sections@.subrange(0, i as int)),
        decreases sections.len() - i,
    {
        let section = &sections[i];
        let ghost before = out.deep_view();
        assert(sections@.subrange(0, i + 1).drop_last() =~= sections@.subrange(0, i as int));
        if text_eq(section.kind.as_str(), "playbook") && section.included {
            let mut j: usize = 0;
            while j < section.bullet_ids.len()
                invariant
                    j <= section.bullet_ids.len(),
                    out.deep_view() == before + section.bullet_ids.deep_view().subrange(0, j as int),
                decreases section.bullet_ids.len() - j,
            {
                let ghost prev = out.deep_view();
                let id = section.bullet_ids[j].clone();
                assert(id@ == section.bullet_ids.deep_view()[j as int]);
                out.push(id);
                assert(out.deep_view() =~= prev.push(id@));
                j = j + 1;
                assert(out.deep_view() =~= before + section.bullet_ids.deep_view().subrange(0, j as int));
            }
            assert(section.bullet_ids.deep_view().subrange(0, section.bullet_ids.len() as int) =~= section.bullet_ids.deep_view());
        } else {
            assert(out.deep_view() =~= before + Seq::<Seq<char>>::empty());
        }
        i = i + 1;
    }
    assert(sections@.subrange(0, sections.len() as int) =~= sections@);
    out
}

/// A snippet of the archive that a prompt quoted: its position among the prompt's
/// archive sections (counting from one), the message it previews and the preview.
#[derive(Debug, Clone, PartialEq, Eq)]
pub struct ArchiveSnippetRef {
    pub conversation_id: i64,
    pub message_id: i64,
    pub snippet: String,
}

/// The archive snippets of a prompt: for each archive section, counted from one among
/// the archive sections, the one whose preview names a message.
pub open spec fn archive_snippets_of(sections: Seq<PromptSectionView>) -> Seq<(int, i64, Seq<char>)>
    decreases sections.len(),
{
    if sections.len() == 0 {
        Seq::empty()
    } else {
        let last = sections.last();
        let earlier = sections.drop_last();
        let rank = archive_section_count(earlier) + 1;
        archive_snippets_of(earlier) + if last.kind@ == "archive_snippet"@ && last.preview_message_id is Some {
            seq![(rank, last.preview_message_id->0, last.preview@)]
        } else {
            Seq::empty()
        }
    }
}

/// How many archive sections there are.
pub open spec fn archive_section_count(sections: Seq<PromptSectionView>) -> int
    decreases sections.len(),
{
    if sections.len() == 0 {
        0
    } else {
        archive_section_count(sections.drop_last()) + if sections.last().kind@ == "archive_snippet"@ {
            1int
        } else {
            0int
        }
    }
}

proof fn lemma_archive_section_count_bounded(sections: Seq<PromptSectionView>)
    ensures
        0 <= archive_section_count(sections) <= sections.len(),
    decreases sections.len(),
{
    if sections.len() > 0 {
        lemma_archive_section_count_bounded(sections.drop_last());
    }
}

pub open spec fn snippet_ref_view(s: ArchiveSnippetRef) -> (int, i64, Seq<char>) {
    (s.conversation_id as int, s.message_id, s.snippet@)
}

pub fn archive_snippets(sections: &Vec<PromptSectionView>) -> (r: Vec<ArchiveSnippetRef>)
    requires
        sections.len() < i64::MAX,
    ensures
        r@.map_values(|s: ArchiveSnippetRef| snippet_ref_view(s)) == archive_snippets_of(sections@),
{
    let mut out: Vec<ArchiveSnippetRef> = Vec::new();
    let mut seen: i64 = 0;
    let mut i: usize = 0;
    while i < sections.len()
        invariant
            i <= sections.len(),
            sections.len() < i64::MAX,
            seen == archive_section_count(sections@.subrange(0, i as int)),
            out@.map_values(|s: ArchiveSnippetRef| snippet_ref_view(s)) == archive_snippets_of(sections@.subrange(0, i as int)),
        decreases sections.len() - i,
    {
        let section = &sections[i];
        let ghost pre = sections@.subrange(0, i as int);
        let ghost before = out@;
        assert(sections@.subrange(0, i + 1).drop_last() =~= pre);
        proof {
            lemma_archive_section_count_bounded(pre);
        }
        if text_eq(section.kind.as_str(), "archive_snippet") {
            seen = seen + 1;
            match section.preview_message_id {
                Some(message_id) => {
                    let item = ArchiveSnippetRef {
                        conversation_id: seen,
                        message_id,
                        snippet: section.preview.clone(),
                    };
                    out.push(item);
                    assert(out@.map_values(|s: ArchiveSnippetRef| snippet_ref_view(s)) =~= before.map_values(
                        |s: ArchiveSnippetRef| snippet_ref_view(s),
                    ).push(snippet_ref_view(item)));
                },
                None => {
                    assert(archive_snippets_of(sections@.subrange(0, i + 1)) =~= archive_snippets_of(pre));
                },
            }
        } else {
            assert(archive_snippets_of(sections@.subrange(0, i + 1)) =~= archive_snippets_of(pre));
        }
        i = i + 1;
    }
    assert(sections@.subrange(0, sections.len() as int) =~= sections@);
    out
}

/// What the inspect view reads of a session's outcome.
#[derive(Debug, Clone, PartialEq, Eq)]
pub struct SessionOutcomeSummary {
    pub terminal_class: String,
    pub completion_indicators: u32,
    pub protocol_events: Vec<ProtocolEvent>,
}

/// The latest session of a bead as the inspect view shows it.
#[derive(Debug, Clone, PartialEq, Eq)]
pub struct SessionSummaryView {
    pub session_id: SessionId,
    pub run_id: RunId,
    pub ordinal_in_run: i32,
    pub status: String,
    pub started_at: Timestamp,
    pub ended_at: Option<Timestamp>,
    pub stop_reason: Option<String>,
    pub terminal_class: Option<String>,
    pub exit_code: Option<i32>,
    pub transcript_path: String,
    pub prompt_id: Option<String>,
    pub prompt_manifest_path: Option<String>,
    pub prompt_bytes: i32,
    pub estimated_input_tokens: i32,
    pub estimated_output_tokens: i32,
    pub prompt_provenance: Option<PromptProvenanceView>,
    pub result_summary: Option<String>,
    pub completion_indicators: Option<u32>,
    pub explicit_exit: Option<bool>,
}

impl SessionSummaryView {
    /// The summary of a session, with the result and exit markers of its outcome: the
    /// first result marker and the last exit marker.
    pub fn from_parts(
        session: ClaudeSessionRecord,
        outcome: Option<&SessionOutcomeSummary>,
        prompt_provenance: Option<PromptProvenanceView>,
    ) -> (r: SessionSummaryView)
        ensures
            r.session_id == session.id,
            r.run_id == session.run_id,
            r.ordinal_in_run == session.ordinal_in_run,
            r.status@ == session.status.name_text(),
            r.started_at == session.started_at,
            r.ended_at == session.ended_at,
            match r.stop_reason {
                Some(t) => session.stop_reason matches Some(s) && t@ == s.name_text(),
                None => session.stop_reason is None,
            },
            match outcome {
                Some(o) => {
                    &&& r.terminal_class == Some(o.terminal_class)
                    &&& r.completion_indicators == Some(o.completion_indicators)
                    &&& r.result_summary == first_result(o.protocol_events@)
                    &&& r.explicit_exit == last_exit(o.protocol_events@)
                },
                None => {
                    &&& r.terminal_class is None
                    &&& r.completion_indicators is None
                    &&& r.result_summary is None
                    &&& r.explicit_exit is None
                },
            },
            r.exit_code == session.exit_code,
            r.transcript_path == session.transcript_path,
            match r.prompt_id {
                Some(t) => session.prompt_id matches Some(p) && t@ == p@,
                None => session.prompt_id is None,
            },
            r.prompt_manifest_path == session.prompt_manifest_path,
            r.prompt_bytes == session.prompt_bytes,
            r.estimated_input_tokens == session.estimated_input_tokens,
            r.estimated_output_tokens == session.estimated_output_tokens,
            r.prompt_provenance == prompt_provenance,
    {
        let status = owned(session.status.name());
        let stop_reason = match session.stop_reason {
            Some(s) => Some(owned(s.name())),
            None => None,
        };
        let prompt_id = match &session.prompt_id {
            Some(p) => Some(owned(p.as_str())),
            None => None,
        };
        let (terminal_class, completion_indicators, result_summary, explicit_exit) = match outcome {
            Some(o) => (
                Some(o.terminal_class.clone()),
                Some(o.completion_indicators),
                first_result_summary(&o.protocol_events),
                last_exit_value(&o.protocol_events),
            ),
            None => (None, None, None, None),
        };
        SessionSummaryView {
            session_id: session.id,
            run_id: session.run_id,
            ordinal_in_run: session.ordinal_in_run,
            status,
            started_at: session.started_at,
            ended_at: session.ended_at,
            stop_reason,
            terminal_class,
            exit_code: session.exit_code,
            transcript_path: session.transcript_path,
            prompt_id,
            prompt_manifest_path: session.prompt_manifest_path,
            prompt_bytes: session.prompt_bytes,
            estimated_input_tokens: session.estimated_input_tokens,
            estimated_output_tokens: session.estimated_output_tokens,
            prompt_provenance,
            result_summary,
            completion_indicators,
            explicit_exit,
        }
    }
}

// ---------------------------------------------------------------------------
// Mirror actions and dispatch explanations
// ---------------------------------------------------------------------------

/// A mirror event as the inspect view lists it.
#[derive(Debug, Clone, PartialEq, Eq)]
pub struct MirrorActionView {
    pub event_id: i64,
    pub action: String,
    pub succeeded: Option<bool>,
    pub detail: Option<String>,
    pub created_at: Timestamp,
}

/// The action a mirror event records and whether it succeeded; other events are no
/// mirror actions.
pub open spec fn mirror_action_of(kind: EventKind) -> Option<(Seq<char>, Option<bool>)> {
    match kind {
        EventKind::BrMirrorRequested => Some(("requested"@, None)),
        EventKind::BrMirrorSucceeded => Some(("succeeded"@, Some(true))),
        EventKind::BrMirrorFailed => Some(("failed"@, Some(false))),
        _ => None,
    }
}

impl MirrorActionView {
    /// The view of an event, `None` unless it is a mirror event. `detail` is the
    /// event's payload as text, when it has one.
    pub fn from_event(event_id: i64, kind: EventKind, detail: Option<String>, created_at: Timestamp) -> (r: Option<MirrorActionView>)
        ensures
            mirror_action_of(kind) is None <==> r is None,
            r matches Some(v) ==> {
                &&& mirror_action_of(kind) == Some((v.action@, v.succeeded))
                &&& v.event_id == event_id
                &&& v.detail == detail
                &&& v.created_at == created_at
            },
    {
        let (action, succeeded) = match kind {
            EventKind::BrMirrorRequested => ("requested", None),
            EventKind::BrMirrorSucceeded => ("succeeded", Some(true)),
            EventKind::BrMirrorFailed => ("failed", Some(false)),
            _ => {
                return None;
            },
        };
        Some(MirrorActionView { event_id, action: owned(action), succeeded, detail, created_at })
    }
}

pub open spec fn plural_suffix(n: nat) -> Seq<char> {
    if n == 1 {
        ""@
    } else {
        "s"@
    }
}

/// The reasons the inspect view gives for a bead's dispatch standing, in order: its
/// priority, the triage line when there is one, its readiness, its dependents and its
/// reservation conflicts.
pub open spec fn dispatch_why_lines(
    priority: BeadPriority,
    triage_line: Option<Seq<char>>,
    ready_in_br: bool,
    blocked_by: nat,
    blocks: nat,
    conflicts: nat,
) -> Seq<Seq<char>> {
    seq![priority.name_text() + " priority"@] + match triage_line {
        Some(t) => seq![t],
        None => Seq::empty(),
    } + seq![
        if ready_in_br {
            "ready in br"@
        } else if blocked_by > 0 {
            "blocked by "@ + decimal_text(blocked_by) + " bead"@ + plural_suffix(blocked_by) + " in br"@
        } else {
            "not ready in br"@
        },
    ] + (if blocks > 0 {
        seq![decimal_text(blocks) + " downstream bead"@ + plural_suffix(blocks)]
    } else {
        Seq::empty()
    }) + seq![
        if conflicts == 0 {
            "no reservation conflicts"@
        } else {
            decimal_text(conflicts) + " reservation conflict(s)"@
        },
    ]
}

fn plural(n: usize) -> (r: &'static str)
    ensures
        r@ == plural_suffix(n as nat),
{
    if n == 1 {
        ""
    } else {
        "s"
    }
}

/// `triage_line` is the triage score line, rendered where the score is computed.
pub fn inspect_dispatch_why(
    priority: BeadPriority,
    triage_line: Option<String>,
    ready_in_br: bool,
    blocked_by: usize,
    blocks: usize,
    conflicts: usize,
) -> (r: Vec<String>)
    ensures
        r.deep_view() == dispatch_why_lines(
            priority,
            match triage_line {
                Some(t) => Some(t@),
                None => None,
            },
            ready_in_br,
            blocked_by as nat,
            blocks as nat,
            conflicts as nat,
        ),
{
    let mut why: Vec<String> = Vec::new();
    let mut first = owned(priority.name());
    first.append(" priority");
    why.push(first);
    let ghost triage_view = match &triage_line {
        Some(t) => Some(t@),
        None => None::<Seq<char>>,
    };
    match triage_line {
        Some(t) => {
            why.push(t);
        },
        None => {},
    }
    let readiness = if ready_in_br {
        owned("ready in br")
    } else if blocked_by > 0 {
        let mut s = owned("blocked by ");
        append_decimal(&mut s, blocked_by as u64);
        s.append(" bead");
        s.append(plural(blocked_by));
        s.append(" in br");
        s
    } else {
        owned("not ready in br")
    };
    why.push(readiness);
    if blocks > 0 {
        let mut s = String::new();
        append_decimal(&mut s, blocks as u64);
        s.append(" downstream bead");
        s.append(plural(blocks));
        why.push(s);
    }
    let conflict_line = if conflicts == 0 {
        owned("no reservation conflicts")
    } else {
        let mut s = String::new();
        append_decimal(&mut s, conflicts as u64);
        s.append(" reservation conflict(s)");
        s
    };
    why.push(conflict_line);
    proof {
        reveal_strlit("");
        assert(""@ + decimal_text(blocks as nat) =~= decimal_text(blocks as nat));
        assert(""@ + decimal_text(conflicts as nat) =~= decimal_text(conflicts as nat));
    }
    assert(why.deep_view() =~= dispatch_why_lines(
        priority,
        triage_view,
        ready_in_br,
        blocked_by as nat,
        blocks as nat,
        conflicts as nat,
    ));
    why
}

} // verus!
