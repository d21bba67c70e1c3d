//! How the outcome of a session and of a run is recorded: the status each outcome
//! maps to, the failure details written alongside, the handoff taken from a finished
//! session and the summaries of parent handoffs that seed a dependent bead's prompt.
use vstd::prelude::*;
use crate::records::{CheckpointPayload, HandoffRecord, ProtocolEvent};
use crate::text::{join, join_text, owned};
use crate::types::{
    BeadId, RunId, EventKind, FailureClass, GroveBeadStatus, RecoveryCapsuleOutcome, RunStatus, SessionStatus,
    StopReason, Timestamp,
};

verus! {

// ---------------------------------------------------------------------------
// Session outcomes
// ---------------------------------------------------------------------------

/// The event logged and the bead status set when a session finishes with `status`.
pub open spec fn session_finish_effects(status: SessionStatus) -> (EventKind, GroveBeadStatus) {
    match status {
        SessionStatus::Checkpointed => (EventKind::SessionCheckpointed, GroveBeadStatus::Checkpointed),
        SessionStatus::Completed => (EventKind::SessionSucceeded, GroveBeadStatus::Succeeded),
        SessionStatus::TimedOut | SessionStatus::RateLimited => (
            EventKind::SessionFailed,
            GroveBeadStatus::WaitingToRetry,
        ),
        SessionStatus::PermissionDenied | SessionStatus::Crashed | SessionStatus::UnknownFailure => (
            EventKind::SessionFailed,
            GroveBeadStatus::Failed,
        ),
        SessionStatus::Starting | SessionStatus::Running => (
            EventKind::SessionStarted,
            GroveBeadStatus::Running,
        ),
    }
}

pub fn session_finish_event(status: SessionStatus) -> (r: (EventKind, GroveBeadStatus))
    ensures
        r == session_finish_effects(status),
{
    match status {
        SessionStatus::Checkpointed => (EventKind::SessionCheckpointed, GroveBeadStatus::Checkpointed),
        SessionStatus::Completed => (EventKind::SessionSucceeded, GroveBeadStatus::Succeeded),
        SessionStatus::TimedOut | SessionStatus::RateLimited => (
            EventKind::SessionFailed,
            GroveBeadStatus::WaitingToRetry,
        ),
        SessionStatus::PermissionDenied | SessionStatus::Crashed | SessionStatus::UnknownFailure => (
            EventKind::SessionFailed,
            GroveBeadStatus::Failed,
        ),
        SessionStatus::Starting | SessionStatus::Running => (
            EventKind::SessionStarted,
            GroveBeadStatus::Running,
        ),
    }
}

/// The failure class recorded for a finished session.
pub open spec fn session_failure(status: SessionStatus, stop_reason: Option<StopReason>) -> Option<
    FailureClass,
> {
    match status {
        SessionStatus::TimedOut => Some(FailureClass::Timeout),
        SessionStatus::RateLimited => Some(FailureClass::RateLimit),
        SessionStatus::PermissionDenied => Some(FailureClass::PermissionDenied),
        SessionStatus::Crashed => Some(FailureClass::ClaudeCrashed),
        SessionStatus::UnknownFailure => if stop_reason == Some(StopReason::Kill) {
            Some(FailureClass::Interrupted)
        } else {
            Some(FailureClass::Unknown)
        },
        _ => None,
    }
}

pub fn session_failure_class(status: SessionStatus, stop_reason: Option<StopReason>) -> (r: Option<
    FailureClass,
>)
    ensures
        r == session_failure(status, stop_reason),
{
    match status {
        SessionStatus::TimedOut => Some(FailureClass::Timeout),
        SessionStatus::RateLimited => Some(FailureClass::RateLimit),
        SessionStatus::PermissionDenied => Some(FailureClass::PermissionDenied),
        SessionStatus::Crashed => Some(FailureClass::ClaudeCrashed),
        SessionStatus::UnknownFailure => match stop_reason {
            Some(StopReason::Kill) => Some(FailureClass::Interrupted),
            _ => Some(FailureClass::Unknown),
        },
        _ => None,
    }
}

/// `session ended with <reason>` when the session recorded a stop reason.
pub open spec fn stop_detail(stop_reason: Option<StopReason>) -> Option<Seq<char>> {
    match stop_reason {
        Some(reason) => Some("session ended with "@ + reason.name_text()),
        None => None,
    }
}

pub fn stop_reason_detail(stop_reason: Option<StopReason>) -> (r: Option<String>)
    ensures
        match r {
            Some(s) => stop_detail(stop_reason) == Some(s@),
            None => stop_detail(stop_reason) is None,
        },
{
    match stop_reason {
        Some(reason) => {
            let mut s = owned("session ended with ");
            s.append(reason.name());
            Some(s)
        },
        None => None,
    }
}

/// How a finished session closes its run: the run status, the failure class and the
/// retry time (the session's end) for retryable failures.
pub open spec fn run_close(status: SessionStatus, stop_reason: Option<StopReason>, ended_at: Timestamp) -> (
    RunStatus,
    Option<FailureClass>,
    Option<Timestamp>,
) {
    match status {
        SessionStatus::Checkpointed => (RunStatus::Checkpointed, None, None),
        SessionStatus::Completed => (RunStatus::Succeeded, None, None),
        SessionStatus::TimedOut => (RunStatus::WaitingToRetry, Some(FailureClass::Timeout), Some(ended_at)),
        SessionStatus::RateLimited => (RunStatus::WaitingToRetry, Some(FailureClass::RateLimit), Some(ended_at)),
        SessionStatus::PermissionDenied => (RunStatus::Failed, Some(FailureClass::PermissionDenied), None),
        SessionStatus::Crashed => (RunStatus::Failed, Some(FailureClass::ClaudeCrashed), None),
        SessionStatus::UnknownFailure => if stop_reason == Some(StopReason::Kill) {
            (RunStatus::WaitingToRetry, Some(FailureClass::Interrupted), Some(ended_at))
        } else {
            (RunStatus::Failed, Some(FailureClass::Unknown), None)
        },
        SessionStatus::Starting | SessionStatus::Running => (RunStatus::Failed, Some(FailureClass::Unknown), None),
    }
}

pub fn run_close_plan(status: SessionStatus, stop_reason: Option<StopReason>, ended_at: Timestamp) -> (r: (
    RunStatus,
    Option<FailureClass>,
    Option<Timestamp>,
))
    ensures
        r == run_close(status, stop_reason, ended_at),
{
    let forced_kill = match stop_reason {
        Some(StopReason::Kill) => true,
        _ => false,
    };
    match status {
        SessionStatus::Checkpointed => (RunStatus::Checkpointed, None, None),
        SessionStatus::Completed => (RunStatus::Succeeded, None, None),
        SessionStatus::TimedOut => (RunStatus::WaitingToRetry, Some(FailureClass::Timeout), Some(ended_at)),
        SessionStatus::RateLimited => (RunStatus::WaitingToRetry, Some(FailureClass::RateLimit), Some(ended_at)),
        SessionStatus::PermissionDenied => (RunStatus::Failed, Some(FailureClass::PermissionDenied), None),
        SessionStatus::Crashed => (RunStatus::Failed, Some(FailureClass::ClaudeCrashed), None),
        SessionStatus::UnknownFailure => if forced_kill {
            (RunStatus::WaitingToRetry, Some(FailureClass::Interrupted), Some(ended_at))
        } else {
            (RunStatus::Failed, Some(FailureClass::Unknown), None)
        },
        SessionStatus::Starting | SessionStatus::Running => (RunStatus::Failed, Some(FailureClass::Unknown), None),
    }
}

/// A retryable outcome always carries a retry time, and a success never a failure class.
pub proof fn lemma_run_close_consistent(status: SessionStatus, stop_reason: Option<StopReason>, ended_at: Timestamp)
    ensures
        ({
            let (run, failure, retry) = run_close(status, stop_reason, ended_at);
            &&& (run is WaitingToRetry <==> retry is Some)
            &&& (run is Succeeded || run is Checkpointed <==> failure is None)
        }),
{
}

/// Only transient failures are retried automatically: a session that timed out or was
/// rate limited, or an unknown failure ended by a kill, leaves the run waiting to retry
/// from the session's end; every other failure (a crash, a permission denial, an unknown
/// failure without a kill, a session that never finished) fails the run with no retry
/// time; a completed session succeeds and a checkpointed one checkpoints the run.
pub proof fn lemma_only_transient_failures_are_retried(
    status: SessionStatus,
    stop_reason: Option<StopReason>,
    ended_at: Timestamp,
)
    ensures
        ({
            let (run, failure, retry) = run_close(status, stop_reason, ended_at);
            let transient = status == SessionStatus::TimedOut || status == SessionStatus::RateLimited || (status
                == SessionStatus::UnknownFailure && stop_reason == Some(StopReason::Kill));
            &&& transient ==> run == RunStatus::WaitingToRetry && retry == Some(ended_at)
            &&& !transient ==> run != RunStatus::WaitingToRetry && retry is None
            &&& status == SessionStatus::Completed ==> run == RunStatus::Succeeded && failure is None
            &&& status == SessionStatus::Checkpointed ==> run == RunStatus::Checkpointed && failure is None
            &&& status == SessionStatus::Crashed ==> run == RunStatus::Failed && failure == Some(
                FailureClass::ClaudeCrashed,
            )
            &&& status == SessionStatus::PermissionDenied ==> run == RunStatus::Failed && failure == Some(
                FailureClass::PermissionDenied,
            )
            &&& status == SessionStatus::TimedOut ==> failure == Some(FailureClass::Timeout)
            &&& status == SessionStatus::RateLimited ==> failure == Some(FailureClass::RateLimit)
            &&& status == SessionStatus::UnknownFailure ==> failure == Some(
                if stop_reason == Some(StopReason::Kill) {
                    FailureClass::Interrupted
                } else {
                    FailureClass::Unknown
                },
            )
            &&& (status == SessionStatus::Starting || status == SessionStatus::Running) ==> run == RunStatus::Failed
                && failure == Some(FailureClass::Unknown)
            &&& !transient && !(status == SessionStatus::Completed) && !(status == SessionStatus::Checkpointed)
                ==> run == RunStatus::Failed
        }),
{
}

/// The bead status, whether declared paths are cleared, and the event logged when a
/// run is recorded as finished with `status`.
pub open spec fn run_finish_effects(status: RunStatus) -> (GroveBeadStatus, bool, EventKind) {
    match status {
        RunStatus::Active => (GroveBeadStatus::Running, true, EventKind::RunStarted),
        RunStatus::Checkpointed => (GroveBeadStatus::Checkpointed, false, EventKind::RunCheckpointed),
        RunStatus::WaitingToRetry => (GroveBeadStatus::WaitingToRetry, true, EventKind::RunFailed),
        RunStatus::Succeeded => (GroveBeadStatus::Succeeded, true, EventKind::RunSucceeded),
        RunStatus::Failed => (GroveBeadStatus::Failed, true, EventKind::RunFailed),
    }
}

pub fn run_finish_event(status: RunStatus) -> (r: (GroveBeadStatus, bool, EventKind))
    ensures
        r == run_finish_effects(status),
{
    match status {
        RunStatus::Active => (GroveBeadStatus::Running, true, EventKind::RunStarted),
        RunStatus::Checkpointed => (GroveBeadStatus::Checkpointed, false, EventKind::RunCheckpointed),
        RunStatus::WaitingToRetry => (GroveBeadStatus::WaitingToRetry, true, EventKind::RunFailed),
        RunStatus::Succeeded => (GroveBeadStatus::Succeeded, true, EventKind::RunSucceeded),
        RunStatus::Failed => (GroveBeadStatus::Failed, true, EventKind::RunFailed),
    }
}

/// What a recovery capsule describes for a session that ended with `status`; a
/// completed session needs none.
pub open spec fn capsule_outcome(status: SessionStatus) -> Option<RecoveryCapsuleOutcome> {
    match status {
        SessionStatus::Checkpointed => Some(RecoveryCapsuleOutcome::Checkpointed),
        SessionStatus::Completed => None,
        _ => Some(RecoveryCapsuleOutcome::Failed),
    }
}

pub fn recovery_capsule_outcome(status: SessionStatus) -> (r: Option<RecoveryCapsuleOutcome>)
    ensures
        r == capsule_outcome(status),
{
    match status {
        SessionStatus::Checkpointed => Some(RecoveryCapsuleOutcome::Checkpointed),
        SessionStatus::Completed => None,
        _ => Some(RecoveryCapsuleOutcome::Failed),
    }
}

/// The failure detail of a recovery capsule: the recorded detail, followed by the
/// tail of the session's standard error; `None` when both are empty.
pub open spec fn enriched_detail(detail: Seq<char>, stderr_tail: Seq<Seq<char>>) -> Seq<char> {
    if stderr_tail.len() == 0 {
        detail
    } else {
        (if detail.len() > 0 {
            detail + "\n\n"@
        } else {
            detail
        }) + "Recent stderr:\n"@ + join_text(stderr_tail, "\n"@)
    }
}

pub fn enriched_failure_detail(detail: Option<&str>, stderr_tail: &Vec<String>) -> (r: Option<String>)
    ensures
        ({
            let text = enriched_detail(
                match detail {
                    Some(d) => d@,
                    None => Seq::empty(),
                },
                stderr_tail.deep_view(),
            );
            &&& (r is None <==> text.len() == 0)
            &&& (r matches Some(s) ==> s@ == text)
        }),
{
    proof {
        reveal_strlit("");
        reveal_strlit("Recent stderr:\n");
    }
    let mut enriched = match detail {
        Some(d) => owned(d),
        None => owned(""),
    };
    if stderr_tail.len() > 0 {
        if enriched.unicode_len() > 0 {
            enriched.append("\n\n");
        }
        enriched.append("Recent stderr:\n");
        let tail = join(stderr_tail, "\n");
        enriched.append(tail.as_str());
    }
    if enriched.unicode_len() == 0 {
        None
    } else {
        Some(enriched)
    }
}

// ---------------------------------------------------------------------------
// Protocol events
// ---------------------------------------------------------------------------

/// The summary of the first result marker.
pub open spec fn first_result(events: Seq<ProtocolEvent>) -> Option<String>
    decreases events.len(),
{
    if events.len() == 0 {
        None
    } else {
        match events[0] {
            ProtocolEvent::Result { summary } => Some(summary),
            _ => first_result(events.drop_first()),
        }
    }
}

/// The items of a list marker of the given kind: 0 artifacts, 1 lessons, 2 decisions,
/// 3 warnings.
pub open spec fn list_items(event: ProtocolEvent, kind: int) -> Option<Vec<String>> {
    match event {
        ProtocolEvent::Artifacts { items } => if kind == 0 { Some(items) } else { None },
        ProtocolEvent::Lessons { items } => if kind == 1 { Some(items) } else { None },
        ProtocolEvent::Decisions { items } => if kind == 2 { Some(items) } else { None },
        ProtocolEvent::Warnings { items } => if kind == 3 { Some(items) } else { None },
        _ => None,
    }
}

/// The items of the first list marker of the given kind.
pub open spec fn first_items(events: Seq<ProtocolEvent>, kind: int) -> Option<Vec<String>>
    decreases events.len(),
{
    if events.len() == 0 {
        None
    } else {
        match list_items(events[0], kind) {
            Some(items) => Some(items),
            None => first_items(events.drop_first(), kind),
        }
    }
}

/// The items of the last list marker of the given kind.
pub open spec fn last_items(events: Seq<ProtocolEvent>, kind: int) -> Option<Vec<String>>
    decreases events.len(),
{
    if events.len() == 0 {
        None
    } else {
        match list_items(events.last(), kind) {
            Some(items) => Some(items),
            None => last_items(events.drop_last(), kind),
        }
    }
}

/// The payload of the last checkpoint marker.
pub open spec fn last_checkpoint(events: Seq<ProtocolEvent>) -> Option<CheckpointPayload>
    decreases events.len(),
{
    if events.len() == 0 {
        None
    } else {
        match events.last() {
            ProtocolEvent::Checkpoint { payload } => Some(payload),
            _ => last_checkpoint(events.drop_last()),
        }
    }
}

/// The value of the last exit marker.
pub open spec fn last_exit(events: Seq<ProtocolEvent>) -> Option<bool>
    decreases events.len(),
{
    if events.len() == 0 {
        None
    } else {
        match events.last() {
            ProtocolEvent::Exit { value } => Some(value),
            _ => last_exit(events.drop_last()),
        }
    }
}

fn copy_strings(v: &Vec<String>) -> (r: Vec<String>)
    ensures
        r@ == v@,
{
    let mut out: Vec<String> = Vec::new();
    let mut i: usize = 0;
    while i < v.len()
        invariant
            i <= v.len(),
            out@ == v@.subrange(0, i as int),
        decreases v.len() - i,
    {
        out.push(v[i].clone());
        i = i + 1;
        assert(out@ =~= v@.subrange(0, i as int));
    }
    assert(out@ =~= v@);
    out
}

pub fn first_result_summary(events: &Vec<ProtocolEvent>) -> (r: Option<String>)
    ensures
        r == first_result(events@),
{
    let mut i: usize = 0;
    assert(events@.subrange(0, events.len() as int) =~= events@);
    while i < events.len()
        invariant
            i <= events.len(),
            first_result(events@) == first_result(events@.subrange(i as int, events.len() as int)),
        decreases events.len() - i,
    {
        let ghost rest = events@.subrange(i as int, events.len() as int);
        assert(rest[0] == events@[i as int]);
        assert(rest.drop_first() =~= events@.subrange(i + 1, events.len() as int));
        if let ProtocolEvent::Result { summary } = &events[i] {
            return Some(summary.clone());
        }
        i = i + 1;
    }
    None
}

fn items_of(event: &ProtocolEvent, kind: u8) -> (r: Option<&Vec<String>>)
    ensures
        match r {
            Some(items) => list_items(*event, kind as int) == Some(*items),
            None => list_items(*event, kind as int) is None,
        },
{
    match event {
        ProtocolEvent::Artifacts { items } => if kind == 0 { Some(items) } else { None },
        ProtocolEvent::Lessons { items } => if kind == 1 { Some(items) } else { None },
        ProtocolEvent::Decisions { items } => if kind == 2 { Some(items) } else { None },
        ProtocolEvent::Warnings { items } => if kind == 3 { Some(items) } else { None },
        _ => None,
    }
}

/// The items of the first list marker of the given kind (0 artifacts, 1 lessons,
/// 2 decisions, 3 warnings); empty when there is none.
pub fn first_list(events: &Vec<ProtocolEvent>, kind: u8) -> (r: Vec<String>)
    ensures
        r@ == match first_items(events@, kind as int) {
            Some(items) => items@,
            None => Seq::empty(),
        },
{
    let mut i: usize = 0;
    assert(events@.subrange(0, events.len() as int) =~= events@);
    while i < events.len()
        invariant
            i <= events.len(),
            first_items(events@, kind as int) == first_items(events@.subrange(i as int, events.len() as int), kind as int),
        decreases events.len() - i,
    {
        let ghost rest = events@.subrange(i as int, events.len() as int);
        assert(rest[0] == events@[i as int]);
        assert(rest.drop_first() =~= events@.subrange(i + 1, events.len() as int));
        if let Some(items) = items_of(&events[i], kind) {
            return copy_strings(items);
        }
        i = i + 1;
    }
    Vec::new()
}

/// The items of the last list marker of the given kind; empty when there is none.
pub fn last_list(events: &Vec<ProtocolEvent>, kind: u8) -> (r: Vec<String>)
    ensures
        r@ == match last_items(events@, kind as int) {
            Some(items) => items@,
            None => Seq::empty(),
        },
{
    let mut i: usize = events.len();
    assert(events@.subrange(0, events.len() as int) =~= events@);
    while i > 0
        invariant
            i <= events.len(),
            last_items(events@, kind as int) == last_items(events@.subrange(0, i as int), kind as int),
        decreases i,
    {
        let ghost pre = events@.subrange(0, i as int);
        assert(pre.last() == events@[i - 1]);
        assert(pre.drop_last() =~= events@.subrange(0, i - 1));
        if let Some(items) = items_of(&events[i - 1], kind) {
            return copy_strings(items);
        }
        i = i - 1;
    }
    Vec::new()
}

/// The value of the last exit marker.
pub fn last_exit_value(events: &Vec<ProtocolEvent>) -> (r: Option<bool>)
    ensures
        r == last_exit(events@),
{
    let mut i: usize = events.len();
    assert(events@.subrange(0, events.len() as int) =~= events@);
    while i > 0
        invariant
            i <= events.len(),
            last_exit(events@) == last_exit(events@.subrange(0, i as int)),
        decreases i,
    {
        let ghost pre = events@.subrange(0, i as int);
        assert(pre.last() == events@[i - 1]);
        assert(pre.drop_last() =~= events@.subrange(0, i - 1));
        if let ProtocolEvent::Exit { value } = &events[i - 1] {
            return Some(*value);
        }
        i = i - 1;
    }
    None
}

/// The summary written to the handoff of a completed session: the first result
/// marker, or else the last line the session printed.
pub open spec fn handoff_summary(events: Seq<ProtocolEvent>, stdout_tail: Seq<String>) -> Option<String> {
    match first_result(events) {
        Some(s) => Some(s),
        None => if stdout_tail.len() > 0 {
            Some(stdout_tail.last())
        } else {
            None
        },
    }
}

pub fn success_handoff_summary(events: &Vec<ProtocolEvent>, stdout_tail: &Vec<String>) -> (r: Option<String>)
    ensures
        r == handoff_summary(events@, stdout_tail@),
{
    match first_result_summary(events) {
        Some(s) => Some(s),
        None => if stdout_tail.len() > 0 {
            Some(stdout_tail[stdout_tail.len() - 1].clone())
        } else {
            None
        },
    }
}

// ---------------------------------------------------------------------------
// Parent handoff summaries
// ---------------------------------------------------------------------------

pub open spec fn optional_line(label: Seq<char>, items: Seq<Seq<char>>, sep: Seq<char>) -> Seq<Seq<char>> {
    if items.len() == 0 {
        Seq::empty()
    } else {
        seq![label + join_text(items, sep)]
    }
}

/// The lines that introduce a parent's handoff to a dependent bead.
pub open spec fn handoff_lines(handoff: HandoffRecord) -> Seq<Seq<char>> {
    seq![
        "Parent "@ + handoff.bead_id@ + " (run "@ + handoff.run_id@ + ") prepared the task: "@
            + handoff.summary@,
    ] + optional_line("Artifacts: "@, handoff.artifacts.deep_view(), ", "@) + optional_line(
        "Decisions: "@,
        handoff.decisions.deep_view(),
        " | "@,
    ) + optional_line("Lessons: "@, handoff.lessons.deep_view(), " | "@) + optional_line(
        "Warnings: "@,
        handoff.warnings.deep_view(),
        " | "@,
    )
}

fn push_optional_line(lines: &mut Vec<String>, label: &str, items: &Vec<String>, sep: &str)
    ensures
        final(lines).deep_view() == old(lines).deep_view() + optional_line(label@, items.deep_view(), sep@),
{
    if items.len() > 0 {
        let mut line = owned(label);
        let joined = join(items, sep);
        line.append(joined.as_str());
        let ghost before = lines.deep_view();
        lines.push(line);
        assert(lines.deep_view() =~= before + optional_line(label@, items.deep_view(), sep@));
    } else {
        assert(lines.deep_view() =~= old(lines).deep_view() + optional_line(label@, items.deep_view(), sep@));
    }
}

/// The text that introduces one parent's handoff, its lines joined by newlines.
pub fn parent_handoff_summary(handoff: &HandoffRecord) -> (r: String)
    ensures
        r@ == join_text(handoff_lines(*handoff), "\n"@),
{
    let mut first = owned("Parent ");
    first.append(handoff.bead_id.as_str());
    first.append(" (run ");
    first.append(handoff.run_id.as_str());
    first.append(") prepared the task: ");
    first.append(handoff.summary.as_str());
    let mut lines: Vec<String> = Vec::new();
    lines.push(first);
    push_optional_line(&mut lines, "Artifacts: ", &handoff.artifacts, ", ");
    push_optional_line(&mut lines, "Decisions: ", &handoff.decisions, " | ");
    push_optional_line(&mut lines, "Lessons: ", &handoff.lessons, " | ");
    push_optional_line(&mut lines, "Warnings: ", &handoff.warnings, " | ");
    assert(lines.deep_view() =~= handoff_lines(*handoff));
    join(&lines, "\n")
}

/// The introductions of every parent handoff, in the order given.
pub fn parent_handoff_summaries(handoffs: &Vec<HandoffRecord>) -> (r: Vec<String>)
    ensures
        r.len() == handoffs.len(),
        forall|i: int| 0 <= i < handoffs.len() ==> (#[trigger] r@[i])@ == join_text(handoff_lines(handoffs@[i]), "\n"@),
{
    let mut out: Vec<String> = Vec::new();
    let mut i: usize = 0;
    while i < handoffs.len()
        invariant
            i <= handoffs.len(),
            out.len() == i,
            forall|k: int| 0 <= k < i ==> (#[trigger] out@[k])@ == join_text(handoff_lines(handoffs@[k]), "\n"@),
        decreases handoffs.len() - i,
    {
        out.push(parent_handoff_summary(&handoffs[i]));
        i = i + 1;
    }
    out
}

/// The failure detail a finished run records: the error that ended the worker when
/// there is one, else the session's stop reason.
pub fn run_failure_detail(override_detail: Option<String>, stop_reason: Option<StopReason>) -> (r: Option<String>)
    ensures
        override_detail is Some ==> r == override_detail,
        override_detail is None ==> match r {
            Some(s) => stop_detail(stop_reason) == Some(s@),
            None => stop_detail(stop_reason) is None,
        },
{
    match override_detail {
        Some(d) => Some(d),
        None => stop_reason_detail(stop_reason),
    }
}

/// The handoff a completed session leaves: its summary, and the items of the first
/// marker of each list kind; `None` when the session did not complete or has no
/// summary.
pub fn success_handoff(
    bead_id: &BeadId,
    run_id: &RunId,
    status: SessionStatus,
    events: &Vec<ProtocolEvent>,
    stdout_tail: &Vec<String>,
    completed_at: Timestamp,
) -> (r: Option<HandoffRecord>)
    ensures
        r is Some <==> (status is Completed && handoff_summary(events@, stdout_tail@) is Some),
        r matches Some(h) ==> {
            &&& h.bead_id == *bead_id
            &&& h.run_id == *run_id
            &&& handoff_summary(events@, stdout_tail@) == Some(h.summary)
            &&& h.artifacts@ == (match first_items(events@, 0) {
                Some(items) => items@,
                None => Seq::empty(),
            })
            &&& h.lessons@ == (match first_items(events@, 1) {
                Some(items) => items@,
                None => Seq::empty(),
            })
            &&& h.decisions@ == (match first_items(events@, 2) {
                Some(items) => items@,
                None => Seq::empty(),
            })
            &&& h.warnings@ == (match first_items(events@, 3) {
                Some(items) => items@,
                None => Seq::empty(),
            })
            &&& h.completed_at == completed_at
        },
{
    match status {
        SessionStatus::Completed => {},
        _ => {
            return None;
        },
    }
    let summary = match success_handoff_summary(events, stdout_tail) {
        Some(s) => s,
        None => {
            return None;
        },
    };
    Some(
        HandoffRecord {
            bead_id: bead_id.duplicate(),
            run_id: run_id.duplicate(),
            summary,
            artifacts: first_list(events, 0),
            lessons: first_list(events, 1),
            decisions: first_list(events, 2),
            warnings: first_list(events, 3),
            completed_at,
        },
    )
}

} // verus!
