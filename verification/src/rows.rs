//! Reading stored rows back into records: timestamps, JSON lists of texts and the
//! encoded enumerations, each field checked in turn.
use vstd::prelude::*;
use crate::bead::{BeadRef, CircuitBreakerState, GroveBeadRecord};
use crate::codec::{
    grove_bead_status_from_token, parse_bead_priority, parse_grove_bead_status, priority_number,
    agent_activity_from_token, escalation_tier_from_token, failure_class_from_token,
    normalize_token_text, parse_agent_activity, parse_escalation_tier, parse_failure_class,
    parse_run_status, parse_session_status, parse_stop_reason, run_status_from_token,
    session_status_from_token, stop_reason_from_token, DecodeError,
};
use crate::records::{ClaudeSessionRecord, HandoffRecord, LeaderLeaseRecord, TaskRunRecord};
use crate::reservation::ReservationRecord;
use crate::text::{concat2, signed_decimal_text};
use crate::types::{
    GroveBeadStatus, AgentActivity, BeadId, CheckpointId, FailureClass, PromptId, ReservationMode, RunId, SessionId,
    StopReason, Timestamp,
};

verus! {

// ---------------------------------------------------------------------------
// Outside parsers
// ---------------------------------------------------------------------------

/// The instant an RFC 3339 text names, as Unix seconds and nanoseconds, as chrono reads
/// it; `None` when the text is no RFC 3339 date and time.
pub uninterp spec fn rfc3339_instant(text: Seq<char>) -> Option<(i64, u32)>;

/// `chrono::DateTime::parse_from_rfc3339`, its result taken as the Unix seconds and
/// nanoseconds of the instant. The contract names the result and claims only that it
/// depends on the text alone.
#[verifier::external_body]
fn parse_rfc3339(text: &str) -> (r: Option<(i64, u32)>)
    ensures
        r == rfc3339_instant(text@),
{
    chrono::DateTime::parse_from_rfc3339(text).ok().map(|t| (t.timestamp(), t.timestamp_subsec_nanos()))
}

/// The instant a text names when read with a chrono format and taken as UTC.
pub uninterp spec fn naive_utc_instant(text: Seq<char>, format: Seq<char>) -> Option<(i64, u32)>;

/// `chrono::NaiveDateTime::parse_from_str`, the date and time taken as UTC and given as
/// Unix seconds and nanoseconds. The contract names the result and claims only that it
/// depends on the text and the format alone.
#[verifier::external_body]
fn parse_naive_utc(text: &str, format: &str) -> (r: Option<(i64, u32)>)
    ensures
        r == naive_utc_instant(text@, format@),
{
    chrono::NaiveDateTime::parse_from_str(text, format).ok().map(|t| (t.and_utc().timestamp(), t.and_utc().timestamp_subsec_nanos()))
}

/// The texts of a JSON array of strings, as serde_json reads it; `None` when the text
/// is not one.
pub uninterp spec fn json_string_list(text: Seq<char>) -> Option<Seq<Seq<char>>>;

/// `serde_json::from_str::<Vec<String>>`. The contract names the result and claims only
/// that it depends on the text alone.
#[verifier::external_body]
fn parse_json_string_list(text: &str) -> (r: Option<Vec<String>>)
    ensures
        match r {
            Some(v) => json_string_list(text@) == Some(v.deep_view()),
            None => json_string_list(text@) is None,
        },
{
    serde_json::from_str::<Vec<String>>(text).ok()
}

// ---------------------------------------------------------------------------
// Fields
// ---------------------------------------------------------------------------

/// The second-precision format older rows store timestamps in.
pub open spec fn sql_datetime_format() -> Seq<char> {
    "%Y-%m-%d %H:%M:%S"@
}

/// The instant a stored timestamp names: RFC 3339 first, then the older format read
/// as UTC.
pub open spec fn timestamp_of(text: Seq<char>) -> Option<Timestamp> {
    match rfc3339_instant(text) {
        Some((secs, nanos)) => Some(Timestamp { secs, nanos }),
        None => match naive_utc_instant(text, sql_datetime_format()) {
            Some((secs, nanos)) => Some(Timestamp { secs, nanos }),
            None => None,
        },
    }
}

/// Reads a stored timestamp.
pub fn parse_timestamp(text: &str) -> (r: Result<Timestamp, DecodeError>)
    ensures
        r is Ok <==> timestamp_of(text@) is Some,
        r matches Ok(t) ==> timestamp_of(text@) == Some(t),
        r matches Err(e) ==> e@ == "parse timestamp "@ + text@,
{
    match parse_rfc3339(text) {
        Some((secs, nanos)) => Ok(Timestamp { secs, nanos }),
        None => match parse_naive_utc(text, "%Y-%m-%d %H:%M:%S") {
            Some((secs, nanos)) => Ok(Timestamp { secs, nanos }),
            None => Err(DecodeError { message: concat2("parse timestamp ", text) }),
        },
    }
}

/// An optional field that is absent, or present and readable.
pub open spec fn optional_timestamp(o: Option<String>) -> Option<Option<Timestamp>> {
    match o {
        Some(t) => match timestamp_of(t@) {
            Some(v) => Some(Some(v)),
            None => None,
        },
        None => Some(None),
    }
}

pub open spec fn optional_failure_class(o: Option<String>) -> Option<Option<FailureClass>> {
    match o {
        Some(t) => match failure_class_from_token(normalize_token_text(t@)) {
            Some(v) => Some(Some(v)),
            None => None,
        },
        None => Some(None),
    }
}

pub open spec fn optional_activity(o: Option<String>) -> Option<Option<AgentActivity>> {
    match o {
        Some(t) => match agent_activity_from_token(normalize_token_text(t@)) {
            Some(v) => Some(Some(v)),
            None => None,
        },
        None => Some(None),
    }
}

pub open spec fn optional_stop_reason(o: Option<String>) -> Option<Option<StopReason>> {
    match o {
        Some(t) => match stop_reason_from_token(normalize_token_text(t@)) {
            Some(v) => Some(Some(v)),
            None => None,
        },
        None => Some(None),
    }
}

// ---------------------------------------------------------------------------
// Read errors
// ---------------------------------------------------------------------------

/// The first of two read errors.
pub open spec fn either(first: Option<Seq<char>>, rest: Option<Seq<char>>) -> Option<Seq<char>> {
    if first is Some {
        first
    } else {
        rest
    }
}

/// The error of reading a required field: `prefix` followed by the stored text.
pub open spec fn read_error(readable: bool, prefix: Seq<char>, text: Seq<char>) -> Option<Seq<char>> {
    if readable {
        None
    } else {
        Some(prefix + text)
    }
}

/// The error of reading an optional field that is stored.
pub open spec fn optional_read_error(o: Option<String>, readable: bool, prefix: Seq<char>) -> Option<Seq<char>> {
    match o {
        Some(t) => read_error(readable, prefix, t@),
        None => None,
    }
}

pub open spec fn timestamp_error(text: Seq<char>) -> Option<Seq<char>> {
    read_error(timestamp_of(text) is Some, "parse timestamp "@, text)
}

pub open spec fn optional_timestamp_error(o: Option<String>) -> Option<Seq<char>> {
    optional_read_error(o, optional_timestamp(o) is Some, "parse timestamp "@)
}

/// The error of reading a stored JSON list of texts named `label`.
pub open spec fn list_error(text: Seq<char>, label: Seq<char>) -> Option<Seq<char>> {
    if json_string_list(text) is Some {
        None
    } else {
        Some("parse "@ + label + " JSON"@)
    }
}

fn read_optional_timestamp(o: &Option<String>) -> (r: Result<Option<Timestamp>, DecodeError>)
    ensures
        r is Ok <==> optional_timestamp(*o) is Some,
        r matches Ok(v) ==> optional_timestamp(*o) == Some(v),
        r matches Err(e) ==> optional_timestamp_error(*o) == Some(e@),
{
    match o {
        Some(t) => match parse_timestamp(t.as_str()) {
            Ok(v) => Ok(Some(v)),
            Err(e) => Err(e),
        },
        None => Ok(None),
    }
}

fn read_optional_failure_class(o: &Option<String>) -> (r: Result<Option<FailureClass>, DecodeError>)
    ensures
        r is Ok <==> optional_failure_class(*o) is Some,
        r matches Ok(v) ==> optional_failure_class(*o) == Some(v),
        r matches Err(e) ==> optional_read_error(*o, false, "unsupported failure class "@) == Some(e@),
{
    match o {
        Some(t) => match parse_failure_class(t.as_str()) {
            Ok(v) => Ok(Some(v)),
            Err(e) => Err(e),
        },
        None => Ok(None),
    }
}

fn read_optional_activity(o: &Option<String>) -> (r: Result<Option<AgentActivity>, DecodeError>)
    ensures
        r is Ok <==> optional_activity(*o) is Some,
        r matches Ok(v) ==> optional_activity(*o) == Some(v),
        r matches Err(e) ==> optional_read_error(*o, false, "unsupported agent activity "@) == Some(e@),
{
    match o {
        Some(t) => match parse_agent_activity(t.as_str()) {
            Ok(v) => Ok(Some(v)),
            Err(e) => Err(e),
        },
        None => Ok(None),
    }
}

fn read_optional_stop_reason(o: &Option<String>) -> (r: Result<Option<StopReason>, DecodeError>)
    ensures
        r is Ok <==> optional_stop_reason(*o) is Some,
        r matches Ok(v) ==> optional_stop_reason(*o) == Some(v),
        r matches Err(e) ==> optional_read_error(*o, false, "unsupported stop reason "@) == Some(e@),
{
    match o {
        Some(t) => match parse_stop_reason(t.as_str()) {
            Ok(v) => Ok(Some(v)),
            Err(e) => Err(e),
        },
        None => Ok(None),
    }
}

/// Reads a stored JSON list of texts; `label` names it in the error.
pub fn parse_text_list(text: &str, label: &str) -> (r: Result<Vec<String>, DecodeError>)
    ensures
        r is Ok <==> json_string_list(text@) is Some,
        r matches Ok(v) ==> json_string_list(text@) == Some(v.deep_view()),
        r matches Err(e) ==> e@ == "parse "@ + label@ + " JSON"@,
{
    match parse_json_string_list(text) {
        Some(v) => Ok(v),
        None => {
            let mut message = crate::text::owned("parse ");
            message.append(label);
            message.append(" JSON");
            Err(DecodeError { message })
        },
    }
}

fn run_id_of(o: Option<String>) -> (r: Option<RunId>)
    ensures
        match r {
            Some(id) => o matches Some(s) && id@ == s@,
            None => o is None,
        },
{
    match o {
        Some(s) => Some(RunId::from_string(s)),
        None => None,
    }
}

// ---------------------------------------------------------------------------
// Runs
// ---------------------------------------------------------------------------

/// A stored run, field by field as the table holds it.
#[derive(Debug, Clone)]
pub struct TaskRunRow {
    pub id: String,
    pub bead_id: String,
    pub attempt_no: i32,
    pub status: String,
    pub failure_class: Option<String>,
    pub failure_detail: Option<String>,
    pub started_at: String,
    pub ended_at: Option<String>,
    pub session_count: i32,
    pub checkpoint_count: i32,
    pub last_checkpoint_id: Option<String>,
    pub activity: Option<String>,
    pub last_activity_at: Option<String>,
    pub escalation_tier: String,
}

/// Whether every encoded field of a stored run reads back.
pub open spec fn task_run_row_readable(row: TaskRunRow) -> bool {
    &&& run_status_from_token(normalize_token_text(row.status@)) is Some
    &&& optional_failure_class(row.failure_class) is Some
    &&& timestamp_of(row.started_at@) is Some
    &&& optional_timestamp(row.ended_at) is Some
    &&& optional_activity(row.activity) is Some
    &&& optional_timestamp(row.last_activity_at) is Some
    &&& escalation_tier_from_token(normalize_token_text(row.escalation_tier@)) is Some
}

/// The error a stored run fails to read with: that of its first unreadable field.
pub open spec fn task_run_row_error(row: TaskRunRow) -> Option<Seq<char>> {
    either(
        read_error(run_status_from_token(normalize_token_text(row.status@)) is Some, "unsupported run status "@, row.status@),
        either(
            optional_read_error(row.failure_class, optional_failure_class(row.failure_class) is Some, "unsupported failure class "@),
            either(
                timestamp_error(row.started_at@),
                either(
                    optional_timestamp_error(row.ended_at),
                    either(
                        optional_read_error(row.activity, optional_activity(row.activity) is Some, "unsupported agent activity "@),
                        either(
                            optional_timestamp_error(row.last_activity_at),
                            read_error(
                                escalation_tier_from_token(normalize_token_text(row.escalation_tier@)) is Some,
                                "unsupported escalation tier "@,
                                row.escalation_tier@,
                            ),
                        ),
                    ),
                ),
            ),
        ),
    )
}

/// Whether `run` is what a readable stored run reads back as.
pub open spec fn task_run_read_as(row: TaskRunRow, run: TaskRunRecord) -> bool {
    &&& run.id@ == row.id@
    &&& run.bead_id@ == row.bead_id@
    &&& run.attempt_no == row.attempt_no
    &&& Some(run.status) == run_status_from_token(normalize_token_text(row.status@))
    &&& optional_failure_class(row.failure_class) == Some(run.failure_class)
    &&& run.failure_detail == row.failure_detail
    &&& timestamp_of(row.started_at@) == Some(run.started_at)
    &&& optional_timestamp(row.ended_at) == Some(run.ended_at)
    &&& run.session_count == row.session_count
    &&& run.checkpoint_count == row.checkpoint_count
    &&& match run.last_checkpoint_id {
        Some(id) => row.last_checkpoint_id matches Some(s) && id@ == s@,
        None => row.last_checkpoint_id is None,
    }
    &&& optional_activity(row.activity) == Some(run.activity)
    &&& optional_timestamp(row.last_activity_at) == Some(run.last_activity_at)
    &&& Some(run.escalation_tier) == escalation_tier_from_token(normalize_token_text(row.escalation_tier@))
}

pub fn decode_task_run(row: TaskRunRow) -> (r: Result<TaskRunRecord, DecodeError>)
    ensures
        r is Ok <==> task_run_row_readable(row),
        r matches Ok(run) ==> task_run_read_as(row, run),
        r matches Err(e) ==> task_run_row_error(row) == Some(e@),
{
    let status = match parse_run_status(row.status.as_str()) {
        Ok(v) => v,
        Err(e) => {
            return Err(e);
        },
    };
    let failure_class = match read_optional_failure_class(&row.failure_class) {
        Ok(v) => v,
        Err(e) => {
            return Err(e);
        },
    };
    let started_at = match parse_timestamp(row.started_at.as_str()) {
        Ok(v) => v,
        Err(e) => {
            return Err(e);
        },
    };
    let ended_at = match read_optional_timestamp(&row.ended_at) {
        Ok(v) => v,
        Err(e) => {
            return Err(e);
        },
    };
    let activity = match read_optional_activity(&row.activity) {
        Ok(v) => v,
        Err(e) => {
            return Err(e);
        },
    };
    let last_activity_at = match read_optional_timestamp(&row.last_activity_at) {
        Ok(v) => v,
        Err(e) => {
            return Err(e);
        },
    };
    let escalation_tier = match parse_escalation_tier(row.escalation_tier.as_str()) {
        Ok(v) => v,
        Err(e) => {
            return Err(e);
        },
    };
    let last_checkpoint_id = match row.last_checkpoint_id {
        Some(s) => Some(CheckpointId::from_string(s)),
        None => None,
    };
    Ok(TaskRunRecord {
        id: RunId::from_string(row.id),
        bead_id: BeadId::from_string(row.bead_id),
        attempt_no: row.attempt_no,
        status,
        failure_class,
        failure_detail: row.failure_detail,
        started_at,
        ended_at,
        session_count: row.session_count,
        checkpoint_count: row.checkpoint_count,
        last_checkpoint_id,
        activity,
        last_activity_at,
        escalation_tier,
    })
}

// ---------------------------------------------------------------------------
// Sessions
// ---------------------------------------------------------------------------

/// A stored session, field by field as the table holds it.
#[derive(Debug, Clone)]
pub struct SessionRow {
    pub id: String,
    pub run_id: String,
    pub external_session_id: Option<String>,
    pub ordinal_in_run: i32,
    pub status: String,
    pub started_at: String,
    pub ended_at: Option<String>,
    pub prompt_id: Option<String>,
    pub prompt_manifest_path: Option<String>,
    pub prompt_bytes: i32,
    pub estimated_input_tokens: i32,
    pub estimated_output_tokens: i32,
    pub exit_code: Option<i32>,
    pub stop_reason: Option<String>,
    pub transcript_path: String,
}

pub open spec fn session_row_readable(row: SessionRow) -> bool {
    &&& session_status_from_token(normalize_token_text(row.status@)) is Some
    &&& timestamp_of(row.started_at@) is Some
    &&& optional_timestamp(row.ended_at) is Some
    &&& optional_stop_reason(row.stop_reason) is Some
}

pub open spec fn session_read_as(row: SessionRow, s: ClaudeSessionRecord) -> bool {
    &&& s.id@ == row.id@
    &&& s.run_id@ == row.run_id@
    &&& s.external_session_id == row.external_session_id
    &&& s.ordinal_in_run == row.ordinal_in_run
    &&& Some(s.status) == session_status_from_token(normalize_token_text(row.status@))
    &&& timestamp_of(row.started_at@) == Some(s.started_at)
    &&& optional_timestamp(row.ended_at) == Some(s.ended_at)
    &&& match s.prompt_id {
        Some(id) => row.prompt_id matches Some(t) && id@ == t@,
        None => row.prompt_id is None,
    }
    &&& s.prompt_manifest_path == row.prompt_manifest_path
    &&& s.prompt_bytes == row.prompt_bytes
    &&& s.estimated_input_tokens == row.estimated_input_tokens
    &&& s.estimated_output_tokens == row.estimated_output_tokens
    &&& s.exit_code == row.exit_code
    &&& optional_stop_reason(row.stop_reason) == Some(s.stop_reason)
    &&& s.transcript_path == row.transcript_path
}

pub fn decode_session(row: SessionRow) -> (r: Result<ClaudeSessionRecord, DecodeError>)
    ensures
        r is Ok <==> session_row_readable(row),
        r matches Ok(s) ==> session_read_as(row, s),
        r matches Err(e) ==> Some(e@) == either(
            read_error(
                session_status_from_token(normalize_token_text(row.status@)) is Some,
                "unsupported session status "@,
                row.status@,
            ),
            either(
                timestamp_error(row.started_at@),
                either(
                    optional_timestamp_error(row.ended_at),
                    optional_read_error(row.stop_reason, optional_stop_reason(row.stop_reason) is Some, "unsupported stop reason "@),
                ),
            ),
        ),
{
    let status = match parse_session_status(row.status.as_str()) {
        Ok(v) => v,
        Err(e) => {
            return Err(e);
        },
    };
    let started_at = match parse_timestamp(row.started_at.as_str()) {
        Ok(v) => v,
        Err(e) => {
            return Err(e);
        },
    };
    let ended_at = match read_optional_timestamp(&row.ended_at) {
        Ok(v) => v,
        Err(e) => {
            return Err(e);
        },
    };
    let stop_reason = match read_optional_stop_reason(&row.stop_reason) {
        Ok(v) => v,
        Err(e) => {
            return Err(e);
        },
    };
    let prompt_id = match row.prompt_id {
        Some(t) => Some(PromptId::from_string(t)),
        None => None,
    };
    Ok(ClaudeSessionRecord {
        id: SessionId::from_string(row.id),
        run_id: RunId::from_string(row.run_id),
        external_session_id: row.external_session_id,
        ordinal_in_run: row.ordinal_in_run,
        status,
        started_at,
        ended_at,
        prompt_id,
        prompt_manifest_path: row.prompt_manifest_path,
        prompt_bytes: row.prompt_bytes,
        estimated_input_tokens: row.estimated_input_tokens,
        estimated_output_tokens: row.estimated_output_tokens,
        exit_code: row.exit_code,
        stop_reason,
        transcript_path: row.transcript_path,
    })
}

// ---------------------------------------------------------------------------
// Reservations, leases and handoffs
// ---------------------------------------------------------------------------

/// A stored reservation, field by field as the table holds it.
#[derive(Debug, Clone)]
pub struct ReservationRow {
    pub id: i64,
    pub bead_id: String,
    pub run_id: Option<String>,
    pub path_pattern: String,
    pub exclusive: bool,
    pub reason: Option<String>,
    pub expires_at: String,
    pub released_at: Option<String>,
}

pub fn decode_reservation(row: ReservationRow) -> (r: Result<ReservationRecord, DecodeError>)
    ensures
        r is Ok <==> (timestamp_of(row.expires_at@) is Some && optional_timestamp(row.released_at) is Some),
        r matches Err(e) ==> Some(e@) == either(timestamp_error(row.expires_at@), optional_timestamp_error(row.released_at)),
        r matches Ok(rec) ==> {
            &&& rec.id == row.id
            &&& rec.bead_id@ == row.bead_id@
            &&& match rec.run_id {
                Some(id) => row.run_id matches Some(t) && id@ == t@,
                None => row.run_id is None,
            }
            &&& rec.path_pattern == row.path_pattern
            &&& rec.mode == (if row.exclusive {
                ReservationMode::Exclusive
            } else {
                ReservationMode::Shared
            })
            &&& rec.reason == row.reason
            &&& timestamp_of(row.expires_at@) == Some(rec.expires_at)
            &&& optional_timestamp(row.released_at) == Some(rec.released_at)
        },
{
    let expires_at = match parse_timestamp(row.expires_at.as_str()) {
        Ok(v) => v,
        Err(e) => {
            return Err(e);
        },
    };
    let released_at = match read_optional_timestamp(&row.released_at) {
        Ok(v) => v,
        Err(e) => {
            return Err(e);
        },
    };
    Ok(ReservationRecord {
        id: row.id,
        bead_id: BeadId::from_string(row.bead_id),
        run_id: run_id_of(row.run_id),
        path_pattern: row.path_pattern,
        mode: if row.exclusive {
            ReservationMode::Exclusive
        } else {
            ReservationMode::Shared
        },
        reason: row.reason,
        expires_at,
        released_at,
    })
}

/// A stored leader lease, field by field as the table holds it.
#[derive(Debug, Clone)]
pub struct LeaderLeaseRow {
    pub owner_label: String,
    pub run_id: Option<String>,
    pub acquired_at: String,
    pub heartbeat_at: String,
    pub expires_at: String,
    pub released_at: Option<String>,
}

pub fn decode_leader_lease(row: LeaderLeaseRow) -> (r: Result<LeaderLeaseRecord, DecodeError>)
    ensures
        r is Ok <==> (timestamp_of(row.acquired_at@) is Some && timestamp_of(row.heartbeat_at@) is Some
            && timestamp_of(row.expires_at@) is Some && optional_timestamp(row.released_at) is Some),
        r matches Err(e) ==> Some(e@) == either(
            timestamp_error(row.acquired_at@),
            either(
                timestamp_error(row.heartbeat_at@),
                either(timestamp_error(row.expires_at@), optional_timestamp_error(row.released_at)),
            ),
        ),
        r matches Ok(lease) ==> {
            &&& lease.owner_label == row.owner_label
            &&& match lease.run_id {
                Some(id) => row.run_id matches Some(t) && id@ == t@,
                None => row.run_id is None,
            }
            &&& timestamp_of(row.acquired_at@) == Some(lease.acquired_at)
            &&& timestamp_of(row.heartbeat_at@) == Some(lease.heartbeat_at)
            &&& timestamp_of(row.expires_at@) == Some(lease.expires_at)
            &&& optional_timestamp(row.released_at) == Some(lease.released_at)
        },
{
    let acquired_at = match parse_timestamp(row.acquired_at.as_str()) {
        Ok(v) => v,
        Err(e) => {
            return Err(e);
        },
    };
    let heartbeat_at = match parse_timestamp(row.heartbeat_at.as_str()) {
        Ok(v) => v,
        Err(e) => {
            return Err(e);
        },
    };
    let expires_at = match parse_timestamp(row.expires_at.as_str()) {
        Ok(v) => v,
        Err(e) => {
            return Err(e);
        },
    };
    let released_at = match read_optional_timestamp(&row.released_at) {
        Ok(v) => v,
        Err(e) => {
            return Err(e);
        },
    };
    Ok(LeaderLeaseRecord {
        owner_label: row.owner_label,
        run_id: run_id_of(row.run_id),
        acquired_at,
        heartbeat_at,
        expires_at,
        released_at,
    })
}

/// A stored handoff, field by field as the table holds it.
#[derive(Debug, Clone)]
pub struct HandoffRow {
    pub bead_id: String,
    pub run_id: String,
    pub summary: String,
    pub artifacts_json: String,
    pub lessons_json: String,
    pub decisions_json: String,
    pub warnings_json: String,
    pub completed_at: String,
}

pub fn decode_handoff(row: HandoffRow) -> (r: Result<HandoffRecord, DecodeError>)
    ensures
        r is Ok <==> (json_string_list(row.artifacts_json@) is Some && json_string_list(row.lessons_json@) is Some
            && json_string_list(row.decisions_json@) is Some && json_string_list(row.warnings_json@) is Some
            && timestamp_of(row.completed_at@) is Some),
        r matches Err(e) ==> Some(e@) == either(
            list_error(row.artifacts_json@, "handoff artifacts"@),
            either(
                list_error(row.lessons_json@, "handoff lessons"@),
                either(
                    list_error(row.decisions_json@, "handoff decisions"@),
                    either(list_error(row.warnings_json@, "handoff warnings"@), timestamp_error(row.completed_at@)),
                ),
            ),
        ),
        r matches Ok(h) ==> {
            &&& h.bead_id@ == row.bead_id@
            &&& h.run_id@ == row.run_id@
            &&& h.summary == row.summary
            &&& json_string_list(row.artifacts_json@) == Some(h.artifacts.deep_view())
            &&& json_string_list(row.lessons_json@) == Some(h.lessons.deep_view())
            &&& json_string_list(row.decisions_json@) == Some(h.decisions.deep_view())
            &&& json_string_list(row.warnings_json@) == Some(h.warnings.deep_view())
            &&& timestamp_of(row.completed_at@) == Some(h.completed_at)
        },
{
    let artifacts = match parse_text_list(row.artifacts_json.as_str(), "handoff artifacts") {
        Ok(v) => v,
        Err(e) => {
            return Err(e);
        },
    };
    let lessons = match parse_text_list(row.lessons_json.as_str(), "handoff lessons") {
        Ok(v) => v,
        Err(e) => {
            return Err(e);
        },
    };
    let decisions = match parse_text_list(row.decisions_json.as_str(), "handoff decisions") {
        Ok(v) => v,
        Err(e) => {
            return Err(e);
        },
    };
    let warnings = match parse_text_list(row.warnings_json.as_str(), "handoff warnings") {
        Ok(v) => v,
        Err(e) => {
            return Err(e);
        },
    };
    let completed_at = match parse_timestamp(row.completed_at.as_str()) {
        Ok(v) => v,
        Err(e) => {
            return Err(e);
        },
    };
    Ok(HandoffRecord {
        bead_id: BeadId::from_string(row.bead_id),
        run_id: RunId::from_string(row.run_id),
        summary: row.summary,
        artifacts,
        lessons,
        decisions,
        warnings,
        completed_at,
    })
}

// ---------------------------------------------------------------------------
// Beads
// ---------------------------------------------------------------------------

/// A stored bead with its runtime state, field by field as the tables hold it. The
/// issue's own creation and update times come from its raw JSON, when it names them;
/// the circuit breaker snapshot arrives already read.
#[derive(Debug, Clone)]
pub struct BeadRow {
    pub bead_id: String,
    pub title: String,
    pub description: Option<String>,
    pub priority: i64,
    pub issue_type: String,
    pub br_status: String,
    pub assignee: Option<String>,
    pub labels_json: String,
    pub raw_created_at: Option<String>,
    pub raw_updated_at: Option<String>,
    pub synced_at: String,
    pub grove_status: Option<String>,
    pub declared_paths_json: Option<String>,
    pub last_run_id: Option<String>,
    pub retry_after: Option<String>,
    pub last_failure_class: Option<String>,
    pub last_failure_detail: Option<String>,
    pub circuit_breaker: Option<CircuitBreakerState>,
    pub runtime_updated_at: Option<String>,
}

pub open spec fn optional_grove_status(o: Option<String>) -> Option<Option<GroveBeadStatus>> {
    match o {
        Some(t) => match grove_bead_status_from_token(normalize_token_text(t@)) {
            Some(v) => Some(Some(v)),
            None => None,
        },
        None => Some(None),
    }
}

/// The stored declared paths, an empty list when none are stored.
pub open spec fn declared_paths_text(o: Option<String>) -> Seq<char> {
    match o {
        Some(t) => t@,
        None => "[]"@,
    }
}

pub open spec fn bead_row_readable(row: BeadRow) -> bool {
    &&& timestamp_of(row.synced_at@) is Some
    &&& optional_timestamp(row.raw_created_at) is Some
    &&& optional_timestamp(row.raw_updated_at) is Some
    &&& optional_timestamp(row.runtime_updated_at) is Some
    &&& 0 <= row.priority <= 4
    &&& json_string_list(row.labels_json@) is Some
    &&& optional_grove_status(row.grove_status) is Some
    &&& json_string_list(declared_paths_text(row.declared_paths_json)) is Some
    &&& optional_timestamp(row.retry_after) is Some
    &&& optional_failure_class(row.last_failure_class) is Some
}

/// The error a stored bead fails to read with: that of its first unreadable field.
pub open spec fn bead_row_error(row: BeadRow) -> Option<Seq<char>> {
    either(
        timestamp_error(row.synced_at@),
        either(
            optional_timestamp_error(row.raw_created_at),
            either(
                optional_timestamp_error(row.raw_updated_at),
                either(
                    optional_timestamp_error(row.runtime_updated_at),
                    either(
                        read_error(
                            0 <= row.priority <= 4,
                            "unsupported bead priority value "@,
                            signed_decimal_text(row.priority as int),
                        ),
                        either(
                            list_error(row.labels_json@, "bead labels"@),
                            either(
                                optional_read_error(
                                    row.grove_status,
                                    optional_grove_status(row.grove_status) is Some,
                                    "unsupported grove bead status "@,
                                ),
                                either(
                                    list_error(declared_paths_text(row.declared_paths_json), "declared paths"@),
                                    either(
                                        optional_timestamp_error(row.retry_after),
                                        optional_read_error(
                                            row.last_failure_class,
                                            optional_failure_class(row.last_failure_class) is Some,
                                            "unsupported failure class "@,
                                        ),
                                    ),
                                ),
                            ),
                        ),
                    ),
                ),
            ),
        ),
    )
}

/// Whether `b` is what a readable stored bead reads back as: the issue's creation time
/// falls back to the sync time, its update time to its creation time, the runtime's
/// update time to the issue's, and a missing status to idle.
pub open spec fn bead_read_as(row: BeadRow, b: GroveBeadRecord) -> bool {
    let synced = timestamp_of(row.synced_at@)->0;
    let created = match optional_timestamp(row.raw_created_at)->0 {
        Some(t) => t,
        None => synced,
    };
    let updated = match optional_timestamp(row.raw_updated_at)->0 {
        Some(t) => t,
        None => created,
    };
    &&& b.bead.id@ == row.bead_id@
    &&& b.bead.title == row.title
    &&& b.bead.description == row.description
    &&& priority_number(b.bead.priority) == row.priority
    &&& b.bead.issue_type == row.issue_type
    &&& b.bead.br_status == row.br_status
    &&& b.bead.assignee == row.assignee
    &&& json_string_list(row.labels_json@) == Some(b.bead.labels.deep_view())
    &&& b.bead.created_at == created
    &&& b.bead.updated_at == updated
    &&& b.grove_status == match optional_grove_status(row.grove_status)->0 {
        Some(s) => s,
        None => GroveBeadStatus::Idle,
    }
    &&& json_string_list(declared_paths_text(row.declared_paths_json)) == Some(b.declared_paths.deep_view())
    &&& match b.last_run_id {
        Some(id) => row.last_run_id matches Some(t) && id@ == t@,
        None => row.last_run_id is None,
    }
    &&& optional_timestamp(row.retry_after) == Some(b.retry_after)
    &&& optional_failure_class(row.last_failure_class) == Some(b.last_failure_class)
    &&& b.last_failure_detail == row.last_failure_detail
    &&& b.circuit_breaker_state == row.circuit_breaker
    &&& b.synced_at == synced
    &&& b.runtime_updated_at == match optional_timestamp(row.runtime_updated_at)->0 {
        Some(t) => t,
        None => updated,
    }
}

fn read_optional_grove_status(o: &Option<String>) -> (r: Result<Option<GroveBeadStatus>, DecodeError>)
    ensures
        r is Ok <==> optional_grove_status(*o) is Some,
        r matches Ok(v) ==> optional_grove_status(*o) == Some(v),
        r matches Err(e) ==> optional_read_error(*o, false, "unsupported grove bead status "@) == Some(e@),
{
    match o {
        Some(t) => match parse_grove_bead_status(t.as_str()) {
            Ok(v) => Ok(Some(v)),
            Err(e) => Err(e),
        },
        None => Ok(None),
    }
}

pub fn decode_bead_record(row: BeadRow) -> (r: Result<GroveBeadRecord, DecodeError>)
    ensures
        r is Ok <==> bead_row_readable(row),
        r matches Ok(b) ==> bead_read_as(row, b),
        r matches Err(e) ==> bead_row_error(row) == Some(e@),
{
    proof {
        reveal_strlit("[]");
    }
    let synced_at = match parse_timestamp(row.synced_at.as_str()) {
        Ok(v) => v,
        Err(e) => {
            return Err(e);
        },
    };
    let created_at = match read_optional_timestamp(&row.raw_created_at) {
        Ok(Some(t)) => t,
        Ok(None) => synced_at,
        Err(e) => {
            return Err(e);
        },
    };
    let updated_at = match read_optional_timestamp(&row.raw_updated_at) {
        Ok(Some(t)) => t,
        Ok(None) => created_at,
        Err(e) => {
            return Err(e);
        },
    };
    let runtime_updated_at = match read_optional_timestamp(&row.runtime_updated_at) {
        Ok(Some(t)) => t,
        Ok(None) => updated_at,
        Err(e) => {
            return Err(e);
        },
    };
    let priority = match parse_bead_priority(row.priority) {
        Ok(v) => v,
        Err(e) => {
            return Err(e);
        },
    };
    let labels = match parse_text_list(row.labels_json.as_str(), "bead labels") {
        Ok(v) => v,
        Err(e) => {
            return Err(e);
        },
    };
    let grove_status = match read_optional_grove_status(&row.grove_status) {
        Ok(Some(s)) => s,
        Ok(None) => GroveBeadStatus::Idle,
        Err(e) => {
            return Err(e);
        },
    };
    let declared_paths = match &row.declared_paths_json {
        Some(t) => parse_text_list(t.as_str(), "declared paths"),
        None => parse_text_list("[]", "declared paths"),
    };
    let declared_paths = match declared_paths {
        Ok(v) => v,
        Err(e) => {
            return Err(e);
        },
    };
    let retry_after = match read_optional_timestamp(&row.retry_after) {
        Ok(v) => v,
        Err(e) => {
            return Err(e);
        },
    };
    let last_failure_class = match read_optional_failure_class(&row.last_failure_class) {
        Ok(v) => v,
        Err(e) => {
            return Err(e);
        },
    };
    Ok(GroveBeadRecord {
        bead: BeadRef {
            id: BeadId::from_string(row.bead_id),
            title: row.title,
            description: row.description,
            priority,
            issue_type: row.issue_type,
            br_status: row.br_status,
            assignee: row.assignee,
            labels,
            created_at,
            updated_at,
        },
        grove_status,
        declared_paths,
        last_run_id: run_id_of(row.last_run_id),
        retry_after,
        last_failure_class,
        last_failure_detail: row.last_failure_detail,
        circuit_breaker_state: row.circuit_breaker,
        synced_at,
        runtime_updated_at,
    })
}

} // verus!
