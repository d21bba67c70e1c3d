//! Metrics of one run, aggregated from its event log.
use vstd::prelude::*;
use crate::coordinator::nanos_of;
use crate::text::{char_is_alphanumeric, owned, push_char, text_eq, to_lowercase, unicode_alphanumeric, unicode_lowercase};
use crate::codec::{event_kind_from_token, normalize_token_text, parse_event_kind, DecodeError};
use crate::types::{EventKind, RunId, Timestamp};

verus! {

/// What the metrics read of one logged event: its kind and the escalation tier its
/// payload names, if it names one as text.
#[derive(Debug, Clone, PartialEq, Eq)]
pub struct MetricsEvent {
    pub kind: EventKind,
    pub escalation_tier: Option<String>,
}

/// Metrics of one run.
#[derive(Debug, Clone, PartialEq, Eq)]
pub struct RunMetrics {
    pub run_id: RunId,
    pub total_duration_secs: u64,
    pub checkpoints_taken: u32,
    pub retries_attempted: u32,
    pub rescue_injections: u32,
    pub reactions_invoked: u32,
    pub max_escalation_tier: u8,
    pub termination_reason: Option<String>,
}

/// How many events have `kind`.
pub open spec fn kind_count(events: Seq<MetricsEvent>, kind: EventKind) -> nat
    decreases events.len(),
{
    if events.len() == 0 {
        0
    } else {
        kind_count(events.drop_last(), kind) + if events.last().kind == kind {
            1nat
        } else {
            0nat
        }
    }
}

/// The alphanumeric characters of a text, in order.
pub open spec fn alnum_only(s: Seq<char>) -> Seq<char>
    decreases s.len(),
{
    if s.len() == 0 {
        s
    } else if unicode_alphanumeric(s.last()) {
        alnum_only(s.drop_last()).push(s.last())
    } else {
        alnum_only(s.drop_last())
    }
}

/// The rank of a normalized tier name.
pub open spec fn tier_rank_of_token(t: Seq<char>) -> Option<nat> {
    if t == "firstattempt"@ {
        Some(0nat)
    } else if t == "secondattempt"@ {
        Some(1nat)
    } else if t == "thirdattempt"@ {
        Some(2nat)
    } else if t == "finalattempt"@ {
        Some(3nat)
    } else if t == "giveup"@ {
        Some(4nat)
    } else {
        None
    }
}

/// The tier rank an event names: its tier text, reduced to its alphanumeric characters
/// and lowercased.
pub open spec fn event_tier_rank(e: MetricsEvent) -> Option<nat> {
    match e.escalation_tier {
        Some(t) => tier_rank_of_token(unicode_lowercase(alnum_only(t@))),
        None => None,
    }
}

/// The highest tier rank the events name, zero when none does.
pub open spec fn max_tier_rank(events: Seq<MetricsEvent>) -> nat
    decreases events.len(),
{
    if events.len() == 0 {
        0
    } else {
        let rest = max_tier_rank(events.drop_last());
        match event_tier_rank(events.last()) {
            Some(r) => if r > rest {
                r
            } else {
                rest
            },
            None => rest,
        }
    }
}

/// The first event that ends the run, successfully or not.
pub open spec fn first_termination(events: Seq<MetricsEvent>) -> Option<EventKind>
    decreases events.len(),
{
    if events.len() == 0 {
        None
    } else {
        match first_termination(events.drop_last()) {
            Some(k) => Some(k),
            None => if events.last().kind is RunSucceeded || events.last().kind is RunFailed {
                Some(events.last().kind)
            } else {
                None
            },
        }
    }
}

/// The whole seconds from `started` to `ended`, truncated toward zero.
pub open spec fn signed_duration_secs(started: Timestamp, ended: Timestamp) -> int {
    let d = nanos_of(ended) - nanos_of(started);
    if d >= 0 {
        d / 1_000_000_000
    } else {
        -((-d) / 1_000_000_000)
    }
}

/// The reason a run ended: the first run-succeeded or run-failed event, by its name,
/// or `Ended` when the run has an end time but no such event.
pub open spec fn termination_text(events: Seq<MetricsEvent>, ended: Option<Timestamp>) -> Option<Seq<char>> {
    match first_termination(events) {
        Some(k) => Some(k.name_text()),
        None => if ended is Some {
            Some("Ended"@)
        } else {
            None
        },
    }
}

fn count_kind(events: &Vec<MetricsEvent>, kind: EventKind) -> (r: usize)
    ensures
        r == kind_count(events@, kind),
{
    let mut count: usize = 0;
    let mut i: usize = 0;
    while i < events.len()
        invariant
            i <= events.len(),
            count <= i,
            count == kind_count(events@.subrange(0, i as int), kind),
        decreases events.len() - i,
    {
        assert(events@.subrange(0, i + 1).drop_last() =~= events@.subrange(0, i as int));
        if events[i].kind == kind {
            count = count + 1;
        }
        i = i + 1;
    }
    assert(events@.subrange(0, events.len() as int) =~= events@);
    count
}

fn keep_alphanumeric(s: &str) -> (r: String)
    ensures
        r@ == alnum_only(s@),
{
    let n = s.unicode_len();
    let mut out = String::new();
    let mut i: usize = 0;
    while i < n
        invariant
            n == s@.len(),
            i <= n,
            out@ == alnum_only(s@.subrange(0, i as int)),
        decreases n - i,
    {
        let c = s.get_char(i);
        assert(s@.subrange(0, i + 1).drop_last() =~= s@.subrange(0, i as int));
        if char_is_alphanumeric(c) {
            push_char(&mut out, c);
        }
        i = i + 1;
    }
    assert(s@.subrange(0, n as int) =~= s@);
    out
}

fn tier_rank(e: &MetricsEvent) -> (r: Option<u8>)
    ensures
        match r {
            Some(v) => event_tier_rank(*e) == Some(v as nat),
            None => event_tier_rank(*e) is None,
        },
{
    match &e.escalation_tier {
        None => None,
        Some(t) => {
            let token = to_lowercase(keep_alphanumeric(t.as_str()).as_str());
            if text_eq(token.as_str(), "firstattempt") {
                Some(0)
            } else if text_eq(token.as_str(), "secondattempt") {
                Some(1)
            } else if text_eq(token.as_str(), "thirdattempt") {
                Some(2)
            } else if text_eq(token.as_str(), "finalattempt") {
                Some(3)
            } else if text_eq(token.as_str(), "giveup") {
                Some(4)
            } else {
                None
            }
        },
    }
}

proof fn lemma_max_tier_rank_bounded(events: Seq<MetricsEvent>)
    ensures
        max_tier_rank(events) <= 4,
    decreases events.len(),
{
    if events.len() > 0 {
        lemma_max_tier_rank_bounded(events.drop_last());
    }
}

/// Whether `r` is the metrics of run `run_id` with `events` (in log order), started at
/// `started`, ended at `ended` and checkpointed `checkpoint_count` times. A duration is
/// cut to whole seconds toward zero and stored as the two's complement bits of its
/// 64-bit value.
pub open spec fn is_run_metrics(
    r: RunMetrics,
    run_id: RunId,
    events: Seq<MetricsEvent>,
    started: Timestamp,
    ended: Option<Timestamp>,
    checkpoint_count: i32,
) -> bool {
    &&& r.run_id == run_id
    &&& r.total_duration_secs == match ended {
        Some(e) => (signed_duration_secs(started, e) as i64) as u64,
        None => 0,
    }
    &&& r.checkpoints_taken == checkpoint_count as u32
    &&& r.retries_attempted == (if kind_count(events, EventKind::RunStarted) > 0 {
        kind_count(events, EventKind::RunStarted) - 1
    } else {
        0
    }) as u32
    &&& r.rescue_injections == kind_count(events, EventKind::EscalationTierChanged) as u32
    &&& r.reactions_invoked == kind_count(events, EventKind::ReactionInvoked) as u32
    &&& r.max_escalation_tier == max_tier_rank(events)
    &&& match r.termination_reason {
        Some(t) => termination_text(events, ended) == Some(t@),
        None => termination_text(events, ended) is None,
    }
}

/// Aggregates the metrics of a run from its events (in log order), its start and end,
/// and its checkpoint count.
pub fn run_metrics(
    run_id: &RunId,
    events: &Vec<MetricsEvent>,
    started: Timestamp,
    ended: Option<Timestamp>,
    checkpoint_count: i32,
) -> (r: RunMetrics)
    ensures
        is_run_metrics(r, *run_id, events@, started, ended, checkpoint_count),
{
    let total_duration_secs: u64 = match ended {
        Some(e) => {
            let d: i128 = (e.secs as i128 - started.secs as i128) * 1_000_000_000 + (e.nanos as i128
                - started.nanos as i128);
            let secs: i128 = if d >= 0 {
                d / 1_000_000_000
            } else {
                -((-d) / 1_000_000_000)
            };
            let secs64: i64 = secs as i64;
            secs64 as u64
        },
        None => 0,
    };
    let started_count = count_kind(events, EventKind::RunStarted);
    let retries = if started_count > 0 {
        started_count - 1
    } else {
        0
    };
    let rescue = count_kind(events, EventKind::EscalationTierChanged);
    let reactions = count_kind(events, EventKind::ReactionInvoked);
    let mut max_tier: u8 = 0;
    let mut termination: Option<EventKind> = None;
    let mut i: usize = 0;
    while i < events.len()
        invariant
            i <= events.len(),
            max_tier == max_tier_rank(events@.subrange(0, i as int)),
            termination == first_termination(events@.subrange(0, i as int)),
        decreases events.len() - i,
    {
        let ghost pre = events@.subrange(0, i as int);
        assert(events@.subrange(0, i + 1).drop_last() =~= pre);
        proof {
            lemma_max_tier_rank_bounded(pre);
        }
        match tier_rank(&events[i]) {
            Some(rank) => {
                if rank > max_tier {
                    max_tier = rank;
                }
            },
            None => {},
        }
        if termination.is_none() {
            match events[i].kind {
                EventKind::RunSucceeded | EventKind::RunFailed => {
                    termination = Some(events[i].kind);
                },
                _ => {},
            }
        }
        i = i + 1;
    }
    assert(events@.subrange(0, events.len() as int) =~= events@);
    let termination_reason = match termination {
        Some(kind) => Some(owned(kind.name())),
        None => match ended {
            Some(_) => Some(owned("Ended")),
            None => None,
        },
    };
    RunMetrics {
        run_id: run_id.duplicate(),
        total_duration_secs,
        checkpoints_taken: checkpoint_count as u32,
        retries_attempted: retries as u32,
        rescue_injections: rescue as u32,
        reactions_invoked: reactions as u32,
        max_escalation_tier: max_tier,
        termination_reason,
    }
}

/// The metrics of a run as the store reports them: none when the run has logged no
/// event or has no row (`run` holds its start, end and checkpoint count), and otherwise
/// the aggregate of its events.
pub fn metrics_for_run(
    run_id: &RunId,
    events: &Vec<MetricsEvent>,
    run: Option<(Timestamp, Option<Timestamp>, i32)>,
) -> (r: Option<RunMetrics>)
    ensures
        r is None <==> (events.len() == 0 || run is None),
        r matches Some(m) ==> run matches Some((started, ended, checkpoint_count)) && is_run_metrics(
            m,
            *run_id,
            events@,
            started,
            ended,
            checkpoint_count,
        ),
{
    if events.len() == 0 {
        return None;
    }
    match run {
        None => None,
        Some((started, ended, checkpoint_count)) => Some(run_metrics(run_id, events, started, ended, checkpoint_count)),
    }
}

/// What serde_json reads of a text as one field of a JSON value: `None` when the text
/// is not JSON; otherwise the field `key` when the value is an object that has it as a
/// string, and `Some(None)` when it has not.
pub uninterp spec fn json_text_field(text: Seq<char>, key: Seq<char>) -> Option<Option<Seq<char>>>;

/// `serde_json::from_str::<serde_json::Value>`, then `Value::get` and `Value::as_str` on
/// the result. The contract names the result and claims only that it depends on the
/// text and the key alone.
#[verifier::external_body]
fn read_json_text_field(text: &str, key: &str) -> (r: Option<Option<String>>)
    ensures
        match r {
            Some(Some(v)) => json_text_field(text@, key@) == Some(Some(v@)),
            Some(None) => json_text_field(text@, key@) == Some(None::<Seq<char>>),
            None => json_text_field(text@, key@) is None,
        },
{
    match serde_json::from_str::<serde_json::Value>(text) {
        Ok(value) => Some(value.get(key).and_then(|field| field.as_str()).map(|field| field.to_owned())),
        Err(_) => None,
    }
}

/// The error of a logged event whose payload is not JSON.
pub open spec fn payload_error_text() -> Seq<char> {
    "parse event payload"@
}

/// What the metrics read of a logged event: its kind from its stored name, and the
/// escalation tier its JSON payload names as text. An unknown kind or a payload that is
/// not JSON is an error.
pub fn metrics_event_from_log(kind: &str, payload: &str) -> (r: Result<MetricsEvent, DecodeError>)
    ensures
        r is Ok <==> (event_kind_from_token(normalize_token_text(kind@)) is Some && json_text_field(
            payload@,
            "escalation_tier"@,
        ) is Some),
        r matches Ok(e) ==> {
            &&& Some(e.kind) == event_kind_from_token(normalize_token_text(kind@))
            &&& json_text_field(payload@, "escalation_tier"@) == Some(
                match e.escalation_tier {
                    Some(t) => Some(t@),
                    None => None,
                },
            )
        },
        r matches Err(e) ==> e@ == if event_kind_from_token(normalize_token_text(kind@)) is None {
            "unsupported event kind "@ + kind@
        } else {
            payload_error_text()
        },
{
    let kind = match parse_event_kind(kind) {
        Ok(k) => k,
        Err(e) => return Err(e),
    };
    match read_json_text_field(payload, "escalation_tier") {
        Some(tier) => Ok(MetricsEvent { kind, escalation_tier: tier }),
        None => Err(DecodeError { message: owned("parse event payload") }),
    }
}

} // verus!
