//! Turning a session transcript into an archived conversation: one message per output
//! line or protocol marker, with the fenced code blocks of each line as snippets.
use vstd::prelude::*;
use crate::records::ProtocolEvent;
use crate::text::{join, join_text, owned};
use crate::types::{BeadId, RunId, SessionId, Timestamp};

verus! {

/// One event of a replayed transcript.
#[derive(Debug, Clone, PartialEq, Eq)]
pub enum TranscriptEvent {
    SessionStarted { ts: Timestamp },
    SessionEnded { ts: Timestamp },
    StdoutLine { line: String, ts: Timestamp },
    StderrLine { line: String, ts: Timestamp },
    ParsedProtocol { event: ProtocolEvent, ts: Timestamp },
}

/// Who a message is from.
#[derive(Debug, Clone, Copy, PartialEq, Eq, Structural)]
pub enum MessageRole {
    Agent,
    System,
}

/// Where a message came from in the transcript.
#[derive(Debug, Clone, Copy, PartialEq, Eq, Structural)]
pub enum MessageSource {
    Stdout,
    Stderr,
    Protocol,
}

/// A fenced code block found in a message: its language tag and its text.
#[derive(Debug, Clone, PartialEq, Eq)]
pub struct SnippetRecord {
    pub language: Option<String>,
    pub snippet_text: Option<String>,
}

/// One archived message.
#[derive(Debug, Clone, PartialEq, Eq)]
pub struct MessageRecord {
    pub idx: i64,
    pub role: MessageRole,
    pub author: Option<String>,
    pub created_at: Option<Timestamp>,
    pub content: String,
    pub source: MessageSource,
    pub snippets: Vec<SnippetRecord>,
}

/// An archived conversation: the messages of one session.
#[derive(Debug, Clone, PartialEq, Eq)]
pub struct ConversationRecord {
    pub bead_id: BeadId,
    pub run_id: RunId,
    pub session_id: SessionId,
    pub started_at: Option<Timestamp>,
    pub ended_at: Option<Timestamp>,
    /// The number of messages, which the conversation's metadata records.
    pub message_count: usize,
    /// Where the conversation came from: the transcript source, at the workspace root.
    pub source_id: String,
    pub source_path: String,
    pub messages: Vec<MessageRecord>,
}

/// The pattern of a fenced code block: an optional language tag after the opening
/// fence, a newline, then the text up to the next fence.
pub open spec fn fence_pattern() -> Seq<char> {
    "(?s)```(\\w+)?\\n(.*?)```"@
}

/// The first two capture groups of every match of a regular expression in a text, as
/// the regex crate finds them; empty when the pattern does not compile.
pub uninterp spec fn regex_capture_pairs(pattern: Seq<char>, text: Seq<char>) -> Seq<(Option<Seq<char>>, Option<Seq<char>>)>;

/// `regex::Regex::new` then `Regex::captures_iter`, each match taken as its first two
/// groups. The contract names the result and claims only that it depends on the
/// pattern and the text alone.
#[verifier::external_body]
fn capture_pairs(pattern: &str, text: &str) -> (r: Vec<(Option<String>, Option<String>)>)
    ensures
        r@.map_values(|p: (Option<String>, Option<String>)| pair_view(p)) == regex_capture_pairs(pattern@, text@),
{
    match regex::Regex::new(pattern) {
        Ok(re) => re.captures_iter(text).map(|c| (c.get(1).map(|m| m.as_str().to_string()), c.get(2).map(|m| m.as_str().to_string()))).collect(),
        Err(_) => Vec::new(),
    }
}

pub open spec fn opt_view(o: Option<String>) -> Option<Seq<char>> {
    match o {
        Some(s) => Some(s@),
        None => None,
    }
}

pub open spec fn pair_view(p: (Option<String>, Option<String>)) -> (Option<Seq<char>>, Option<Seq<char>>) {
    (opt_view(p.0), opt_view(p.1))
}

pub open spec fn snippet_view(s: SnippetRecord) -> (Option<Seq<char>>, Option<Seq<char>>) {
    (opt_view(s.language), opt_view(s.snippet_text))
}

/// The fenced code blocks of a line, in order.
pub fn extract_markdown_snippets(content: &str) -> (r: Vec<SnippetRecord>)
    ensures
        r@.map_values(|s: SnippetRecord| snippet_view(s)) == regex_capture_pairs(fence_pattern(), content@),
{
    snippets_from_captures(&capture_pairs("(?s)```(\\w+)?\\n(.*?)```", content))
}

/// One snippet per match of the fence pattern: its first group as the language, its
/// second as the text.
pub fn snippets_from_captures(pairs: &Vec<(Option<String>, Option<String>)>) -> (r: Vec<SnippetRecord>)
    ensures
        r@.map_values(|s: SnippetRecord| snippet_view(s)) == pairs@.map_values(
            |p: (Option<String>, Option<String>)| pair_view(p),
        ),
{
    let mut out: Vec<SnippetRecord> = Vec::new();
    let mut i: usize = 0;
    while i < pairs.len()
        invariant
            i <= pairs.len(),
            out@.map_values(|s: SnippetRecord| snippet_view(s)) == pairs@.map_values(
                |p: (Option<String>, Option<String>)| pair_view(p),
            ).subrange(0, i as int),
        decreases pairs.len() - i,
    {
        let (language, text) = &pairs[i];
        let snippet = SnippetRecord {
            language: match language {
                Some(l) => Some(l.clone()),
                None => None,
            },
            snippet_text: match text {
                Some(t) => Some(t.clone()),
                None => None,
            },
        };
        let ghost before = out@;
        out.push(snippet);
        assert(out@.map_values(|s: SnippetRecord| snippet_view(s)) =~= before.map_values(|s: SnippetRecord| snippet_view(s)).push(
            snippet_view(snippet),
        ));
        i = i + 1;
        assert(out@.map_values(|s: SnippetRecord| snippet_view(s)) =~= pairs@.map_values(
            |p: (Option<String>, Option<String>)| pair_view(p),
        ).subrange(0, i as int));
    }
    assert(pairs@.map_values(|p: (Option<String>, Option<String>)| pair_view(p)).subrange(0, pairs.len() as int)
        =~= pairs@.map_values(|p: (Option<String>, Option<String>)| pair_view(p)));
    out
}

/// The text archived for a protocol marker.
pub open spec fn protocol_text(event: ProtocolEvent) -> Seq<char> {
    match event {
        ProtocolEvent::Result { summary } => "GROVE_RESULT: "@ + summary@,
        ProtocolEvent::Artifacts { items } => "GROVE_ARTIFACTS: "@ + join_text(items.deep_view(), ", "@),
        ProtocolEvent::Lessons { items } => "GROVE_LESSONS: "@ + join_text(items.deep_view(), " | "@),
        ProtocolEvent::Decisions { items } => "GROVE_DECISIONS: "@ + join_text(items.deep_view(), " | "@),
        ProtocolEvent::Warnings { items } => "GROVE_WARNINGS: "@ + join_text(items.deep_view(), " | "@),
        ProtocolEvent::Exit { value } => "GROVE_EXIT: "@ + if value {
            "true"@
        } else {
            "false"@
        },
        ProtocolEvent::Checkpoint { payload } => "GROVE_CHECKPOINT: progress="@ + payload.progress@
            + " next_step="@ + payload.next_step@,
    }
}

pub fn protocol_message_text(event: &ProtocolEvent) -> (r: String)
    ensures
        r@ == protocol_text(*event),
{
    let (prefix, body) = match event {
        ProtocolEvent::Result { summary } => ("GROVE_RESULT: ", summary.clone()),
        ProtocolEvent::Artifacts { items } => ("GROVE_ARTIFACTS: ", join(items, ", ")),
        ProtocolEvent::Lessons { items } => ("GROVE_LESSONS: ", join(items, " | ")),
        ProtocolEvent::Decisions { items } => ("GROVE_DECISIONS: ", join(items, " | ")),
        ProtocolEvent::Warnings { items } => ("GROVE_WARNINGS: ", join(items, " | ")),
        ProtocolEvent::Exit { value } => ("GROVE_EXIT: ", owned(if *value {
            "true"
        } else {
            "false"
        })),
        ProtocolEvent::Checkpoint { payload } => {
            let mut s = owned(payload.progress.as_str());
            s.append(" next_step=");
            s.append(payload.next_step.as_str());
            ("GROVE_CHECKPOINT: progress=", s)
        },
    };
    let mut out = owned(prefix);
    out.append(body.as_str());
    out
}

/// The message an event becomes, if any: output lines and protocol markers become
/// messages; session start and end do not.
pub open spec fn message_for(event: TranscriptEvent) -> Option<(MessageRole, Option<Seq<char>>, Option<Timestamp>, Seq<char>, MessageSource)> {
    match event {
        TranscriptEvent::StdoutLine { line, ts } => Some((MessageRole::Agent, Some("sonnet"@), Some(ts), line@, MessageSource::Stdout)),
        TranscriptEvent::StderrLine { line, ts } => Some((MessageRole::System, None, Some(ts), line@, MessageSource::Stderr)),
        TranscriptEvent::ParsedProtocol { event, ts } => Some((MessageRole::System, Some("grove-protocol"@), Some(ts), protocol_text(event), MessageSource::Protocol)),
        _ => None,
    }
}

/// The messages of a transcript, in order, each with its event's position as a
/// 64-bit signed integer.
pub open spec fn transcript_messages(events: Seq<TranscriptEvent>) -> Seq<(i64, (MessageRole, Option<Seq<char>>, Option<Timestamp>, Seq<char>, MessageSource))>
    decreases events.len(),
{
    if events.len() == 0 {
        Seq::empty()
    } else {
        let idx = events.len() - 1;
        transcript_messages(events.drop_last()) + match message_for(events.last()) {
            Some(m) => seq![(idx as i64, m)],
            None => Seq::empty(),
        }
    }
}

/// When the transcript's session started: its first start event.
pub open spec fn first_start(events: Seq<TranscriptEvent>) -> Option<Timestamp>
    decreases events.len(),
{
    if events.len() == 0 {
        None
    } else {
        match first_start(events.drop_last()) {
            Some(t) => Some(t),
            None => match events.last() {
                TranscriptEvent::SessionStarted { ts } => Some(ts),
                _ => None,
            },
        }
    }
}

/// When the transcript's session ended: its last end event.
pub open spec fn last_end(events: Seq<TranscriptEvent>) -> Option<Timestamp>
    decreases events.len(),
{
    if events.len() == 0 {
        None
    } else {
        match events.last() {
            TranscriptEvent::SessionEnded { ts } => Some(ts),
            _ => last_end(events.drop_last()),
        }
    }
}

pub open spec fn message_view(m: MessageRecord) -> (i64, (MessageRole, Option<Seq<char>>, Option<Timestamp>, Seq<char>, MessageSource)) {
    (m.idx, (m.role, opt_view(m.author), m.created_at, m.content@, m.source))
}

proof fn lemma_last_end_prefix(events: Seq<TranscriptEvent>, i: int)
    requires
        0 <= i < events.len(),
    ensures
        last_end(events.subrange(0, i + 1)) == match events[i] {
            TranscriptEvent::SessionEnded { ts } => Some(ts),
            _ => last_end(events.subrange(0, i)),
        },
{
    let pre = events.subrange(0, i + 1);
    assert(pre.drop_last() =~= events.subrange(0, i));
    assert(pre.last() == events[i]);
}

/// Archives the transcript of one session.
pub fn ingest_transcript_to_archive(
    bead_id: BeadId,
    run_id: RunId,
    session_id: SessionId,
    events: &Vec<TranscriptEvent>,
) -> (r: ConversationRecord)
    ensures
        r.bead_id == bead_id,
        r.run_id == run_id,
        r.session_id == session_id,
        r.started_at == first_start(events@),
        r.ended_at == last_end(events@),
        r.message_count == r.messages.len(),
        r.source_id@ == "transcript"@,
        r.source_path@ == "."@,
        r.messages@.map_values(|m: MessageRecord| message_view(m)) == transcript_messages(events@),
        forall|k: int| 0 <= k < r.messages.len() ==> (#[trigger] r.messages@[k]).snippets@.map_values(
            |s: SnippetRecord| snippet_view(s),
        ) == match r.messages@[k].source {
            MessageSource::Protocol => Seq::empty(),
            _ => regex_capture_pairs(fence_pattern(), r.messages@[k].content@),
        },
{
    let mut started_at: Option<Timestamp> = None;
    let mut ended_at: Option<Timestamp> = None;
    let mut messages: Vec<MessageRecord> = Vec::new();
    let mut i: usize = 0;
    while i < events.len()
        invariant
            i <= events.len(),
            started_at == first_start(events@.subrange(0, i as int)),
            ended_at == last_end(events@.subrange(0, i as int)),
            messages@.map_values(|m: MessageRecord| message_view(m)) == transcript_messages(events@.subrange(0, i as int)),
            forall|k: int| 0 <= k < messages.len() ==> (#[trigger] messages@[k]).snippets@.map_values(
                |s: SnippetRecord| snippet_view(s),
            ) == match messages@[k].source {
                MessageSource::Protocol => Seq::empty(),
                _ => regex_capture_pairs(fence_pattern(), messages@[k].content@),
            },
        decreases events.len() - i,
    {
        let ghost pre = events@.subrange(0, i as int);
        let ghost next = events@.subrange(0, i + 1);
        assert(next.drop_last() =~= pre);
        assert(next.last() == events@[i as int]);
        proof {
            lemma_last_end_prefix(events@, i as int);
        }
        let ghost before = messages@;
        let message = match &events[i] {
            TranscriptEvent::SessionStarted { ts } => {
                if started_at.is_none() {
                    started_at = Some(*ts);
                }
                None
            },
            TranscriptEvent::SessionEnded { ts } => {
                ended_at = Some(*ts);
                None
            },
            TranscriptEvent::StdoutLine { line, ts } => Some(
                MessageRecord {
                    idx: i as i64,
                    role: MessageRole::Agent,
                    author: Some(owned("sonnet")),
                    created_at: Some(*ts),
                    content: line.clone(),
                    source: MessageSource::Stdout,
                    snippets: extract_markdown_snippets(line.as_str()),
                },
            ),
            TranscriptEvent::StderrLine { line, ts } => Some(
                MessageRecord {
                    idx: i as i64,
                    role: MessageRole::System,
                    author: None,
                    created_at: Some(*ts),
                    content: line.clone(),
                    source: MessageSource::Stderr,
                    snippets: extract_markdown_snippets(line.as_str()),
                },
            ),
            TranscriptEvent::ParsedProtocol { event, ts } => Some(
                MessageRecord {
                    idx: i as i64,
                    role: MessageRole::System,
                    author: Some(owned("grove-protocol")),
                    created_at: Some(*ts),
                    content: protocol_message_text(event),
                    source: MessageSource::Protocol,
                    snippets: Vec::new(),
                },
            ),
        };
        match message {
            Some(m) => {
                let ghost mv = message_view(m);
                messages.push(m);
                assert(messages@.map_values(|m: MessageRecord| message_view(m)) =~= before.map_values(
                    |m: MessageRecord| message_view(m),
                ).push(mv));
                assert(m.snippets@.map_values(|s: SnippetRecord| snippet_view(s)) =~= match m.source {
                    MessageSource::Protocol => Seq::empty(),
                    _ => regex_capture_pairs(fence_pattern(), m.content@),
                });
            },
            None => {
                assert(messages@.map_values(|m: MessageRecord| message_view(m)) =~= before.map_values(
                    |m: MessageRecord| message_view(m),
                ) + Seq::empty());
            },
        }
        i = i + 1;
    }
    assert(events@.subrange(0, events.len() as int) =~= events@);
    let message_count = messages.len();
    ConversationRecord {
        bead_id,
        run_id,
        session_id,
        started_at,
        ended_at,
        message_count,
        source_id: owned("transcript"),
        source_path: owned("."),
        messages,
    }
}

} // verus!
