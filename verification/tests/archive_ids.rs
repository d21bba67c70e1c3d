use grove_core::archive::{
    extract_markdown_snippets, ingest_transcript_to_archive, snippets_from_captures, protocol_message_text, MessageRole,
    MessageSource, TranscriptEvent,
};
use grove_core::ids::{
    checkpoint_id_for, inverted_bullet_id, lesson_bullet_id, mirror_operation_id,
    prompt_id_for_run, prompt_manifest_path_for, run_id_for, session_id_for_run,
    transcript_path_for,
};
use grove_core::records::{CheckpointPayload, ProtocolEvent};
use grove_core::rows::parse_timestamp;
use grove_core::types::{BeadId, BulletId, PromptId, RunId, SessionId, Timestamp};

fn ts(text: &str) -> Timestamp {
    parse_timestamp(text).expect("valid timestamp")
}

#[test]
fn identifiers_follow_their_formats() {
    let bead = BeadId::new("grove-1");
    let run = run_id_for(&bead, "20260316T120000");
    assert_eq!(run.as_str(), "run-grove-1-20260316T120000");
    assert_eq!(session_id_for_run(&run).as_str(), "ses-run-grove-1-20260316T120000");
    assert_eq!(prompt_id_for_run(&RunId::new("run-1")).as_str(), "prompt-run-1");
    assert_eq!(checkpoint_id_for(&RunId::new("run-1"), 2).as_str(), "chk-run-1-2");
    assert_eq!(checkpoint_id_for(&RunId::new("run-1"), -3).as_str(), "chk-run-1--3");
    assert_eq!(lesson_bullet_id(&RunId::new("run-1"), 12).as_str(), "blt-run-1-12");
    assert_eq!(inverted_bullet_id(&BulletId::new("blt-1")).as_str(), "blt-1-inv");
    assert_eq!(mirror_operation_id(&bead, &RunId::new("run-1")), "mirror-grove-1-run-1");
    assert_eq!(
        transcript_path_for(&bead, &SessionId::new("ses-1")),
        ".grove/transcripts/grove-1/ses-1.jsonl"
    );
    assert_eq!(prompt_manifest_path_for(&PromptId::new("prompt-1")), ".grove/prompts/prompt-1.json");
}

#[test]
fn markdown_fences_become_snippets() {
    let content = "intro\n```rust\nfn main() {}\n```\nthen\n```\nplain\n```";
    let snippets = extract_markdown_snippets(content);
    assert_eq!(snippets.len(), 2);
    assert_eq!(snippets[0].language.as_deref(), Some("rust"));
    assert_eq!(snippets[0].snippet_text.as_deref(), Some("fn main() {}\n"));
    assert_eq!(snippets[1].language, None);
    assert_eq!(snippets[1].snippet_text.as_deref(), Some("plain\n"));
    assert!(extract_markdown_snippets("no fences here").is_empty());
}

#[test]
fn protocol_events_render_as_marker_lines() {
    assert_eq!(
        protocol_message_text(&ProtocolEvent::Result { summary: "done".into() }),
        "GROVE_RESULT: done"
    );
    assert_eq!(
        protocol_message_text(&ProtocolEvent::Artifacts { items: vec!["a".into(), "b".into()] }),
        "GROVE_ARTIFACTS: a, b"
    );
    assert_eq!(
        protocol_message_text(&ProtocolEvent::Warnings { items: vec!["x".into(), "y".into()] }),
        "GROVE_WARNINGS: x | y"
    );
    assert_eq!(protocol_message_text(&ProtocolEvent::Exit { value: false }), "GROVE_EXIT: false");
    assert_eq!(
        protocol_message_text(&ProtocolEvent::Checkpoint {
            payload: CheckpointPayload {
                progress: "half".into(),
                next_step: "rest".into(),
                open_questions: Vec::new(),
                claimed_paths: Vec::new(),
            },
        }),
        "GROVE_CHECKPOINT: progress=half next_step=rest"
    );
}

#[test]
fn transcripts_archive_output_lines_and_markers() {
    let events = vec![
        TranscriptEvent::SessionStarted { ts: ts("2026-03-16T10:00:00Z") },
        TranscriptEvent::StdoutLine { line: "```sh\nls\n```".into(), ts: ts("2026-03-16T10:00:01Z") },
        TranscriptEvent::StderrLine { line: "warning".into(), ts: ts("2026-03-16T10:00:02Z") },
        TranscriptEvent::ParsedProtocol {
            event: ProtocolEvent::Result { summary: "ok".into() },
            ts: ts("2026-03-16T10:00:03Z"),
        },
        TranscriptEvent::SessionEnded { ts: ts("2026-03-16T10:00:04Z") },
    ];
    let conversation = ingest_transcript_to_archive(
        BeadId::new("grove-1"),
        RunId::new("run-1"),
        SessionId::new("ses-1"),
        &events,
    );
    assert_eq!(conversation.started_at, Some(ts("2026-03-16T10:00:00Z")));
    assert_eq!(conversation.ended_at, Some(ts("2026-03-16T10:00:04Z")));
    assert_eq!(conversation.messages.len(), 3);
    assert_eq!(conversation.message_count, 3);
    assert_eq!(conversation.source_id, "transcript");
    assert_eq!(conversation.source_path, ".");
    assert_eq!(conversation.bead_id.as_str(), "grove-1");
    assert_eq!(conversation.run_id.as_str(), "run-1");
    let stdout = &conversation.messages[0];
    assert_eq!(stdout.idx, 1);
    assert_eq!(stdout.role, MessageRole::Agent);
    assert_eq!(stdout.source, MessageSource::Stdout);
    assert_eq!(stdout.snippets.len(), 1);
    assert_eq!(stdout.snippets[0].language.as_deref(), Some("sh"));
    let stderr = &conversation.messages[1];
    assert_eq!(stderr.idx, 2);
    assert_eq!(stderr.role, MessageRole::System);
    assert_eq!(stderr.author, None);
    let marker = &conversation.messages[2];
    assert_eq!(marker.content, "GROVE_RESULT: ok");
    assert_eq!(marker.author.as_deref(), Some("grove-protocol"));
    assert_eq!(marker.source, MessageSource::Protocol);
    assert!(marker.snippets.is_empty());
}

#[test]
fn snippets_take_the_language_and_text_of_each_match() {
    let pairs = vec![
        (Some("rust".to_owned()), Some("fn main() {}\n".to_owned())),
        (None, Some("plain\n".to_owned())),
    ];
    let snippets = snippets_from_captures(&pairs);
    assert_eq!(snippets.len(), 2);
    assert_eq!(snippets[0].language.as_deref(), Some("rust"));
    assert_eq!(snippets[0].snippet_text.as_deref(), Some("fn main() {}\n"));
    assert_eq!(snippets[1].language, None);
    assert_eq!(snippets[1].snippet_text.as_deref(), Some("plain\n"));
}
