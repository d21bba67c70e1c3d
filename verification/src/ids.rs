//! How the identifiers of runs, sessions, prompts, checkpoints, playbook bullets and
//! mirror operations are derived from one another.
use vstd::prelude::*;
use crate::text::{append_decimal, append_signed_decimal, decimal_text, owned, signed_decimal_text};
use crate::types::{BeadId, BulletId, CheckpointId, PromptId, RunId, SessionId};

verus! {

/// `run-<bead>-<stamp>`, where `stamp` renders the start time of the run.
pub fn run_id_for(bead_id: &BeadId, stamp: &str) -> (r: RunId)
    ensures
        r@ == "run-"@ + bead_id@ + "-"@ + stamp@,
{
    let mut s = owned("run-");
    s.append(bead_id.as_str());
    s.append("-");
    s.append(stamp);
    RunId::from_string(s)
}

/// `ses-<run>`, the session started for a freshly dispatched run.
pub fn session_id_for_run(run_id: &RunId) -> (r: SessionId)
    ensures
        r@ == "ses-"@ + run_id@,
{
    let mut s = owned("ses-");
    s.append(run_id.as_str());
    SessionId::from_string(s)
}

/// `prompt-<run>`, the prompt materialized for a run.
pub fn prompt_id_for_run(run_id: &RunId) -> (r: PromptId)
    ensures
        r@ == "prompt-"@ + run_id@,
{
    let mut s = owned("prompt-");
    s.append(run_id.as_str());
    PromptId::from_string(s)
}

/// `chk-<run>-<ordinal>`, the checkpoint saved by the session with that ordinal.
pub fn checkpoint_id_for(run_id: &RunId, ordinal_in_run: i32) -> (r: CheckpointId)
    ensures
        r@ == "chk-"@ + run_id@ + "-"@ + signed_decimal_text(ordinal_in_run as int),
{
    let mut s = owned("chk-");
    s.append(run_id.as_str());
    s.append("-");
    append_signed_decimal(&mut s, ordinal_in_run as i64);
    CheckpointId::from_string(s)
}

/// `blt-<run>-<n>`, the `n`-th bullet created from the lessons of a run.
pub fn lesson_bullet_id(run_id: &RunId, created: u64) -> (r: BulletId)
    ensures
        r@ == "blt-"@ + run_id@ + "-"@ + decimal_text(created as nat),
{
    let mut s = owned("blt-");
    s.append(run_id.as_str());
    s.append("-");
    append_decimal(&mut s, created);
    BulletId::from_string(s)
}

/// `<bullet>-inv`, the anti-pattern that replaces an inverted rule.
pub fn inverted_bullet_id(bullet_id: &BulletId) -> (r: BulletId)
    ensures
        r@ == bullet_id@ + "-inv"@,
{
    let mut s = owned(bullet_id.as_str());
    s.append("-inv");
    BulletId::from_string(s)
}

/// `mirror-<bead>-<run>`, the mirror outbox operation of a run.
pub fn mirror_operation_id(bead_id: &BeadId, run_id: &RunId) -> (r: String)
    ensures
        r@ == "mirror-"@ + bead_id@ + "-"@ + run_id@,
{
    let mut s = owned("mirror-");
    s.append(bead_id.as_str());
    s.append("-");
    s.append(run_id.as_str());
    s
}

/// `.grove/transcripts/<bead>/<session>.jsonl`, where a session's transcript is kept,
/// relative to the workspace.
pub fn transcript_path_for(bead_id: &BeadId, session_id: &SessionId) -> (r: String)
    ensures
        r@ == ".grove/transcripts/"@ + bead_id@ + "/"@ + session_id@ + ".jsonl"@,
{
    let mut s = owned(".grove/transcripts/");
    s.append(bead_id.as_str());
    s.append("/");
    s.append(session_id.as_str());
    s.append(".jsonl");
    s
}

/// `.grove/prompts/<prompt>.json`, where a prompt's manifest is kept, relative to the
/// workspace.
pub fn prompt_manifest_path_for(prompt_id: &PromptId) -> (r: String)
    ensures
        r@ == ".grove/prompts/"@ + prompt_id@ + ".json"@,
{
    let mut s = owned(".grove/prompts/");
    s.append(prompt_id.as_str());
    s.append(".json");
    s
}

} // verus!
