//! The summary the dispatch loop reports when ready work exists but local state holds
//! all of it back: which ready beads are blocked and why, and how often each reason
//! occurs.
use vstd::prelude::*;
use crate::bead::GroveBeadRecord;
use crate::dispatch::{
    dispatchable_now, conflicts_involving, contains_bead_id, ids_contain, reservation_conflicts_for_bead,
    BlockedReasonCount, BlockedSampleBead, BlockedSampleReason, DispatchBlockedSummary,
};
use crate::eligibility::{
    bead_circuit_state, circuit_state_for_bead, collect_local_suppressions, suppressions_for,
    DispatchEligibilityContext, LocalSuppressionReason,
};
use crate::reservation::ReservationConflict;
use crate::text::{lemma_text_lt_irreflexive, lemma_text_lt_transitive, lemma_text_lt_trichotomy, text_eq, text_less, text_lt};
use crate::types::{BeadId, Timestamp};

verus! {

// ---------------------------------------------------------------------------
// Blocked ready beads
// ---------------------------------------------------------------------------

/// The local reasons that hold a ready bead back, judged with its own circuit state and
/// the reservation conflicts that involve it.
pub open spec fn blocking_reasons(
    bead: GroveBeadRecord,
    conflicts: Seq<ReservationConflict>,
    now: Timestamp,
) -> Seq<LocalSuppressionReason> {
    suppressions_for(bead, bead_circuit_state(bead), conflicts_involving(conflicts, bead.bead.id@), now)
}

/// Whether a bead is ready in the issue tracker but held back locally.
pub open spec fn blocked_ready(
    bead: GroveBeadRecord,
    ready_ids: Seq<BeadId>,
    conflicts: Seq<ReservationConflict>,
    now: Timestamp,
) -> bool {
    ids_contain(ready_ids, bead.bead.id@) && blocking_reasons(bead, conflicts, now).len() > 0
}

/// The positions of the blocked ready beads, in order.
pub open spec fn blocked_positions(
    beads: Seq<GroveBeadRecord>,
    ready_ids: Seq<BeadId>,
    conflicts: Seq<ReservationConflict>,
    now: Timestamp,
) -> Seq<int>
    decreases beads.len(),
{
    if beads.len() == 0 {
        Seq::empty()
    } else {
        let earlier = blocked_positions(beads.drop_last(), ready_ids, conflicts, now);
        if blocked_ready(beads.last(), ready_ids, conflicts, now) {
            earlier.push(beads.len() - 1)
        } else {
            earlier
        }
    }
}

proof fn lemma_blocked_positions_prefix(
    beads: Seq<GroveBeadRecord>,
    ready_ids: Seq<BeadId>,
    conflicts: Seq<ReservationConflict>,
    now: Timestamp,
    i: int,
)
    requires
        0 <= i < beads.len(),
    ensures
        blocked_positions(beads.subrange(0, i + 1), ready_ids, conflicts, now) == if blocked_ready(
            beads[i],
            ready_ids,
            conflicts,
            now,
        ) {
            blocked_positions(beads.subrange(0, i), ready_ids, conflicts, now).push(i)
        } else {
            blocked_positions(beads.subrange(0, i), ready_ids, conflicts, now)
        },
{
    assert(beads.subrange(0, i + 1).drop_last() =~= beads.subrange(0, i));
}

/// The ready beads that local state holds back, each as its position in `beads` with
/// its reasons, in order.
pub fn blocked_ready_beads(
    beads: &Vec<GroveBeadRecord>,
    ready_ids: &Vec<BeadId>,
    conflicts: &Vec<ReservationConflict>,
    now: Timestamp,
) -> (r: Vec<(usize, Vec<LocalSuppressionReason>)>)
    ensures
        r.len() == blocked_positions(beads@, ready_ids@, conflicts@, now).len(),
        forall|k: int|
            0 <= k < r.len() ==> {
                &&& (#[trigger] r@[k]).0 == blocked_positions(beads@, ready_ids@, conflicts@, now)[k]
                &&& r@[k].0 < beads.len()
                &&& r@[k].1@ == blocking_reasons(beads@[r@[k].0 as int], conflicts@, now)
            },
{
    let mut out: Vec<(usize, Vec<LocalSuppressionReason>)> = Vec::new();
    let mut i: usize = 0;
    while i < beads.len()
        invariant
            i <= beads.len(),
            out.len() == blocked_positions(beads@.subrange(0, i as int), ready_ids@, conflicts@, now).len(),
            forall|k: int|
                0 <= k < out.len() ==> {
                    &&& (#[trigger] out@[k]).0 == blocked_positions(
                        beads@.subrange(0, i as int),
                        ready_ids@,
                        conflicts@,
                        now,
                    )[k]
                    &&& out@[k].0 < i
                    &&& out@[k].1@ == blocking_reasons(beads@[out@[k].0 as int], conflicts@, now)
                },
        decreases beads.len() - i,
    {
        proof {
            lemma_blocked_positions_prefix(beads@, ready_ids@, conflicts@, now, i as int);
        }
        let bead = &beads[i];
        if contains_bead_id(ready_ids, &bead.bead.id) {
            let context = DispatchEligibilityContext {
                ready_in_br: true,
                circuit_state: circuit_state_for_bead(bead),
                reservation_conflicts: reservation_conflicts_for_bead(bead, conflicts),
                now,
            };
            let reasons = collect_local_suppressions(bead, &context);
            if reasons.len() > 0 {
                out.push((i, reasons));
            }
        }
        i = i + 1;
    }
    assert(beads@.subrange(0, beads.len() as int) =~= beads@);
    out
}

// ---------------------------------------------------------------------------
// Reason counts
// ---------------------------------------------------------------------------

/// A reason as the summary groups it: its code and its summary text.
pub type ReasonKey = (Seq<char>, Seq<char>);

pub open spec fn reason_key(r: BlockedSampleReason) -> ReasonKey {
    (r.code@, r.summary@)
}

pub open spec fn count_key(c: BlockedReasonCount) -> ReasonKey {
    (c.code@, c.summary@)
}

/// The order of reason keys: by code, then by summary.
pub open spec fn key_lt(a: ReasonKey, b: ReasonKey) -> bool {
    text_lt(a.0, b.0) || (a.0 == b.0 && text_lt(a.1, b.1))
}

/// How often a key occurs among the reasons.
pub open spec fn occurrences(reasons: Seq<BlockedSampleReason>, key: ReasonKey) -> nat
    decreases reasons.len(),
{
    if reasons.len() == 0 {
        0
    } else {
        occurrences(reasons.drop_last(), key) + if reason_key(reasons.last()) == key {
            1nat
        } else {
            0nat
        }
    }
}

/// Whether `counts` tallies `reasons`: one entry per key that occurs, in increasing key
/// order, each with the number of times its key occurs.
pub open spec fn tallies(counts: Seq<BlockedReasonCount>, reasons: Seq<BlockedSampleReason>) -> bool {
    &&& forall|i: int, j: int|
        0 <= i < j < counts.len() ==> key_lt(count_key(#[trigger] counts[i]), count_key(#[trigger] counts[j]))
    &&& forall|k: int|
        0 <= k < counts.len() ==> (#[trigger] counts[k]).count == occurrences(reasons, count_key(counts[k]))
            && counts[k].count > 0
    &&& forall|key: ReasonKey|
        occurrences(reasons, key) > 0 ==> exists|k: int| 0 <= k < counts.len() && count_key(#[trigger] counts[k]) == key
}

proof fn lemma_key_lt_irreflexive(a: ReasonKey)
    ensures
        !key_lt(a, a),
{
    lemma_text_lt_irreflexive(a.0);
    lemma_text_lt_irreflexive(a.1);
}

proof fn lemma_key_lt_trichotomy(a: ReasonKey, b: ReasonKey)
    ensures
        a == b || key_lt(a, b) || key_lt(b, a),
        !(key_lt(a, b) && key_lt(b, a)),
{
    lemma_text_lt_trichotomy(a.0, b.0);
    lemma_text_lt_trichotomy(a.1, b.1);
    lemma_text_lt_irreflexive(a.0);
}

proof fn lemma_key_lt_transitive(a: ReasonKey, b: ReasonKey, c: ReasonKey)
    requires
        key_lt(a, b),
        key_lt(b, c),
    ensures
        key_lt(a, c),
{
    if text_lt(a.0, b.0) && text_lt(b.0, c.0) {
        lemma_text_lt_transitive(a.0, b.0, c.0);
    } else if a.0 == b.0 && b.0 == c.0 {
        lemma_text_lt_transitive(a.1, b.1, c.1);
    }
}

proof fn lemma_occurrences_push(reasons: Seq<BlockedSampleReason>, x: BlockedSampleReason, key: ReasonKey)
    ensures
        occurrences(reasons.push(x), key) == occurrences(reasons, key) + if reason_key(x) == key {
            1nat
        } else {
            0nat
        },
{
    assert(reasons.push(x).drop_last() =~= reasons);
}

proof fn lemma_occurrences_bounded(reasons: Seq<BlockedSampleReason>, key: ReasonKey)
    ensures
        occurrences(reasons, key) <= reasons.len(),
    decreases reasons.len(),
{
    if reasons.len() > 0 {
        lemma_occurrences_bounded(reasons.drop_last(), key);
    }
}

fn key_less(a_code: &str, a_summary: &str, b_code: &str, b_summary: &str) -> (r: bool)
    ensures
        r == key_lt((a_code@, a_summary@), (b_code@, b_summary@)),
{
    text_less(a_code, b_code) || (text_eq(a_code, b_code) && text_less(a_summary, b_summary))
}

/// Where a key belongs among the counts: after every smaller key.
fn key_position(counts: &Vec<BlockedReasonCount>, reason: &BlockedSampleReason) -> (j: usize)
    ensures
        j <= counts.len(),
        forall|m: int| 0 <= m < j ==> key_lt(count_key(#[trigger] counts@[m]), reason_key(*reason)),
        j < counts.len() ==> !key_lt(count_key(counts@[j as int]), reason_key(*reason)),
{
    let mut j: usize = 0;
    while j < counts.len()
        invariant
            j <= counts.len(),
            forall|m: int| 0 <= m < j ==> key_lt(count_key(#[trigger] counts@[m]), reason_key(*reason)),
        decreases counts.len() - j,
    {
        if !key_less(counts[j].code, counts[j].summary.as_str(), reason.code, reason.summary.as_str()) {
            return j;
        }
        j = j + 1;
    }
    j
}

/// Counts the reasons by code and summary, in increasing order of code, then summary.
pub fn count_reasons(reasons: &Vec<BlockedSampleReason>) -> (r: Vec<BlockedReasonCount>)
    requires
        reasons.len() < usize::MAX,
    ensures
        tallies(r@, reasons@),
{
    let mut out: Vec<BlockedReasonCount> = Vec::new();
    let mut i: usize = 0;
    while i < reasons.len()
        invariant
            i <= reasons.len(),
            reasons.len() < usize::MAX,
            tallies(out@, reasons@.subrange(0, i as int)),
        decreases reasons.len() - i,
    {
        let ghost before = reasons@.subrange(0, i as int);
        let ghost after = reasons@.subrange(0, i + 1);
        let ghost old_out = out@;
        let reason = &reasons[i];
        let ghost rk = reason_key(*reason);
        proof {
            assert(after =~= before.push(*reason));
            assert forall|key: ReasonKey| #[trigger] occurrences(after, key) == occurrences(before, key) + if rk == key {
                1nat
            } else {
                0nat
            } by {
                lemma_occurrences_push(before, *reason, key);
            }
        }
        let j = key_position(&out, reason);
        if j < out.len() && text_eq(out[j].code, reason.code) && text_eq(out[j].summary.as_str(), reason.summary.as_str()) {
            proof {
                lemma_occurrences_bounded(before, rk);
                assert(count_key(old_out[j as int]) == rk);
            }
            let updated = BlockedReasonCount {
                code: out[j].code,
                summary: out[j].summary.clone(),
                count: out[j].count + 1,
            };
            out.set(j, updated);
            proof {
                assert forall|k: int| 0 <= k < old_out.len() && k != j implies count_key(#[trigger] old_out[k]) != rk by {
                    if k < j {
                        lemma_key_lt_irreflexive(rk);
                    } else {
                        lemma_key_lt_irreflexive(rk);
                    }
                }
                assert forall|i1: int, j1: int| 0 <= i1 < j1 < out.len() implies key_lt(
                    count_key(#[trigger] out@[i1]),
                    count_key(#[trigger] out@[j1]),
                ) by {
                    assert(count_key(out@[i1]) == count_key(old_out[i1]));
                    assert(count_key(out@[j1]) == count_key(old_out[j1]));
                }
                assert forall|k: int| 0 <= k < out.len() implies (#[trigger] out@[k]).count == occurrences(
                    after,
                    count_key(out@[k]),
                ) && out@[k].count > 0 by {
                    assert(count_key(out@[k]) == count_key(old_out[k]));
                }
                assert forall|key: ReasonKey| occurrences(after, key) > 0 implies exists|k: int|
                    0 <= k < out.len() && count_key(#[trigger] out@[k]) == key by {
                    if key == rk {
                        assert(count_key(out@[j as int]) == key);
                    } else {
                        assert(occurrences(before, key) > 0);
                        let k = choose|k: int| 0 <= k < old_out.len() && count_key(#[trigger] old_out[k]) == key;
                        assert(count_key(out@[k]) == key);
                    }
                }
            }
        } else {
            proof {
                lemma_key_lt_irreflexive(rk);
                if occurrences(before, rk) > 0 {
                    let k = choose|k: int| 0 <= k < old_out.len() && count_key(#[trigger] old_out[k]) == rk;
                    if k > j {
                        assert(key_lt(count_key(old_out[j as int]), count_key(old_out[k])));
                    }
                    assert(false);
                }
                if j < old_out.len() {
                    lemma_key_lt_trichotomy(count_key(old_out[j as int]), rk);
                    assert(key_lt(rk, count_key(old_out[j as int])));
                }
            }
            out.insert(j, BlockedReasonCount { code: reason.code, summary: reason.summary.clone(), count: 1 });
            proof {
                assert forall|k: int| 0 <= k < old_out.len() implies count_key(#[trigger] old_out[k]) != rk by {
                    if k < j {
                    } else {
                        if k > j {
                            lemma_key_lt_transitive(rk, count_key(old_out[j as int]), count_key(old_out[k]));
                        }
                    }
                }
                assert forall|i1: int, j1: int| 0 <= i1 < j1 < out.len() implies key_lt(
                    count_key(#[trigger] out@[i1]),
                    count_key(#[trigger] out@[j1]),
                ) by {
                    if j1 < j {
                        assert(out@[i1] == old_out[i1] && out@[j1] == old_out[j1]);
                    } else if j1 == j {
                        assert(out@[i1] == old_out[i1]);
                    } else if i1 < j {
                        assert(out@[i1] == old_out[i1] && out@[j1] == old_out[j1 - 1]);
                        if j1 - 1 > j {
                            lemma_key_lt_transitive(rk, count_key(old_out[j as int]), count_key(old_out[j1 - 1]));
                        }
                        lemma_key_lt_transitive(count_key(old_out[i1]), rk, count_key(old_out[j1 - 1]));
                    } else if i1 == j {
                        assert(out@[j1] == old_out[j1 - 1]);
                        if j1 - 1 > j {
                            lemma_key_lt_transitive(rk, count_key(old_out[j as int]), count_key(old_out[j1 - 1]));
                        }
                    } else {
                        assert(out@[i1] == old_out[i1 - 1] && out@[j1] == old_out[j1 - 1]);
                    }
                }
                assert forall|k: int| 0 <= k < out.len() implies (#[trigger] out@[k]).count == occurrences(
                    after,
                    count_key(out@[k]),
                ) && out@[k].count > 0 by {
                    if k < j {
                        assert(out@[k] == old_out[k]);
                    } else if k > j {
                        assert(out@[k] == old_out[k - 1]);
                    }
                }
                assert forall|key: ReasonKey| occurrences(after, key) > 0 implies exists|k: int|
                    0 <= k < out.len() && count_key(#[trigger] out@[k]) == key by {
                    if key == rk {
                        assert(count_key(out@[j as int]) == key);
                    } else {
                        assert(occurrences(before, key) > 0);
                        let k = choose|k: int| 0 <= k < old_out.len() && count_key(#[trigger] old_out[k]) == key;
                        if k < j {
                            assert(out@[k] == old_out[k]);
                        } else {
                            assert(out@[k + 1] == old_out[k]);
                        }
                    }
                }
            }
        }
        i = i + 1;
    }
    assert(reasons@.subrange(0, reasons.len() as int) =~= reasons@);
    out
}

// ---------------------------------------------------------------------------
// The summary
// ---------------------------------------------------------------------------

/// How many beads the summary names as samples.
pub const SAMPLE_BEADS: usize = 3;

/// The reasons of every blocked bead, one after the other.
pub open spec fn all_reasons(blocked: Seq<(usize, Vec<BlockedSampleReason>)>) -> Seq<BlockedSampleReason>
    decreases blocked.len(),
{
    if blocked.len() == 0 {
        Seq::empty()
    } else {
        all_reasons(blocked.drop_last()) + blocked.last().1@
    }
}

fn copy_reasons(reasons: &Vec<BlockedSampleReason>) -> (r: Vec<BlockedSampleReason>)
    ensures
        r@ == reasons@,
{
    let mut out: Vec<BlockedSampleReason> = Vec::new();
    let mut i: usize = 0;
    while i < reasons.len()
        invariant
            i <= reasons.len(),
            out@ == reasons@.subrange(0, i as int),
        decreases reasons.len() - i,
    {
        out.push(BlockedSampleReason { code: reasons[i].code, summary: reasons[i].summary.clone() });
        assert(out@ =~= reasons@.subrange(0, i + 1));
        i = i + 1;
    }
    out
}

/// The blocked-work summary: `None` when no ready bead is blocked; otherwise how many
/// are, each reason with the number of times it holds a bead back, and the first three
/// blocked beads with their reasons. `blocked` lists the blocked ready beads as
/// positions in `beads`, with their reasons as the summary reports them.
pub fn summarize_blocked(
    beads: &Vec<GroveBeadRecord>,
    blocked: &Vec<(usize, Vec<BlockedSampleReason>)>,
) -> (r: Option<DispatchBlockedSummary>)
    requires
        forall|k: int| 0 <= k < blocked.len() ==> (#[trigger] blocked@[k]).0 < beads.len(),
        all_reasons(blocked@).len() < usize::MAX,
    ensures
        blocked.len() == 0 <==> r is None,
        r matches Some(summary) ==> {
            &&& summary.blocked_ready_count == blocked.len()
            &&& tallies(summary.reason_counts@, all_reasons(blocked@))
            &&& summary.sample_beads.len() == if blocked.len() < SAMPLE_BEADS {
                blocked.len()
            } else {
                SAMPLE_BEADS
            }
            &&& forall|k: int|
                0 <= k < summary.sample_beads.len() ==> {
                    &&& (#[trigger] summary.sample_beads@[k]).bead_id == beads@[blocked@[k].0 as int].bead.id
                    &&& summary.sample_beads@[k].reasons@ == blocked@[k].1@
                }
        },
{
    if blocked.len() == 0 {
        return None;
    }
    let mut reasons: Vec<BlockedSampleReason> = Vec::new();
    let mut samples: Vec<BlockedSampleBead> = Vec::new();
    let mut i: usize = 0;
    while i < blocked.len()
        invariant
            i <= blocked.len(),
            forall|k: int| 0 <= k < blocked.len() ==> (#[trigger] blocked@[k]).0 < beads.len(),
            reasons@ == all_reasons(blocked@.subrange(0, i as int)),
            samples.len() == if i < SAMPLE_BEADS {
                i
            } else {
                SAMPLE_BEADS
            },
            forall|k: int|
                0 <= k < samples.len() ==> {
                    &&& (#[trigger] samples@[k]).bead_id == beads@[blocked@[k].0 as int].bead.id
                    &&& samples@[k].reasons@ == blocked@[k].1@
                },
        decreases blocked.len() - i,
    {
        assert(blocked@.subrange(0, i + 1).drop_last() =~= blocked@.subrange(0, i as int));
        let (position, bead_reasons) = &blocked[i];
        let mut copied = copy_reasons(bead_reasons);
        if samples.len() < SAMPLE_BEADS {
            samples.push(BlockedSampleBead { bead_id: beads[*position].bead.id.duplicate(), reasons: copy_reasons(bead_reasons) });
        }
        reasons.append(&mut copied);
        i = i + 1;
    }
    assert(blocked@.subrange(0, blocked.len() as int) =~= blocked@);
    Some(DispatchBlockedSummary { blocked_ready_count: blocked.len(), reason_counts: count_reasons(&reasons), sample_beads: samples })
}

/// A ready bead is either dispatchable now or counted as blocked, never both and never
/// neither.
pub proof fn lemma_ready_bead_dispatchable_or_blocked(
    bead: GroveBeadRecord,
    ready_ids: Seq<BeadId>,
    conflicts: Seq<ReservationConflict>,
    now: Timestamp,
)
    requires
        ids_contain(ready_ids, bead.bead.id@),
    ensures
        dispatchable_now(bead, ready_ids, Seq::empty(), conflicts, now) != blocked_ready(bead, ready_ids, conflicts, now),
{
    assert(!ids_contain(Seq::<BeadId>::empty(), bead.bead.id@));
}

} // verus!
