//! File reservations: when two path patterns overlap, which held reservations conflict
//! with a request, and which reservations a release or a refresh touches.
use vstd::prelude::*;
use crate::text::{strip_trailing, text_eq, trim, trim_text, trim_trailing_char};
use crate::records::RecoveryReason;
use crate::types::{BeadId, RunId, ReservationMode, RunStatus, Timestamp};

verus! {

// ---------------------------------------------------------------------------
// Pattern overlap
// ---------------------------------------------------------------------------

/// Whether the glob `pattern` matches the path `candidate`, with `*` and `?` not
/// crossing `/` (glob `Pattern::new` followed by `matches_with` with
/// `require_literal_separator`); a pattern that does not compile matches nothing.
pub uninterp spec fn glob_matches(pattern: Seq<char>, candidate: Seq<char>) -> bool;

/// glob `Pattern::new(pattern)` then `Pattern::matches_with(candidate, options)` with
/// `require_literal_separator: true` and the other options at their defaults (case
/// sensitive, `*` may match a leading dot). The contract names the result
/// `glob_matches(pattern, candidate)`; what glob matching is, it does not restate.
#[verifier::external_body]
fn glob_match_path(pattern: &str, candidate: &str) -> (r: bool)
    ensures
        r == glob_matches(pattern@, candidate@),
{
    glob::Pattern::new(pattern).is_ok_and(
        |glob| glob.matches_with(candidate, glob::MatchOptions {
            require_literal_separator: true,
            ..glob::MatchOptions::new()
        }),
    )
}

/// A reservation pattern without surrounding whitespace and trailing slashes.
pub open spec fn normalized_pattern(pattern: Seq<char>) -> Seq<char> {
    strip_trailing(trim_text(pattern), '/')
}

/// Whether two reservation patterns can name a common path.
pub open spec fn patterns_overlap(left: Seq<char>, right: Seq<char>) -> bool {
    let l = normalized_pattern(left);
    let r = normalized_pattern(right);
    l == r || glob_matches(l, r) || glob_matches(r, l)
}

pub fn normalize_reservation_pattern(pattern: &str) -> (r: &str)
    ensures
        r@ == normalized_pattern(pattern@),
{
    trim_trailing_char(trim(pattern), '/')
}

/// Whether two reservation patterns overlap: equal once normalised, or one matches
/// the other as a glob.
pub fn reservation_patterns_overlap(left: &str, right: &str) -> (r: bool)
    ensures
        r == patterns_overlap(left@, right@),
{
    let left = normalize_reservation_pattern(left);
    let right = normalize_reservation_pattern(right);
    if text_eq(left, right) {
        return true;
    }
    glob_match_path(left, right) || glob_match_path(right, left)
}

/// Overlap does not depend on the order of the two patterns.
pub proof fn lemma_overlap_symmetric(left: Seq<char>, right: Seq<char>)
    ensures
        patterns_overlap(left, right) == patterns_overlap(right, left),
{
}

/// Every pattern overlaps itself.
pub proof fn lemma_overlap_reflexive(pattern: Seq<char>)
    ensures
        patterns_overlap(pattern, pattern),
{
}

// ---------------------------------------------------------------------------
// Records
// ---------------------------------------------------------------------------

/// A request to reserve paths for a bead.
#[derive(Debug, Clone, PartialEq, Eq)]
pub struct ReservationRequest {
    pub path_pattern: String,
    pub mode: ReservationMode,
    pub reason: Option<String>,
    pub expires_at: Timestamp,
}

/// A persisted reservation.
#[derive(Debug, Clone, PartialEq, Eq)]
pub struct ReservationRecord {
    pub id: i64,
    pub bead_id: BeadId,
    pub run_id: Option<RunId>,
    pub path_pattern: String,
    pub mode: ReservationMode,
    pub reason: Option<String>,
    pub expires_at: Timestamp,
    pub released_at: Option<Timestamp>,
}

/// A held reservation that blocks a request.
#[derive(Debug, Clone, PartialEq, Eq)]
pub struct ReservationConflict {
    pub requested_by_bead: BeadId,
    pub conflicting_bead: BeadId,
    pub requested_pattern: String,
    pub held_pattern: String,
    pub conflicting_run_id: Option<RunId>,
}

/// Plain-value image of a conflict: requesting bead, holding bead, requested
/// pattern, held pattern and the holder's run.
pub type ConflictView = (Seq<char>, Seq<char>, Seq<char>, Seq<char>, Option<Seq<char>>);

pub open spec fn run_view(run: Option<RunId>) -> Option<Seq<char>> {
    match run {
        Some(r) => Some(r@),
        None => None,
    }
}

impl View for ReservationConflict {
    type V = ConflictView;

    open spec fn view(&self) -> ConflictView {
        (
            self.requested_by_bead@,
            self.conflicting_bead@,
            self.requested_pattern@,
            self.held_pattern@,
            run_view(self.conflicting_run_id),
        )
    }
}

pub open spec fn conflict_views(v: Seq<ReservationConflict>) -> Seq<ConflictView> {
    Seq::new(v.len(), |i: int| v[i]@)
}

fn copy_text(text: &Option<String>) -> (r: Option<String>)
    ensures
        r == *text,
{
    match text {
        Some(t) => Some(t.clone()),
        None => None,
    }
}

/// An equal copy of a reservation record.
pub fn copy_record(record: &ReservationRecord) -> (r: ReservationRecord)
    ensures
        r == *record,
{
    ReservationRecord {
        id: record.id,
        bead_id: record.bead_id.duplicate(),
        run_id: copy_run(&record.run_id),
        path_pattern: record.path_pattern.clone(),
        mode: record.mode,
        reason: copy_text(&record.reason),
        expires_at: record.expires_at,
        released_at: record.released_at,
    }
}

/// An equal copy of a conflict.
pub fn copy_conflict(conflict: &ReservationConflict) -> (r: ReservationConflict)
    ensures
        r == *conflict,
{
    ReservationConflict {
        requested_by_bead: conflict.requested_by_bead.duplicate(),
        conflicting_bead: conflict.conflicting_bead.duplicate(),
        requested_pattern: conflict.requested_pattern.clone(),
        held_pattern: conflict.held_pattern.clone(),
        conflicting_run_id: copy_run(&conflict.conflicting_run_id),
    }
}

fn copy_run(run: &Option<RunId>) -> (r: Option<RunId>)
    ensures
        r == *run,
{
    match run {
        Some(id) => Some(id.duplicate()),
        None => None,
    }
}

// ---------------------------------------------------------------------------
// Conflicts
// ---------------------------------------------------------------------------

/// Whether the held reservation `held` blocks `request` from `bead`: another bead
/// holds it, one of the two is exclusive and the patterns overlap.
pub open spec fn blocks_request(
    bead: Seq<char>,
    pattern: Seq<char>,
    mode: ReservationMode,
    held: ReservationRecord,
) -> bool {
    &&& held.bead_id@ != bead
    &&& (mode is Exclusive || held.mode is Exclusive)
    &&& patterns_overlap(pattern, held.path_pattern@)
}

/// The conflicts that the held reservations cause for one requested pattern, in the
/// order of the held reservations.
pub open spec fn request_conflicts(
    bead: Seq<char>,
    pattern: Seq<char>,
    mode: ReservationMode,
    active: Seq<ReservationRecord>,
) -> Seq<ConflictView>
    decreases active.len(),
{
    if active.len() == 0 {
        Seq::empty()
    } else {
        let prefix = request_conflicts(bead, pattern, mode, active.drop_last());
        let held = active.last();
        if blocks_request(bead, pattern, mode, held) {
            prefix.push((bead, held.bead_id@, pattern, held.path_pattern@, run_view(held.run_id)))
        } else {
            prefix
        }
    }
}

/// The conflicts that a request from `bead_id` meets among the active reservations.
pub fn conflicts_for_request(
    bead_id: &BeadId,
    request: &ReservationRequest,
    active: &Vec<ReservationRecord>,
) -> (r: Vec<ReservationConflict>)
    ensures
        conflict_views(r@) == request_conflicts(
            bead_id@,
            request.path_pattern@,
            request.mode,
            active@,
        ),
{
    let mut out: Vec<ReservationConflict> = Vec::new();
    let mut i: usize = 0;
    while i < active.len()
        invariant
            i <= active.len(),
            conflict_views(out@) == request_conflicts(
                bead_id@,
                request.path_pattern@,
                request.mode,
                active@.subrange(0, i as int),
            ),
        decreases active.len() - i,
    {
        let held = &active[i];
        let ghost pre = active@.subrange(0, i as int);
        assert(active@.subrange(0, i + 1).drop_last() =~= pre);
        let other_bead = !held.bead_id.same_as(bead_id);
        let exclusive = match request.mode {
            ReservationMode::Exclusive => true,
            ReservationMode::Shared => match held.mode {
                ReservationMode::Exclusive => true,
                ReservationMode::Shared => false,
            },
        };
        if other_bead && exclusive && reservation_patterns_overlap(
            request.path_pattern.as_str(),
            held.path_pattern.as_str(),
        ) {
            let conflict = ReservationConflict {
                requested_by_bead: bead_id.duplicate(),
                conflicting_bead: held.bead_id.duplicate(),
                requested_pattern: request.path_pattern.clone(),
                held_pattern: held.path_pattern.clone(),
                conflicting_run_id: copy_run(&held.run_id),
            };
            let ghost before = out@;
            out.push(conflict);
            assert(conflict_views(out@) =~= conflict_views(before).push(conflict@));
        }
        i = i + 1;
    }
    assert(active@.subrange(0, active.len() as int) =~= active@);
    out
}

/// The conflicts of every request, request by request.
pub open spec fn all_request_conflicts(
    bead: Seq<char>,
    requests: Seq<ReservationRequest>,
    active: Seq<ReservationRecord>,
) -> Seq<ConflictView>
    decreases requests.len(),
{
    if requests.len() == 0 {
        Seq::empty()
    } else {
        let last = requests.last();
        all_request_conflicts(bead, requests.drop_last(), active) + request_conflicts(
            bead,
            last.path_pattern@,
            last.mode,
            active,
        )
    }
}

/// The conflicts that a batch of requests meets; a batch is granted only when this
/// is empty.
pub fn conflicts_for_requests(
    bead_id: &BeadId,
    requests: &Vec<ReservationRequest>,
    active: &Vec<ReservationRecord>,
) -> (r: Vec<ReservationConflict>)
    ensures
        conflict_views(r@) == all_request_conflicts(bead_id@, requests@, active@),
{
    let mut out: Vec<ReservationConflict> = Vec::new();
    let mut i: usize = 0;
    while i < requests.len()
        invariant
            i <= requests.len(),
            conflict_views(out@) == all_request_conflicts(
                bead_id@,
                requests@.subrange(0, i as int),
                active@,
            ),
        decreases requests.len() - i,
    {
        let ghost pre = requests@.subrange(0, i as int);
        assert(requests@.subrange(0, i + 1).drop_last() =~= pre);
        let mut found = conflicts_for_request(bead_id, &requests[i], active);
        let ghost before = out@;
        let ghost found_view = found@;
        out.append(&mut found);
        assert(conflict_views(out@) =~= conflict_views(before) + conflict_views(found_view));
        i = i + 1;
    }
    assert(requests@.subrange(0, requests.len() as int) =~= requests@);
    out
}

/// A reservation never conflicts with one held by the requesting bead itself.
pub proof fn lemma_conflicts_name_other_beads(
    bead: Seq<char>,
    pattern: Seq<char>,
    mode: ReservationMode,
    active: Seq<ReservationRecord>,
)
    ensures
        forall|i: int|
            0 <= i < request_conflicts(bead, pattern, mode, active).len() ==> {
                let c = #[trigger] request_conflicts(bead, pattern, mode, active)[i];
                &&& c.0 == bead
                &&& c.1 != bead
                &&& c.2 == pattern
            },
    decreases active.len(),
{
    if active.len() > 0 {
        let prefix = request_conflicts(bead, pattern, mode, active.drop_last());
        lemma_conflicts_name_other_beads(bead, pattern, mode, active.drop_last());
        let all = request_conflicts(bead, pattern, mode, active);
        assert forall|i: int| 0 <= i < all.len() implies ({
            let c = #[trigger] all[i];
            &&& c.0 == bead
            &&& c.1 != bead
            &&& c.2 == pattern
        }) by {
            if i < prefix.len() {
                assert(all[i] == prefix[i]);
            }
        }
    }
}

/// A held reservation that blocks a request always shows up as a conflict: a batch
/// containing that request is refused.
pub proof fn lemma_blocking_hold_is_reported(
    bead: Seq<char>,
    pattern: Seq<char>,
    mode: ReservationMode,
    active: Seq<ReservationRecord>,
    k: int,
)
    requires
        0 <= k < active.len(),
        blocks_request(bead, pattern, mode, active[k]),
    ensures
        request_conflicts(bead, pattern, mode, active).len() > 0,
    decreases active.len(),
{
    if k < active.len() - 1 {
        lemma_blocking_hold_is_reported(bead, pattern, mode, active.drop_last(), k);
    }
}

/// A conflict is reported for every reservation of another bead that overlaps the
/// requested pattern when either side is exclusive: an exclusive hold blocks every
/// request, shared ones included, and an exclusive request is blocked by every hold.
pub proof fn lemma_exclusive_overlap_is_a_conflict(
    bead: Seq<char>,
    pattern: Seq<char>,
    mode: ReservationMode,
    active: Seq<ReservationRecord>,
    k: int,
)
    requires
        0 <= k < active.len(),
        active[k].bead_id@ != bead,
        mode is Exclusive || active[k].mode is Exclusive,
        patterns_overlap(pattern, active[k].path_pattern@),
    ensures
        exists|j: int|
            0 <= j < request_conflicts(bead, pattern, mode, active).len() && #[trigger] request_conflicts(
                bead,
                pattern,
                mode,
                active,
            )[j] == (bead, active[k].bead_id@, pattern, active[k].path_pattern@, run_view(active[k].run_id)),
    decreases active.len(),
{
    let all = request_conflicts(bead, pattern, mode, active);
    if k < active.len() - 1 {
        let shorter = active.drop_last();
        assert(shorter[k] == active[k]);
        lemma_exclusive_overlap_is_a_conflict(bead, pattern, mode, shorter, k);
        let prefix = request_conflicts(bead, pattern, mode, shorter);
        let j = choose|j: int|
            0 <= j < prefix.len() && #[trigger] prefix[j] == (
                bead,
                shorter[k].bead_id@,
                pattern,
                shorter[k].path_pattern@,
                run_view(shorter[k].run_id),
            );
        assert(all[j] == prefix[j]);
    } else {
        let prefix = request_conflicts(bead, pattern, mode, active.drop_last());
        assert(active.last() == active[k]);
        assert(all[prefix.len() as int] == (
            bead,
            active[k].bead_id@,
            pattern,
            active[k].path_pattern@,
            run_view(active[k].run_id),
        ));
    }
}

/// Whether `c` is the conflict that `held` causes for a request of `pattern` in `mode`
/// by `bead`: it names the holder, and another bead holds an overlapping pattern with
/// one of the two sides exclusive.
pub open spec fn conflict_from_hold(
    c: ConflictView,
    bead: Seq<char>,
    pattern: Seq<char>,
    mode: ReservationMode,
    held: ReservationRecord,
) -> bool {
    &&& c == (bead, held.bead_id@, pattern, held.path_pattern@, run_view(held.run_id))
    &&& held.bead_id@ != bead
    &&& (mode is Exclusive || held.mode is Exclusive)
    &&& patterns_overlap(pattern, held.path_pattern@)
}

/// Every reported conflict comes from a reservation of another bead that overlaps the
/// requested pattern, with at least one of the two exclusive.
pub proof fn lemma_conflicts_come_from_blocking_holds(
    bead: Seq<char>,
    pattern: Seq<char>,
    mode: ReservationMode,
    active: Seq<ReservationRecord>,
)
    ensures
        request_conflicts(bead, pattern, mode, active).len() <= active.len(),
        forall|j: int|
            #![trigger request_conflicts(bead, pattern, mode, active)[j]]
            0 <= j < request_conflicts(bead, pattern, mode, active).len() ==> exists|k: int|
                #![trigger active[k]]
                0 <= k < active.len() && conflict_from_hold(
                    request_conflicts(bead, pattern, mode, active)[j],
                    bead,
                    pattern,
                    mode,
                    active[k],
                ),
    decreases active.len(),
{
    if active.len() > 0 {
        let shorter = active.drop_last();
        lemma_conflicts_come_from_blocking_holds(bead, pattern, mode, shorter);
        let prefix = request_conflicts(bead, pattern, mode, shorter);
        let all = request_conflicts(bead, pattern, mode, active);
        assert forall|j: int| #![trigger all[j]] 0 <= j < all.len() implies exists|k: int|
            #![trigger active[k]]
            0 <= k < active.len() && conflict_from_hold(all[j], bead, pattern, mode, active[k]) by {
            if j < prefix.len() {
                assert(all[j] == prefix[j]);
                let k = choose|k: int|
                    #![trigger shorter[k]]
                    0 <= k < shorter.len() && conflict_from_hold(prefix[j], bead, pattern, mode, shorter[k]);
                assert(shorter[k] == active[k]);
                assert(conflict_from_hold(all[j], bead, pattern, mode, active[k]));
            } else {
                let k = active.len() - 1;
                assert(active.last() == active[k]);
                assert(conflict_from_hold(all[j], bead, pattern, mode, active[k]));
            }
        }
    }
}

/// A batch in which some request is blocked, by another bead's overlapping reservation
/// with either side exclusive, meets a conflict and so is refused whole.
pub proof fn lemma_blocked_request_refuses_the_batch(
    bead: Seq<char>,
    requests: Seq<ReservationRequest>,
    active: Seq<ReservationRecord>,
    i: int,
    k: int,
)
    requires
        0 <= i < requests.len(),
        0 <= k < active.len(),
        active[k].bead_id@ != bead,
        requests[i].mode is Exclusive || active[k].mode is Exclusive,
        patterns_overlap(requests[i].path_pattern@, active[k].path_pattern@),
    ensures
        all_request_conflicts(bead, requests, active).len() > 0,
    decreases requests.len(),
{
    if i < requests.len() - 1 {
        assert(requests.drop_last()[i] == requests[i]);
        lemma_blocked_request_refuses_the_batch(bead, requests.drop_last(), active, i, k);
    } else {
        assert(requests.last() == requests[i]);
        lemma_exclusive_overlap_is_a_conflict(bead, requests[i].path_pattern@, requests[i].mode, active, k);
    }
}

/// Two shared requests never conflict with shared holders: only an exclusive side
/// produces a conflict.
pub proof fn lemma_shared_never_conflicts_with_shared(
    bead: Seq<char>,
    pattern: Seq<char>,
    active: Seq<ReservationRecord>,
)
    requires
        forall|i: int| 0 <= i < active.len() ==> (#[trigger] active[i]).mode is Shared,
    ensures
        request_conflicts(bead, pattern, ReservationMode::Shared, active).len() == 0,
    decreases active.len(),
{
    if active.len() > 0 {
        lemma_shared_never_conflicts_with_shared(bead, pattern, active.drop_last());
        assert(active.last() == active[active.len() - 1]);
    }
}

// ---------------------------------------------------------------------------
// Release and refresh
// ---------------------------------------------------------------------------

/// Whether a release call that names `run` (if any) and `patterns` (if any) releases
/// `record`: it must still be held, belong to that run and name one of the patterns.
pub open spec fn is_releasable(
    record: ReservationRecord,
    run: Option<Seq<char>>,
    patterns: Option<Seq<Seq<char>>>,
) -> bool {
    &&& record.released_at is None
    &&& (run matches Some(expected) ==> run_view(record.run_id) == Some(expected))
    &&& (patterns matches Some(ps) ==> ps.contains(record.path_pattern@))
}

pub open spec fn releasable_ids(
    records: Seq<ReservationRecord>,
    run: Option<Seq<char>>,
    patterns: Option<Seq<Seq<char>>>,
) -> Seq<i64>
    decreases records.len(),
{
    if records.len() == 0 {
        Seq::empty()
    } else {
        let prefix = releasable_ids(records.drop_last(), run, patterns);
        if is_releasable(records.last(), run, patterns) {
            prefix.push(records.last().id)
        } else {
            prefix
        }
    }
}

fn names_pattern(patterns: &Vec<String>, pattern: &str) -> (r: bool)
    ensures
        r == patterns.deep_view().contains(pattern@),
{
    let mut i: usize = 0;
    while i < patterns.len()
        invariant
            i <= patterns.len(),
            forall|k: int| 0 <= k < i ==> patterns.deep_view()[k] != pattern@,
        decreases patterns.len() - i,
    {
        if text_eq(patterns[i].as_str(), pattern) {
            assert(patterns.deep_view()[i as int] == pattern@);
            return true;
        }
        i = i + 1;
    }
    false
}

/// The reservations of a bead that a release for `run_id` (and `path_patterns`)
/// frees, in the order given.
pub fn releasable_reservations(
    records: &Vec<ReservationRecord>,
    run_id: Option<&RunId>,
    path_patterns: Option<&Vec<String>>,
) -> (r: Vec<ReservationRecord>)
    ensures
        Seq::new(r.len() as nat, |i: int| r@[i].id) == releasable_ids(
            records@,
            match run_id {
                Some(id) => Some(id@),
                None => None,
            },
            match path_patterns {
                Some(ps) => Some(ps.deep_view()),
                None => None,
            },
        ),
        forall|i: int|
            0 <= i < r.len() ==> exists|j: int|
                0 <= j < records.len() && #[trigger] r@[i] == #[trigger] records@[j],
{
    let ghost run = match run_id {
        Some(id) => Some(id@),
        None => None,
    };
    let ghost patterns = match path_patterns {
        Some(ps) => Some(ps.deep_view()),
        None => None,
    };
    let mut out: Vec<ReservationRecord> = Vec::new();
    let mut i: usize = 0;
    while i < records.len()
        invariant
            i <= records.len(),
            run == (match run_id {
                Some(id) => Some(id@),
                None => None,
            }),
            patterns == (match path_patterns {
                Some(ps) => Some(ps.deep_view()),
                None => None,
            }),
            Seq::new(out.len() as nat, |k: int| out@[k].id) == releasable_ids(
                records@.subrange(0, i as int),
                run,
                patterns,
            ),
            forall|k: int|
                0 <= k < out.len() ==> exists|j: int|
                    0 <= j < records.len() && #[trigger] out@[k] == #[trigger] records@[j],
        decreases records.len() - i,
    {
        let record = &records[i];
        let ghost pre = records@.subrange(0, i as int);
        assert(records@.subrange(0, i + 1).drop_last() =~= pre);
        let held = record.released_at.is_none();
        let run_ok = match run_id {
            Some(expected) => match &record.run_id {
                Some(actual) => actual.same_as(expected),
                None => false,
            },
            None => true,
        };
        let pattern_ok = match path_patterns {
            Some(ps) => names_pattern(ps, record.path_pattern.as_str()),
            None => true,
        };
        if held && run_ok && pattern_ok {
            let ghost before = out@;
            out.push(copy_record(record));
            assert(Seq::new(out.len() as nat, |k: int| out@[k].id) =~= Seq::new(
                before.len() as nat,
                |k: int| before[k].id,
            ).push(record.id));
        }
        i = i + 1;
    }
    assert(records@.subrange(0, records.len() as int) =~= records@);
    out
}


// ---------------------------------------------------------------------------
// Expiry, stale claims and declared paths
// ---------------------------------------------------------------------------

/// Whether a reservation is in force at `now`: not released and expiring after `now`.
pub open spec fn in_force_at(record: ReservationRecord, now: Timestamp) -> bool {
    record.released_at is None && now.earlier_than(record.expires_at)
}

/// Whether a reservation has run out at `now` without being released.
pub open spec fn expired_at(record: ReservationRecord, now: Timestamp) -> bool {
    record.released_at is None && !now.earlier_than(record.expires_at)
}

/// The reservations of `records`, in order, that have run out at `now`.
pub open spec fn expired_of(records: Seq<ReservationRecord>, now: Timestamp) -> Seq<ReservationRecord>
    decreases records.len(),
{
    if records.len() == 0 {
        Seq::empty()
    } else {
        let earlier = expired_of(records.drop_last(), now);
        if expired_at(records.last(), now) {
            earlier.push(records.last())
        } else {
            earlier
        }
    }
}

/// The reservations that run out at `now` and are released by the expiry sweep, in
/// the order given.
pub fn expired_reservations(records: &Vec<ReservationRecord>, now: Timestamp) -> (r: Vec<ReservationRecord>)
    ensures
        r@ == expired_of(records@, now),
{
    let mut out: Vec<ReservationRecord> = Vec::new();
    let mut i: usize = 0;
    while i < records.len()
        invariant
            i <= records.len(),
            out@ == expired_of(records@.subrange(0, i as int), now),
        decreases records.len() - i,
    {
        assert(records@.subrange(0, i + 1).drop_last() =~= records@.subrange(0, i as int));
        let record = &records[i];
        if record.released_at.is_none() && !now.is_before(&record.expires_at) {
            out.push(copy_record(record));
        }
        i = i + 1;
    }
    assert(records@.subrange(0, records.len() as int) =~= records@);
    out
}

/// The patterns a bead still declares at `now`: those of its reservations in force, in
/// the order given.
pub open spec fn active_paths(records: Seq<ReservationRecord>, now: Timestamp) -> Seq<Seq<char>>
    decreases records.len(),
{
    if records.len() == 0 {
        Seq::empty()
    } else {
        let earlier = active_paths(records.drop_last(), now);
        if in_force_at(records.last(), now) {
            earlier.push(records.last().path_pattern@)
        } else {
            earlier
        }
    }
}

/// `records` are the reservations of one bead; the result is what it declares.
pub fn active_declared_paths(records: &Vec<ReservationRecord>, now: Timestamp) -> (r: Vec<String>)
    ensures
        r.deep_view() == active_paths(records@, now),
{
    let mut out: Vec<String> = Vec::new();
    let mut i: usize = 0;
    while i < records.len()
        invariant
            i <= records.len(),
            out.deep_view() == active_paths(records@.subrange(0, i as int), now),
        decreases records.len() - i,
    {
        assert(records@.subrange(0, i + 1).drop_last() =~= records@.subrange(0, i as int));
        let record = &records[i];
        if record.released_at.is_none() && now.is_before(&record.expires_at) {
            let ghost before = out.deep_view();
            out.push(record.path_pattern.clone());
            assert(out.deep_view() =~= before.push(record.path_pattern@));
        }
        i = i + 1;
    }
    assert(records@.subrange(0, records.len() as int) =~= records@);
    out
}

/// Whether a run with this recorded status no longer holds its claims: it exists and
/// is not active.
pub open spec fn run_finished(status: Option<RunStatus>) -> bool {
    status matches Some(s) && !(s is Active)
}

pub fn run_is_terminal(status: Option<RunStatus>) -> (r: bool)
    ensures
        r == run_finished(status),
{
    match status {
        Some(RunStatus::Active) => false,
        Some(_) => true,
        None => false,
    }
}

/// A reservation released by the startup sweep, with the reason.
#[derive(Debug, Clone, PartialEq, Eq)]
pub struct RecoveredReservation {
    pub reservation: ReservationRecord,
    pub reason: RecoveryReason,
}

/// The reservations among `active` whose run has finished; `run_statuses[k]` is the
/// recorded status of the run of `active[k]`, if it has one.
pub open spec fn stale_of(active: Seq<ReservationRecord>, run_statuses: Seq<Option<RunStatus>>) -> Seq<
    ReservationRecord,
>
    decreases active.len(),
{
    if active.len() == 0 {
        Seq::empty()
    } else {
        let k = active.len() - 1;
        let earlier = stale_of(active.drop_last(), run_statuses);
        if active[k].run_id is Some && run_finished(run_statuses[k]) {
            earlier.push(active[k])
        } else {
            earlier
        }
    }
}

proof fn lemma_stale_of_prefix(active: Seq<ReservationRecord>, run_statuses: Seq<Option<RunStatus>>, i: int)
    requires
        0 <= i < active.len(),
    ensures
        stale_of(active.subrange(0, i + 1), run_statuses) == if active[i].run_id is Some && run_finished(
            run_statuses[i],
        ) {
            stale_of(active.subrange(0, i), run_statuses).push(active[i])
        } else {
            stale_of(active.subrange(0, i), run_statuses)
        },
{
    assert(active.subrange(0, i + 1).drop_last() =~= active.subrange(0, i));
}

/// The reservations in force whose run has finished, each released because its run is
/// no longer active.
pub fn stale_reservations(active: &Vec<ReservationRecord>, run_statuses: &Vec<Option<RunStatus>>) -> (r: Vec<
    RecoveredReservation,
>)
    requires
        run_statuses.len() == active.len(),
    ensures
        r.len() == stale_of(active@, run_statuses@).len(),
        forall|k: int|
            0 <= k < r.len() ==> (#[trigger] r@[k]).reservation == stale_of(active@, run_statuses@)[k]
                && r@[k].reason == RecoveryReason::RunNoLongerActive,
{
    let mut out: Vec<RecoveredReservation> = Vec::new();
    let mut i: usize = 0;
    while i < active.len()
        invariant
            i <= active.len(),
            run_statuses.len() == active.len(),
            out.len() == stale_of(active@.subrange(0, i as int), run_statuses@).len(),
            forall|k: int|
                0 <= k < out.len() ==> (#[trigger] out@[k]).reservation == stale_of(
                    active@.subrange(0, i as int),
                    run_statuses@,
                )[k] && out@[k].reason == RecoveryReason::RunNoLongerActive,
        decreases active.len() - i,
    {
        proof {
            lemma_stale_of_prefix(active@, run_statuses@, i as int);
        }
        let record = &active[i];
        if record.run_id.is_some() && run_is_terminal(run_statuses[i]) {
            out.push(RecoveredReservation { reservation: copy_record(record), reason: RecoveryReason::RunNoLongerActive });
        }
        i = i + 1;
    }
    assert(active@.subrange(0, active.len() as int) =~= active@);
    out
}

/// The record of a granted request, stored under `id` for `bead_id` and `run_id`.
pub fn granted_reservation(id: i64, bead_id: &BeadId, run_id: Option<&RunId>, request: &ReservationRequest) -> (r:
    ReservationRecord)
    ensures
        r.id == id,
        r.bead_id == *bead_id,
        r.run_id == match run_id {
            Some(run) => Some(*run),
            None => None,
        },
        r.path_pattern == request.path_pattern,
        r.mode == request.mode,
        r.reason == request.reason,
        r.expires_at == request.expires_at,
        r.released_at is None,
{
    ReservationRecord {
        id,
        bead_id: bead_id.duplicate(),
        run_id: match run_id {
            Some(run) => Some(run.duplicate()),
            None => None,
        },
        path_pattern: request.path_pattern.clone(),
        mode: request.mode,
        reason: copy_text(&request.reason),
        expires_at: request.expires_at,
        released_at: None,
    }
}

/// What a batch of reservation requests produced: every request granted, or the
/// conflicts that refused the whole batch.
#[derive(Debug, Clone, PartialEq, Eq)]
pub struct ReservationAcquireOutcome {
    pub acquired: Vec<ReservationRecord>,
    pub conflicts: Vec<ReservationConflict>,
}

/// Whether `r` is the record of `request` granted under `id` for `bead_id` and `run_id`.
pub open spec fn is_granted(
    r: ReservationRecord,
    id: i64,
    bead_id: BeadId,
    run_id: Option<RunId>,
    request: ReservationRequest,
) -> bool {
    &&& r.id == id
    &&& r.bead_id == bead_id
    &&& r.run_id == run_id
    &&& r.path_pattern == request.path_pattern
    &&& r.mode == request.mode
    &&& r.reason == request.reason
    &&& r.expires_at == request.expires_at
    &&& r.released_at is None
}

/// The outcome of a batch of requests by `bead_id` against the reservations in force:
/// when any request conflicts, nothing is granted and every conflict is reported;
/// otherwise every request is granted, in order, under the ids the store gave them
/// (`ids`, one per request; unused when the batch is refused).
pub fn reservation_batch_outcome(
    bead_id: &BeadId,
    run_id: Option<&RunId>,
    requests: &Vec<ReservationRequest>,
    active: &Vec<ReservationRecord>,
    ids: &Vec<i64>,
) -> (r: ReservationAcquireOutcome)
    requires
        all_request_conflicts(bead_id@, requests@, active@).len() == 0 ==> ids.len() == requests.len(),
    ensures
        all_request_conflicts(bead_id@, requests@, active@).len() > 0 ==> {
            &&& r.acquired.len() == 0
            &&& conflict_views(r.conflicts@) == all_request_conflicts(bead_id@, requests@, active@)
        },
        all_request_conflicts(bead_id@, requests@, active@).len() == 0 ==> {
            &&& r.conflicts.len() == 0
            &&& r.acquired.len() == requests.len()
            &&& forall|i: int|
                0 <= i < requests.len() ==> is_granted(
                    #[trigger] r.acquired@[i],
                    ids@[i],
                    *bead_id,
                    match run_id {
                        Some(run) => Some(*run),
                        None => None,
                    },
                    requests@[i],
                )
        },
{
    let conflicts = conflicts_for_requests(bead_id, requests, active);
    if conflicts.len() > 0 {
        return ReservationAcquireOutcome { acquired: Vec::new(), conflicts };
    }
    assert(conflict_views(conflicts@).len() == 0);
    let mut acquired: Vec<ReservationRecord> = Vec::new();
    let mut i: usize = 0;
    while i < requests.len()
        invariant
            i <= requests.len(),
            ids.len() == requests.len(),
            acquired.len() == i,
            forall|k: int|
                0 <= k < i ==> is_granted(
                    #[trigger] acquired@[k],
                    ids@[k],
                    *bead_id,
                    match run_id {
                        Some(run) => Some(*run),
                        None => None,
                    },
                    requests@[k],
                ),
        decreases requests.len() - i,
    {
        acquired.push(granted_reservation(ids[i], bead_id, run_id, &requests[i]));
        i = i + 1;
    }
    ReservationAcquireOutcome { acquired, conflicts }
}

/// A reservation that runs out is no longer in force, and one in force is never swept
/// as expired: at any instant the two sets are disjoint and cover every unreleased
/// reservation.
pub proof fn lemma_expired_or_in_force(record: ReservationRecord, now: Timestamp)
    requires
        record.released_at is None,
    ensures
        expired_at(record, now) != in_force_at(record, now),
{
}

} // verus!
