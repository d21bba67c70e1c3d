//! The coordinator's leader lease: a single slot that one owner holds until it
//! expires or is released, renewed by heartbeats.
use vstd::prelude::*;
use crate::records::LeaderLeaseRecord;
use crate::text::{owned, text_eq};
use crate::types::{RunId, Timestamp};

verus! {

/// Plain-value image of a lease: owner, run, acquired, last heartbeat, expiry, release.
pub type LeaseView = (Seq<char>, Option<Seq<char>>, Timestamp, Timestamp, Timestamp, Option<Timestamp>);

pub open spec fn lease_view(l: LeaderLeaseRecord) -> LeaseView {
    (
        l.owner_label@,
        match l.run_id {
            Some(r) => Some(r@),
            None => None,
        },
        l.acquired_at,
        l.heartbeat_at,
        l.expires_at,
        l.released_at,
    )
}

pub open spec fn slot_view(slot: Option<LeaderLeaseRecord>) -> Option<LeaseView> {
    match slot {
        Some(l) => Some(lease_view(l)),
        None => None,
    }
}

/// Whether a lease is in force at `now`: not released and not yet expired.
pub open spec fn in_force(v: LeaseView, now: Timestamp) -> bool {
    v.5 is None && now.earlier_than(v.4)
}

/// The lease in force at `now` in the slot, if any.
pub open spec fn active_lease(slot: Option<LeaseView>, now: Timestamp) -> Option<LeaseView> {
    match slot {
        Some(v) => if in_force(v, now) {
            Some(v)
        } else {
            None
        },
        None => None,
    }
}

/// Whether `owner` holds the lease in force at `now`.
pub open spec fn holds_lease(slot: Option<LeaseView>, owner: Seq<char>, now: Timestamp) -> bool {
    active_lease(slot, now) matches Some(v) && v.0 == owner
}

/// The slot after `owner` asks for the lease at `now` until `expires_at`: taken unless
/// a lease is in force.
pub open spec fn slot_after_acquire(
    slot: Option<LeaseView>,
    owner: Seq<char>,
    run: Option<Seq<char>>,
    now: Timestamp,
    expires_at: Timestamp,
) -> Option<LeaseView> {
    if active_lease(slot, now) is Some {
        slot
    } else {
        Some((owner, run, now, now, expires_at, None))
    }
}

/// The slot after `owner` renews at `now` until `expires_at`: renewed only when the
/// owner holds the lease in force.
pub open spec fn slot_after_heartbeat(
    slot: Option<LeaseView>,
    owner: Seq<char>,
    now: Timestamp,
    expires_at: Timestamp,
) -> Option<LeaseView> {
    if holds_lease(slot, owner, now) {
        let v = slot->0;
        Some((v.0, v.1, v.2, now, expires_at, v.5))
    } else {
        slot
    }
}

/// The slot after `owner` releases at `now`: released only when the owner holds the
/// lease in force.
pub open spec fn slot_after_release(slot: Option<LeaseView>, owner: Seq<char>, now: Timestamp) -> Option<LeaseView> {
    if holds_lease(slot, owner, now) {
        let v = slot->0;
        Some((v.0, v.1, v.2, v.3, v.4, Some(now)))
    } else {
        slot
    }
}

fn copy_lease(l: &LeaderLeaseRecord) -> (r: LeaderLeaseRecord)
    ensures
        r == *l,
{
    LeaderLeaseRecord {
        owner_label: l.owner_label.clone(),
        run_id: match &l.run_id {
            Some(id) => Some(id.duplicate()),
            None => None,
        },
        acquired_at: l.acquired_at,
        heartbeat_at: l.heartbeat_at,
        expires_at: l.expires_at,
        released_at: l.released_at,
    }
}

/// The lease in force at `now`, if any.
pub fn active_leader_lease(slot: &Option<LeaderLeaseRecord>, now: Timestamp) -> (r: Option<LeaderLeaseRecord>)
    ensures
        slot_view(r) == active_lease(slot_view(*slot), now),
        r is Some ==> r == *slot,
{
    match slot {
        Some(l) => if l.released_at.is_none() && now.is_before(&l.expires_at) {
            Some(copy_lease(l))
        } else {
            None
        },
        None => None,
    }
}

/// What a lease operation reports: the lease, no lease (contested or not held), or a
/// lease that is not in force right after it was written (its expiry is not after the
/// time of the write).
#[derive(Debug, Clone, PartialEq, Eq)]
pub enum LeaseOutcome {
    Held { lease: LeaderLeaseRecord },
    NotHeld,
    ExpiredOnWrite,
}

/// Takes the lease for `owner` until `expires_at`, unless a lease is in force.
pub fn acquire_lease(
    slot: &mut Option<LeaderLeaseRecord>,
    owner_label: &str,
    run_id: Option<RunId>,
    now: Timestamp,
    expires_at: Timestamp,
) -> (r: LeaseOutcome)
    ensures
        slot_view(*final(slot)) == slot_after_acquire(
            slot_view(*old(slot)),
            owner_label@,
            match run_id {
                Some(id) => Some(id@),
                None => None,
            },
            now,
            expires_at,
        ),
        active_lease(slot_view(*old(slot)), now) is Some ==> (r == LeaseOutcome::NotHeld && *final(slot)
            == *old(slot)),
        active_lease(slot_view(*old(slot)), now) is None ==> {
            &&& (now.earlier_than(expires_at) ==> r == (LeaseOutcome::Held { lease: (*final(slot))->0 }))
            &&& (!now.earlier_than(expires_at) ==> r == LeaseOutcome::ExpiredOnWrite)
        },
{
    if active_leader_lease(slot, now).is_some() {
        return LeaseOutcome::NotHeld;
    }
    let lease = LeaderLeaseRecord {
        owner_label: owned(owner_label),
        run_id,
        acquired_at: now,
        heartbeat_at: now,
        expires_at,
        released_at: None,
    };
    let copy = copy_lease(&lease);
    *slot = Some(lease);
    if now.is_before(&expires_at) {
        LeaseOutcome::Held { lease: copy }
    } else {
        LeaseOutcome::ExpiredOnWrite
    }
}

/// Renews the lease of `owner` until `expires_at`, if it holds a lease in force.
pub fn heartbeat_lease(
    slot: &mut Option<LeaderLeaseRecord>,
    owner_label: &str,
    now: Timestamp,
    expires_at: Timestamp,
) -> (r: LeaseOutcome)
    ensures
        slot_view(*final(slot)) == slot_after_heartbeat(slot_view(*old(slot)), owner_label@, now, expires_at),
        !holds_lease(slot_view(*old(slot)), owner_label@, now) ==> (r == LeaseOutcome::NotHeld
            && *final(slot) == *old(slot)),
        holds_lease(slot_view(*old(slot)), owner_label@, now) ==> {
            &&& (now.earlier_than(expires_at) ==> r == (LeaseOutcome::Held { lease: (*final(slot))->0 }))
            &&& (!now.earlier_than(expires_at) ==> r == LeaseOutcome::ExpiredOnWrite)
        },
{
    let current = match active_leader_lease(slot, now) {
        Some(l) => l,
        None => {
            return LeaseOutcome::NotHeld;
        },
    };
    if !text_eq(current.owner_label.as_str(), owner_label) {
        return LeaseOutcome::NotHeld;
    }
    let renewed = LeaderLeaseRecord { heartbeat_at: now, expires_at, ..current };
    let copy = copy_lease(&renewed);
    *slot = Some(renewed);
    if now.is_before(&expires_at) {
        LeaseOutcome::Held { lease: copy }
    } else {
        LeaseOutcome::ExpiredOnWrite
    }
}

/// Releases the lease of `owner` if it holds one in force; reports the lease as it was.
pub fn release_lease(slot: &mut Option<LeaderLeaseRecord>, owner_label: &str, now: Timestamp) -> (r: Option<LeaderLeaseRecord>)
    ensures
        slot_view(*final(slot)) == slot_after_release(slot_view(*old(slot)), owner_label@, now),
        !holds_lease(slot_view(*old(slot)), owner_label@, now) ==> (r is None && *final(slot) == *old(slot)),
        holds_lease(slot_view(*old(slot)), owner_label@, now) ==> r == *old(slot),
{
    let current = match active_leader_lease(slot, now) {
        Some(l) => l,
        None => {
            return None;
        },
    };
    if !text_eq(current.owner_label.as_str(), owner_label) {
        return None;
    }
    let released = LeaderLeaseRecord { released_at: Some(now), ..copy_lease(&current) };
    *slot = Some(released);
    Some(current)
}

/// Only one owner holds the lease at a time: while `first` holds it, an acquire by
/// anyone leaves it with `first` and a heartbeat by another owner changes nothing; the
/// holder renews it; once released, another owner can take it.
pub proof fn lemma_lease_round_trip(
    first: Seq<char>,
    second: Seq<char>,
    run: Option<Seq<char>>,
    t0: Timestamp,
    e0: Timestamp,
    t1: Timestamp,
    e1: Timestamp,
    t2: Timestamp,
)
    requires
        first != second,
        t0.earlier_than(e0),
        t1.earlier_than(e0),
        t1.earlier_than(e1),
        t2.earlier_than(e1),
    ensures
        ({
            let s0 = slot_after_acquire(None, first, run, t0, e0);
            let renewed = slot_after_heartbeat(s0, first, t1, e1);
            let released = slot_after_release(renewed, first, t2);
            &&& holds_lease(s0, first, t0)
            &&& slot_after_acquire(s0, second, None, t1, e1) == s0
            &&& slot_after_heartbeat(s0, second, t1, e1) == s0
            &&& holds_lease(renewed, first, t1)
            &&& holds_lease(renewed, first, t2)
            &&& active_lease(released, t2) is None
            &&& holds_lease(slot_after_acquire(released, second, None, t2, e1), second, t2)
        }),
{
}

/// A lease that is released or has expired no longer blocks anyone.
pub proof fn lemma_released_or_expired_lease_frees_slot(v: LeaseView, now: Timestamp)
    requires
        v.5 is Some || !now.earlier_than(v.4),
    ensures
        active_lease(Some(v), now) is None,
{
}

/// The lease has at most one holder at any instant.
pub proof fn lemma_single_holder(slot: Option<LeaseView>, a: Seq<char>, b: Seq<char>, now: Timestamp)
    requires
        holds_lease(slot, a, now),
        holds_lease(slot, b, now),
    ensures
        a == b,
{
}

} // verus!
