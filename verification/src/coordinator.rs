//! Coordinator start-up decisions: schema migration steps, leader-lease timing and the
//! errors reported when the lease is held by someone else.
use vstd::prelude::*;
use crate::lease::{
    acquire_lease, active_lease, active_leader_lease, heartbeat_lease, holds_lease, release_lease,
    slot_after_release, slot_view, LeaseOutcome,
};
use crate::records::LeaderLeaseRecord;
use crate::text::{append_signed_decimal, concat3, owned, signed_decimal_text, text_eq};
use crate::types::{RunId, Timestamp};

verus! {

/// Where the schema migrations live, relative to the database crate.
pub fn migrations_dir() -> (r: &'static str)
    ensures
        r@ == "migrations"@,
{
    "migrations"
}

/// What to do with one entry of the migration manifest.
#[derive(Debug, Clone, PartialEq, Eq)]
pub enum MigrationStep {
    /// Already applied under the same name.
    Skip,
    /// Not applied yet.
    Apply,
    /// Applied under another name: the schema history diverged.
    Mismatch { message: String },
}

pub open spec fn mismatch_message(version: i64, existing: Seq<char>, expected: Seq<char>) -> Seq<
    char,
> {
    "migration version "@ + signed_decimal_text(version as int)
        + " already applied with different name: "@ + existing + " != "@ + expected
}

/// Decides a migration step from the name recorded for its version, if any.
pub fn migration_step(version: i64, applied_name: Option<&str>, name: &str) -> (r: MigrationStep)
    ensures
        applied_name is None ==> r == MigrationStep::Apply,
        applied_name matches Some(existing) ==> (existing@ == name@ ==> r == MigrationStep::Skip),
        applied_name matches Some(existing) ==> (existing@ != name@ ==> (r matches MigrationStep::Mismatch { message } && message@ == mismatch_message(version, existing@, name@))),
{
    match applied_name {
        None => MigrationStep::Apply,
        Some(existing) => {
            if text_eq(existing, name) {
                MigrationStep::Skip
            } else {
                let mut message = owned("migration version ");
                append_signed_decimal(&mut message, version);
                message.append(" already applied with different name: ");
                message.append(existing);
                message.append(" != ");
                message.append(name);
                MigrationStep::Mismatch { message }
            }
        },
    }
}

// ---------------------------------------------------------------------------
// Leader lease
// ---------------------------------------------------------------------------

/// Who asks for the lease and for how long it is held between heartbeats.
#[derive(Debug, Clone, PartialEq, Eq)]
pub struct LeaderLeaseConfig {
    pub owner_label: String,
    pub lease_ttl_ms: i64,
}

/// Why the lease could not be taken.
#[derive(Debug, Clone, PartialEq, Eq)]
pub enum LeaderLeaseAcquireError {
    Contested { owner_label: String },
}

impl LeaderLeaseAcquireError {
    pub open spec fn message_text(&self) -> Seq<char> {
        match self {
            LeaderLeaseAcquireError::Contested { owner_label } => "leader lease conflict: another leader is active (owner: "@
                + owner_label@ + ")"@,
        }
    }

    /// The operator-facing description of the error.
    pub fn to_string(&self) -> (r: String)
        ensures
            r@ == self.message_text(),
    {
        match self {
            LeaderLeaseAcquireError::Contested { owner_label } => concat3(
                "leader lease conflict: another leader is active (owner: ",
                owner_label.as_str(),
                ")",
            ),
        }
    }

    /// The error reported when the lease is taken: it names the active holder, or
    /// `unknown` when the holder could not be read.
    pub fn contested_by(active_owner: Option<String>) -> (r: LeaderLeaseAcquireError)
        ensures
            active_owner matches Some(o) ==> r == (LeaderLeaseAcquireError::Contested { owner_label: o }),
            active_owner is None ==> r->owner_label@ == "unknown"@,
    {
        match active_owner {
            Some(owner_label) => LeaderLeaseAcquireError::Contested { owner_label },
            None => LeaderLeaseAcquireError::Contested { owner_label: owner("unknown") },
        }
    }
}

fn owner(text: &str) -> (r: String)
    ensures
        r@ == text@,
{
    owned(text)
}

/// Operations on the reservation table that the coordinator runs.
#[derive(Debug, Clone, Copy, PartialEq, Eq, Structural)]
pub struct ReservationManager;

/// Operations on the leader lease that the coordinator runs.
#[derive(Debug, Clone, Copy, PartialEq, Eq, Structural)]
pub struct LeaderLeaseManager;

pub open spec fn nanos_of(t: Timestamp) -> int {
    t.secs * 1_000_000_000 + t.nanos
}

/// Whether `t` is a well-formed instant (fewer than a second's nanoseconds).
pub open spec fn valid_instant(t: Timestamp) -> bool {
    t.nanos < 1_000_000_000
}

/// The instant `ms` milliseconds after `t`.
pub open spec fn after_millis(t: Timestamp, ms: int) -> int {
    nanos_of(t) + ms * 1_000_000
}

/// The instant `ms` milliseconds after `now`; the result must be representable.
pub fn add_millis(now: Timestamp, ms: i64) -> (r: Timestamp)
    requires
        valid_instant(now),
        i64::MIN as int * 1_000_000_000 <= after_millis(now, ms as int) < (i64::MAX as int + 1) * 1_000_000_000,
    ensures
        valid_instant(r),
        nanos_of(r) == after_millis(now, ms as int),
{
    let total: i128 = now.secs as i128 * 1_000_000_000 + now.nanos as i128 + ms as i128 * 1_000_000;
    let q = total / 1_000_000_000;
    let rem = total % 1_000_000_000;
    if rem < 0 {
        Timestamp { secs: (q - 1) as i64, nanos: (rem + 1_000_000_000) as u32 }
    } else {
        Timestamp { secs: q as i64, nanos: rem as u32 }
    }
}

/// Of two well-formed instants, the one with fewer nanoseconds is the earlier.
pub proof fn lemma_later_by_nanos(a: Timestamp, b: Timestamp)
    requires
        valid_instant(a),
        valid_instant(b),
    ensures
        nanos_of(a) < nanos_of(b) <==> a.earlier_than(b),
{
}

/// The expiry of a lease taken or renewed at `now`.
pub fn lease_expiry(config: &LeaderLeaseConfig, now: Timestamp) -> (r: Timestamp)
    requires
        valid_instant(now),
        i64::MIN as int * 1_000_000_000 <= after_millis(now, config.lease_ttl_ms as int) < (i64::MAX as int + 1) * 1_000_000_000,
    ensures
        valid_instant(r),
        nanos_of(r) == after_millis(now, config.lease_ttl_ms as int),
{
    add_millis(now, config.lease_ttl_ms)
}

/// While `holder` holds the lease, an acquire by anyone is refused: the lease in force
/// is the holder's, so the refusal names the holder, and the slot keeps it.
pub proof fn lemma_contested_acquire_names_holder(
    slot: Option<LeaderLeaseRecord>,
    holder: Seq<char>,
    now: Timestamp,
)
    requires
        holds_lease(slot_view(slot), holder, now),
    ensures
        active_lease(slot_view(slot), now) is Some,
        slot is Some && slot->0.owner_label@ == holder,
{
}

impl LeaderLeaseManager {
    /// Takes the lease for the configured owner, held for the configured time from
    /// `now`; when a lease is in force, the error names its holder.
    pub fn acquire(
        slot: &mut Option<LeaderLeaseRecord>,
        config: &LeaderLeaseConfig,
        run_id: Option<RunId>,
        now: Timestamp,
    ) -> (r: Result<LeaderLeaseRecord, LeaderLeaseAcquireError>)
        requires
            valid_instant(now),
            i64::MIN as int * 1_000_000_000 <= after_millis(now, config.lease_ttl_ms as int) < (i64::MAX as int
                + 1) * 1_000_000_000,
        ensures
            active_lease(slot_view(*old(slot)), now) is Some ==> (*final(slot) == *old(slot)
                && r == Err::<LeaderLeaseRecord, LeaderLeaseAcquireError>(LeaderLeaseAcquireError::Contested {
                owner_label: old(slot)->0.owner_label,
            })),
            active_lease(slot_view(*old(slot)), now) is None ==> {
                &&& r is Ok ==> holds_lease(slot_view(*final(slot)), config.owner_label@, now)
                &&& r is Ok ==> (r matches Ok(l) && *final(slot) == Some(l) && l.owner_label@ == config.owner_label@
                    && l.acquired_at == now && l.heartbeat_at == now && nanos_of(l.expires_at) == after_millis(
                    now,
                    config.lease_ttl_ms as int,
                ) && l.released_at is None)
                &&& (config.lease_ttl_ms > 0 ==> r is Ok)
                &&& (config.lease_ttl_ms <= 0 ==> (r matches Err(e) && e->owner_label@
                    == "leader lease should exist after acquire"@))
            },
    {
        let expires_at = lease_expiry(config, now);
        proof {
            lemma_later_by_nanos(now, expires_at);
        }
        let holder = active_leader_lease(slot, now);
        match acquire_lease(slot, config.owner_label.as_str(), run_id, now, expires_at) {
            LeaseOutcome::Held { lease } => Ok(lease),
            LeaseOutcome::NotHeld => Err(
                LeaderLeaseAcquireError::contested_by(
                    match holder {
                        Some(l) => Some(l.owner_label),
                        None => None,
                    },
                ),
            ),
            LeaseOutcome::ExpiredOnWrite => Err(
                LeaderLeaseAcquireError::Contested { owner_label: owned("leader lease should exist after acquire") },
            ),
        }
    }

    /// Renews the configured owner's lease for the configured time from `now`; `None`
    /// when the owner holds no lease in force.
    pub fn heartbeat(slot: &mut Option<LeaderLeaseRecord>, config: &LeaderLeaseConfig, now: Timestamp) -> (r: Result<
        Option<LeaderLeaseRecord>,
        String,
    >)
        requires
            valid_instant(now),
            i64::MIN as int * 1_000_000_000 <= after_millis(now, config.lease_ttl_ms as int) < (i64::MAX as int
                + 1) * 1_000_000_000,
        ensures
            !holds_lease(slot_view(*old(slot)), config.owner_label@, now) ==> (r == Ok::<
                Option<LeaderLeaseRecord>,
                String,
            >(None) && *final(slot) == *old(slot)),
            holds_lease(slot_view(*old(slot)), config.owner_label@, now) && config.lease_ttl_ms > 0 ==> (r matches Ok(
                Some(l),
            ) && *final(slot) == Some(l) && l.heartbeat_at == now && nanos_of(l.expires_at) == after_millis(
                now,
                config.lease_ttl_ms as int,
            ) && l.owner_label@ == old(slot)->0.owner_label@ && l.acquired_at == old(slot)->0.acquired_at),
            holds_lease(slot_view(*old(slot)), config.owner_label@, now) && config.lease_ttl_ms <= 0 ==> (r matches Err(
                message,
            ) && message@ == "leader lease should exist after heartbeat"@),
    {
        let expires_at = lease_expiry(config, now);
        proof {
            lemma_later_by_nanos(now, expires_at);
        }
        match heartbeat_lease(slot, config.owner_label.as_str(), now, expires_at) {
            LeaseOutcome::Held { lease } => Ok(Some(lease)),
            LeaseOutcome::NotHeld => Ok(None),
            LeaseOutcome::ExpiredOnWrite => Err(owned("leader lease should exist after heartbeat")),
        }
    }

    /// Releases `owner_label`'s lease at `now`; the lease as it was, or `None` when the
    /// owner holds none in force.
    pub fn release(slot: &mut Option<LeaderLeaseRecord>, owner_label: &str, now: Timestamp) -> (r: Option<LeaderLeaseRecord>)
        ensures
            slot_view(*final(slot)) == slot_after_release(slot_view(*old(slot)), owner_label@, now),
            holds_lease(slot_view(*old(slot)), owner_label@, now) <==> r is Some,
            r is Some ==> r == *old(slot),
    {
        release_lease(slot, owner_label, now)
    }
}

} // verus!
