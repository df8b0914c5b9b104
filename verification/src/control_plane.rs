//! The control plane of emulators: which emulator slot a new game account
//! binding takes, when an emulator lease may be taken or renewed, and the
//! stored names of emulator states.
use vstd::prelude::*;

use crate::domain::{EmulatorActivity, EmulatorLifecycleStatus, EmulatorOccupancyStatus};
use crate::ids::{uuid_text, uuid_text_spec};
use crate::text::str_eq;
use crate::time::instant_ok;

verus! {

#[derive(Debug, Clone, PartialEq, Eq)]
pub struct AllocatedBinding {
    pub binding_id: i64,
    pub emulator_id: i64,
    pub slot_no: i32,
}

#[derive(Debug, Clone, PartialEq, Eq)]
pub enum AllocationError {
    AccountNotFound,
    AlreadyBound,
    NoCapacity,
    Database(String),
}

/// A game account locked for a new binding.
#[derive(Debug, Clone, Copy)]
pub struct GameAccountLockRow {
    pub id: i64,
    pub active_emulator_id: Option<i64>,
}

/// A ready emulator locked for a new binding, with its account capacity.
#[derive(Debug, Clone, Copy)]
pub struct EmulatorCapacityRow {
    pub id: i64,
    pub max_account_count: i32,
}

/// An emulator lease that was taken: the emulator and the lease token, the
/// 128-bit value of a UUID.
#[derive(Debug, Clone, Copy, PartialEq, Eq)]
pub struct AcquiredEmulatorLease {
    pub emulator_id: i64,
    pub lease_token: u128,
}

/// Whether a game account may get a new pending binding: it must exist,
/// have no active emulator and no reserved binding.
pub fn check_bindable_account(account: Option<&GameAccountLockRow>, has_reserved_binding: bool) -> (r:
    Result<(), AllocationError>)
    ensures
        match account {
            None => r == Err::<(), AllocationError>(AllocationError::AccountNotFound),
            Some(a) => if a.active_emulator_id is Some || has_reserved_binding {
                r == Err::<(), AllocationError>(AllocationError::AlreadyBound)
            } else {
                r is Ok
            },
        },
{
    match account {
        None => Err(AllocationError::AccountNotFound),
        Some(a) => {
            if a.active_emulator_id.is_some() || has_reserved_binding {
                Err(AllocationError::AlreadyBound)
            } else {
                Ok(())
            }
        },
    }
}

/// The slot that a new binding takes on an emulator: `None` when the
/// emulator holds at least `max` occupied slots, else the smallest slot of
/// `1..=max` that is not occupied, if any.
pub fn free_slot(max: i32, occupied: &Vec<i32>) -> (r: Option<i32>)
    ensures
        max >= 0 && occupied@.len() >= max ==> r is None,
        r matches Some(s) ==> 1 <= s <= max && !occupied@.contains(s) && forall|t: i32|
            1 <= t < s ==> occupied@.contains(t),
        r is None ==> (max >= 0 && occupied@.len() >= max) || forall|t: i32|
            1 <= t <= max ==> occupied@.contains(t),
{
    if max >= 0 && occupied.len() >= max as usize {
        return None;
    }
    let mut slot: i64 = 1;
    while slot <= max as i64
        invariant
            1 <= slot,
            slot <= max + 1 || slot == 1,
            !(max >= 0 && occupied@.len() >= max),
            forall|t: i32| 1 <= t < slot ==> occupied@.contains(t),
        decreases max + 1 - slot,
    {
        let candidate = slot as i32;
        let mut found = false;
        let mut j: usize = 0;
        while j < occupied.len()
            invariant
                j <= occupied@.len(),
                found == exists|k: int| 0 <= k < j && occupied@[k] == candidate,
            decreases occupied.len() - j,
        {
            if occupied[j] == candidate {
                found = true;
            }
            j = j + 1;
        }
        if !found {
            assert(!occupied@.contains(candidate)) by {
                if occupied@.contains(candidate) {
                    let k = choose|k: int| 0 <= k < occupied@.len() && occupied@[k] == candidate;
                    assert(exists|k: int| 0 <= k < j && occupied@[k] == candidate);
                }
            }
            return Some(candidate);
        }
        let ghost k = choose|k: int| 0 <= k < j && occupied@[k] == candidate;
        assert(occupied@.contains(candidate)) by {
            assert(occupied@[k] == candidate);
        }
        slot = slot + 1;
    }
    None
}

/// The error of a failed insert of a pending binding: a duplicate key means
/// that another allocation took the slot first.
pub fn binding_insert_error(duplicate_key: bool, message: String) -> (r: AllocationError)
    ensures
        duplicate_key ==> r == AllocationError::NoCapacity,
        !duplicate_key ==> r == AllocationError::Database(message),
{
    if duplicate_key {
        AllocationError::NoCapacity
    } else {
        AllocationError::Database(message)
    }
}

/// Whether a new lease may be taken on an emulator: it must be ready and
/// idle.
pub open spec fn lease_ready(lifecycle_status: Seq<char>, occupancy_status: Seq<char>) -> bool {
    lifecycle_status == "READY"@ && occupancy_status == "IDLE"@
}

/// A lease is taken only on an emulator that is READY and IDLE: any other
/// lifecycle or occupancy (busy, in maintenance, in recovery, ...) gives
/// no lease and records none.
pub proof fn law_lease_needs_ready_and_idle(
    lifecycle_status: Seq<char>,
    occupancy_status: Seq<char>,
    existing: Option<StoredLease>,
    command_id: u128,
    owner_type: Seq<char>,
    owner_key: Seq<char>,
)
    ensures
        lease_ready(lifecycle_status, occupancy_status) <==> (lifecycle_status == "READY"@
            && occupancy_status == "IDLE"@),
        !(lifecycle_status == "READY"@ && occupancy_status == "IDLE"@) ==> lease_answer(
            lease_ready(lifecycle_status, occupancy_status),
            existing,
            command_id,
            owner_type,
            owner_key,
        ) is None && lease_after(
            lease_ready(lifecycle_status, occupancy_status),
            existing,
            command_id,
            owner_type,
            owner_key,
        ) == existing,
{
}

pub fn is_lease_ready(lifecycle_status: &str, occupancy_status: &str) -> (r: bool)
    ensures
        r == lease_ready(lifecycle_status@, occupancy_status@),
{
    str_eq(lifecycle_status, "READY") && str_eq(occupancy_status, "IDLE")
}

/// What an existing live lease gives the owner that asks again: its own
/// lease back when the same owner holds it and its token reads as a UUID,
/// else nothing.
pub open spec fn renewed_lease_spec(
    existing_owner_type: Seq<char>,
    existing_owner_key: Seq<char>,
    owner_type: Seq<char>,
    owner_key: Seq<char>,
    parsed_token: Option<u128>,
) -> Option<u128> {
    if existing_owner_type == owner_type && existing_owner_key == owner_key {
        parsed_token
    } else {
        None
    }
}

pub fn renewed_lease_with_token(
    emulator_id: i64,
    existing_owner_type: &str,
    existing_owner_key: &str,
    owner_type: &str,
    owner_key: &str,
    parsed_token: Option<u128>,
) -> (r: Option<AcquiredEmulatorLease>)
    ensures
        match renewed_lease_spec(
            existing_owner_type@,
            existing_owner_key@,
            owner_type@,
            owner_key@,
            parsed_token,
        ) {
            Some(token) => r == Some(
                AcquiredEmulatorLease { emulator_id, lease_token: token },
            ),
            None => r is None,
        },
{
    if str_eq(existing_owner_type, owner_type) && str_eq(existing_owner_key, owner_key) {
        match parsed_token {
            Some(token) => Some(AcquiredEmulatorLease { emulator_id, lease_token: token }),
            None => None,
        }
    } else {
        None
    }
}

/// What an existing live lease with token text `existing_token` gives the
/// owner that asks again: the token is read as a UUID (`uuid::Uuid::parse_str`)
/// only when the same owner holds the lease.
pub fn renewed_lease(
    emulator_id: i64,
    existing_token: &str,
    existing_owner_type: &str,
    existing_owner_key: &str,
    owner_type: &str,
    owner_key: &str,
) -> (r: Option<AcquiredEmulatorLease>)
    ensures
        match renewed_lease_spec(
            existing_owner_type@,
            existing_owner_key@,
            owner_type@,
            owner_key@,
            parse_uuid_spec(existing_token@),
        ) {
            Some(token) => r == Some(
                AcquiredEmulatorLease { emulator_id, lease_token: token },
            ),
            None => r is None,
        },
{
    if str_eq(existing_owner_type, owner_type) && str_eq(existing_owner_key, owner_key) {
        let parsed = parse_uuid(existing_token);
        renewed_lease_with_token(
            emulator_id,
            existing_owner_type,
            existing_owner_key,
            owner_type,
            owner_key,
            parsed,
        )
    } else {
        None
    }
}

/// A live lease is handed back only to the owner that holds it: another
/// owner never gets it, and the holder gets exactly its own token.
pub proof fn law_lease_goes_only_to_its_holder(
    existing_owner_type: Seq<char>,
    existing_owner_key: Seq<char>,
    owner_type: Seq<char>,
    owner_key: Seq<char>,
    parsed_token: Option<u128>,
)
    ensures
        !(existing_owner_type == owner_type && existing_owner_key == owner_key)
            ==> renewed_lease_spec(
            existing_owner_type,
            existing_owner_key,
            owner_type,
            owner_key,
            parsed_token,
        ) is None,
        renewed_lease_spec(existing_owner_type, existing_owner_key, owner_type, owner_key, parsed_token)
            matches Some(token) ==> parsed_token == Some(token),
{
}

/// The longest lease, in seconds, that `chrono::Duration::from_std` takes;
/// a longer one falls back to fifteen minutes.
pub const MAX_LEASE_TTL_SECS: u64 = 9_223_372_036_854_775;

/// The fallback lease length, in seconds.
pub const FALLBACK_LEASE_TTL_SECS: u64 = 900;

/// How long a lease of `ttl_secs` seconds lasts, in milliseconds.
pub open spec fn lease_length_ms(ttl_secs: u64) -> int {
    if ttl_secs <= MAX_LEASE_TTL_SECS {
        ttl_secs * 1000
    } else {
        FALLBACK_LEASE_TTL_SECS * 1000
    }
}

/// A lease lasts a whole number of seconds, never less than none and never
/// more than the longest length `chrono` takes.
pub proof fn law_lease_length_is_bounded(ttl_secs: u64)
    ensures
        0 <= lease_length_ms(ttl_secs) <= MAX_LEASE_TTL_SECS * 1000,
        lease_length_ms(ttl_secs) % 1000 == 0,
        ttl_secs <= MAX_LEASE_TTL_SECS ==> lease_length_ms(ttl_secs) == ttl_secs * 1000,
{
}

/// The live lease of an emulator as it is stored.
#[derive(Debug, Clone)]
pub struct LeaseRow {
    pub lease_token: String,
    pub owner_type: String,
    pub owner_key: String,
}

/// A stored lease as plain values.
pub struct StoredLease {
    pub token: Seq<char>,
    pub owner_type: Seq<char>,
    pub owner_key: Seq<char>,
}

impl View for LeaseRow {
    type V = StoredLease;

    open spec fn view(&self) -> StoredLease {
        StoredLease {
            token: self.lease_token@,
            owner_type: self.owner_type@,
            owner_key: self.owner_key@,
        }
    }
}

/// The lease token that an acquisition for command `command_id` answers
/// with, given whether the emulator is ready and its live lease, if any:
/// none when the emulator is not ready; the existing lease's own token for
/// its holder (nothing for anyone else); else the command's id, under
/// which a new lease is recorded.
pub open spec fn lease_answer(
    ready: bool,
    existing: Option<StoredLease>,
    command_id: u128,
    owner_type: Seq<char>,
    owner_key: Seq<char>,
) -> Option<u128> {
    if !ready {
        None
    } else {
        match existing {
            Some(l) => renewed_lease_spec(
                l.owner_type,
                l.owner_key,
                owner_type,
                owner_key,
                parse_uuid_spec(l.token),
            ),
            None => Some(command_id),
        }
    }
}

/// The emulator's live lease after an acquisition: a new one, whose token is
/// the command id's text, only when the emulator is ready and had none.
pub open spec fn lease_after(
    ready: bool,
    existing: Option<StoredLease>,
    command_id: u128,
    owner_type: Seq<char>,
    owner_key: Seq<char>,
) -> Option<StoredLease> {
    if ready && existing is None {
        Some(StoredLease { token: uuid_text_spec(command_id), owner_type, owner_key })
    } else {
        existing
    }
}

/// What an acquisition does.
#[derive(Debug, Clone)]
pub enum LeasePlan {
    /// Write nothing and answer with this.
    Answer(Option<AcquiredEmulatorLease>),
    /// Record a new lease whose token is `token_text` and answer with
    /// `lease`.
    Insert { token_text: String, lease: AcquiredEmulatorLease },
}

/// Decides an acquisition of the emulator `emulator_id`, once its expired
/// lease is gone, from whether it is ready and the live lease it still has.
pub fn lease_plan(
    emulator_id: i64,
    ready: bool,
    existing: Option<&LeaseRow>,
    command_id: u128,
    owner_type: &str,
    owner_key: &str,
) -> (r: LeasePlan)
    ensures
        match r {
            LeasePlan::Answer(answer) => lease_after(
                ready,
                match existing {
                    Some(l) => Some(l@),
                    None => None,
                },
                command_id,
                owner_type@,
                owner_key@,
            ) == (match existing {
                Some(l) => Some(l@),
                None => None::<StoredLease>,
            }) && match lease_answer(
                ready,
                match existing {
                    Some(l) => Some(l@),
                    None => None,
                },
                command_id,
                owner_type@,
                owner_key@,
            ) {
                Some(token) => answer == Some(
                    AcquiredEmulatorLease { emulator_id, lease_token: token },
                ),
                None => answer is None,
            },
            LeasePlan::Insert { token_text, lease } => ready && existing is None && lease
                == (AcquiredEmulatorLease { emulator_id, lease_token: command_id })
                && token_text@ == uuid_text_spec(command_id) && parse_uuid_spec(token_text@)
                == Some(command_id),
        },
        (ready && existing is None) <==> r is Insert,
{
    if !ready {
        return LeasePlan::Answer(None);
    }
    match existing {
        Some(l) => LeasePlan::Answer(
            renewed_lease(
                emulator_id,
                l.lease_token.as_str(),
                l.owner_type.as_str(),
                l.owner_key.as_str(),
                owner_type,
                owner_key,
            ),
        ),
        None => LeasePlan::Insert {
            token_text: uuid_text(command_id),
            lease: AcquiredEmulatorLease { emulator_id, lease_token: command_id },
        },
    }
}

/// A live lease is never replaced: while an emulator holds one, no
/// acquisition records another.
pub proof fn law_live_lease_is_never_replaced(
    ready: bool,
    existing: StoredLease,
    command_id: u128,
    owner_type: Seq<char>,
    owner_key: Seq<char>,
)
    ensures
        lease_after(ready, Some(existing), command_id, owner_type, owner_key) == Some(existing),
{
}

/// An emulator never holds two live leases: once an owner acquired a ready
/// emulator's lease for command `c1`, a later acquisition while that lease
/// lives records nothing; it gives the same owner the token `c1` again and
/// any other owner nothing. The token text that `lease_plan` records for
/// `c1` reads back as `c1`, which its contract states.
pub proof fn law_one_live_lease_per_emulator(
    c1: u128,
    owner_type1: Seq<char>,
    owner_key1: Seq<char>,
    c2: u128,
    owner_type2: Seq<char>,
    owner_key2: Seq<char>,
)
    requires
        parse_uuid_spec(uuid_text_spec(c1)) == Some(c1),
    ensures
        lease_answer(true, None, c1, owner_type1, owner_key1) == Some(c1),
        ({
            let first = lease_after(true, None, c1, owner_type1, owner_key1);
            &&& lease_after(true, first, c2, owner_type2, owner_key2) == first
            &&& lease_answer(true, first, c2, owner_type2, owner_key2) == if owner_type2
                == owner_type1 && owner_key2 == owner_key1 {
                Some(c1)
            } else {
                None
            }
        }),
{
}

/// When a new lease taken at `now_ms` for `ttl_secs` seconds expires.
pub fn lease_expires_at(now_ms: i64, ttl_secs: u64) -> (r: i64)
    requires
        instant_ok(now_ms as int),
        instant_ok(now_ms + lease_length_ms(ttl_secs)),
    ensures
        r == now_ms + lease_length_ms(ttl_secs),
{
    let length: i64 = if ttl_secs <= MAX_LEASE_TTL_SECS {
        (ttl_secs as i64) * 1000
    } else {
        (FALLBACK_LEASE_TTL_SECS as i64) * 1000
    };
    now_ms + length
}

/// The 128-bit value of the UUID that `text` spells, as
/// `uuid::Uuid::parse_str` reads it.
pub uninterp spec fn parse_uuid_spec(text: Seq<char>) -> Option<u128>;

/// Calls `uuid::Uuid::parse_str` and returns the 128-bit value of a parsed
/// UUID. The result is named.
#[verifier::external_body]
pub(crate) fn parse_uuid(text: &str) -> (r: Option<u128>)
    ensures
        r == parse_uuid_spec(text@),
{
    uuid::Uuid::parse_str(text).ok().map(|id| id.as_u128())
}

pub open spec fn lifecycle_name_of(status: EmulatorLifecycleStatus) -> Seq<char> {
    match status {
        EmulatorLifecycleStatus::Offline => "OFFLINE"@,
        EmulatorLifecycleStatus::Starting => "STARTING"@,
        EmulatorLifecycleStatus::Booting => "BOOTING"@,
        EmulatorLifecycleStatus::Ready => "READY"@,
        EmulatorLifecycleStatus::Stopping => "STOPPING"@,
        EmulatorLifecycleStatus::Maintenance => "MAINTENANCE"@,
        EmulatorLifecycleStatus::Error => "ERROR"@,
    }
}

pub fn emulator_lifecycle_name(status: EmulatorLifecycleStatus) -> (r: &'static str)
    ensures
        r@ == lifecycle_name_of(status),
{
    match status {
        EmulatorLifecycleStatus::Offline => "OFFLINE",
        EmulatorLifecycleStatus::Starting => "STARTING",
        EmulatorLifecycleStatus::Booting => "BOOTING",
        EmulatorLifecycleStatus::Ready => "READY",
        EmulatorLifecycleStatus::Stopping => "STOPPING",
        EmulatorLifecycleStatus::Maintenance => "MAINTENANCE",
        EmulatorLifecycleStatus::Error => "ERROR",
    }
}

pub open spec fn occupancy_name_of(status: EmulatorOccupancyStatus) -> Seq<char> {
    match status {
        EmulatorOccupancyStatus::Idle => "IDLE"@,
        EmulatorOccupancyStatus::Busy => "BUSY"@,
        EmulatorOccupancyStatus::Recovery => "RECOVERY"@,
        EmulatorOccupancyStatus::Maintenance => "MAINTENANCE"@,
    }
}

pub fn emulator_occupancy_name(status: EmulatorOccupancyStatus) -> (r: &'static str)
    ensures
        r@ == occupancy_name_of(status),
{
    match status {
        EmulatorOccupancyStatus::Idle => "IDLE",
        EmulatorOccupancyStatus::Busy => "BUSY",
        EmulatorOccupancyStatus::Recovery => "RECOVERY",
        EmulatorOccupancyStatus::Maintenance => "MAINTENANCE",
    }
}

pub open spec fn activity_name_of(activity: EmulatorActivity) -> Seq<char> {
    match activity {
        EmulatorActivity::NoActivity => "NONE"@,
        EmulatorActivity::Login => "LOGIN"@,
        EmulatorActivity::Foster => "FOSTER"@,
        EmulatorActivity::ManualControl => "MANUAL_CONTROL"@,
    }
}

pub fn emulator_activity_name(activity: EmulatorActivity) -> (r: &'static str)
    ensures
        r@ == activity_name_of(activity),
{
    match activity {
        EmulatorActivity::NoActivity => "NONE",
        EmulatorActivity::Login => "LOGIN",
        EmulatorActivity::Foster => "FOSTER",
        EmulatorActivity::ManualControl => "MANUAL_CONTROL",
    }
}

/// The single status column that older readers of an emulator expect:
/// the lifecycle when it is not ready; for a ready emulator its occupancy,
/// and for a busy one what it does.
pub open spec fn legacy_status_of(
    lifecycle: EmulatorLifecycleStatus,
    occupancy: EmulatorOccupancyStatus,
    activity: EmulatorActivity,
) -> Seq<char> {
    match lifecycle {
        EmulatorLifecycleStatus::Offline => "OFFLINE"@,
        EmulatorLifecycleStatus::Maintenance => "MAINTENANCE"@,
        EmulatorLifecycleStatus::Error => "ERROR"@,
        EmulatorLifecycleStatus::Starting
        | EmulatorLifecycleStatus::Booting
        | EmulatorLifecycleStatus::Stopping => "RUNNING"@,
        EmulatorLifecycleStatus::Ready => match occupancy {
            EmulatorOccupancyStatus::Idle => "IDLE"@,
            EmulatorOccupancyStatus::Recovery => "ERROR"@,
            EmulatorOccupancyStatus::Maintenance => "MAINTENANCE"@,
            EmulatorOccupancyStatus::Busy => match activity {
                EmulatorActivity::Login => "LOGIN_SESSION"@,
                _ => "RUNNING"@,
            },
        },
    }
}

pub fn emulator_legacy_status_name(
    lifecycle: EmulatorLifecycleStatus,
    occupancy: EmulatorOccupancyStatus,
    activity: EmulatorActivity,
) -> (r: &'static str)
    ensures
        r@ == legacy_status_of(lifecycle, occupancy, activity),
{
    match lifecycle {
        EmulatorLifecycleStatus::Offline => "OFFLINE",
        EmulatorLifecycleStatus::Maintenance => "MAINTENANCE",
        EmulatorLifecycleStatus::Error => "ERROR",
        EmulatorLifecycleStatus::Starting
        | EmulatorLifecycleStatus::Booting
        | EmulatorLifecycleStatus::Stopping => "RUNNING",
        EmulatorLifecycleStatus::Ready => match occupancy {
            EmulatorOccupancyStatus::Idle => "IDLE",
            EmulatorOccupancyStatus::Recovery => "ERROR",
            EmulatorOccupancyStatus::Maintenance => "MAINTENANCE",
            EmulatorOccupancyStatus::Busy => match activity {
                EmulatorActivity::Login => "LOGIN_SESSION",
                EmulatorActivity::NoActivity
                | EmulatorActivity::Foster
                | EmulatorActivity::ManualControl => "RUNNING",
            },
        },
    }
}

} // verus!
