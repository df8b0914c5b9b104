//! The platform resource pool: which foster jobs may reserve a resource
//! cycle slot, what a reservation holds, how long a confirmed slot stays
//! occupied, and what a released allocation reports.
use vstd::prelude::*;

use crate::domain::{
    resource_type_from, resource_type_of, ResourceMode, ResourceType,
};
use crate::text::{owned, str_eq};
use crate::time::{instant_ok, MS_PER_MINUTE, MS_PER_SECOND};

verus! {

/// Default minimum number of minutes that a resource cycle must still run
/// for a new reservation.
pub const DEFAULT_MIN_REMAINING_MINUTES: i64 = 330;

/// Default number of seconds after which a job waiting for a resource is
/// tried again.
pub const DEFAULT_RETRY_SECONDS: i64 = 60;

#[derive(Debug, Clone, PartialEq, Eq)]
pub enum ResourcePoolError {
    Database(String),
    JobNotFound,
    NotPlatformJob,
    InvalidJobState(String),
    MissingResourceType,
    UnsupportedResourceType(String),
}

#[derive(Debug, Clone, PartialEq, Eq)]
pub struct ResourceReservation {
    pub allocation_id: i64,
    pub provider_account_id: i64,
    pub provider_alias: String,
    pub resource_cycle_id: i64,
    pub resource_type: ResourceType,
}

#[derive(Debug, Clone, PartialEq, Eq)]
pub enum ReserveForJobResult {
    Reserved(ResourceReservation),
    WaitingResource,
}

#[derive(Debug, Clone, Copy, PartialEq, Eq)]
pub struct ReleasedAllocation {
    pub allocation_id: i64,
    pub provider_account_id: i64,
    pub resource_cycle_id: i64,
}

#[derive(Debug, Clone, Copy, PartialEq, Eq, Default)]
pub struct ResourceReapReport {
    pub expired_allocations: usize,
    pub ended_cycles: u64,
}

/// A foster job locked for resource allocation, with its subscription's
/// resource settings.
#[derive(Debug, Clone)]
pub struct LockedResourceJob {
    pub id: i64,
    pub game_account_id: i64,
    pub status: String,
    pub resource_mode: String,
    pub resource_type: Option<String>,
    pub interval_minutes: i32,
}

/// A live (reserved or confirmed) allocation of a job.
#[derive(Debug, Clone)]
pub struct AllocationRow {
    pub id: i64,
    pub resource_cycle_id: i64,
    pub provider_account_id: i64,
    pub provider_alias: String,
    pub resource_type: String,
    pub status: String,
}

/// A resource cycle that a job may reserve a slot of.
#[derive(Debug, Clone)]
pub struct ResourceCandidateRow {
    pub resource_cycle_id: i64,
    pub provider_account_id: i64,
    pub provider_alias: String,
}

/// A live allocation that may be released or expired.
#[derive(Debug, Clone)]
pub struct ReleasableAllocationRow {
    pub id: i64,
    pub resource_cycle_id: i64,
    pub provider_account_id: i64,
    pub status: String,
}

/// The next step of confirming a job's allocation.
#[derive(Debug, Clone, Copy, PartialEq, Eq)]
pub enum ConfirmStep {
    /// Nothing to write; the confirmation answers with this value.
    Done(bool),
    /// The allocation is reserved and is to be confirmed now.
    Confirm,
}

/// Where and how long to search for a resource for a job.
#[derive(Debug, Clone, Copy, PartialEq, Eq)]
pub struct ReservationSearch {
    pub resource_type: ResourceType,
    pub min_end_at_ms: i64,
}

/// The resource mode that a stored mode name stands for: anything but
/// `PLATFORM` is a friend of the user.
pub open spec fn pool_mode_of(name: Seq<char>) -> ResourceMode {
    if name == "PLATFORM"@ {
        ResourceMode::Platform
    } else {
        ResourceMode::UserFriend
    }
}

pub fn parse_resource_mode(name: &str) -> (r: ResourceMode)
    ensures
        r == pool_mode_of(name@),
{
    if str_eq(name, "PLATFORM") {
        ResourceMode::Platform
    } else {
        ResourceMode::UserFriend
    }
}

/// The resource type of a stored name, or the pool's error for an unknown
/// name.
pub fn parse_resource_type(name: &str) -> (r: Result<ResourceType, ResourcePoolError>)
    ensures
        match resource_type_of(name@) {
            Some(t) => r == Ok::<ResourceType, ResourcePoolError>(t),
            None => r matches Err(ResourcePoolError::UnsupportedResourceType(text)) && text@
                == name@,
        },
{
    match resource_type_from(name) {
        Some(t) => Ok(t),
        None => Err(ResourcePoolError::UnsupportedResourceType(owned(name))),
    }
}

/// Whether a job may reserve a resource: it exists, its subscription uses
/// platform resources, and it is switching accounts.
pub open spec fn job_reservable_error(job: Option<LockedResourceJob>) -> Option<ResourcePoolError> {
    match job {
        None => Some(ResourcePoolError::JobNotFound),
        Some(job) => if pool_mode_of(job.resource_mode@) != ResourceMode::Platform {
            Some(ResourcePoolError::NotPlatformJob)
        } else if job.status@ != "SWITCHING_ACCOUNT"@ {
            Some(ResourcePoolError::InvalidJobState(job.status))
        } else {
            None
        },
    }
}

/// Checks a locked job before a reservation.
pub fn check_reservable_job(job: Option<&LockedResourceJob>) -> (r: Result<(), ResourcePoolError>)
    ensures
        match job {
            None => r == Err::<(), ResourcePoolError>(ResourcePoolError::JobNotFound),
            Some(job) => if pool_mode_of(job.resource_mode@) != ResourceMode::Platform {
                r == Err::<(), ResourcePoolError>(ResourcePoolError::NotPlatformJob)
            } else if job.status@ != "SWITCHING_ACCOUNT"@ {
                r matches Err(ResourcePoolError::InvalidJobState(status)) && status@ == job.status@
            } else {
                r is Ok
            },
        },
{
    match job {
        None => Err(ResourcePoolError::JobNotFound),
        Some(job) => {
            if parse_resource_mode(job.resource_mode.as_str()) != ResourceMode::Platform {
                Err(ResourcePoolError::NotPlatformJob)
            } else if !str_eq(job.status.as_str(), "SWITCHING_ACCOUNT") {
                Err(ResourcePoolError::InvalidJobState(job.status.clone()))
            } else {
                Ok(())
            }
        },
    }
}

/// The reservation that a live allocation stands for.
pub fn reservation_from_row(allocation: &AllocationRow) -> (r: Result<
    ResourceReservation,
    ResourcePoolError,
>)
    ensures
        match resource_type_of(allocation.resource_type@) {
            Some(t) => r matches Ok(res) && res.allocation_id == allocation.id
                && res.provider_account_id == allocation.provider_account_id
                && res.provider_alias@ == allocation.provider_alias@ && res.resource_cycle_id
                == allocation.resource_cycle_id && res.resource_type == t,
            None => r matches Err(ResourcePoolError::UnsupportedResourceType(text)) && text@
                == allocation.resource_type@,
        },
{
    let resource_type = parse_resource_type(allocation.resource_type.as_str())?;
    Ok(
        ResourceReservation {
            allocation_id: allocation.id,
            provider_account_id: allocation.provider_account_id,
            provider_alias: allocation.provider_alias.clone(),
            resource_cycle_id: allocation.resource_cycle_id,
            resource_type,
        },
    )
}

/// A reservation as plain values.
pub struct ReservationView {
    pub allocation_id: i64,
    pub provider_account_id: i64,
    pub provider_alias: Seq<char>,
    pub resource_cycle_id: i64,
    pub resource_type: ResourceType,
}

impl View for ResourceReservation {
    type V = ReservationView;

    open spec fn view(&self) -> ReservationView {
        ReservationView {
            allocation_id: self.allocation_id,
            provider_account_id: self.provider_account_id,
            provider_alias: self.provider_alias@,
            resource_cycle_id: self.resource_cycle_id,
            resource_type: self.resource_type,
        }
    }
}

/// The reservation that the live allocation `a` of type `t` stands for.
pub open spec fn row_reservation(a: AllocationRow, t: ResourceType) -> ReservationView {
    ReservationView {
        allocation_id: a.id,
        provider_account_id: a.provider_account_id,
        provider_alias: a.provider_alias@,
        resource_cycle_id: a.resource_cycle_id,
        resource_type: t,
    }
}

/// The reservation made from `candidate` under the allocation
/// `allocation_id`.
pub open spec fn candidate_reservation(
    candidate: ResourceCandidateRow,
    allocation_id: i64,
    t: ResourceType,
) -> ReservationView {
    ReservationView {
        allocation_id,
        provider_account_id: candidate.provider_account_id,
        provider_alias: candidate.provider_alias@,
        resource_cycle_id: candidate.resource_cycle_id,
        resource_type: t,
    }
}

/// What a reservation does for a checked job.
#[derive(Debug, Clone, PartialEq, Eq)]
pub enum ReserveStep {
    /// The job already holds a live allocation: answer with it. No slot is
    /// taken and no allocation is recorded.
    Reuse(ResourceReservation),
    /// The job holds none: search the cycles for a slot.
    Search,
}

/// A reservation step as plain values.
pub enum ReserveStepView {
    Reuse(ReservationView),
    Search,
    Unsupported(Seq<char>),
}

/// What a reservation does, given the job's live allocation if it has one.
pub open spec fn reserve_step_of(live: Option<AllocationRow>) -> ReserveStepView {
    match live {
        None => ReserveStepView::Search,
        Some(a) => match resource_type_of(a.resource_type@) {
            Some(t) => ReserveStepView::Reuse(row_reservation(a, t)),
            None => ReserveStepView::Unsupported(a.resource_type@),
        },
    }
}

/// Whether a step takes a cycle slot: only a search does.
pub open spec fn takes_slot(step: ReserveStepView) -> bool {
    step is Search
}

/// A job that holds a live allocation is answered with it; only a job
/// without one searches for a slot.
pub fn reserve_step(live: Option<&AllocationRow>) -> (r: Result<ReserveStep, ResourcePoolError>)
    ensures
        match reserve_step_of(
            match live {
                Some(a) => Some(*a),
                None => None,
            },
        ) {
            ReserveStepView::Search => r == Ok::<ReserveStep, ResourcePoolError>(
                ReserveStep::Search,
            ),
            ReserveStepView::Reuse(v) => r matches Ok(ReserveStep::Reuse(res)) && res@ == v,
            ReserveStepView::Unsupported(name) => r matches Err(
                ResourcePoolError::UnsupportedResourceType(text),
            ) && text@ == name,
        },
{
    match live {
        None => Ok(ReserveStep::Search),
        Some(a) => {
            let res = reservation_from_row(a)?;
            Ok(ReserveStep::Reuse(res))
        },
    }
}

/// Reserving again hands back the first reservation: once a reservation
/// made from a candidate is recorded as the job's live allocation, the next
/// reservation of the job reuses it, with the same allocation, cycle,
/// provider and type, and takes no further slot.
pub proof fn law_second_reservation_reuses_the_first(
    candidate: ResourceCandidateRow,
    allocation_id: i64,
    t: ResourceType,
    recorded: AllocationRow,
)
    requires
        recorded.id == allocation_id,
        recorded.resource_cycle_id == candidate.resource_cycle_id,
        recorded.provider_account_id == candidate.provider_account_id,
        recorded.provider_alias@ == candidate.provider_alias@,
        resource_type_of(recorded.resource_type@) == Some(t),
    ensures
        reserve_step_of(Some(recorded)) == ReserveStepView::Reuse(
            candidate_reservation(candidate, allocation_id, t),
        ),
        !takes_slot(reserve_step_of(Some(recorded))),
{
}

/// The reservation made from a candidate cycle once its slot is taken and
/// the allocation `allocation_id` is recorded.
pub fn reservation_from_candidate(
    candidate: &ResourceCandidateRow,
    allocation_id: i64,
    resource_type: ResourceType,
) -> (r: ResourceReservation)
    ensures
        r@ == candidate_reservation(*candidate, allocation_id, resource_type),
{
    ResourceReservation {
        allocation_id,
        provider_account_id: candidate.provider_account_id,
        provider_alias: candidate.provider_alias.clone(),
        resource_cycle_id: candidate.resource_cycle_id,
        resource_type,
    }
}

/// The allocation that was released, from the row that was released.
pub fn released_from_row(row: &ReleasableAllocationRow) -> (r: ReleasedAllocation)
    ensures
        r.allocation_id == row.id,
        r.provider_account_id == row.provider_account_id,
        r.resource_cycle_id == row.resource_cycle_id,
{
    ReleasedAllocation {
        allocation_id: row.id,
        provider_account_id: row.provider_account_id,
        resource_cycle_id: row.resource_cycle_id,
    }
}

/// Whether a confirmation goes on to the job's allocation: the job must
/// exist, and only a platform job has one.
pub fn confirm_gate(job: Option<&LockedResourceJob>) -> (r: Result<bool, ResourcePoolError>)
    ensures
        match job {
            None => r == Err::<bool, ResourcePoolError>(ResourcePoolError::JobNotFound),
            Some(job) => r == Ok::<bool, ResourcePoolError>(
                pool_mode_of(job.resource_mode@) == ResourceMode::Platform,
            ),
        },
{
    match job {
        None => Err(ResourcePoolError::JobNotFound),
        Some(job) => Ok(parse_resource_mode(job.resource_mode.as_str()) == ResourceMode::Platform),
    }
}

/// What confirming a platform job's allocation does: without a live
/// allocation it answers `false`; a confirmed one is already done; a
/// reserved one is confirmed.
pub fn confirm_step(allocation: Option<&AllocationRow>) -> (r: ConfirmStep)
    ensures
        match allocation {
            None => r == ConfirmStep::Done(false),
            Some(a) => if a.status@ == "CONFIRMED"@ {
                r == ConfirmStep::Done(true)
            } else {
                r == ConfirmStep::Confirm
            },
        },
{
    match allocation {
        None => ConfirmStep::Done(false),
        Some(a) => if str_eq(a.status.as_str(), "CONFIRMED") {
            ConfirmStep::Done(true)
        } else {
            ConfirmStep::Confirm
        },
    }
}

/// How many seconds a confirmed slot stays occupied: the remaining time
/// that the agent observed when it is positive, else one run interval.
pub open spec fn occupied_seconds(remaining_seconds: Option<i64>, interval_minutes: i32) -> int {
    match remaining_seconds {
        Some(s) if s > 0 => s as int,
        _ => interval_minutes as int * 60,
    }
}

/// The instant until which a confirmed slot stays occupied.
pub fn occupied_until(
    completed_at_ms: i64,
    remaining_seconds: Option<i64>,
    interval_minutes: i32,
) -> (r: i64)
    requires
        instant_ok(completed_at_ms as int),
        instant_ok(
            completed_at_ms + occupied_seconds(remaining_seconds, interval_minutes) * 1000,
        ),
    ensures
        r == completed_at_ms + occupied_seconds(remaining_seconds, interval_minutes) * 1000,
{
    let seconds: i64 = match remaining_seconds {
        Some(s) if s > 0 => s,
        _ => (interval_minutes as i64) * 60,
    };
    completed_at_ms + seconds * MS_PER_SECOND
}

/// The settings of the resource pool: how long a cycle must still run for
/// a new reservation, and how soon a job that found no resource is tried
/// again.
#[derive(Debug, Clone, Copy)]
pub struct ResourcePoolService {
    pub min_remaining_minutes: i64,
    pub retry_seconds: i64,
}

/// The setting read from configuration text: the parsed value when it is at
/// least `min`, else the default.
pub open spec fn setting_value(text: Option<Seq<char>>, min: int, default: i64) -> i64 {
    match text {
        Some(t) => match crate::number::parse_i64_spec(t) {
            Some(v) if v >= min => v,
            _ => default,
        },
        None => default,
    }
}

/// Whatever the configuration holds, a setting read from it is at least
/// its minimum when its default is: the minimum remaining time is never
/// negative and a retry always waits at least a second.
pub proof fn law_settings_respect_minimum(text: Option<Seq<char>>, min: int, default: i64)
    requires
        default >= min,
    ensures
        setting_value(text, min, default) >= min,
{
}

impl ResourcePoolService {
    /// Settings that the pool can work with: no negative minimum remaining
    /// time and a retry delay of at least a second.
    pub open spec fn valid(&self) -> bool {
        self.min_remaining_minutes >= 0 && self.retry_seconds >= 1
    }

    /// The settings from the configuration texts of
    /// `FOSTER_RESOURCE_MIN_REMAINING_MINUTES` (a number of minutes, at
    /// least 0; else 330) and `FOSTER_RESOURCE_RETRY_SECONDS` (a number of
    /// seconds, at least 1; else 60).
    pub fn from_settings(min_remaining_text: Option<&str>, retry_text: Option<&str>) -> (r: Self)
        ensures
            r.min_remaining_minutes == setting_value(
                match min_remaining_text {
                    Some(t) => Some(t@),
                    None => None,
                },
                0,
                DEFAULT_MIN_REMAINING_MINUTES,
            ),
            r.retry_seconds == setting_value(
                match retry_text {
                    Some(t) => Some(t@),
                    None => None,
                },
                1,
                DEFAULT_RETRY_SECONDS,
            ),
            r.valid(),
    {
        let min_remaining_minutes = match min_remaining_text {
            Some(t) => match crate::number::parse_i64(t) {
                Some(v) if v >= 0 => v,
                _ => DEFAULT_MIN_REMAINING_MINUTES,
            },
            None => DEFAULT_MIN_REMAINING_MINUTES,
        };
        let retry_seconds = match retry_text {
            Some(t) => match crate::number::parse_i64(t) {
                Some(v) if v > 0 => v,
                _ => DEFAULT_RETRY_SECONDS,
            },
            None => DEFAULT_RETRY_SECONDS,
        };
        ResourcePoolService { min_remaining_minutes, retry_seconds }
    }

    /// The same settings with the minimum remaining minutes set to
    /// `minutes`, or 0 for a negative value.
    pub fn with_min_remaining_minutes(self, minutes: i64) -> (r: Self)
        ensures
            r.min_remaining_minutes == if minutes >= 0 {
                minutes
            } else {
                0
            },
            r.retry_seconds == self.retry_seconds,
            self.valid() ==> r.valid(),
    {
        let mut next = self;
        next.min_remaining_minutes = if minutes >= 0 {
            minutes
        } else {
            0
        };
        next
    }

    /// The same settings with the retry delay set to `seconds`, or 1 for a
    /// smaller value.
    pub fn with_retry_seconds(self, seconds: i64) -> (r: Self)
        ensures
            r.retry_seconds == if seconds >= 1 {
                seconds
            } else {
                1
            },
            r.min_remaining_minutes == self.min_remaining_minutes,
            self.valid() ==> r.valid(),
    {
        let mut next = self;
        next.retry_seconds = if seconds >= 1 {
            seconds
        } else {
            1
        };
        next
    }

    /// The resource type to search for and the earliest end of a cycle that
    /// may serve the job: `now` plus the minimum remaining minutes.
    pub fn reservation_search(&self, job: &LockedResourceJob, now_ms: i64) -> (r: Result<
        ReservationSearch,
        ResourcePoolError,
    >)
        requires
            instant_ok(now_ms as int),
            instant_ok(now_ms + self.min_remaining_minutes * 60_000),
        ensures
            match job.resource_type {
                None => r == Err::<ReservationSearch, ResourcePoolError>(
                    ResourcePoolError::MissingResourceType,
                ),
                Some(name) => match resource_type_of(name@) {
                    Some(t) => r == Ok::<ReservationSearch, ResourcePoolError>(
                        ReservationSearch {
                            resource_type: t,
                            min_end_at_ms: (now_ms + self.min_remaining_minutes * 60_000) as i64,
                        },
                    ),
                    None => r matches Err(ResourcePoolError::UnsupportedResourceType(text))
                        && text@ == name@,
                },
            },
    {
        let name = match &job.resource_type {
            Some(name) => name,
            None => {
                return Err(ResourcePoolError::MissingResourceType);
            },
        };
        let resource_type = parse_resource_type(name.as_str())?;
        Ok(
            ReservationSearch {
                resource_type,
                min_end_at_ms: now_ms + self.min_remaining_minutes * MS_PER_MINUTE,
            },
        )
    }

    /// When a job that found no resource is tried again.
    pub fn retry_at(&self, now_ms: i64) -> (r: i64)
        requires
            instant_ok(now_ms as int),
            instant_ok(now_ms + self.retry_seconds * 1000),
        ensures
            r == now_ms + self.retry_seconds * 1000,
            self.valid() ==> r > now_ms,
    {
        now_ms + self.retry_seconds * MS_PER_SECOND
    }
}

/// The status a finished allocation takes when the job gives it back.
pub const RELEASED_STATUS: &'static str = "RELEASED";

/// The status a finished allocation takes when its time ran out.
pub const EXPIRED_STATUS: &'static str = "EXPIRED";

/// The reason recorded for an expired allocation.
pub const EXPIRED_REASON: &'static str = "allocation expired";

} // verus!
