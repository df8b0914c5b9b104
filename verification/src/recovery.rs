//! Manual recovery of foster jobs whose outcome is unknown: an operator
//! states whether the run succeeded or never happened, and the job, its
//! platform resource and its subscription are brought to a consistent state.
use vstd::prelude::*;

use crate::http_status;
use crate::text::{owned, str_eq, trim, trim_seq};
use crate::time::{earlier, instant_ok, MS_PER_MINUTE, MS_PER_SECOND};

verus! {

#[derive(Debug, Clone, Copy, PartialEq, Eq, Structural)]
pub enum RecoveryAction {
    ConfirmSucceeded,
    ConfirmNotExecuted,
}

pub open spec fn recovery_action_name(action: RecoveryAction) -> Seq<char> {
    match action {
        RecoveryAction::ConfirmSucceeded => "CONFIRM_SUCCEEDED"@,
        RecoveryAction::ConfirmNotExecuted => "CONFIRM_NOT_EXECUTED"@,
    }
}

/// Each recovery action is audited under a name of its own.
pub proof fn law_recovery_action_names_differ(a: RecoveryAction, b: RecoveryAction)
    ensures
        recovery_action_name(a) == recovery_action_name(b) ==> a == b,
{
    reveal_strlit("CONFIRM_SUCCEEDED");
    reveal_strlit("CONFIRM_NOT_EXECUTED");
    assert("CONFIRM_SUCCEEDED"@.len() != "CONFIRM_NOT_EXECUTED"@.len());
}

impl RecoveryAction {
    /// The name under which the resolution is audited.
    pub fn as_str(self) -> (r: &'static str)
        ensures
            r@ == recovery_action_name(self),
    {
        match self {
            RecoveryAction::ConfirmSucceeded => "CONFIRM_SUCCEEDED",
            RecoveryAction::ConfirmNotExecuted => "CONFIRM_NOT_EXECUTED",
        }
    }
}

#[derive(Debug, Clone)]
pub struct ResolveRecoveryRequest {
    pub expected_attempt: i32,
    pub action: RecoveryAction,
    pub operator: String,
    pub note: String,
    pub observed_remaining_seconds: Option<i32>,
    pub confirmed_stopped: bool,
}

/// A job that waits for recovery, as the recovery list shows it; instants
/// in milliseconds.
#[derive(Debug, Clone)]
pub struct RecoveryJobView {
    pub job_id: i64,
    pub job_no: String,
    pub attempt: i32,
    pub game_account_id: i64,
    pub emulator_id: Option<i64>,
    pub host_id: Option<i64>,
    pub resource_mode: String,
    pub allocation_id: Option<i64>,
    pub allocation_status: Option<String>,
    pub resource_cycle_id: Option<i64>,
    pub started_at_ms: Option<i64>,
    pub error_code: Option<String>,
    pub result_message: Option<String>,
}

/// The outcome of a resolution; instants in milliseconds.
#[derive(Debug, Clone)]
pub struct RecoveryResolutionResult {
    pub job_id: i64,
    pub status: String,
    pub next_run_at_ms: Option<i64>,
    pub retry_after_ms: Option<i64>,
    pub allocation_status: Option<String>,
}

#[derive(Debug, Clone, PartialEq, Eq)]
pub enum RecoveryError {
    Database(String),
    JobNotFound,
    StateConflict,
    AttemptMismatch,
    InvalidOperator,
    InvalidNote,
    MustConfirmStopped,
    RemainingRequired,
    InvalidRemaining,
    AllocationUnavailable,
    SubscriptionUnavailable,
}

/// The job under recovery, locked.
#[derive(Debug, Clone)]
pub struct LockedJob {
    pub id: i64,
    pub subscription_id: i64,
    pub status: String,
    pub retry_count: i32,
    pub resource_allocation_id: Option<i64>,
}

/// The job's subscription, locked.
#[derive(Debug, Clone)]
pub struct LockedSubscription {
    pub id: i64,
    pub resource_mode: String,
    pub interval_minutes: i32,
    pub status: String,
}

/// The job's resource allocation, locked.
#[derive(Debug, Clone)]
pub struct LockedAllocation {
    pub id: i64,
    pub resource_cycle_id: i64,
    pub status: String,
}

/// The longest list of jobs awaiting recovery.
pub const MAX_RECOVERY_LIST: u32 = 100;

/// How long after an operator confirms that a run never happened the job is
/// tried again, in minutes.
pub const RETRY_AFTER_MINUTES: i64 = 5;

/// The longest observed remaining duration, in seconds.
pub const MAX_OBSERVED_REMAINING_SECONDS: i32 = 86_400;

/// The number of jobs that the recovery list shows for a requested limit:
/// at least one and at most a hundred.
pub fn recovery_list_limit(limit: u32) -> (r: u32)
    ensures
        r == if limit < 1 {
            1
        } else if limit > MAX_RECOVERY_LIST {
            MAX_RECOVERY_LIST
        } else {
            limit
        },
{
    if limit < 1 {
        1
    } else if limit > MAX_RECOVERY_LIST {
        MAX_RECOVERY_LIST
    } else {
        limit
    }
}

/// The first error of a resolution request, checked in this order: the
/// operator (trimmed, 1 to 64 characters), the note (trimmed, 5 to 255
/// characters), the stop confirmation of a retry, the observed remaining
/// duration (1 to 86400 seconds when given).
pub open spec fn request_error(request: ResolveRecoveryRequest) -> Option<RecoveryError> {
    let operator = trim_seq(request.operator@);
    let note = trim_seq(request.note@);
    if operator.len() == 0 || operator.len() > 64 {
        Some(RecoveryError::InvalidOperator)
    } else if note.len() < 5 || note.len() > 255 {
        Some(RecoveryError::InvalidNote)
    } else if request.action == RecoveryAction::ConfirmNotExecuted && !request.confirmed_stopped {
        Some(RecoveryError::MustConfirmStopped)
    } else if request.observed_remaining_seconds matches Some(s) && !(1 <= s
        <= MAX_OBSERVED_REMAINING_SECONDS) {
        Some(RecoveryError::InvalidRemaining)
    } else {
        None
    }
}

/// Checks a resolution request; a valid one gives its operator and note,
/// trimmed, for the audit.
pub fn validate_request(request: &ResolveRecoveryRequest) -> (r: Result<
    (String, String),
    RecoveryError,
>)
    ensures
        match request_error(*request) {
            Some(e) => r == Err::<(String, String), RecoveryError>(e),
            None => r matches Ok((operator, note)) && operator@ == trim_seq(request.operator@)
                && note@ == trim_seq(request.note@),
        },
{
    let operator = trim(request.operator.as_str());
    let operator_len = operator.unicode_len();
    if operator_len == 0 || operator_len > 64 {
        return Err(RecoveryError::InvalidOperator);
    }
    let note = trim(request.note.as_str());
    let note_len = note.unicode_len();
    if note_len < 5 || note_len > 255 {
        return Err(RecoveryError::InvalidNote);
    }
    if request.action == RecoveryAction::ConfirmNotExecuted && !request.confirmed_stopped {
        return Err(RecoveryError::MustConfirmStopped);
    }
    match request.observed_remaining_seconds {
        Some(s) => if !(1 <= s && s <= MAX_OBSERVED_REMAINING_SECONDS) {
            return Err(RecoveryError::InvalidRemaining);
        },
        None => {},
    }
    Ok((owned(operator), owned(note)))
}

/// The job must exist, await recovery, and be at the expected attempt.
pub fn check_recovery_job(job: Option<&LockedJob>, expected_attempt: i32) -> (r: Result<
    (),
    RecoveryError,
>)
    ensures
        match job {
            None => r == Err::<(), RecoveryError>(RecoveryError::JobNotFound),
            Some(j) => if j.status@ != "RECOVERY_REQUIRED"@ {
                r == Err::<(), RecoveryError>(RecoveryError::StateConflict)
            } else if j.retry_count != expected_attempt {
                r == Err::<(), RecoveryError>(RecoveryError::AttemptMismatch)
            } else {
                r is Ok
            },
        },
{
    match job {
        None => Err(RecoveryError::JobNotFound),
        Some(j) => {
            if !str_eq(j.status.as_str(), "RECOVERY_REQUIRED") {
                Err(RecoveryError::StateConflict)
            } else if j.retry_count != expected_attempt {
                Err(RecoveryError::AttemptMismatch)
            } else {
                Ok(())
            }
        },
    }
}

/// Whether a subscription takes its resources from the platform.
pub open spec fn platform_subscription(subscription: LockedSubscription) -> bool {
    subscription.resource_mode@ == "PLATFORM"@
}

/// The subscription must exist, and a platform job must still have its
/// allocation.
pub fn check_recovery_resources(
    subscription: Option<&LockedSubscription>,
    allocation_present: bool,
) -> (r: Result<(), RecoveryError>)
    ensures
        match subscription {
            None => r == Err::<(), RecoveryError>(RecoveryError::SubscriptionUnavailable),
            Some(s) => if platform_subscription(*s) && !allocation_present {
                r == Err::<(), RecoveryError>(RecoveryError::AllocationUnavailable)
            } else {
                r is Ok
            },
        },
{
    match subscription {
        None => Err(RecoveryError::SubscriptionUnavailable),
        Some(s) => {
            if str_eq(s.resource_mode.as_str(), "PLATFORM") && !allocation_present {
                Err(RecoveryError::AllocationUnavailable)
            } else {
                Ok(())
            }
        },
    }
}

/// How many seconds a run that the operator confirmed occupies: the
/// observed remaining duration, else one run interval.
pub open spec fn confirmed_run_seconds(remaining: Option<i32>, interval_minutes: i32) -> int {
    match remaining {
        Some(s) => s as int,
        None => interval_minutes as int * 60,
    }
}

/// When the next run of a confirmed success is due.
pub open spec fn confirmed_next_run(now_ms: i64, remaining: Option<i32>, interval_minutes: i32) -> int {
    now_ms + confirmed_run_seconds(remaining, interval_minutes) * 1000
}

/// What confirming a success needs before anything is written: a platform
/// job needs an observed remaining duration and a reserved or confirmed
/// allocation. On success it gives when the next run is due.
pub fn plan_confirm_success(
    subscription: &LockedSubscription,
    allocation: Option<&LockedAllocation>,
    remaining: Option<i32>,
    now_ms: i64,
) -> (r: Result<i64, RecoveryError>)
    requires
        instant_ok(now_ms as int),
        instant_ok(confirmed_next_run(now_ms, remaining, subscription.interval_minutes)),
    ensures
        if platform_subscription(*subscription) && remaining is None {
            r == Err::<i64, RecoveryError>(RecoveryError::RemainingRequired)
        } else if platform_subscription(*subscription) && !(allocation matches Some(a) && (
        a.status@ == "RESERVED"@ || a.status@ == "CONFIRMED"@)) {
            r == Err::<i64, RecoveryError>(RecoveryError::AllocationUnavailable)
        } else {
            r == Ok::<i64, RecoveryError>(
                confirmed_next_run(now_ms, remaining, subscription.interval_minutes) as i64,
            )
        },
{
    let platform = str_eq(subscription.resource_mode.as_str(), "PLATFORM");
    if platform && remaining.is_none() {
        return Err(RecoveryError::RemainingRequired);
    }
    let seconds: i64 = match remaining {
        Some(s) => s as i64,
        None => (subscription.interval_minutes as i64) * 60,
    };
    let next_run_at = now_ms + seconds * MS_PER_SECOND;
    if platform {
        let usable = match allocation {
            Some(a) => str_eq(a.status.as_str(), "RESERVED") || str_eq(
                a.status.as_str(),
                "CONFIRMED",
            ),
            None => false,
        };
        if !usable {
            return Err(RecoveryError::AllocationUnavailable);
        }
    }
    Ok(next_run_at)
}

/// A confirmed slot is held until the next run but never past the end of
/// its cycle, and while both lie ahead it is still held after now.
pub proof fn law_confirmed_slot_stays_within_cycle(next_run_at_ms: int, cycle_end_ms: int, now_ms: int)
    requires
        cycle_end_ms > now_ms,
    ensures
        earlier(next_run_at_ms, cycle_end_ms) <= cycle_end_ms,
        earlier(next_run_at_ms, cycle_end_ms) <= next_run_at_ms,
        earlier(next_run_at_ms, cycle_end_ms) == next_run_at_ms || earlier(next_run_at_ms, cycle_end_ms)
            == cycle_end_ms,
        next_run_at_ms > now_ms ==> earlier(next_run_at_ms, cycle_end_ms) > now_ms,
{
}

/// Until when the confirmed platform slot stays occupied: the next run, but
/// no later than the end of its resource cycle, which must still be running.
pub fn confirmed_occupied_until(next_run_at_ms: i64, cycle_end_ms: i64, now_ms: i64) -> (r: Result<
    i64,
    RecoveryError,
>)
    ensures
        cycle_end_ms <= now_ms ==> r == Err::<i64, RecoveryError>(
            RecoveryError::AllocationUnavailable,
        ),
        cycle_end_ms > now_ms ==> r == Ok::<i64, RecoveryError>(
            earlier(next_run_at_ms as int, cycle_end_ms as int) as i64,
        ),
{
    if cycle_end_ms <= now_ms {
        return Err(RecoveryError::AllocationUnavailable);
    }
    if next_run_at_ms <= cycle_end_ms {
        Ok(next_run_at_ms)
    } else {
        Ok(cycle_end_ms)
    }
}

/// The outcome of a confirmed success: the job succeeded; the next run is
/// scheduled only for an active subscription; a platform allocation is
/// confirmed.
pub fn success_resolution(
    job_id: i64,
    subscription: &LockedSubscription,
    next_run_at_ms: i64,
) -> (r: RecoveryResolutionResult)
    ensures
        r.job_id == job_id,
        r.status@ == "SUCCESS"@,
        r.next_run_at_ms == if subscription.status@ == "ACTIVE"@ {
            Some(next_run_at_ms)
        } else {
            None
        },
        r.retry_after_ms is None,
        r.allocation_status.deep_view() == if platform_subscription(*subscription) {
            Some("CONFIRMED"@)
        } else {
            None
        },
{
    let scheduled = if str_eq(subscription.status.as_str(), "ACTIVE") {
        Some(next_run_at_ms)
    } else {
        None
    };
    let allocation_status = if str_eq(subscription.resource_mode.as_str(), "PLATFORM") {
        Some(owned("CONFIRMED"))
    } else {
        None
    };
    RecoveryResolutionResult {
        job_id,
        status: owned("SUCCESS"),
        next_run_at_ms: scheduled,
        retry_after_ms: None,
        allocation_status,
    }
}

/// Confirming that a run never happened: an allocation, if any, must still
/// be only reserved; the job is tried again five minutes later, and the
/// allocation is released.
pub fn not_executed_resolution(job_id: i64, allocation: Option<&LockedAllocation>, now_ms: i64) -> (r:
    Result<RecoveryResolutionResult, RecoveryError>)
    requires
        instant_ok(now_ms as int),
        instant_ok(now_ms + RETRY_AFTER_MINUTES * 60_000),
    ensures
        (allocation matches Some(a) && a.status@ != "RESERVED"@) ==> r == Err::<
            RecoveryResolutionResult,
            RecoveryError,
        >(RecoveryError::AllocationUnavailable),
        !(allocation matches Some(a) && a.status@ != "RESERVED"@) ==> (r matches Ok(res)
            && res.job_id == job_id && res.status@ == "RETRY"@ && res.next_run_at_ms is None
            && res.retry_after_ms == Some((now_ms + RETRY_AFTER_MINUTES * 60_000) as i64)
            && res.allocation_status.deep_view() == if allocation is Some {
            Some("RELEASED"@)
        } else {
            None
        }),
{
    match allocation {
        Some(a) => if !str_eq(a.status.as_str(), "RESERVED") {
            return Err(RecoveryError::AllocationUnavailable);
        },
        None => {},
    }
    let retry_after = now_ms + RETRY_AFTER_MINUTES * MS_PER_MINUTE;
    let allocation_status = match allocation {
        Some(_) => Some(owned("RELEASED")),
        None => None,
    };
    Ok(
        RecoveryResolutionResult {
            job_id,
            status: owned("RETRY"),
            next_run_at_ms: None,
            retry_after_ms: Some(retry_after),
            allocation_status,
        },
    )
}


/// The HTTP status that answers a recovery error.
pub open spec fn recovery_status_of(error: RecoveryError) -> u16 {
    match error {
        RecoveryError::InvalidOperator
        | RecoveryError::InvalidNote
        | RecoveryError::MustConfirmStopped
        | RecoveryError::RemainingRequired
        | RecoveryError::InvalidRemaining => http_status::BAD_REQUEST,
        RecoveryError::JobNotFound => http_status::NOT_FOUND,
        RecoveryError::StateConflict
        | RecoveryError::AttemptMismatch
        | RecoveryError::AllocationUnavailable
        | RecoveryError::SubscriptionUnavailable => http_status::CONFLICT,
        RecoveryError::Database(_) => http_status::INTERNAL_SERVER_ERROR,
    }
}

/// Maps a recovery error to the status it is answered with.
pub fn recovery_status_code(error: &RecoveryError) -> (r: u16)
    ensures
        r == recovery_status_of(*error),
{
    match error {
        RecoveryError::InvalidOperator
        | RecoveryError::InvalidNote
        | RecoveryError::MustConfirmStopped
        | RecoveryError::RemainingRequired
        | RecoveryError::InvalidRemaining => http_status::BAD_REQUEST,
        RecoveryError::JobNotFound => http_status::NOT_FOUND,
        RecoveryError::StateConflict
        | RecoveryError::AttemptMismatch
        | RecoveryError::AllocationUnavailable
        | RecoveryError::SubscriptionUnavailable => http_status::CONFLICT,
        RecoveryError::Database(_) => http_status::INTERNAL_SERVER_ERROR,
    }
}

} // verus!
