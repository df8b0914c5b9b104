//! The customer's service page: share links, the service status it shows
//! (with what blocks the next run), manual pauses and quiet periods.
use vstd::prelude::*;

use crate::domain::clone_opt;
use crate::http_status;
use crate::text::{owned, str_eq};
use crate::time::{
    format_hh_mm, hh_mm, instant_ok, parse_hh_mm, parse_hh_mm_spec, shanghai_next_midnight,
    shanghai_local_ok, shanghai_next_midnight_spec, MS_PER_HOUR, SECONDS_PER_DAY,
};

verus! {

#[derive(Debug, Clone, PartialEq, Eq)]
pub enum PublicPortalError {
    Database(String),
    NotFound,
    Expired,
    InvalidPausePreset,
    InvalidQuietPeriod,
}

#[derive(Debug, Clone)]
pub struct CreatedShareLink {
    pub public_token: String,
    pub control_token: String,
}

#[derive(Debug, Clone, PartialEq, Eq)]
pub struct PublicQuietPeriod {
    pub weekday_mask: i32,
    pub start_time: String,
    pub end_time: String,
    pub timezone: String,
    pub before_buffer_minutes: i32,
    pub after_buffer_minutes: i32,
}

/// A recent job as the service page shows it; instants in milliseconds.
#[derive(Debug, Clone, PartialEq, Eq)]
pub struct PublicJob {
    pub status: String,
    pub scheduled_at_ms: i64,
    pub started_at_ms: Option<i64>,
    pub finished_at_ms: Option<i64>,
    pub result_message: Option<String>,
    pub screenshot_url: Option<String>,
}

/// The service status that the page shows; instants in milliseconds.
#[derive(Debug, Clone)]
pub struct PublicServiceStatus {
    pub subscription_no: String,
    pub service_status: String,
    pub character_name: Option<String>,
    pub server_name: Option<String>,
    pub login_status: String,
    pub verify_status: String,
    pub plan_name: String,
    pub resource_mode: String,
    pub resource_type: Option<String>,
    pub daily_target_runs: i32,
    pub today_success_count: i64,
    pub last_success_at_ms: Option<i64>,
    pub next_run_at_ms: Option<i64>,
    pub manual_pause_until_ms: Option<i64>,
    pub effective_blocked_until_ms: Option<i64>,
    pub block_reason: Option<String>,
    pub service_end_at_ms: i64,
    pub relogin_required: bool,
    pub quiet_periods: Vec<PublicQuietPeriod>,
    pub recent_jobs: Vec<PublicJob>,
}

/// A quiet period as a customer enters it.
#[derive(Debug, Clone)]
pub struct QuietPeriodInput {
    pub weekday_mask: i32,
    pub start_time: String,
    pub end_time: String,
    pub before_buffer_minutes: i32,
    pub after_buffer_minutes: i32,
}

/// A share link found by one of its token hashes.
#[derive(Debug, Clone)]
pub struct ShareLinkRow {
    pub id: i64,
    pub subscription_id: i64,
    pub status: String,
    pub expire_at_ms: Option<i64>,
}

/// A subscription with what its service page shows.
#[derive(Debug, Clone)]
pub struct PortalSubscriptionRow {
    pub subscription_no: String,
    pub service_status: String,
    pub game_account_id: i64,
    pub character_name: Option<String>,
    pub server_name: Option<String>,
    pub login_status: String,
    pub verify_status: String,
    pub plan_name: String,
    pub resource_mode: String,
    pub resource_type: Option<String>,
    pub daily_target_runs: i32,
    pub last_success_at_ms: Option<i64>,
    pub next_run_at_ms: Option<i64>,
    pub manual_pause_until_ms: Option<i64>,
    pub service_end_at_ms: i64,
}

/// A stored quiet period; times of day in seconds since midnight.
#[derive(Debug, Clone)]
pub struct QuietPeriodRow {
    pub weekday_mask: i32,
    pub start_time_secs: u32,
    pub end_time_secs: u32,
    pub timezone: String,
    pub before_buffer_minutes: i32,
    pub after_buffer_minutes: i32,
}

/// A recent job of a subscription; instants in milliseconds.
#[derive(Debug, Clone)]
pub struct RecentJobRow {
    pub status: String,
    pub scheduled_at_ms: i64,
    pub started_at_ms: Option<i64>,
    pub finished_at_ms: Option<i64>,
    pub result_message: Option<String>,
    pub screenshot_url: Option<String>,
}

/// The number of recent jobs that the page shows.
pub const RECENT_JOB_COUNT: u32 = 20;

/// The most quiet periods that a subscription may have.
pub const MAX_QUIET_PERIODS: usize = 8;

/// The time zone of the quiet periods that customers enter.
pub const QUIET_PERIOD_TIMEZONE: &'static str = "Asia/Shanghai";

/// A share link may be used while it is active and has not expired.
pub fn validate_share(status: &str, expire_at_ms: Option<i64>, now_ms: i64) -> (r: Result<
    (),
    PublicPortalError,
>)
    ensures
        status@ != "ACTIVE"@ ==> r == Err::<(), PublicPortalError>(PublicPortalError::NotFound),
        status@ == "ACTIVE"@ && (expire_at_ms matches Some(t) && t <= now_ms) ==> r == Err::<
            (),
            PublicPortalError,
        >(PublicPortalError::Expired),
        status@ == "ACTIVE"@ && !(expire_at_ms matches Some(t) && t <= now_ms) ==> r is Ok,
{
    if !str_eq(status, "ACTIVE") {
        return Err(PublicPortalError::NotFound);
    }
    match expire_at_ms {
        Some(t) => if t <= now_ms {
            return Err(PublicPortalError::Expired);
        },
        None => {},
    }
    Ok(())
}

/// The hours of a fixed pause preset.
pub open spec fn preset_hours(preset: Seq<char>) -> Option<int> {
    if preset == "1H"@ {
        Some(1)
    } else if preset == "2H"@ {
        Some(2)
    } else if preset == "4H"@ {
        Some(4)
    } else {
        None
    }
}

/// A fixed pause lies ahead, by one to four hours.
pub proof fn law_fixed_pause_lies_ahead(preset: Seq<char>, now_ms: int)
    ensures
        preset_hours(preset) matches Some(h) ==> now_ms < now_ms + h * MS_PER_HOUR <= now_ms + 4
            * MS_PER_HOUR,
{
}

/// Until when a pause with `preset` lasts, from `now_ms`: one, two or four
/// hours, or until the next midnight in Asia/Shanghai for `TODAY`.
pub fn pause_until(preset: &str, now_ms: i64) -> (r: Result<i64, PublicPortalError>)
    requires
        instant_ok(now_ms as int),
        instant_ok(now_ms + 4 * MS_PER_HOUR),
        preset@ == "TODAY"@ ==> shanghai_local_ok(now_ms as int),
    ensures
        match preset_hours(preset@) {
            Some(h) => r == Ok::<i64, PublicPortalError>((now_ms + h * MS_PER_HOUR) as i64),
            None => if preset@ == "TODAY"@ {
                match shanghai_next_midnight_spec(now_ms) {
                    Some(t) => r == Ok::<i64, PublicPortalError>(t),
                    None => r == Err::<i64, PublicPortalError>(
                        PublicPortalError::InvalidPausePreset,
                    ),
                }
            } else {
                r == Err::<i64, PublicPortalError>(PublicPortalError::InvalidPausePreset)
            },
        },
{
    if str_eq(preset, "1H") {
        Ok(now_ms + MS_PER_HOUR)
    } else if str_eq(preset, "2H") {
        Ok(now_ms + 2 * MS_PER_HOUR)
    } else if str_eq(preset, "4H") {
        Ok(now_ms + 4 * MS_PER_HOUR)
    } else if str_eq(preset, "TODAY") {
        match shanghai_next_midnight(now_ms) {
            Some(t) => Ok(t),
            None => Err(PublicPortalError::InvalidPausePreset),
        }
    } else {
        Err(PublicPortalError::InvalidPausePreset)
    }
}

/// The pause that a pause request answers with: the stored pause after the
/// write, else the requested one.
pub fn effective_pause(stored_ms: Option<i64>, requested_ms: i64) -> (r: i64)
    ensures
        r == match stored_ms {
            Some(t) => t,
            None => requested_ms,
        },
{
    match stored_ms {
        Some(t) => t,
        None => requested_ms,
    }
}

/// A request may hold at most eight quiet periods.
pub fn check_quiet_period_count(count: usize) -> (r: Result<(), PublicPortalError>)
    ensures
        count > MAX_QUIET_PERIODS ==> r == Err::<(), PublicPortalError>(
            PublicPortalError::InvalidQuietPeriod,
        ),
        count <= MAX_QUIET_PERIODS ==> r is Ok,
{
    if count > MAX_QUIET_PERIODS {
        Err(PublicPortalError::InvalidQuietPeriod)
    } else {
        Ok(())
    }
}

/// A valid quiet period: a weekday mask of 1 to 127, buffers of 0 to 120
/// minutes, and start and end times that read as `HH:MM`.
pub open spec fn quiet_input_valid(input: QuietPeriodInput) -> bool {
    &&& 1 <= input.weekday_mask <= 127
    &&& 0 <= input.before_buffer_minutes <= 120
    &&& 0 <= input.after_buffer_minutes <= 120
    &&& parse_hh_mm_spec(input.start_time@) is Some
    &&& parse_hh_mm_spec(input.end_time@) is Some
}

/// The stored quiet period for a valid input, in Asia/Shanghai time.
pub open spec fn quiet_row_matches(row: QuietPeriodRow, input: QuietPeriodInput) -> bool {
    &&& row.weekday_mask == input.weekday_mask
    &&& parse_hh_mm_spec(input.start_time@) == Some(row.start_time_secs)
    &&& parse_hh_mm_spec(input.end_time@) == Some(row.end_time_secs)
    &&& row.timezone@ == QUIET_PERIOD_TIMEZONE@
    &&& row.before_buffer_minutes == input.before_buffer_minutes
    &&& row.after_buffer_minutes == input.after_buffer_minutes
}

/// A stored quiet period keeps what the customer entered: the weekdays, the
/// start and end times of day as they parse, the buffer before the period
/// as its before buffer and the buffer after it as its after buffer, in
/// Asia/Shanghai time.
pub proof fn law_stored_quiet_period_keeps_the_input(row: QuietPeriodRow, input: QuietPeriodInput)
    requires
        quiet_row_matches(row, input),
    ensures
        row.weekday_mask == input.weekday_mask,
        parse_hh_mm_spec(input.start_time@) == Some(row.start_time_secs),
        parse_hh_mm_spec(input.end_time@) == Some(row.end_time_secs),
        row.before_buffer_minutes == input.before_buffer_minutes,
        row.after_buffer_minutes == input.after_buffer_minutes,
        row.timezone@ == QUIET_PERIOD_TIMEZONE@,
{
}

/// The quiet periods to store for the inputs, in their order; any invalid
/// input refuses them all.
pub fn quiet_period_rows(inputs: &Vec<QuietPeriodInput>) -> (r: Result<
    Vec<QuietPeriodRow>,
    PublicPortalError,
>)
    ensures
        (forall|i: int| 0 <= i < inputs@.len() ==> quiet_input_valid(#[trigger] inputs@[i]))
            ==> (r matches Ok(rows) && rows@.len() == inputs@.len() && forall|i: int|
            0 <= i < inputs@.len() ==> quiet_row_matches(#[trigger] rows@[i], inputs@[i])),
        !(forall|i: int| 0 <= i < inputs@.len() ==> quiet_input_valid(#[trigger] inputs@[i]))
            ==> r == Err::<Vec<QuietPeriodRow>, PublicPortalError>(
            PublicPortalError::InvalidQuietPeriod,
        ),
{
    let mut rows: Vec<QuietPeriodRow> = Vec::new();
    let mut i: usize = 0;
    while i < inputs.len()
        invariant
            i <= inputs@.len(),
            rows@.len() == i,
            forall|j: int| 0 <= j < i ==> quiet_input_valid(#[trigger] inputs@[j]),
            forall|j: int| 0 <= j < i ==> quiet_row_matches(#[trigger] rows@[j], inputs@[j]),
        decreases inputs.len() - i,
    {
        let input = &inputs[i];
        if !(1 <= input.weekday_mask && input.weekday_mask <= 127) || !(0
            <= input.before_buffer_minutes && input.before_buffer_minutes <= 120) || !(0
            <= input.after_buffer_minutes && input.after_buffer_minutes <= 120) {
            assert(!quiet_input_valid(inputs@[i as int]));
            return Err(PublicPortalError::InvalidQuietPeriod);
        }
        let start = match parse_hh_mm(input.start_time.as_str()) {
            Some(t) => t,
            None => {
                assert(!quiet_input_valid(inputs@[i as int]));
                return Err(PublicPortalError::InvalidQuietPeriod);
            },
        };
        let end = match parse_hh_mm(input.end_time.as_str()) {
            Some(t) => t,
            None => {
                assert(!quiet_input_valid(inputs@[i as int]));
                return Err(PublicPortalError::InvalidQuietPeriod);
            },
        };
        rows.push(
            QuietPeriodRow {
                weekday_mask: input.weekday_mask,
                start_time_secs: start,
                end_time_secs: end,
                timezone: owned(QUIET_PERIOD_TIMEZONE),
                before_buffer_minutes: input.before_buffer_minutes,
                after_buffer_minutes: input.after_buffer_minutes,
            },
        );
        i = i + 1;
    }
    Ok(rows)
}

/// A stored quiet period as the page shows it, times as `HH:MM`.
pub fn public_quiet_period(row: &QuietPeriodRow) -> (r: PublicQuietPeriod)
    requires
        row.start_time_secs < SECONDS_PER_DAY,
        row.end_time_secs < SECONDS_PER_DAY,
    ensures
        r.weekday_mask == row.weekday_mask,
        r.start_time@ == hh_mm(row.start_time_secs as int),
        r.end_time@ == hh_mm(row.end_time_secs as int),
        r.timezone@ == row.timezone@,
        r.before_buffer_minutes == row.before_buffer_minutes,
        r.after_buffer_minutes == row.after_buffer_minutes,
{
    PublicQuietPeriod {
        weekday_mask: row.weekday_mask,
        start_time: format_hh_mm(row.start_time_secs),
        end_time: format_hh_mm(row.end_time_secs),
        timezone: row.timezone.clone(),
        before_buffer_minutes: row.before_buffer_minutes,
        after_buffer_minutes: row.after_buffer_minutes,
    }
}

/// The stored quiet periods as the page shows them, in order.
pub fn public_quiet_periods(rows: &Vec<QuietPeriodRow>) -> (r: Vec<PublicQuietPeriod>)
    requires
        forall|i: int|
            0 <= i < rows@.len() ==> (#[trigger] rows@[i]).start_time_secs < SECONDS_PER_DAY
                && rows@[i].end_time_secs < SECONDS_PER_DAY,
    ensures
        r@.len() == rows@.len(),
        forall|i: int|
            0 <= i < rows@.len() ==> (#[trigger] r@[i]).weekday_mask == rows@[i].weekday_mask
                && r@[i].start_time@ == hh_mm(rows@[i].start_time_secs as int)
                && r@[i].end_time@ == hh_mm(rows@[i].end_time_secs as int)
                && r@[i].timezone@ == rows@[i].timezone@ && r@[i].before_buffer_minutes
                == rows@[i].before_buffer_minutes && r@[i].after_buffer_minutes
                == rows@[i].after_buffer_minutes,
{
    let mut out: Vec<PublicQuietPeriod> = Vec::new();
    let mut i: usize = 0;
    while i < rows.len()
        invariant
            i <= rows@.len(),
            out@.len() == i,
            forall|j: int|
                0 <= j < rows@.len() ==> (#[trigger] rows@[j]).start_time_secs < SECONDS_PER_DAY
                    && rows@[j].end_time_secs < SECONDS_PER_DAY,
            forall|j: int|
                0 <= j < i ==> (#[trigger] out@[j]).weekday_mask == rows@[j].weekday_mask
                    && out@[j].start_time@ == hh_mm(rows@[j].start_time_secs as int)
                    && out@[j].end_time@ == hh_mm(rows@[j].end_time_secs as int)
                    && out@[j].timezone@ == rows@[j].timezone@ && out@[j].before_buffer_minutes
                    == rows@[j].before_buffer_minutes && out@[j].after_buffer_minutes
                    == rows@[j].after_buffer_minutes,
        decreases rows.len() - i,
    {
        out.push(public_quiet_period(&rows[i]));
        i = i + 1;
    }
    out
}

/// A recent job as the page shows it.
pub fn public_job(row: &RecentJobRow) -> (r: PublicJob)
    ensures
        r.status@ == row.status@,
        r.scheduled_at_ms == row.scheduled_at_ms,
        r.started_at_ms == row.started_at_ms,
        r.finished_at_ms == row.finished_at_ms,
        r.result_message.deep_view() == row.result_message.deep_view(),
        r.screenshot_url.deep_view() == row.screenshot_url.deep_view(),
{
    PublicJob {
        status: row.status.clone(),
        scheduled_at_ms: row.scheduled_at_ms,
        started_at_ms: row.started_at_ms,
        finished_at_ms: row.finished_at_ms,
        result_message: clone_opt(&row.result_message),
        screenshot_url: clone_opt(&row.screenshot_url),
    }
}

/// The latest end among the quiet periods that defer the next run now;
/// `None` when none does.
pub open spec fn latest_deferral(gates: Seq<Option<i64>>) -> Option<i64>
    decreases gates.len(),
{
    if gates.len() == 0 {
        None
    } else {
        match (latest_deferral(gates.drop_last()), gates.last()) {
            (Some(a), Some(b)) => Some(if a >= b {
                a
            } else {
                b
            }),
            (Some(a), None) => Some(a),
            (None, b) => b,
        }
    }
}

/// The latest deferral among the quiet periods' answers: for each period,
/// `Some(end)` when it defers the next run until `end`, else `None`.
pub fn current_quiet_until(gates: &Vec<Option<i64>>) -> (r: Option<i64>)
    ensures
        r == latest_deferral(gates@),
        r matches Some(t) ==> exists|i: int| 0 <= i < gates@.len() && gates@[i] == Some(t),
        r matches Some(t) ==> forall|i: int|
            0 <= i < gates@.len() ==> (#[trigger] gates@[i] matches Some(u) ==> u <= t),
        r is None ==> forall|i: int| 0 <= i < gates@.len() ==> (#[trigger] gates@[i]) is None,
{
    let mut until: Option<i64> = None;
    let mut i: usize = 0;
    while i < gates.len()
        invariant
            i <= gates@.len(),
            until == latest_deferral(gates@.subrange(0, i as int)),
            until matches Some(t) ==> exists|k: int| 0 <= k < i && gates@[k] == Some(t),
            until matches Some(t) ==> forall|k: int|
                0 <= k < i ==> (#[trigger] gates@[k] matches Some(u) ==> u <= t),
            until is None ==> forall|k: int| 0 <= k < i ==> (#[trigger] gates@[k]) is None,
        decreases gates.len() - i,
    {
        let prefix = Ghost(gates@.subrange(0, i + 1));
        assert(prefix@.drop_last() =~= gates@.subrange(0, i as int));
        assert(prefix@.last() == gates@[i as int]);
        match gates[i] {
            Some(value) => {
                until = match until {
                    Some(current) => Some(
                        if current >= value {
                            current
                        } else {
                            value
                        },
                    ),
                    None => Some(value),
                };
            },
            None => {},
        }
        i = i + 1;
    }
    assert(gates@.subrange(0, gates@.len() as int) =~= gates@);
    until
}

/// Why and until when the next run is blocked: a manual pause that is at
/// least as late as the quiet period wins; else a quiet period wins; a
/// manual pause alone blocks only while it lies ahead.
pub open spec fn block_of(manual: Option<i64>, quiet: Option<i64>, now_ms: i64) -> Option<
    (i64, Seq<char>),
> {
    match (manual, quiet) {
        (Some(m), Some(q)) => if m >= q {
            Some((m, "MANUAL_PAUSE"@))
        } else {
            Some((q, "QUIET_PERIOD"@))
        },
        (Some(m), None) => if m > now_ms {
            Some((m, "MANUAL_PAUSE"@))
        } else {
            None
        },
        (None, Some(q)) => Some((q, "QUIET_PERIOD"@)),
        (None, None) => None,
    }
}

/// The next run is blocked until the later of the manual pause and the
/// quiet period: a quiet period that defers the run always blocks it, the
/// block never ends before either, it ends when one of them ends, and a
/// manual pause that has passed blocks nothing on its own.
pub proof fn law_block_is_the_later_pause(manual: Option<i64>, quiet: Option<i64>, now_ms: i64)
    ensures
        quiet is Some ==> block_of(manual, quiet, now_ms) is Some,
        block_of(manual, quiet, now_ms) matches Some((until, _)) ==> (quiet matches Some(q) ==> until
            >= q) && (manual matches Some(m) ==> (quiet is Some ==> until >= m)),
        block_of(manual, quiet, now_ms) matches Some((until, _)) ==> manual == Some(until) || quiet
            == Some(until),
        quiet is None ==> (block_of(manual, quiet, now_ms) is Some <==> (manual matches Some(m) && m
            > now_ms)),
{
}

/// Until when and why the next run is blocked.
pub fn block_state(manual_ms: Option<i64>, quiet_ms: Option<i64>, now_ms: i64) -> (r: (
    Option<i64>,
    Option<String>,
))
    ensures
        match block_of(manual_ms, quiet_ms, now_ms) {
            Some((until, reason)) => r.0 == Some(until) && r.1.deep_view() == Some(reason),
            None => r.0 is None && r.1 is None,
        },
{
    match (manual_ms, quiet_ms) {
        (Some(m), Some(q)) => if m >= q {
            (Some(m), Some(owned("MANUAL_PAUSE")))
        } else {
            (Some(q), Some(owned("QUIET_PERIOD")))
        },
        (Some(m), None) => if m > now_ms {
            (Some(m), Some(owned("MANUAL_PAUSE")))
        } else {
            (None, None)
        },
        (None, Some(q)) => (Some(q), Some(owned("QUIET_PERIOD"))),
        (None, None) => (None, None),
    }
}

/// The service status of a subscription: its stored facts, today's
/// successes, what blocks its next run, its quiet periods and recent jobs.
pub fn build_status(
    row: &PortalSubscriptionRow,
    today_success_count: i64,
    quiet_until_ms: Option<i64>,
    quiet_periods: Vec<PublicQuietPeriod>,
    recent_jobs: Vec<PublicJob>,
    now_ms: i64,
) -> (r: PublicServiceStatus)
    ensures
        r.subscription_no@ == row.subscription_no@,
        r.service_status@ == row.service_status@,
        r.character_name.deep_view() == row.character_name.deep_view(),
        r.server_name.deep_view() == row.server_name.deep_view(),
        r.login_status@ == row.login_status@,
        r.verify_status@ == row.verify_status@,
        r.plan_name@ == row.plan_name@,
        r.resource_mode@ == row.resource_mode@,
        r.resource_type.deep_view() == row.resource_type.deep_view(),
        r.daily_target_runs == row.daily_target_runs,
        r.today_success_count == today_success_count,
        r.last_success_at_ms == row.last_success_at_ms,
        r.next_run_at_ms == row.next_run_at_ms,
        r.manual_pause_until_ms == row.manual_pause_until_ms,
        match block_of(row.manual_pause_until_ms, quiet_until_ms, now_ms) {
            Some((until, reason)) => r.effective_blocked_until_ms == Some(until)
                && r.block_reason.deep_view() == Some(reason),
            None => r.effective_blocked_until_ms is None && r.block_reason is None,
        },
        r.service_end_at_ms == row.service_end_at_ms,
        r.relogin_required == (row.login_status@ == "RELOGIN_REQUIRED"@),
        r.quiet_periods == quiet_periods,
        r.recent_jobs == recent_jobs,
{
    let (effective_blocked_until_ms, block_reason) = block_state(
        row.manual_pause_until_ms,
        quiet_until_ms,
        now_ms,
    );
    PublicServiceStatus {
        subscription_no: row.subscription_no.clone(),
        service_status: row.service_status.clone(),
        character_name: clone_opt(&row.character_name),
        server_name: clone_opt(&row.server_name),
        login_status: row.login_status.clone(),
        verify_status: row.verify_status.clone(),
        plan_name: row.plan_name.clone(),
        resource_mode: row.resource_mode.clone(),
        resource_type: clone_opt(&row.resource_type),
        daily_target_runs: row.daily_target_runs,
        today_success_count,
        last_success_at_ms: row.last_success_at_ms,
        next_run_at_ms: row.next_run_at_ms,
        manual_pause_until_ms: row.manual_pause_until_ms,
        effective_blocked_until_ms,
        block_reason,
        service_end_at_ms: row.service_end_at_ms,
        relogin_required: str_eq(row.login_status.as_str(), "RELOGIN_REQUIRED"),
        quiet_periods,
        recent_jobs,
    }
}

/// The HTTP status that answers a portal error.
pub open spec fn portal_status_of(error: PublicPortalError) -> u16 {
    match error {
        PublicPortalError::NotFound => http_status::NOT_FOUND,
        PublicPortalError::Expired => http_status::GONE,
        PublicPortalError::InvalidPausePreset | PublicPortalError::InvalidQuietPeriod =>
            http_status::BAD_REQUEST,
        PublicPortalError::Database(_) => http_status::INTERNAL_SERVER_ERROR,
    }
}

pub fn portal_status_code(error: &PublicPortalError) -> (r: u16)
    ensures
        r == portal_status_of(*error),
{
    match error {
        PublicPortalError::NotFound => http_status::NOT_FOUND,
        PublicPortalError::Expired => http_status::GONE,
        PublicPortalError::InvalidPausePreset | PublicPortalError::InvalidQuietPeriod =>
            http_status::BAD_REQUEST,
        PublicPortalError::Database(_) => http_status::INTERNAL_SERVER_ERROR,
    }
}

} // verus!
