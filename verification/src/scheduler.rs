//! The scheduler: turns due subscriptions into pending foster jobs.
use vstd::prelude::*;

use crate::ids::{new_record_no, uuid_text_spec, uuid_version};

verus! {

#[derive(Debug, Clone, PartialEq, Eq)]
pub enum SchedulerError {
    Database(String),
}

/// A due subscription, locked for the creation of its job; its next run is
/// in milliseconds since the Unix epoch.
#[derive(Debug, Clone)]
pub struct DueSubscriptionRow {
    pub id: i64,
    pub game_account_id: i64,
    pub next_run_at_ms: i64,
}

/// What gates a job: its status, its account's login and verification
/// status, and the subscription's manual pause.
#[derive(Debug, Clone)]
pub struct JobGateRow {
    pub id: i64,
    pub status: String,
    pub game_account_id: i64,
    pub manual_pause_until_ms: Option<i64>,
    pub login_status: String,
    pub verify_status: String,
}

/// An enabled quiet period of an account; its times of day are seconds
/// after midnight.
#[derive(Debug, Clone)]
pub struct QuietPeriodRow {
    pub weekday_mask: u8,
    pub start_time_secs: u32,
    pub end_time_secs: u32,
    pub timezone: String,
    pub before_buffer_minutes: i32,
    pub after_buffer_minutes: i32,
}

#[derive(Debug, Clone)]
pub struct ClaimJobRow {
    pub id: i64,
    pub status: String,
    pub game_account_id: i64,
}

#[derive(Debug, Clone, Copy)]
pub struct ActiveBindingRow {
    pub emulator_id: i64,
}

#[derive(Debug, Clone)]
pub struct EmulatorClaimRow {
    pub id: i64,
    pub emulator_status: String,
    pub host_status: String,
}

/// The prefix of a job number.
pub const JOB_NO_PREFIX: &'static str = "JOB";

/// The pending job to insert for a due subscription, scheduled at the
/// subscription's next run.
#[derive(Debug, Clone, Copy, PartialEq, Eq, Structural)]
pub struct PendingJobPlan {
    pub subscription_id: i64,
    pub game_account_id: i64,
    pub scheduled_at_ms: i64,
}

/// Whether a run that may create `limit` jobs looks at the due
/// subscriptions at all: a limit of zero creates none.
pub fn scans_due_subscriptions(limit: u32) -> (r: bool)
    ensures
        r == (limit > 0),
{
    limit > 0
}

/// The job to create for a due subscription: none when the subscription is
/// no longer due once locked, when its account has no active binding, or
/// when it still has a job that has not ended; else a pending job at its
/// next run, after which its next run is cleared.
pub fn plan_due_job(
    locked: &Option<DueSubscriptionRow>,
    has_active_binding: bool,
    has_nonterminal_job: bool,
) -> (r: Option<PendingJobPlan>)
    ensures
        match locked {
            None => r is None,
            Some(row) => if has_active_binding && !has_nonterminal_job {
                r == Some(
                    PendingJobPlan {
                        subscription_id: row.id,
                        game_account_id: row.game_account_id,
                        scheduled_at_ms: row.next_run_at_ms,
                    },
                )
            } else {
                r is None
            },
        },
{
    match locked {
        None => None,
        Some(row) => {
            if !has_active_binding || has_nonterminal_job {
                None
            } else {
                Some(
                    PendingJobPlan {
                        subscription_id: row.id,
                        game_account_id: row.game_account_id,
                        scheduled_at_ms: row.next_run_at_ms,
                    },
                )
            }
        },
    }
}

/// A new job number: `JOB-` and a random (version 4) UUID.
pub fn new_job_no() -> (r: String)
    ensures
        exists|id: u128| uuid_version(id) == 4 && r@ == JOB_NO_PREFIX@ + seq!['-'] + uuid_text_spec(id),
{
    new_record_no(JOB_NO_PREFIX)
}

} // verus!
