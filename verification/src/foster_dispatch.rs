//! Dispatching foster jobs to agents and following their progress: what a
//! job must hold before its command is sent, which identity the agent must
//! find, what happens when the emulator is busy or the delivery fails, and
//! how stage, success and failure reports move a job on.
use vstd::prelude::*;

use crate::domain::{
    clone_opt, resource_type_from, resource_type_of, AccountIdentity, FosterErrorCode,
    FosterJobStatus, FosterStage, FosterTargetIdentity, ResourceMode, ResourceType,
};
use crate::identity::{account_identity_from, account_identity_of, AccountIdentityView};
use crate::resource_pool::{
    ReleasedAllocation, ReserveForJobResult, ResourcePoolError, ResourceReservation,
};
use crate::text::{owned, str_eq};

verus! {

#[derive(Debug, Clone, PartialEq, Eq)]
pub enum FosterDispatchError {
    Database(String),
    Scheduler(String),
    ResourcePool(ResourcePoolError),
    JobNotFound,
    InvalidJobState,
    UnsupportedResourceMode(String),
    UnsupportedResourceType(String),
}

#[derive(Debug, Clone, Copy, PartialEq, Eq, Structural)]
pub enum DispatchFosterResult {
    Dispatched,
    WaitingEmulator,
    RecoveryRequired,
    RejectedIdentity,
    AlreadyHandled,
    WaitingResource,
}

/// A foster job with what its dispatch needs: its attempt, the emulator
/// and host it runs on, its subscription's resource settings and the
/// account's stored names.
#[derive(Debug, Clone)]
pub struct FosterDispatchTargetRow {
    pub job_id: i64,
    pub game_account_id: i64,
    pub status: String,
    pub retry_count: i32,
    pub emulator_id: i64,
    pub host_id: i64,
    pub emulator_code: String,
    pub resource_mode: String,
    pub resource_type: Option<String>,
    pub character_name: Option<String>,
    pub server_name: Option<String>,
    pub game_uid: Option<String>,
}

/// A trusted identity hint of the job's game account.
#[derive(Debug, Clone)]
pub struct FosterIdentityRow {
    pub identity_type: String,
    pub identity_value: String,
    pub normalized_value: String,
    pub confidence: i32,
}

/// The command that asks an agent to run a foster job.
#[derive(Debug, Clone)]
pub struct ExecuteFosterCommand {
    pub job_id: i64,
    pub attempt: i32,
    pub game_account_id: i64,
    pub emulator_code: String,
    pub resource_mode: ResourceMode,
    pub resource_type: Option<ResourceType>,
    pub provider_alias: Option<String>,
    pub target_identity: FosterTargetIdentity,
}

/// The owner type of a foster job's emulator lease.
pub const FOSTER_LEASE_OWNER: &'static str = "FOSTER";

/// How long a foster job's emulator lease lasts, in seconds.
pub const FOSTER_LEASE_TTL_SECS: u64 = 900;

/// How long the server waits for an agent to take a command, in seconds.
pub const DELIVERY_TIMEOUT_SECS: u64 = 5;

/// The failure recorded when a job's identity hints are too weak.
pub const INSUFFICIENT_IDENTITY_MESSAGE: &'static str =
    "insufficient trusted identity hints for foster dispatch";

/// The reason recorded when the emulator is busy and the reserved resource
/// is given back.
pub const EMULATOR_BUSY_REASON: &'static str = "emulator is busy";

/// The reason and failure recorded when the agent was offline.
pub const AGENT_OFFLINE_REASON: &'static str = "agent was offline before delivery";

/// The reason recorded when the resource is given back after the agent
/// found another account.
pub const IDENTITY_MISMATCH_REASON: &'static str = "identity mismatch after OAS execution";

/// The failure recorded when the agent found another account.
pub const IDENTITY_MISMATCH_MESSAGE: &'static str =
    "OAS detected identity did not verify against trusted account identity";

/// The resource mode of a subscription's stored mode name.
pub open spec fn dispatch_mode_of(name: Seq<char>) -> Option<ResourceMode> {
    if name == "USER_FRIEND"@ {
        Some(ResourceMode::UserFriend)
    } else if name == "PLATFORM"@ {
        Some(ResourceMode::Platform)
    } else {
        None
    }
}

/// The resource mode of a stored name, or an error for an unknown name.
pub fn parse_resource_mode(name: &str) -> (r: Result<ResourceMode, FosterDispatchError>)
    ensures
        match dispatch_mode_of(name@) {
            Some(m) => r == Ok::<ResourceMode, FosterDispatchError>(m),
            None => r matches Err(FosterDispatchError::UnsupportedResourceMode(text)) && text@
                == name@,
        },
{
    if str_eq(name, "USER_FRIEND") {
        Ok(ResourceMode::UserFriend)
    } else if str_eq(name, "PLATFORM") {
        Ok(ResourceMode::Platform)
    } else {
        Err(FosterDispatchError::UnsupportedResourceMode(owned(name)))
    }
}

/// The resource type of a stored name, or an error for an unknown name.
pub fn parse_resource_type(name: &str) -> (r: Result<ResourceType, FosterDispatchError>)
    ensures
        match resource_type_of(name@) {
            Some(t) => r == Ok::<ResourceType, FosterDispatchError>(t),
            None => r matches Err(FosterDispatchError::UnsupportedResourceType(text)) && text@
                == name@,
        },
{
    match resource_type_from(name) {
        Some(t) => Ok(t),
        None => Err(FosterDispatchError::UnsupportedResourceType(owned(name))),
    }
}

/// A job status from which no report moves the job on.
pub open spec fn terminal_status(status: Seq<char>) -> bool {
    status == "SUCCESS"@ || status == "FAILED"@ || status == "IDENTITY_MISMATCH"@ || status
        == "CANCELLED"@
}

/// A job status while its command runs on an emulator.
pub open spec fn executing_status(status: Seq<char>) -> bool {
    status == "SWITCHING_ACCOUNT"@ || status == "VERIFYING_ACCOUNT"@ || status == "RUNNING"@
}

pub fn is_terminal_status(status: &str) -> (r: bool)
    ensures
        r == terminal_status(status@),
{
    str_eq(status, "SUCCESS") || str_eq(status, "FAILED") || str_eq(status, "IDENTITY_MISMATCH")
        || str_eq(status, "CANCELLED")
}

pub fn is_executing_status(status: &str) -> (r: bool)
    ensures
        r == executing_status(status@),
{
    str_eq(status, "SWITCHING_ACCOUNT") || str_eq(status, "VERIFYING_ACCOUNT") || str_eq(
        status,
        "RUNNING",
    )
}

/// How a dispatch begins.
#[derive(Debug, Clone, Copy, PartialEq, Eq)]
pub enum DispatchStart {
    /// The job has moved on; nothing is sent.
    Finished(DispatchFosterResult),
    /// The job is switching accounts and uses resources of this mode.
    Proceed(ResourceMode),
}

/// The first decision of a dispatch: a job must exist; only a job that is
/// switching accounts is dispatched; its resource mode must be known.
pub fn dispatch_start(target: Option<&FosterDispatchTargetRow>) -> (r: Result<
    DispatchStart,
    FosterDispatchError,
>)
    ensures
        match target {
            None => r == Err::<DispatchStart, FosterDispatchError>(
                FosterDispatchError::JobNotFound,
            ),
            Some(t) => if t.status@ != "SWITCHING_ACCOUNT"@ {
                r == Ok::<DispatchStart, FosterDispatchError>(
                    DispatchStart::Finished(DispatchFosterResult::AlreadyHandled),
                )
            } else {
                match dispatch_mode_of(t.resource_mode@) {
                    Some(m) => r == Ok::<DispatchStart, FosterDispatchError>(
                        DispatchStart::Proceed(m),
                    ),
                    None => r matches Err(FosterDispatchError::UnsupportedResourceMode(text))
                        && text@ == t.resource_mode@,
                }
            },
        },
{
    let target = match target {
        Some(t) => t,
        None => {
            return Err(FosterDispatchError::JobNotFound);
        },
    };
    if !str_eq(target.status.as_str(), "SWITCHING_ACCOUNT") {
        return Ok(DispatchStart::Finished(DispatchFosterResult::AlreadyHandled));
    }
    let mode = parse_resource_mode(target.resource_mode.as_str())?;
    Ok(DispatchStart::Proceed(mode))
}

/// The value of the first row of kind `kind`, in row order.
pub open spec fn first_value_of_type(rows: Seq<FosterIdentityRow>, kind: Seq<char>) -> Option<
    Seq<char>,
>
    decreases rows.len(),
{
    if rows.len() == 0 {
        None
    } else if rows[0].identity_type@ == kind {
        Some(rows[0].identity_value@)
    } else {
        first_value_of_type(rows.drop_first(), kind)
    }
}

/// The values of all rows of kind `kind`, in row order.
pub open spec fn values_of_type(rows: Seq<FosterIdentityRow>, kind: Seq<char>) -> Seq<Seq<char>>
    decreases rows.len(),
{
    if rows.len() == 0 {
        Seq::empty()
    } else if rows.last().identity_type@ == kind {
        values_of_type(rows.drop_last(), kind).push(rows.last().identity_value@)
    } else {
        values_of_type(rows.drop_last(), kind)
    }
}

/// The value of the first row of kind `kind`.
pub fn first_identity(rows: &Vec<FosterIdentityRow>, kind: &str) -> (r: Option<String>)
    ensures
        r.deep_view() == first_value_of_type(rows@, kind@),
{
    let n = rows.len();
    let mut i: usize = 0;
    assert(rows@.subrange(0, n as int) =~= rows@);
    while i < n
        invariant
            n == rows@.len(),
            i <= n,
            first_value_of_type(rows@, kind@) == first_value_of_type(
                rows@.subrange(i as int, n as int),
                kind@,
            ),
        decreases n - i,
    {
        let rest = Ghost(rows@.subrange(i as int, n as int));
        assert(rest@[0] == rows@[i as int]);
        if str_eq(rows[i].identity_type.as_str(), kind) {
            return Some(rows[i].identity_value.clone());
        }
        assert(rest@.drop_first() =~= rows@.subrange(i + 1, n as int));
        i = i + 1;
    }
    None
}

/// The values of all rows of kind `kind`, in row order.
pub fn identity_values(rows: &Vec<FosterIdentityRow>, kind: &str) -> (r: Vec<String>)
    ensures
        r.deep_view() == values_of_type(rows@, kind@),
{
    let n = rows.len();
    let mut out: Vec<String> = Vec::new();
    let mut i: usize = 0;
    while i < n
        invariant
            n == rows@.len(),
            i <= n,
            out.deep_view() == values_of_type(rows@.subrange(0, i as int), kind@),
        decreases n - i,
    {
        let ghost before = out.deep_view();
        let prefix = Ghost(rows@.subrange(0, i + 1));
        assert(prefix@.drop_last() =~= rows@.subrange(0, i as int));
        assert(prefix@.last() == rows@[i as int]);
        if str_eq(rows[i].identity_type.as_str(), kind) {
            out.push(rows[i].identity_value.clone());
            assert(out.deep_view() =~= before.push(rows@[i as int].identity_value@));
        }
        i = i + 1;
    }
    assert(rows@.subrange(0, n as int) =~= rows@);
    out
}

/// The target identity that an agent must find for a job: the masked
/// account and the OCR aliases from the trusted hints, and each name from
/// the account itself or else from the first trusted hint of its kind.
pub open spec fn target_identity_matches(
    identity: FosterTargetIdentity,
    target: FosterDispatchTargetRow,
    rows: Seq<FosterIdentityRow>,
) -> bool {
    &&& identity.masked_account.deep_view() == first_value_of_type(rows, "MASKED_ACCOUNT"@)
    &&& identity.account_aliases.deep_view() == values_of_type(rows, "OCR_ALIAS"@)
    &&& identity.character_name.deep_view() == match target.character_name {
        Some(v) => Some(v@),
        None => first_value_of_type(rows, "CHARACTER_NAME"@),
    }
    &&& identity.server_name.deep_view() == match target.server_name {
        Some(v) => Some(v@),
        None => first_value_of_type(rows, "SERVER_NAME"@),
    }
    &&& identity.game_uid.deep_view() == match target.game_uid {
        Some(v) => Some(v@),
        None => first_value_of_type(rows, "GAME_UID"@),
    }
}

fn name_or_hint(own: &Option<String>, rows: &Vec<FosterIdentityRow>, kind: &str) -> (r: Option<
    String,
>)
    ensures
        r.deep_view() == match own {
            Some(v) => Some(v@),
            None => first_value_of_type(rows@, kind@),
        },
{
    match own {
        Some(v) => Some(v.clone()),
        None => first_identity(rows, kind),
    }
}

/// The target identity that an agent must find before it runs the job.
pub fn build_target_identity(target: &FosterDispatchTargetRow, rows: &Vec<FosterIdentityRow>) -> (r:
    FosterTargetIdentity)
    ensures
        target_identity_matches(r, *target, rows@),
{
    FosterTargetIdentity {
        masked_account: first_identity(rows, "MASKED_ACCOUNT"),
        account_aliases: identity_values(rows, "OCR_ALIAS"),
        character_name: name_or_hint(&target.character_name, rows, "CHARACTER_NAME"),
        server_name: name_or_hint(&target.server_name, rows, "SERVER_NAME"),
        game_uid: name_or_hint(&target.game_uid, rows, "GAME_UID"),
    }
}

/// The trusted identities that the rows stand for, confidences limited to
/// 0 through 100, rows of unknown kinds left out.
pub open spec fn dispatch_identities_of(rows: Seq<FosterIdentityRow>) -> Seq<AccountIdentityView>
    decreases rows.len(),
{
    if rows.len() == 0 {
        Seq::empty()
    } else {
        let r = rows.last();
        match account_identity_of(
            r.identity_type@,
            r.identity_value@,
            r.normalized_value@,
            r.confidence,
            100,
        ) {
            Some(a) => dispatch_identities_of(rows.drop_last()).push(a),
            None => dispatch_identities_of(rows.drop_last()),
        }
    }
}

/// The trusted identities of a game account, from its identity rows.
pub fn to_account_identities(rows: &Vec<FosterIdentityRow>) -> (r: Vec<AccountIdentity>)
    ensures
        r@.map_values(|a: AccountIdentity| a@) == dispatch_identities_of(rows@),
{
    let n = rows.len();
    let mut out: Vec<AccountIdentity> = Vec::new();
    let mut i: usize = 0;
    while i < n
        invariant
            n == rows@.len(),
            i <= n,
            out@.map_values(|a: AccountIdentity| a@) == dispatch_identities_of(
                rows@.subrange(0, i as int),
            ),
        decreases n - i,
    {
        let ghost before = out@.map_values(|a: AccountIdentity| a@);
        let prefix = Ghost(rows@.subrange(0, i + 1));
        assert(prefix@.drop_last() =~= rows@.subrange(0, i as int));
        assert(prefix@.last() == rows@[i as int]);
        let row = &rows[i];
        match account_identity_from(
            row.identity_type.as_str(),
            &row.identity_value,
            &row.normalized_value,
            row.confidence,
            100,
        ) {
            Some(a) => {
                let ghost v = a@;
                out.push(a);
                assert(out@.map_values(|a: AccountIdentity| a@) =~= before.push(v));
            },
            None => {},
        }
        i = i + 1;
    }
    assert(rows@.subrange(0, n as int) =~= rows@);
    out
}

/// The resources that a foster command names: those of the reservation for
/// a platform job, else the subscription's own resource type and no
/// provider.
pub fn command_resources(
    reservation: Option<&ResourceReservation>,
    target: &FosterDispatchTargetRow,
) -> (r: Result<(Option<ResourceType>, Option<String>), FosterDispatchError>)
    ensures
        match reservation {
            Some(res) => r matches Ok((t, alias)) && t == Some(res.resource_type)
                && alias.deep_view() == Some(res.provider_alias@),
            None => match target.resource_type {
                None => r matches Ok((t, alias)) && t is None && alias is None,
                Some(name) => match resource_type_of(name@) {
                    Some(ty) => r matches Ok((t, alias)) && t == Some(ty) && alias is None,
                    None => r matches Err(FosterDispatchError::UnsupportedResourceType(text))
                        && text@ == name@,
                },
            },
        },
{
    match reservation {
        Some(res) => Ok((Some(res.resource_type), Some(res.provider_alias.clone()))),
        None => match &target.resource_type {
            None => Ok((None, None)),
            Some(name) => {
                let t = parse_resource_type(name.as_str())?;
                Ok((Some(t), None))
            },
        },
    }
}

/// The command that runs the current attempt of the job on its emulator.
pub fn execute_command(
    target: &FosterDispatchTargetRow,
    resource_mode: ResourceMode,
    resource_type: Option<ResourceType>,
    provider_alias: Option<String>,
    target_identity: FosterTargetIdentity,
) -> (r: ExecuteFosterCommand)
    ensures
        r.job_id == target.job_id,
        r.attempt == target.retry_count,
        r.game_account_id == target.game_account_id,
        r.emulator_code@ == target.emulator_code@,
        r.resource_mode == resource_mode,
        r.resource_type == resource_type,
        r.provider_alias == provider_alias,
        r.target_identity == target_identity,
{
    ExecuteFosterCommand {
        job_id: target.job_id,
        attempt: target.retry_count,
        game_account_id: target.game_account_id,
        emulator_code: target.emulator_code.clone(),
        resource_mode,
        resource_type,
        provider_alias,
        target_identity,
    }
}

/// What the attempt to hand a command to an agent came to.
#[derive(Debug, Clone, Copy, PartialEq, Eq, Structural)]
pub enum DeliveryOutcome {
    Delivered,
    /// The host had no live connection.
    Offline,
    /// The connection's outbound queue was closed.
    QueueClosed,
    /// The acknowledgement channel closed before an answer.
    DeliveryClosed,
    /// The connection reported a failed write.
    DeliveryFailed,
    /// No answer came within the delivery timeout.
    TimedOut,
}

/// Whether a dispatch in `mode` asks the pool for a platform resource.
pub fn needs_reservation(mode: ResourceMode) -> (r: bool)
    ensures
        r == (mode == ResourceMode::Platform),
{
    mode == ResourceMode::Platform
}

/// What a dispatch does with the pool's answer.
#[derive(Debug, Clone)]
pub enum ReservationStep {
    /// Go on with the reserved resource.
    Proceed(ResourceReservation),
    /// Stop here with this result; nothing was reserved.
    Finished(DispatchFosterResult),
}

/// A dispatch goes on with a reserved resource; when the pool has none the
/// job waits for a resource.
pub fn reservation_step(result: ReserveForJobResult) -> (r: ReservationStep)
    ensures
        match result {
            ReserveForJobResult::Reserved(reservation) => r == ReservationStep::Proceed(
                reservation,
            ),
            ReserveForJobResult::WaitingResource => r == ReservationStep::Finished(
                DispatchFosterResult::WaitingResource,
            ),
        },
{
    match result {
        ReserveForJobResult::Reserved(reservation) => ReservationStep::Proceed(reservation),
        ReserveForJobResult::WaitingResource => ReservationStep::Finished(
            DispatchFosterResult::WaitingResource,
        ),
    }
}

/// What a dispatch does once it asked for the emulator's lease.
#[derive(Debug, Clone, Copy, PartialEq, Eq)]
pub enum LeaseStep {
    /// The lease is held: build and send the command.
    Proceed,
    /// Someone else holds the emulator: give the resource back when
    /// `release_resource`, and stop with `result`.
    WaitForEmulator { release_resource: bool, result: DispatchFosterResult },
}

/// With the lease the dispatch goes on; without it a platform resource that
/// was reserved for this run is given back and the job waits for its
/// emulator.
pub fn lease_step(acquired: bool, mode: ResourceMode) -> (r: LeaseStep)
    ensures
        acquired ==> r == LeaseStep::Proceed,
        !acquired ==> r == (LeaseStep::WaitForEmulator {
            release_resource: mode == ResourceMode::Platform,
            result: DispatchFosterResult::WaitingEmulator,
        }),
{
    if acquired {
        LeaseStep::Proceed
    } else {
        LeaseStep::WaitForEmulator {
            release_resource: mode == ResourceMode::Platform,
            result: DispatchFosterResult::WaitingEmulator,
        }
    }
}

/// What follows a delivery attempt.
#[derive(Debug, Clone, Copy, PartialEq, Eq)]
pub enum DeliveryPlan {
    /// The agent took the command.
    Finished(DispatchFosterResult),
    /// The command certainly never reached an agent: give back the lease,
    /// give back the resource when `release_resource`, record the failure
    /// and wait for the emulator.
    Undo { release_resource: bool },
    /// The agent may hold the command: keep the lease and the resource and
    /// mark the attempt for recovery.
    MarkUncertain,
}

/// What a dispatch does after its delivery attempt. Only a delivery that
/// certainly failed gives anything back; when the agent may already hold
/// the command, neither the lease nor the resource is released.
pub fn delivery_plan(outcome: DeliveryOutcome, mode: ResourceMode) -> (r: DeliveryPlan)
    ensures
        outcome == DeliveryOutcome::Delivered ==> r == DeliveryPlan::Finished(
            DispatchFosterResult::Dispatched,
        ),
        (outcome == DeliveryOutcome::Offline || outcome == DeliveryOutcome::QueueClosed) ==> r
            == (DeliveryPlan::Undo { release_resource: mode == ResourceMode::Platform }),
        (outcome == DeliveryOutcome::DeliveryClosed || outcome == DeliveryOutcome::DeliveryFailed
            || outcome == DeliveryOutcome::TimedOut) ==> r == DeliveryPlan::MarkUncertain,
{
    match outcome {
        DeliveryOutcome::Delivered => DeliveryPlan::Finished(DispatchFosterResult::Dispatched),
        DeliveryOutcome::Offline | DeliveryOutcome::QueueClosed => DeliveryPlan::Undo {
            release_resource: mode == ResourceMode::Platform,
        },
        DeliveryOutcome::DeliveryClosed
        | DeliveryOutcome::DeliveryFailed
        | DeliveryOutcome::TimedOut => DeliveryPlan::MarkUncertain,
    }
}

/// The result of a dispatch whose delivery was uncertain: recovery when this
/// call marked the attempt, else someone else already handled it.
pub fn uncertain_delivery_result(marked: bool) -> (r: DispatchFosterResult)
    ensures
        r == if marked {
            DispatchFosterResult::RecoveryRequired
        } else {
            DispatchFosterResult::AlreadyHandled
        },
{
    if marked {
        DispatchFosterResult::RecoveryRequired
    } else {
        DispatchFosterResult::AlreadyHandled
    }
}

/// Whether a report is about the job's current attempt.
pub fn is_current_attempt(current_retry_count: Option<i32>, attempt: i32) -> (r: bool)
    ensures
        r == (current_retry_count == Some(attempt)),
{
    match current_retry_count {
        Some(c) => c == attempt,
        None => false,
    }
}

/// Whether a stage report moves the job: the job must still exist and not
/// have finished.
pub open spec fn stage_applies(status: Option<Seq<char>>) -> bool {
    match status {
        Some(s) => !terminal_status(s),
        None => false,
    }
}

/// Whether a success or failure report is acted on: the job must still
/// exist, not have finished, and be executing.
pub open spec fn outcome_applies(status: Option<Seq<char>>) -> bool {
    match status {
        Some(s) => !terminal_status(s) && executing_status(s),
        None => false,
    }
}

/// A finished job stays finished: no stage, success or failure report
/// moves a job whose status is terminal, and no executing status is
/// terminal.
pub proof fn law_finished_jobs_stay_finished(status: Seq<char>)
    ensures
        terminal_status(status) ==> !stage_applies(Some(status)) && !outcome_applies(Some(status)),
        executing_status(status) ==> !terminal_status(status),
        outcome_applies(Some(status)) ==> stage_applies(Some(status)),
{
    reveal_strlit("SUCCESS");
    reveal_strlit("FAILED");
    reveal_strlit("IDENTITY_MISMATCH");
    reveal_strlit("CANCELLED");
    reveal_strlit("SWITCHING_ACCOUNT");
    reveal_strlit("VERIFYING_ACCOUNT");
    reveal_strlit("RUNNING");
    if executing_status(status) {
        assert("SWITCHING_ACCOUNT"@.len() == 17);
        assert("VERIFYING_ACCOUNT"@.len() == 17);
        assert("RUNNING"@.len() == 7);
        assert("SUCCESS"@.len() == 7);
        assert("FAILED"@.len() == 6);
        assert("IDENTITY_MISMATCH"@.len() == 17);
        assert("CANCELLED"@.len() == 9);
        assert("RUNNING"@[0] != "SUCCESS"@[0]);
        assert("SWITCHING_ACCOUNT"@[0] != "IDENTITY_MISMATCH"@[0]);
        assert("VERIFYING_ACCOUNT"@[0] != "IDENTITY_MISMATCH"@[0]);
    }
}

pub fn stage_report_applies(status: &Option<String>) -> (r: bool)
    ensures
        r == stage_applies(status.deep_view()),
{
    match status {
        Some(s) => !is_terminal_status(s.as_str()),
        None => false,
    }
}

pub fn outcome_report_applies(status: &Option<String>) -> (r: bool)
    ensures
        r == outcome_applies(status.deep_view()),
{
    match status {
        Some(s) => !is_terminal_status(s.as_str()) && is_executing_status(s.as_str()),
        None => false,
    }
}

/// The first transition that a stage report asks for: a job that is
/// switching accounts moves on to verifying its account once the agent
/// verifies or runs.
pub fn first_stage_transition(stage: FosterStage, status: &str) -> (r: Option<
    (FosterJobStatus, FosterJobStatus),
>)
    ensures
        r == if stage != FosterStage::SwitchingAccount && status@ == "SWITCHING_ACCOUNT"@ {
            Some((FosterJobStatus::SwitchingAccount, FosterJobStatus::VerifyingAccount))
        } else {
            None
        },
{
    match stage {
        FosterStage::SwitchingAccount => None,
        FosterStage::VerifyingAccount | FosterStage::Running => {
            if str_eq(status, "SWITCHING_ACCOUNT") {
                Some((FosterJobStatus::SwitchingAccount, FosterJobStatus::VerifyingAccount))
            } else {
                None
            }
        },
    }
}

/// The second transition of a running report, on the status read after the
/// first: a job that verifies its account moves on to running.
pub fn running_transition(stage: FosterStage, current: &str) -> (r: Option<
    (FosterJobStatus, FosterJobStatus),
>)
    ensures
        r == if stage == FosterStage::Running && current@ == "VERIFYING_ACCOUNT"@ {
            Some((FosterJobStatus::VerifyingAccount, FosterJobStatus::Running))
        } else {
            None
        },
{
    if stage == FosterStage::Running && str_eq(current, "VERIFYING_ACCOUNT") {
        Some((FosterJobStatus::VerifyingAccount, FosterJobStatus::Running))
    } else {
        None
    }
}

/// What a success report does once it is known whether the agent found
/// the right account.
#[derive(Debug, Clone, Copy, PartialEq, Eq)]
pub enum SuccessPlan {
    /// The account did not verify: give back a platform resource, record an
    /// identity mismatch, keep the screenshot.
    Mismatch { release_resource: bool },
    /// The account verified: bring the job to running, confirm a platform
    /// resource, complete the job if it runs, keep the screenshot.
    Verified { confirm_resource: bool },
}

/// Whether a subscription's stored mode name is the platform mode.
pub open spec fn platform_mode(name: Seq<char>) -> bool {
    name == "PLATFORM"@
}

pub fn success_plan(resource_mode: &str, identity_verified: bool) -> (r: SuccessPlan)
    ensures
        r == if identity_verified {
            SuccessPlan::Verified { confirm_resource: platform_mode(resource_mode@) }
        } else {
            SuccessPlan::Mismatch { release_resource: platform_mode(resource_mode@) }
        },
{
    let platform = str_eq(resource_mode, "PLATFORM");
    if identity_verified {
        SuccessPlan::Verified { confirm_resource: platform }
    } else {
        SuccessPlan::Mismatch { release_resource: platform }
    }
}

/// Whether a success report completes the job: only a running job is.
pub fn completes_on_success(current: &str) -> (r: bool)
    ensures
        r == (current@ == "RUNNING"@),
{
    str_eq(current, "RUNNING")
}

/// What the resource pool learns from a failed platform run.
#[derive(Debug, Clone, Copy, PartialEq, Eq)]
pub enum PoolFollowup {
    /// The provider was not among the account's friends: mark the friend
    /// binding suspect.
    ProviderNotFound { game_account_id: i64, provider_account_id: i64 },
    /// The provider had no free slot: mark the cycle full.
    NoSlot { resource_cycle_id: i64 },
}

/// What a failed platform run tells the pool, once its allocation has been
/// released.
pub fn failure_followup(
    error_code: FosterErrorCode,
    released: Option<ReleasedAllocation>,
    game_account_id: i64,
) -> (r: Option<PoolFollowup>)
    ensures
        r == match released {
            None => None,
            Some(a) => match error_code {
                FosterErrorCode::ProviderNotFound => Some(
                    PoolFollowup::ProviderNotFound {
                        game_account_id,
                        provider_account_id: a.provider_account_id,
                    },
                ),
                FosterErrorCode::NoSlot => Some(
                    PoolFollowup::NoSlot { resource_cycle_id: a.resource_cycle_id },
                ),
                _ => None,
            },
        },
{
    match released {
        None => None,
        Some(a) => match error_code {
            FosterErrorCode::ProviderNotFound => Some(
                PoolFollowup::ProviderNotFound {
                    game_account_id,
                    provider_account_id: a.provider_account_id,
                },
            ),
            FosterErrorCode::NoSlot => Some(
                PoolFollowup::NoSlot { resource_cycle_id: a.resource_cycle_id },
            ),
            _ => None,
        },
    }
}

/// The owner key of a foster job's emulator lease: the job id in decimal.
pub fn lease_owner_key(job_id: i64) -> (r: String)
    ensures
        r@ == crate::time::int_decimal(job_id as int),
{
    crate::time::decimal_i64(job_id)
}

} // verus!
