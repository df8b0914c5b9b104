//! Login enrollment of game accounts: creating a login session, sending it
//! to an agent, following the agent's reports, and confirming, cancelling
//! or expiring the session; plus what the public login page shows.
use vstd::prelude::*;

use crate::control_plane::AllocationError;
use crate::domain::{clone_opt, DetectedIdentity, IdentityType, LoginPlatform};
use crate::http_status;
use crate::identity::{
    account_identity_from, account_identity_of, opt_has_text, opt_text_present,
    AccountIdentityView,
};
use crate::domain::AccountIdentity;
use crate::text::{
    ascii_lower, ascii_upper, chars_eq_str, has_text, has_text_seq, law_keys_ignore_case_and_padding,
    lower_key, lower_key_of, str_eq, to_unicode_upper, trim, trim_seq, unicode_upper_spec,
};
use crate::time::instant_ok;

use base64::Engine;

verus! {

#[derive(Debug, Clone, PartialEq, Eq)]
pub enum EnrollmentError {
    Allocation(AllocationError),
    Database(String),
    InvalidTtl,
    LoginSessionNotFound,
    LoginSessionExpired,
    InvalidLoginState,
    IdentityRejected,
    BindingMismatch,
    AccountBindingConflict,
    InvalidLoginTarget,
    InvalidIdentityInput,
}

#[derive(Debug, Clone, Copy, PartialEq, Eq, Structural)]
pub enum DispatchLoginResult {
    Dispatched,
    WaitingEmulator,
    AlreadyDispatched,
}

#[derive(Debug, Clone, PartialEq, Eq)]
pub struct CreatedLoginSession {
    pub session_id: i64,
    pub session_no: String,
    pub public_token: String,
    pub control_token: String,
    pub emulator_id: i64,
    pub binding_id: i64,
}

/// A login session locked for a change, with the identity that the agent
/// detected; `expires_at_ms` is an instant.
#[derive(Debug, Clone)]
pub struct LockedLoginSession {
    pub id: i64,
    pub session_no: String,
    pub game_account_id: i64,
    pub binding_id: i64,
    pub emulator_id: i64,
    pub status: String,
    pub expires_at_ms: i64,
    pub detected_masked_account: Option<String>,
    pub detected_character_name: Option<String>,
    pub detected_server_name: Option<String>,
    pub detected_game_uid: Option<String>,
}

/// The emulator binding of a login session.
#[derive(Debug, Clone)]
pub struct LockedBinding {
    pub id: i64,
    pub emulator_id: i64,
    pub game_account_id: i64,
    pub status: String,
}

/// The game account of a login session.
#[derive(Debug, Clone)]
pub struct LockedGameAccount {
    pub id: i64,
    pub active_emulator_id: Option<i64>,
    pub platform: Option<String>,
    pub character_name: Option<String>,
    pub game_uid: Option<String>,
}

/// A trusted identity hint of a game account.
#[derive(Debug, Clone)]
pub struct TrustedIdentityRow {
    pub identity_type: String,
    pub identity_value: String,
    pub normalized_value: String,
    pub confidence: i32,
}

/// A login session with where and for which account it runs.
#[derive(Debug, Clone)]
pub struct LoginDispatchTarget {
    pub id: i64,
    pub session_no: String,
    pub game_account_id: i64,
    pub status: String,
    pub emulator_id: i64,
    pub host_id: i64,
    pub emulator_code: String,
    pub platform: Option<String>,
    pub character_name: Option<String>,
    pub game_uid: Option<String>,
}

/// The command that asks an agent to start a login session.
#[derive(Debug, Clone)]
pub struct StartLoginCommand {
    pub session_no: String,
    pub game_account_id: i64,
    pub emulator_code: String,
    pub platform: String,
    pub character_name: String,
    pub game_uid: String,
}

/// The login target that a customer entered, cleaned.
#[derive(Debug, Clone)]
pub struct LoginTarget {
    pub platform: String,
    pub character_name: String,
    pub game_uid: String,
}

/// The owner type of a login session's emulator lease.
pub const LOGIN_LEASE_OWNER: &'static str = "LOGIN";

/// How long a login session's emulator lease lasts, in seconds.
pub const LOGIN_LEASE_TTL_SECS: u64 = 900;

/// The reason recorded for a session that expired.
pub const SESSION_EXPIRED_REASON: &'static str = "SESSION_EXPIRED";

/// The reason recorded for a session that the customer cancelled.
pub const USER_CANCELLED_REASON: &'static str = "USER_CANCELLED";

/// A login status from which a session can still be sent to an agent.
pub open spec fn dispatchable_status(s: Seq<char>) -> bool {
    s == "CREATED"@ || s == "WAITING_EMULATOR"@
}

/// A login status of a session that an agent already took.
pub open spec fn dispatched_status(s: Seq<char>) -> bool {
    ||| s == "PREPARING"@
    ||| s == "WAITING_QR"@
    ||| s == "QR_READY"@
    ||| s == "WAITING_SCAN"@
    ||| s == "DETECTING_LOGIN"@
    ||| s == "VERIFYING_ACCOUNT"@
    ||| s == "SUCCESS"@
}

/// A login status after which nothing more happens.
pub open spec fn final_login_status(s: Seq<char>) -> bool {
    s == "SUCCESS"@ || s == "FAILED"@ || s == "CANCELLED"@
}

/// A session that can still be sent is neither one an agent took nor a
/// finished one, so a session is never sent twice.
pub proof fn law_login_status_classes(s: Seq<char>)
    ensures
        dispatchable_status(s) ==> !dispatched_status(s) && !final_login_status(s),
        final_login_status(s) ==> !dispatchable_status(s),
{
    reveal_strlit("CREATED");
    reveal_strlit("WAITING_EMULATOR");
    reveal_strlit("PREPARING");
    reveal_strlit("WAITING_QR");
    reveal_strlit("QR_READY");
    reveal_strlit("WAITING_SCAN");
    reveal_strlit("DETECTING_LOGIN");
    reveal_strlit("VERIFYING_ACCOUNT");
    reveal_strlit("SUCCESS");
    reveal_strlit("FAILED");
    reveal_strlit("CANCELLED");
    if dispatchable_status(s) {
        assert("CREATED"@.len() == 7);
        assert("WAITING_EMULATOR"@.len() == 16);
        assert("PREPARING"@.len() == 9);
        assert("WAITING_QR"@.len() == 10);
        assert("QR_READY"@.len() == 8);
        assert("WAITING_SCAN"@.len() == 12);
        assert("DETECTING_LOGIN"@.len() == 15);
        assert("VERIFYING_ACCOUNT"@.len() == 17);
        assert("SUCCESS"@.len() == 7);
        assert("FAILED"@.len() == 6);
        assert("CANCELLED"@.len() == 9);
        assert("CREATED"@[0] != "SUCCESS"@[0]);
    }
}

pub fn is_dispatchable_status(s: &str) -> (r: bool)
    ensures
        r == dispatchable_status(s@),
{
    str_eq(s, "CREATED") || str_eq(s, "WAITING_EMULATOR")
}

pub fn is_dispatched_status(s: &str) -> (r: bool)
    ensures
        r == dispatched_status(s@),
{
    str_eq(s, "PREPARING") || str_eq(s, "WAITING_QR") || str_eq(s, "QR_READY") || str_eq(
        s,
        "WAITING_SCAN",
    ) || str_eq(s, "DETECTING_LOGIN") || str_eq(s, "VERIFYING_ACCOUNT") || str_eq(s, "SUCCESS")
}

pub fn is_final_login_status(s: &str) -> (r: bool)
    ensures
        r == final_login_status(s@),
{
    str_eq(s, "SUCCESS") || str_eq(s, "FAILED") || str_eq(s, "CANCELLED")
}

/// The first decision of sending a login session to an agent: the session
/// must exist; a session that an agent took is not sent again; a failed,
/// cancelled or unknown session is refused. `Ok(true)` sends it.
pub fn login_dispatch_start(target: Option<&LoginDispatchTarget>) -> (r: Result<
    bool,
    EnrollmentError,
>)
    ensures
        match target {
            None => r == Err::<bool, EnrollmentError>(EnrollmentError::LoginSessionNotFound),
            Some(t) => if dispatchable_status(t.status@) {
                r == Ok::<bool, EnrollmentError>(true)
            } else if dispatched_status(t.status@) {
                r == Ok::<bool, EnrollmentError>(false)
            } else {
                r == Err::<bool, EnrollmentError>(EnrollmentError::InvalidLoginState)
            },
        },
{
    match target {
        None => Err(EnrollmentError::LoginSessionNotFound),
        Some(t) => {
            if is_dispatchable_status(t.status.as_str()) {
                Ok(true)
            } else if is_dispatched_status(t.status.as_str()) {
                Ok(false)
            } else {
                Err(EnrollmentError::InvalidLoginState)
            }
        },
    }
}

fn present_text(value: &Option<String>) -> (r: Result<String, EnrollmentError>)
    ensures
        opt_has_text(value.deep_view()) ==> (r matches Ok(v) && value.deep_view() == Some(v@)),
        !opt_has_text(value.deep_view()) ==> r == Err::<String, EnrollmentError>(
            EnrollmentError::InvalidLoginTarget,
        ),
{
    match value {
        Some(v) => if has_text(v.as_str()) {
            Ok(v.clone())
        } else {
            Err(EnrollmentError::InvalidLoginTarget)
        },
        None => Err(EnrollmentError::InvalidLoginTarget),
    }
}

/// The command that starts a login session: the account's platform,
/// character name and game uid must each hold text, and are sent as stored.
pub fn start_login_command(target: &LoginDispatchTarget) -> (r: Result<
    StartLoginCommand,
    EnrollmentError,
>)
    ensures
        (opt_has_text(target.platform.deep_view()) && opt_has_text(
            target.character_name.deep_view(),
        ) && opt_has_text(target.game_uid.deep_view())) ==> (r matches Ok(c) && c.session_no@
            == target.session_no@ && c.game_account_id == target.game_account_id
            && c.emulator_code@ == target.emulator_code@ && target.platform.deep_view() == Some(
            c.platform@,
        ) && target.character_name.deep_view() == Some(c.character_name@)
            && target.game_uid.deep_view() == Some(c.game_uid@)),
        !(opt_has_text(target.platform.deep_view()) && opt_has_text(
            target.character_name.deep_view(),
        ) && opt_has_text(target.game_uid.deep_view())) ==> r == Err::<
            StartLoginCommand,
            EnrollmentError,
        >(EnrollmentError::InvalidLoginTarget),
{
    let platform = present_text(&target.platform)?;
    let character_name = present_text(&target.character_name)?;
    let game_uid = present_text(&target.game_uid)?;
    Ok(
        StartLoginCommand {
            session_no: target.session_no.clone(),
            game_account_id: target.game_account_id,
            emulator_code: target.emulator_code.clone(),
            platform,
            character_name,
            game_uid,
        },
    )
}

/// The result once the agent took the command: the session must still be
/// waiting to move on to preparing.
pub fn after_login_delivered(marked_preparing: bool) -> (r: Result<
    DispatchLoginResult,
    EnrollmentError,
>)
    ensures
        marked_preparing ==> r == Ok::<DispatchLoginResult, EnrollmentError>(
            DispatchLoginResult::Dispatched,
        ),
        !marked_preparing ==> r == Err::<DispatchLoginResult, EnrollmentError>(
            EnrollmentError::InvalidLoginState,
        ),
{
    if marked_preparing {
        Ok(DispatchLoginResult::Dispatched)
    } else {
        Err(EnrollmentError::InvalidLoginState)
    }
}

/// What a login dispatch does next.
#[derive(Debug, Clone, Copy, PartialEq, Eq)]
pub enum LoginDispatchStep {
    /// Send the start command to the agent.
    Send,
    /// Mark the session as preparing: the agent took the command.
    MarkPreparing,
    /// Give the lease back when `release_lease`, put the session back to
    /// waiting for its emulator and stop with `result`.
    WaitForEmulator { release_lease: bool, result: DispatchLoginResult },
}

/// With the emulator's lease the command is sent; without it the session
/// waits for its emulator, and there is no lease to give back.
pub fn login_lease_step(acquired: bool) -> (r: LoginDispatchStep)
    ensures
        acquired ==> r == LoginDispatchStep::Send,
        !acquired ==> r == (LoginDispatchStep::WaitForEmulator {
            release_lease: false,
            result: DispatchLoginResult::WaitingEmulator,
        }),
{
    if acquired {
        LoginDispatchStep::Send
    } else {
        LoginDispatchStep::WaitForEmulator {
            release_lease: false,
            result: DispatchLoginResult::WaitingEmulator,
        }
    }
}

/// A delivered command makes the session preparing; a send that failed or
/// timed out gives the lease back and the session waits for its emulator.
pub fn login_delivery_step(delivered: bool) -> (r: LoginDispatchStep)
    ensures
        delivered ==> r == LoginDispatchStep::MarkPreparing,
        !delivered ==> r == (LoginDispatchStep::WaitForEmulator {
            release_lease: true,
            result: DispatchLoginResult::WaitingEmulator,
        }),
{
    if delivered {
        LoginDispatchStep::MarkPreparing
    } else {
        LoginDispatchStep::WaitForEmulator {
            release_lease: true,
            result: DispatchLoginResult::WaitingEmulator,
        }
    }
}

/// The platform key that a customer entered: trimmed, in upper case.
pub open spec fn platform_key(platform: Seq<char>) -> Seq<char> {
    unicode_upper_spec(trim_seq(platform))
}

/// Whether the entered login target is complete: a known platform and a
/// character name and game uid that hold text.
pub open spec fn login_target_valid(
    platform: Seq<char>,
    character_name: Seq<char>,
    game_uid: Seq<char>,
) -> bool {
    (platform_key(platform) == "ANDROID"@ || platform_key(platform) == "IOS"@)
        && trim_seq(character_name).len() > 0 && trim_seq(game_uid).len() > 0
}

/// The login target that a customer entered, cleaned: the platform trimmed
/// and in upper case, the names trimmed.
pub fn normalize_login_target(platform: &str, character_name: &str, game_uid: &str) -> (r: Result<
    LoginTarget,
    EnrollmentError,
>)
    ensures
        login_target_valid(platform@, character_name@, game_uid@) ==> (r matches Ok(t)
            && t.platform@ == platform_key(platform@) && t.character_name@ == trim_seq(
            character_name@,
        ) && t.game_uid@ == trim_seq(game_uid@)),
        !login_target_valid(platform@, character_name@, game_uid@) ==> r == Err::<
            LoginTarget,
            EnrollmentError,
        >(EnrollmentError::InvalidLoginTarget),
{
    let platform = to_unicode_upper(trim(platform));
    let character_name = trim(character_name);
    let game_uid = trim(game_uid);
    let known = str_eq(platform.as_str(), "ANDROID") || str_eq(platform.as_str(), "IOS");
    if !known || character_name.unicode_len() == 0 || game_uid.unicode_len() == 0 {
        return Err(EnrollmentError::InvalidLoginTarget);
    }
    Ok(
        LoginTarget {
            platform,
            character_name: character_name.to_owned(),
            game_uid: game_uid.to_owned(),
        },
    )
}

/// Whether a session found by its control token may take a new login
/// target: it must exist and not have expired; only a session that was not
/// yet sent (`Ok(true)`) takes it, else the answer is that it was sent.
pub fn start_login_gate(session: Option<&LockedLoginSession>, now_ms: i64) -> (r: Result<
    bool,
    EnrollmentError,
>)
    ensures
        match session {
            None => r == Err::<bool, EnrollmentError>(EnrollmentError::LoginSessionNotFound),
            Some(s) => if s.expires_at_ms <= now_ms {
                r == Err::<bool, EnrollmentError>(EnrollmentError::LoginSessionExpired)
            } else {
                r == Ok::<bool, EnrollmentError>(dispatchable_status(s.status@))
            },
        },
{
    match session {
        None => Err(EnrollmentError::LoginSessionNotFound),
        Some(s) => {
            if s.expires_at_ms <= now_ms {
                Err(EnrollmentError::LoginSessionExpired)
            } else {
                Ok(is_dispatchable_status(s.status.as_str()))
            }
        },
    }
}

/// Whether the sweep of expired sessions cancels a session: it has not
/// finished and its time is up.
pub fn expiry_applies(session: &LockedLoginSession, now_ms: i64) -> (r: bool)
    ensures
        r == (!final_login_status(session.status@) && session.expires_at_ms <= now_ms),
{
    !is_final_login_status(session.status.as_str()) && session.expires_at_ms <= now_ms
}

/// Whether a cancellation asked by the customer writes anything: a
/// cancelled session answers at once (`Ok(false)`); a session that
/// succeeded or failed is refused.
pub fn cancel_plan(session: Option<&LockedLoginSession>) -> (r: Result<bool, EnrollmentError>)
    ensures
        match session {
            None => r == Err::<bool, EnrollmentError>(EnrollmentError::LoginSessionNotFound),
            Some(s) => if s.status@ == "CANCELLED"@ {
                r == Ok::<bool, EnrollmentError>(false)
            } else if s.status@ == "SUCCESS"@ || s.status@ == "FAILED"@ {
                r == Err::<bool, EnrollmentError>(EnrollmentError::InvalidLoginState)
            } else {
                r == Ok::<bool, EnrollmentError>(true)
            },
        },
{
    match session {
        None => Err(EnrollmentError::LoginSessionNotFound),
        Some(s) => {
            if str_eq(s.status.as_str(), "CANCELLED") {
                Ok(false)
            } else if str_eq(s.status.as_str(), "SUCCESS") || str_eq(s.status.as_str(), "FAILED") {
                Err(EnrollmentError::InvalidLoginState)
            } else {
                Ok(true)
            }
        },
    }
}

/// The first decision of a confirmation: the session must exist; a
/// confirmed session answers at once (`Ok(false)`); else it must not have
/// expired and must be verifying its account.
pub fn confirm_gate(session: Option<&LockedLoginSession>, now_ms: i64) -> (r: Result<
    bool,
    EnrollmentError,
>)
    ensures
        match session {
            None => r == Err::<bool, EnrollmentError>(EnrollmentError::LoginSessionNotFound),
            Some(s) => if s.status@ == "SUCCESS"@ {
                r == Ok::<bool, EnrollmentError>(false)
            } else if s.expires_at_ms <= now_ms {
                r == Err::<bool, EnrollmentError>(EnrollmentError::LoginSessionExpired)
            } else if s.status@ != "VERIFYING_ACCOUNT"@ {
                r == Err::<bool, EnrollmentError>(EnrollmentError::InvalidLoginState)
            } else {
                r == Ok::<bool, EnrollmentError>(true)
            },
        },
{
    match session {
        None => Err(EnrollmentError::LoginSessionNotFound),
        Some(s) => {
            if str_eq(s.status.as_str(), "SUCCESS") {
                Ok(false)
            } else if s.expires_at_ms <= now_ms {
                Err(EnrollmentError::LoginSessionExpired)
            } else if !str_eq(s.status.as_str(), "VERIFYING_ACCOUNT") {
                Err(EnrollmentError::InvalidLoginState)
            } else {
                Ok(true)
            }
        },
    }
}

/// The binding of a confirmed session must exist, still be pending, and
/// join the session's account and emulator.
pub fn check_confirm_binding(session: &LockedLoginSession, binding: Option<&LockedBinding>) -> (r:
    Result<(), EnrollmentError>)
    ensures
        r is Ok <==> (binding matches Some(b) && b.status@ == "PENDING"@ && b.game_account_id
            == session.game_account_id && b.emulator_id == session.emulator_id),
        r is Err ==> r == Err::<(), EnrollmentError>(EnrollmentError::BindingMismatch),
{
    match binding {
        None => Err(EnrollmentError::BindingMismatch),
        Some(b) => {
            if !str_eq(b.status.as_str(), "PENDING") || b.game_account_id != session.game_account_id
                || b.emulator_id != session.emulator_id {
                Err(EnrollmentError::BindingMismatch)
            } else {
                Ok(())
            }
        },
    }
}

/// The account of a confirmed session must exist and not be active on
/// another emulator.
pub fn check_confirm_account(session: &LockedLoginSession, account: Option<&LockedGameAccount>) -> (r:
    Result<(), EnrollmentError>)
    ensures
        match account {
            None => r == Err::<(), EnrollmentError>(EnrollmentError::BindingMismatch),
            Some(a) => if a.active_emulator_id matches Some(e) && e != session.emulator_id {
                r == Err::<(), EnrollmentError>(EnrollmentError::AccountBindingConflict)
            } else {
                r is Ok
            },
        },
{
    match account {
        None => Err(EnrollmentError::BindingMismatch),
        Some(a) => match a.active_emulator_id {
            Some(e) => if e != session.emulator_id {
                Err(EnrollmentError::AccountBindingConflict)
            } else {
                Ok(())
            },
            None => Ok(()),
        },
    }
}

/// The identity that the agent detected for a session.
pub fn detected_identity(session: &LockedLoginSession) -> (r: DetectedIdentity)
    ensures
        r.masked_account.deep_view() == session.detected_masked_account.deep_view(),
        r.character_name.deep_view() == session.detected_character_name.deep_view(),
        r.server_name.deep_view() == session.detected_server_name.deep_view(),
        r.game_uid.deep_view() == session.detected_game_uid.deep_view(),
        r.ocr_aliases@.len() == 0,
{
    DetectedIdentity {
        masked_account: clone_opt(&session.detected_masked_account),
        character_name: clone_opt(&session.detected_character_name),
        server_name: clone_opt(&session.detected_server_name),
        game_uid: clone_opt(&session.detected_game_uid),
        ocr_aliases: Vec::new(),
    }
}

/// When the account already holds a character name, the detected character
/// name must be exactly that name.
pub open spec fn expected_character_matches(
    expected: Option<Seq<char>>,
    detected: Option<Seq<char>>,
) -> bool {
    match expected {
        Some(e) => has_text_seq(e) ==> detected == Some(e),
        None => true,
    }
}

pub fn check_expected_character(account: &LockedGameAccount, detected: &DetectedIdentity) -> (r:
    Result<(), EnrollmentError>)
    ensures
        expected_character_matches(
            account.character_name.deep_view(),
            detected.character_name.deep_view(),
        ) ==> r is Ok,
        !expected_character_matches(
            account.character_name.deep_view(),
            detected.character_name.deep_view(),
        ) ==> r == Err::<(), EnrollmentError>(EnrollmentError::IdentityRejected),
{
    match &account.character_name {
        Some(expected) => {
            if !has_text(expected.as_str()) {
                return Ok(());
            }
            match &detected.character_name {
                Some(found) => if str_eq(found.as_str(), expected.as_str()) {
                    Ok(())
                } else {
                    Err(EnrollmentError::IdentityRejected)
                },
                None => Err(EnrollmentError::IdentityRejected),
            }
        },
        None => Ok(()),
    }
}

/// The trusted identities that stored rows stand for, confidences limited
/// to 0 through 255, rows of unknown kinds left out.
pub open spec fn enrollment_identities_of(rows: Seq<TrustedIdentityRow>) -> Seq<
    AccountIdentityView,
>
    decreases rows.len(),
{
    if rows.len() == 0 {
        Seq::empty()
    } else {
        let r = rows.last();
        match account_identity_of(
            r.identity_type@,
            r.identity_value@,
            r.normalized_value@,
            r.confidence,
            255,
        ) {
            Some(a) => enrollment_identities_of(rows.drop_last()).push(a),
            None => enrollment_identities_of(rows.drop_last()),
        }
    }
}

/// The trusted identity that one stored row stands for.
pub fn to_account_identity(row: &TrustedIdentityRow) -> (r: Option<AccountIdentity>)
    ensures
        match account_identity_of(
            row.identity_type@,
            row.identity_value@,
            row.normalized_value@,
            row.confidence,
            255,
        ) {
            Some(v) => r matches Some(a) && a@ == v,
            None => r is None,
        },
{
    account_identity_from(
        row.identity_type.as_str(),
        &row.identity_value,
        &row.normalized_value,
        row.confidence,
        255,
    )
}

/// The trusted identities of an account, from its stored rows.
pub fn trusted_identities(rows: &Vec<TrustedIdentityRow>) -> (r: Vec<AccountIdentity>)
    ensures
        r@.map_values(|a: AccountIdentity| a@) == enrollment_identities_of(rows@),
{
    let n = rows.len();
    let mut out: Vec<AccountIdentity> = Vec::new();
    let mut i: usize = 0;
    while i < n
        invariant
            n == rows@.len(),
            i <= n,
            out@.map_values(|a: AccountIdentity| a@) == enrollment_identities_of(
                rows@.subrange(0, i as int),
            ),
        decreases n - i,
    {
        let ghost before = out@.map_values(|a: AccountIdentity| a@);
        let prefix = Ghost(rows@.subrange(0, i + 1));
        assert(prefix@.drop_last() =~= rows@.subrange(0, i as int));
        assert(prefix@.last() == rows@[i as int]);
        match to_account_identity(&rows[i]) {
            Some(a) => {
                let ghost v = a@;
                out.push(a);
                assert(out@.map_values(|a: AccountIdentity| a@) =~= before.push(v));
            },
            None => {},
        }
        i = i + 1;
    }
    assert(rows@.subrange(0, n as int) =~= rows@);
    out
}

/// The hints detected at a first enrollment that become trusted: the
/// masked account, character name, server name and game uid, in that
/// order, each when it holds text.
pub open spec fn first_enrollment_hints(
    masked_account: Option<Seq<char>>,
    character_name: Option<Seq<char>>,
    server_name: Option<Seq<char>>,
    game_uid: Option<Seq<char>>,
) -> Seq<(IdentityType, Seq<char>)> {
    let a = if opt_has_text(masked_account) {
        seq![(IdentityType::MaskedAccount, masked_account->0)]
    } else {
        Seq::empty()
    };
    let b = if opt_has_text(character_name) {
        seq![(IdentityType::CharacterName, character_name->0)]
    } else {
        Seq::empty()
    };
    let c = if opt_has_text(server_name) {
        seq![(IdentityType::ServerName, server_name->0)]
    } else {
        Seq::empty()
    };
    let d = if opt_has_text(game_uid) {
        seq![(IdentityType::GameUid, game_uid->0)]
    } else {
        Seq::empty()
    };
    a + b + c + d
}

/// Whether `hint` is one of the detected hints: its kind's detected value,
/// when that holds text.
pub open spec fn is_detected_hint(
    hint: (IdentityType, Seq<char>),
    masked_account: Option<Seq<char>>,
    character_name: Option<Seq<char>>,
    server_name: Option<Seq<char>>,
    game_uid: Option<Seq<char>>,
) -> bool {
    ||| hint.0 == IdentityType::MaskedAccount && opt_has_text(masked_account) && hint.1
        == masked_account->0
    ||| hint.0 == IdentityType::CharacterName && opt_has_text(character_name) && hint.1
        == character_name->0
    ||| hint.0 == IdentityType::ServerName && opt_has_text(server_name) && hint.1
        == server_name->0
    ||| hint.0 == IdentityType::GameUid && opt_has_text(game_uid) && hint.1 == game_uid->0
}

/// At a first enrollment every detected hint that holds text (the masked
/// account, the character name, the server name and the game uid) becomes
/// trusted under its own kind and with its value, each kind once, and
/// nothing else does.
pub proof fn law_first_enrollment_trusts_every_detected_hint(
    masked_account: Option<Seq<char>>,
    character_name: Option<Seq<char>>,
    server_name: Option<Seq<char>>,
    game_uid: Option<Seq<char>>,
)
    ensures
        opt_has_text(masked_account) ==> first_enrollment_hints(
            masked_account,
            character_name,
            server_name,
            game_uid,
        ).contains((IdentityType::MaskedAccount, masked_account->0)),
        opt_has_text(character_name) ==> first_enrollment_hints(
            masked_account,
            character_name,
            server_name,
            game_uid,
        ).contains((IdentityType::CharacterName, character_name->0)),
        opt_has_text(server_name) ==> first_enrollment_hints(
            masked_account,
            character_name,
            server_name,
            game_uid,
        ).contains((IdentityType::ServerName, server_name->0)),
        opt_has_text(game_uid) ==> first_enrollment_hints(
            masked_account,
            character_name,
            server_name,
            game_uid,
        ).contains((IdentityType::GameUid, game_uid->0)),
        forall|i: int|
            0 <= i < first_enrollment_hints(
                masked_account,
                character_name,
                server_name,
                game_uid,
            ).len() ==> is_detected_hint(
                #[trigger] first_enrollment_hints(
                    masked_account,
                    character_name,
                    server_name,
                    game_uid,
                )[i],
                masked_account,
                character_name,
                server_name,
                game_uid,
            ),
        forall|i: int, j: int|
            0 <= i < j < first_enrollment_hints(
                masked_account,
                character_name,
                server_name,
                game_uid,
            ).len() ==> first_enrollment_hints(
                masked_account,
                character_name,
                server_name,
                game_uid,
            )[i].0 != first_enrollment_hints(
                masked_account,
                character_name,
                server_name,
                game_uid,
            )[j].0,
{
    let h = first_enrollment_hints(masked_account, character_name, server_name, game_uid);
    let a = if opt_has_text(masked_account) {
        seq![(IdentityType::MaskedAccount, masked_account->0)]
    } else {
        Seq::empty()
    };
    let b = if opt_has_text(character_name) {
        seq![(IdentityType::CharacterName, character_name->0)]
    } else {
        Seq::empty()
    };
    let c = if opt_has_text(server_name) {
        seq![(IdentityType::ServerName, server_name->0)]
    } else {
        Seq::empty()
    };
    let d = if opt_has_text(game_uid) {
        seq![(IdentityType::GameUid, game_uid->0)]
    } else {
        Seq::empty()
    };
    assert(h == a + b + c + d);
    let ab = a + b;
    let abc = ab + c;
    assert(h =~= abc + d);
    // Every element comes from one of the four parts, in order of kind.
    assert forall|i: int| 0 <= i < h.len() implies is_detected_hint(
        #[trigger] h[i],
        masked_account,
        character_name,
        server_name,
        game_uid,
    ) by {
        if i < a.len() {
            assert(h[i] == a[i]);
        } else if i < ab.len() {
            assert(h[i] == b[i - a.len()]);
        } else if i < abc.len() {
            assert(h[i] == c[i - ab.len()]);
        } else {
            assert(h[i] == d[i - abc.len()]);
        }
    }
    if opt_has_text(masked_account) {
        assert(h[0] == (IdentityType::MaskedAccount, masked_account->0));
    }
    if opt_has_text(character_name) {
        assert(h[a.len() as int] == (IdentityType::CharacterName, character_name->0));
    }
    if opt_has_text(server_name) {
        assert(h[ab.len() as int] == (IdentityType::ServerName, server_name->0));
    }
    if opt_has_text(game_uid) {
        assert(h[abc.len() as int] == (IdentityType::GameUid, game_uid->0));
    }
    assert forall|i: int, j: int| 0 <= i < j < h.len() implies h[i].0 != h[j].0 by {
        let rank_i: int = if i < a.len() {
            0
        } else if i < ab.len() {
            1
        } else if i < abc.len() {
            2
        } else {
            3
        };
        let rank_j: int = if j < a.len() {
            0
        } else if j < ab.len() {
            1
        } else if j < abc.len() {
            2
        } else {
            3
        };
        if i < a.len() {
            assert(h[i] == a[i]);
        } else if i < ab.len() {
            assert(h[i] == b[i - a.len()]);
        } else if i < abc.len() {
            assert(h[i] == c[i - ab.len()]);
        } else {
            assert(h[i] == d[i - abc.len()]);
        }
        if j < a.len() {
            assert(h[j] == a[j]);
        } else if j < ab.len() {
            assert(h[j] == b[j - a.len()]);
        } else if j < abc.len() {
            assert(h[j] == c[j - ab.len()]);
        } else {
            assert(h[j] == d[j - abc.len()]);
        }
        assert(rank_i < rank_j);
    }
}

/// What happens to the identity hints of a confirmed login.
#[derive(Debug, Clone)]
pub enum IdentityPlan {
    /// The account had trusted hints and the detected identity verified
    /// against them.
    AlreadyTrusted,
    /// The account had none: these detected hints become trusted.
    PersistFirst(Vec<(IdentityType, String)>),
}

fn push_hint(out: &mut Vec<(IdentityType, String)>, kind: IdentityType, value: &Option<String>)
    ensures
        opt_has_text(value.deep_view()) ==> final(out)@.map_values(
            |p: (IdentityType, String)| (p.0, p.1@),
        ) == old(out)@.map_values(|p: (IdentityType, String)| (p.0, p.1@)).push(
            (kind, value->0@),
        ),
        !opt_has_text(value.deep_view()) ==> final(out)@ == old(out)@,
{
    match value {
        Some(v) => if has_text(v.as_str()) {
            let ghost before = out@.map_values(|p: (IdentityType, String)| (p.0, p.1@));
            out.push((kind, v.clone()));
            assert(out@.map_values(|p: (IdentityType, String)| (p.0, p.1@)) =~= before.push(
                (kind, v@),
            ));
        },
        None => {},
    }
}

/// How the identity of a confirmed login is trusted: with trusted hints on
/// file the detected identity must have verified against them
/// (`trusted_verified`); without, it must name both a character and a
/// server, and its hints that hold text become trusted.
pub fn enrollment_identity_plan(
    has_trusted_rows: bool,
    detected: &DetectedIdentity,
    trusted_verified: bool,
) -> (r: Result<IdentityPlan, EnrollmentError>)
    ensures
        has_trusted_rows ==> (trusted_verified ==> r matches Ok(IdentityPlan::AlreadyTrusted)) && (
        !trusted_verified ==> r == Err::<IdentityPlan, EnrollmentError>(
            EnrollmentError::IdentityRejected,
        )),
        !has_trusted_rows ==> if opt_has_text(detected.character_name.deep_view())
            && opt_has_text(detected.server_name.deep_view()) {
            r matches Ok(IdentityPlan::PersistFirst(hints)) && hints@.map_values(
                |p: (IdentityType, String)| (p.0, p.1@),
            ) == first_enrollment_hints(
                detected.masked_account.deep_view(),
                detected.character_name.deep_view(),
                detected.server_name.deep_view(),
                detected.game_uid.deep_view(),
            )
        } else {
            r == Err::<IdentityPlan, EnrollmentError>(EnrollmentError::IdentityRejected)
        },
{
    if has_trusted_rows {
        if trusted_verified {
            return Ok(IdentityPlan::AlreadyTrusted);
        } else {
            return Err(EnrollmentError::IdentityRejected);
        }
    }
    if !crate::identity::first_enrollment_has_strong_identity(detected) {
        return Err(EnrollmentError::IdentityRejected);
    }
    let mut hints: Vec<(IdentityType, String)> = Vec::new();
    push_hint(&mut hints, IdentityType::MaskedAccount, &detected.masked_account);
    push_hint(&mut hints, IdentityType::CharacterName, &detected.character_name);
    push_hint(&mut hints, IdentityType::ServerName, &detected.server_name);
    push_hint(&mut hints, IdentityType::GameUid, &detected.game_uid);
    proof {
        assert(hints@.map_values(|p: (IdentityType, String)| (p.0, p.1@)) =~= first_enrollment_hints(
            detected.masked_account.deep_view(),
            detected.character_name.deep_view(),
            detected.server_name.deep_view(),
            detected.game_uid.deep_view(),
        ));
    }
    Ok(IdentityPlan::PersistFirst(hints))
}

/// The game uid that the customer entered for the account, when it holds
/// text: it is recorded as confirmed by the user.
pub fn confirmed_game_uid(account: &LockedGameAccount) -> (r: Option<String>)
    ensures
        opt_has_text(account.game_uid.deep_view()) ==> r.deep_view()
            == account.game_uid.deep_view(),
        !opt_has_text(account.game_uid.deep_view()) ==> r is None,
{
    if opt_text_present(&account.game_uid) {
        clone_opt(&account.game_uid)
    } else {
        None
    }
}

/// The pending binding must turn active.
pub fn check_binding_activated(activated: bool) -> (r: Result<(), EnrollmentError>)
    ensures
        activated ==> r is Ok,
        !activated ==> r == Err::<(), EnrollmentError>(EnrollmentError::BindingMismatch),
{
    if activated {
        Ok(())
    } else {
        Err(EnrollmentError::BindingMismatch)
    }
}

/// The session must turn successful.
pub fn check_session_completed(completed: bool) -> (r: Result<(), EnrollmentError>)
    ensures
        completed ==> r is Ok,
        !completed ==> r == Err::<(), EnrollmentError>(EnrollmentError::InvalidLoginState),
{
    if completed {
        Ok(())
    } else {
        Err(EnrollmentError::InvalidLoginState)
    }
}

/// The longest time to live, in seconds, that `chrono::Duration::from_std`
/// takes.
pub const MAX_LOGIN_TTL_SECS: u64 = 9_223_372_036_854_775;

/// When a login session created at `now_ms` with a time to live of
/// `ttl_secs` seconds expires; a time to live too long for `chrono` is
/// refused.
pub fn login_expires_at(now_ms: i64, ttl_secs: u64) -> (r: Result<i64, EnrollmentError>)
    requires
        instant_ok(now_ms as int),
        ttl_secs <= MAX_LOGIN_TTL_SECS ==> instant_ok(now_ms + ttl_secs * 1000),
    ensures
        ttl_secs > MAX_LOGIN_TTL_SECS ==> r == Err::<i64, EnrollmentError>(
            EnrollmentError::InvalidTtl,
        ),
        ttl_secs <= MAX_LOGIN_TTL_SECS ==> r == Ok::<i64, EnrollmentError>(
            (now_ms + ttl_secs * 1000) as i64,
        ),
{
    if ttl_secs > MAX_LOGIN_TTL_SECS {
        return Err(EnrollmentError::InvalidTtl);
    }
    Ok(now_ms + (ttl_secs as i64) * 1000)
}

/// The reason recorded for a login that an agent reported as failed:
/// `{code}: {message}`.
pub fn login_failure_reason(code: &str, message: &str) -> (r: String)
    ensures
        r@ == code@ + seq![':', ' '] + message@,
{
    let mut r = String::from_str(code);
    r.append(": ");
    r.append(message);
    proof {
        reveal_strlit(": ");
        assert(r@ =~= code@ + seq![':', ' '] + message@);
    }
    r
}

/// A report of an agent about a login session.
#[derive(Debug, Clone)]
pub enum LoginEvent {
    Preparing { session_no: String },
    QrReady { session_no: String, qr_payload: String, expires_at_ms: i64 },
    QrExpired { session_no: String },
    IdentityDetected {
        session_no: String,
        masked_account: Option<String>,
        character_name: Option<String>,
        server_name: Option<String>,
        game_uid: Option<String>,
    },
    Failed { session_no: String, code: String, message: String },
}

/// Whether a login report frees the session's emulator: an expired QR code,
/// a detected identity and a failure do; preparing and a ready QR code do
/// not.
pub fn releases_login_lease(event: &LoginEvent) -> (r: bool)
    ensures
        r == (event is QrExpired || event is IdentityDetected || event is Failed),
{
    match event {
        LoginEvent::Preparing { .. } | LoginEvent::QrReady { .. } => false,
        LoginEvent::QrExpired { .. } | LoginEvent::IdentityDetected { .. } | LoginEvent::Failed {
            ..
        } => true,
    }
}

/// The phone platform that a customer named, in English or Chinese, case
/// and surrounding whitespace aside.
pub open spec fn login_platform_of(value: Seq<char>) -> Option<LoginPlatform> {
    let key = lower_key(value);
    if key == "android"@ || key == "安卓"@ {
        Some(LoginPlatform::Android)
    } else if key == "ios"@ || key == "apple"@ || key == "苹果"@ {
        Some(LoginPlatform::Ios)
    } else {
        None
    }
}

/// The platform a person picks is read regardless of ASCII case and of
/// whitespace around it.
pub proof fn law_login_platform_ignores_case_and_padding(value: Seq<char>)
    ensures
        login_platform_of(trim_seq(value)) == login_platform_of(value),
        login_platform_of(ascii_upper(value)) == login_platform_of(value),
        login_platform_of(ascii_lower(value)) == login_platform_of(value),
{
    law_keys_ignore_case_and_padding(value);
}

pub fn parse_login_platform(value: &str) -> (r: Option<LoginPlatform>)
    ensures
        r == login_platform_of(value@),
{
    let key = lower_key_of(value);
    if chars_eq_str(&key, "android") || chars_eq_str(&key, "安卓") {
        Some(LoginPlatform::Android)
    } else if chars_eq_str(&key, "ios") || chars_eq_str(&key, "apple") || chars_eq_str(
        &key,
        "苹果",
    ) {
        Some(LoginPlatform::Ios)
    } else {
        None
    }
}

/// The HTTP status that answers an enrollment error.
pub open spec fn activation_status_of(error: EnrollmentError) -> u16 {
    match error {
        EnrollmentError::LoginSessionNotFound => http_status::NOT_FOUND,
        EnrollmentError::LoginSessionExpired => http_status::GONE,
        EnrollmentError::InvalidIdentityInput => http_status::BAD_REQUEST,
        EnrollmentError::InvalidLoginState
        | EnrollmentError::IdentityRejected
        | EnrollmentError::BindingMismatch
        | EnrollmentError::AccountBindingConflict => http_status::CONFLICT,
        EnrollmentError::InvalidLoginTarget => http_status::BAD_REQUEST,
        EnrollmentError::Allocation(_)
        | EnrollmentError::Database(_)
        | EnrollmentError::InvalidTtl => http_status::INTERNAL_SERVER_ERROR,
    }
}

pub fn activation_status(error: &EnrollmentError) -> (r: u16)
    ensures
        r == activation_status_of(*error),
{
    match error {
        EnrollmentError::LoginSessionNotFound => http_status::NOT_FOUND,
        EnrollmentError::LoginSessionExpired => http_status::GONE,
        EnrollmentError::InvalidIdentityInput => http_status::BAD_REQUEST,
        EnrollmentError::InvalidLoginState
        | EnrollmentError::IdentityRejected
        | EnrollmentError::BindingMismatch
        | EnrollmentError::AccountBindingConflict => http_status::CONFLICT,
        EnrollmentError::InvalidLoginTarget => http_status::BAD_REQUEST,
        EnrollmentError::Allocation(_)
        | EnrollmentError::Database(_)
        | EnrollmentError::InvalidTtl => http_status::INTERNAL_SERVER_ERROR,
    }
}

/// A login session as the public login page reads it; instants in
/// milliseconds.
#[derive(Debug, Clone)]
pub struct PublicLoginRow {
    pub id: i64,
    pub session_no: String,
    pub status: String,
    pub qr_payload: Option<String>,
    pub qr_expires_at_ms: Option<i64>,
    pub detected_character_name: Option<String>,
    pub detected_server_name: Option<String>,
    pub identity_verified: bool,
    pub identity_verify_reason: Option<String>,
    pub expires_at_ms: i64,
    pub updated_at_ms: i64,
}

/// What the public login page shows of a session.
#[derive(Debug, Clone)]
pub struct PublicLoginStatus {
    pub session_no: String,
    pub status: String,
    pub qr_payload: Option<String>,
    pub qr_expires_at_ms: Option<i64>,
    pub character_name: Option<String>,
    pub server_name: Option<String>,
    pub identity_verified: bool,
    pub identity_verify_reason: Option<String>,
    pub expires_at_ms: i64,
}

/// Whether the session's QR code may be shown: the session waits for a
/// scan and the code has not expired.
pub open spec fn qr_current(status: Seq<char>, qr_expires_at_ms: Option<i64>, now_ms: i64) -> bool {
    (status == "QR_READY"@ || status == "WAITING_SCAN"@) && (qr_expires_at_ms matches Some(t)
        && t > now_ms)
}

impl PublicLoginRow {
    /// What the public page shows at `now_ms`: the QR code and its expiry
    /// only while the code is current.
    pub fn to_public_status(&self, now_ms: i64) -> (r: PublicLoginStatus)
        ensures
            r.session_no@ == self.session_no@,
            r.status@ == self.status@,
            qr_current(self.status@, self.qr_expires_at_ms, now_ms) ==> r.qr_payload.deep_view()
                == self.qr_payload.deep_view() && r.qr_expires_at_ms == self.qr_expires_at_ms,
            !qr_current(self.status@, self.qr_expires_at_ms, now_ms) ==> r.qr_payload is None
                && r.qr_expires_at_ms is None,
            r.character_name.deep_view() == self.detected_character_name.deep_view(),
            r.server_name.deep_view() == self.detected_server_name.deep_view(),
            r.identity_verified == self.identity_verified,
            r.identity_verify_reason.deep_view() == self.identity_verify_reason.deep_view(),
            r.expires_at_ms == self.expires_at_ms,
    {
        let waiting = str_eq(self.status.as_str(), "QR_READY") || str_eq(
            self.status.as_str(),
            "WAITING_SCAN",
        );
        let unexpired = match self.qr_expires_at_ms {
            Some(t) => t > now_ms,
            None => false,
        };
        let current = waiting && unexpired;
        PublicLoginStatus {
            session_no: self.session_no.clone(),
            status: self.status.clone(),
            qr_payload: if current {
                clone_opt(&self.qr_payload)
            } else {
                None
            },
            qr_expires_at_ms: if current {
                self.qr_expires_at_ms
            } else {
                None
            },
            character_name: clone_opt(&self.detected_character_name),
            server_name: clone_opt(&self.detected_server_name),
            identity_verified: self.identity_verified,
            identity_verify_reason: clone_opt(&self.identity_verify_reason),
            expires_at_ms: self.expires_at_ms,
        }
    }

    /// Whether the session has expired at `now_ms`.
    pub fn is_expired(&self, now_ms: i64) -> (r: bool)
        ensures
            r == (self.expires_at_ms <= now_ms),
    {
        self.expires_at_ms <= now_ms
    }
}

/// What the public page answers for a session found by its public token:
/// 404 without a session, 410 once it expired, else its status; the meta
/// view leaves the QR code out.
pub fn public_login_view(row: Option<&PublicLoginRow>, now_ms: i64, with_qr: bool) -> (r: Result<
    PublicLoginStatus,
    u16,
>)
    ensures
        match row {
            None => r == Err::<PublicLoginStatus, u16>(http_status::NOT_FOUND),
            Some(row) => if row.expires_at_ms <= now_ms {
                r == Err::<PublicLoginStatus, u16>(http_status::GONE)
            } else {
                r matches Ok(s) && s.session_no@ == row.session_no@ && s.status@ == row.status@
                    && (with_qr && qr_current(row.status@, row.qr_expires_at_ms, now_ms)
                    ==> s.qr_payload.deep_view() == row.qr_payload.deep_view()) && ((!with_qr
                    || !qr_current(row.status@, row.qr_expires_at_ms, now_ms))
                    ==> s.qr_payload is None) && s.expires_at_ms == row.expires_at_ms
            },
        },
{
    let row = match row {
        Some(row) => row,
        None => {
            return Err(http_status::NOT_FOUND);
        },
    };
    if row.is_expired(now_ms) {
        return Err(http_status::GONE);
    }
    let mut status = row.to_public_status(now_ms);
    if !with_qr {
        status.qr_payload = None;
    }
    Ok(status)
}

/// The bytes that standard base64 `text` decodes to, as
/// `base64::engine::general_purpose::STANDARD.decode` reads it.
pub uninterp spec fn base64_standard_decode_spec(text: Seq<char>) -> Option<Seq<u8>>;

/// The width and height of the image encoded in `bytes`, as
/// `image::load_from_memory` reads it.
pub uninterp spec fn image_size_spec(bytes: Seq<u8>) -> Option<(u32, u32)>;

/// The PNG encoding of the region (`x`, `y`, `width`, `height`) of the
/// image in `bytes`, resized to `out_width` by `out_height` with nearest
/// neighbour sampling, as the `image` crate produces it.
pub uninterp spec fn crop_png_spec(
    bytes: Seq<u8>,
    x: u32,
    y: u32,
    width: u32,
    height: u32,
    out_width: u32,
    out_height: u32,
) -> Option<Seq<u8>>;

/// Calls `STANDARD.decode` of the `base64` crate. The result is named.
#[verifier::external_body]
fn base64_standard_decode(text: &str) -> (r: Option<Vec<u8>>)
    ensures
        match base64_standard_decode_spec(text@) {
            Some(bytes) => r matches Some(v) && v@ == bytes,
            None => r is None,
        },
{
    base64::engine::general_purpose::STANDARD.decode(text).ok()
}

/// Calls `image::load_from_memory` and reads the decoded image's width and
/// height. The result is named.
#[verifier::external_body]
fn decoded_image_size(bytes: &[u8]) -> (r: Option<(u32, u32)>)
    ensures
        r == image_size_spec(bytes@),
{
    image::load_from_memory(bytes).ok().map(|decoded| (decoded.width(), decoded.height()))
}

/// Calls `image::load_from_memory`, `DynamicImage::crop_imm`,
/// `DynamicImage::resize_exact` with `FilterType::Nearest` and
/// `DynamicImage::write_to` with `ImageFormat::Png`. The result is named.
#[verifier::external_body]
fn crop_to_png(
    bytes: &[u8],
    x: u32,
    y: u32,
    width: u32,
    height: u32,
    out_width: u32,
    out_height: u32,
) -> (r: Option<Vec<u8>>)
    ensures
        match crop_png_spec(bytes@, x, y, width, height, out_width, out_height) {
            Some(png) => r matches Some(v) && v@ == png,
            None => r is None,
        },
{
    let decoded = image::load_from_memory(bytes).ok()?;
    let cropped = decoded.crop_imm(x, y, width, height).resize_exact(
        out_width,
        out_height,
        image::imageops::FilterType::Nearest,
    );
    let mut output = std::io::Cursor::new(Vec::new());
    cropped.write_to(&mut output, image::ImageFormat::Png).ok()?;
    Some(output.into_inner())
}

/// The text after the first comma of `s`, if it holds one.
pub open spec fn after_first_comma(s: Seq<char>) -> Option<Seq<char>> {
    if exists|i: int| 0 <= i < s.len() && s[i] == ',' {
        let i = choose|i: int|
            0 <= i < s.len() && s[i] == ',' && forall|j: int| 0 <= j < i ==> s[j] != ',';
        Some(s.subrange(i + 1, s.len() as int))
    } else {
        None
    }
}

fn split_after_comma(s: &str) -> (r: Option<&str>)
    ensures
        match after_first_comma(s@) {
            Some(rest) => r matches Some(t) && t@ == rest,
            None => r is None,
        },
{
    let n = s.unicode_len();
    let mut i: usize = 0;
    while i < n
        invariant
            n == s@.len(),
            i <= n,
            forall|j: int| 0 <= j < i ==> s@[j] != ',',
        decreases n - i,
    {
        if s.get_char(i) == ',' {
            proof {
                let k = choose|k: int|
                    0 <= k < s@.len() && s@[k] == ',' && forall|j: int| 0 <= j < k ==> s@[j]
                        != ',';
                if k < i {
                } else if k > i {
                    assert(s@[i as int] == ',');
                }
                assert(k == i);
            }
            return Some(s.substring_char(i + 1, n));
        }
        i = i + 1;
    }
    None
}

/// The width and height of a full emulator screenshot, from which the QR
/// code is cut.
pub const SCREENSHOT_WIDTH: u32 = 1280;

pub const SCREENSHOT_HEIGHT: u32 = 720;

/// The region of the screenshot that holds the QR code, and the size of
/// the image served for it.
pub const QR_X: u32 = 545;

pub const QR_Y: u32 = 250;

pub const QR_SIDE: u32 = 190;

pub const QR_OUTPUT_SIDE: u32 = 220;

/// The image served for a session's QR code: the payload is a data URL
/// whose part after the first comma is standard base64; a full screenshot
/// is cut down to the QR code, any other image is served as it is.
pub fn login_qr_image(status: &PublicLoginStatus) -> (r: Result<Vec<u8>, u16>)
    ensures
        match status.qr_payload {
            None => r == Err::<Vec<u8>, u16>(http_status::NOT_FOUND),
            Some(payload) => match after_first_comma(payload@) {
                None => r == Err::<Vec<u8>, u16>(http_status::UNPROCESSABLE_ENTITY),
                Some(encoded) => match base64_standard_decode_spec(encoded) {
                    None => r == Err::<Vec<u8>, u16>(http_status::UNPROCESSABLE_ENTITY),
                    Some(bytes) => if image_size_spec(bytes) == Some(
                        (SCREENSHOT_WIDTH, SCREENSHOT_HEIGHT),
                    ) {
                        match crop_png_spec(
                            bytes,
                            QR_X,
                            QR_Y,
                            QR_SIDE,
                            QR_SIDE,
                            QR_OUTPUT_SIDE,
                            QR_OUTPUT_SIDE,
                        ) {
                            Some(png) => r matches Ok(v) && v@ == png,
                            None => r == Err::<Vec<u8>, u16>(http_status::INTERNAL_SERVER_ERROR),
                        }
                    } else {
                        r matches Ok(v) && v@ == bytes
                    },
                },
            },
        },
{
    let payload = match &status.qr_payload {
        Some(p) => p,
        None => {
            return Err(http_status::NOT_FOUND);
        },
    };
    let encoded = match split_after_comma(payload.as_str()) {
        Some(e) => e,
        None => {
            return Err(http_status::UNPROCESSABLE_ENTITY);
        },
    };
    let bytes = match base64_standard_decode(encoded) {
        Some(b) => b,
        None => {
            return Err(http_status::UNPROCESSABLE_ENTITY);
        },
    };
    let size = decoded_image_size(bytes.as_slice());
    let full_screenshot = match size {
        Some((w, h)) => w == SCREENSHOT_WIDTH && h == SCREENSHOT_HEIGHT,
        None => false,
    };
    if full_screenshot {
        match crop_to_png(
            bytes.as_slice(),
            QR_X,
            QR_Y,
            QR_SIDE,
            QR_SIDE,
            QR_OUTPUT_SIDE,
            QR_OUTPUT_SIDE,
        ) {
            Some(png) => Ok(png),
            None => Err(http_status::INTERNAL_SERVER_ERROR),
        }
    } else {
        Ok(bytes)
    }
}


/// What the live status stream of a login page does after a poll.
#[derive(Debug, Clone, Copy, PartialEq, Eq, Structural)]
pub enum LoginStreamStep {
    /// The session changed: send its status and remember this update.
    Emit,
    /// Nothing changed: poll again.
    Wait,
    /// The session is gone or could not be read: end the stream.
    End,
}

/// The step of the live status stream after a poll that read the
/// session's last update (`None` when the session is gone or the read
/// failed): a changed update is sent, an unchanged one waits.
pub fn login_stream_step(last_updated_at_ms: i64, polled_updated_at_ms: Option<i64>) -> (r:
    LoginStreamStep)
    ensures
        r == match polled_updated_at_ms {
            None => LoginStreamStep::End,
            Some(t) => if t != last_updated_at_ms {
                LoginStreamStep::Emit
            } else {
                LoginStreamStep::Wait
            },
        },
{
    match polled_updated_at_ms {
        None => LoginStreamStep::End,
        Some(t) => if t != last_updated_at_ms {
            LoginStreamStep::Emit
        } else {
            LoginStreamStep::Wait
        },
    }
}

} // verus!
