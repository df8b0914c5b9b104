//! Administration of agent hosts and their emulators: the checks on what an
//! administrator enters and the views of hosts and emulators.
use vstd::prelude::*;

use crate::domain::clone_opt;
use crate::http_status;
use crate::text::{
    ascii_lower, ascii_upper, chars_eq_str, law_keys_ignore_case_and_padding, lemma_upper_key_fixed,
    owned, trim, trim_seq, upper_key, upper_key_of,
};

verus! {

#[derive(Debug, Clone, PartialEq, Eq)]
pub enum HostAdminError {
    Database(String),
    InvalidHostCode,
    InvalidHostname,
    InvalidStatus,
    HostNotFound,
    EmulatorNotFound,
    InvalidEmulatorCapacity,
}

#[derive(Debug, Clone)]
pub struct UpsertHostRequest {
    pub host_code: String,
    pub hostname: String,
    pub status: Option<String>,
}

/// A host as the administration shows it; instants in milliseconds.
#[derive(Debug, Clone, PartialEq, Eq)]
pub struct HostView {
    pub id: i64,
    pub host_code: String,
    pub hostname: String,
    pub status: String,
    pub agent_version: Option<String>,
    pub last_heartbeat_at_ms: Option<i64>,
    pub total_emulators: i64,
    pub online_emulators: i64,
    pub configured_capacity: i64,
    pub bound_accounts: i64,
}

/// An emulator as the administration shows it; instants in milliseconds.
#[derive(Debug, Clone, PartialEq, Eq)]
pub struct EmulatorView {
    pub id: i64,
    pub host_id: i64,
    pub emulator_code: String,
    pub driver_type: String,
    pub max_account_count: i32,
    pub status: String,
    pub adb_serial: Option<String>,
    pub current_job_id: Option<String>,
    pub last_heartbeat_at_ms: Option<i64>,
    pub bound_accounts: i64,
}

/// A stored host with its emulator counts; instants in milliseconds.
#[derive(Debug, Clone)]
pub struct HostAdminRow {
    pub id: i64,
    pub host_code: String,
    pub hostname: String,
    pub status: String,
    pub agent_version: Option<String>,
    pub last_heartbeat_at_ms: Option<i64>,
    pub total_emulators: i64,
    pub online_emulators: i64,
    pub configured_capacity: i64,
    pub bound_accounts: i64,
}

/// A stored emulator with its bound accounts; instants in milliseconds.
#[derive(Debug, Clone)]
pub struct EmulatorAdminRow {
    pub id: i64,
    pub host_id: i64,
    pub emulator_code: String,
    pub driver_type: String,
    pub max_account_count: i32,
    pub status: String,
    pub adb_serial: Option<String>,
    pub current_job_id: Option<String>,
    pub last_heartbeat_at_ms: Option<i64>,
    pub bound_accounts: i64,
}

/// A host request after its checks: texts trimmed, status normalised.
#[derive(Debug, Clone)]
pub struct CheckedHost {
    pub host_code: String,
    pub hostname: String,
    pub status: &'static str,
}

/// The status an administrator may give a host before its agent connects.
pub open spec fn bootstrap_status_of(value: Seq<char>) -> Option<Seq<char>> {
    let key = upper_key(value);
    if key == "OFFLINE"@ {
        Some("OFFLINE"@)
    } else if key == "MAINTENANCE"@ {
        Some("MAINTENANCE"@)
    } else {
        None
    }
}

pub fn normalize_bootstrap_status(value: &str) -> (r: Result<&'static str, HostAdminError>)
    ensures
        match bootstrap_status_of(value@) {
            Some(s) => r matches Ok(t) && t@ == s,
            None => r == Err::<&'static str, HostAdminError>(HostAdminError::InvalidStatus),
        },
{
    let key = upper_key_of(value);
    if chars_eq_str(&key, "OFFLINE") {
        Ok("OFFLINE")
    } else if chars_eq_str(&key, "MAINTENANCE") {
        Ok("MAINTENANCE")
    } else {
        Err(HostAdminError::InvalidStatus)
    }
}

/// The first error of a host request, in this order: a blank host code, a
/// blank hostname, an unknown status (missing means offline).
pub open spec fn host_request_error(request: UpsertHostRequest) -> Option<HostAdminError> {
    if trim_seq(request.host_code@).len() == 0 {
        Some(HostAdminError::InvalidHostCode)
    } else if trim_seq(request.hostname@).len() == 0 {
        Some(HostAdminError::InvalidHostname)
    } else if bootstrap_status_of(
        match request.status {
            Some(s) => s@,
            None => "OFFLINE"@,
        },
    ) is None {
        Some(HostAdminError::InvalidStatus)
    } else {
        None
    }
}

pub fn check_host_request(request: &UpsertHostRequest) -> (r: Result<CheckedHost, HostAdminError>)
    ensures
        match host_request_error(*request) {
            Some(e) => r == Err::<CheckedHost, HostAdminError>(e),
            None => r matches Ok(h) && h.host_code@ == trim_seq(request.host_code@) && h.hostname@
                == trim_seq(request.hostname@) && Some(h.status@) == bootstrap_status_of(
                match request.status {
                    Some(s) => s@,
                    None => "OFFLINE"@,
                },
            ),
        },
{
    let host_code = trim(request.host_code.as_str());
    let hostname = trim(request.hostname.as_str());
    if host_code.unicode_len() == 0 {
        return Err(HostAdminError::InvalidHostCode);
    }
    if hostname.unicode_len() == 0 {
        return Err(HostAdminError::InvalidHostname);
    }
    let status_text: &str = match &request.status {
        Some(s) => s.as_str(),
        None => "OFFLINE",
    };
    let status = normalize_bootstrap_status(status_text)?;
    Ok(CheckedHost { host_code: owned(host_code), hostname: owned(hostname), status })
}

/// An emulator holds between 1 and 100 accounts.
pub fn check_emulator_capacity(max_account_count: i32) -> (r: Result<(), HostAdminError>)
    ensures
        r is Ok <==> 1 <= max_account_count <= 100,
        r is Err ==> r == Err::<(), HostAdminError>(HostAdminError::InvalidEmulatorCapacity),
{
    if 1 <= max_account_count && max_account_count <= 100 {
        Ok(())
    } else {
        Err(HostAdminError::InvalidEmulatorCapacity)
    }
}

/// A host as the administration shows it.
pub fn host_view(row: &HostAdminRow) -> (r: HostView)
    ensures
        r.id == row.id,
        r.host_code@ == row.host_code@,
        r.hostname@ == row.hostname@,
        r.status@ == row.status@,
        r.agent_version.deep_view() == row.agent_version.deep_view(),
        r.last_heartbeat_at_ms == row.last_heartbeat_at_ms,
        r.total_emulators == row.total_emulators,
        r.online_emulators == row.online_emulators,
        r.configured_capacity == row.configured_capacity,
        r.bound_accounts == row.bound_accounts,
{
    HostView {
        id: row.id,
        host_code: row.host_code.clone(),
        hostname: row.hostname.clone(),
        status: row.status.clone(),
        agent_version: clone_opt(&row.agent_version),
        last_heartbeat_at_ms: row.last_heartbeat_at_ms,
        total_emulators: row.total_emulators,
        online_emulators: row.online_emulators,
        configured_capacity: row.configured_capacity,
        bound_accounts: row.bound_accounts,
    }
}

/// An emulator as the administration shows it.
pub fn emulator_view(row: &EmulatorAdminRow) -> (r: EmulatorView)
    ensures
        r.id == row.id,
        r.host_id == row.host_id,
        r.emulator_code@ == row.emulator_code@,
        r.driver_type@ == row.driver_type@,
        r.max_account_count == row.max_account_count,
        r.status@ == row.status@,
        r.adb_serial.deep_view() == row.adb_serial.deep_view(),
        r.current_job_id.deep_view() == row.current_job_id.deep_view(),
        r.last_heartbeat_at_ms == row.last_heartbeat_at_ms,
        r.bound_accounts == row.bound_accounts,
{
    EmulatorView {
        id: row.id,
        host_id: row.host_id,
        emulator_code: row.emulator_code.clone(),
        driver_type: row.driver_type.clone(),
        max_account_count: row.max_account_count,
        status: row.status.clone(),
        adb_serial: clone_opt(&row.adb_serial),
        current_job_id: clone_opt(&row.current_job_id),
        last_heartbeat_at_ms: row.last_heartbeat_at_ms,
        bound_accounts: row.bound_accounts,
    }
}

/// The HTTP status that answers a host administration error.
pub open spec fn host_admin_status_of(error: HostAdminError) -> u16 {
    match error {
        HostAdminError::InvalidHostCode
        | HostAdminError::InvalidHostname
        | HostAdminError::InvalidStatus
        | HostAdminError::InvalidEmulatorCapacity => http_status::BAD_REQUEST,
        HostAdminError::HostNotFound | HostAdminError::EmulatorNotFound => http_status::NOT_FOUND,
        HostAdminError::Database(_) => http_status::INTERNAL_SERVER_ERROR,
    }
}

pub fn host_admin_status_code(error: &HostAdminError) -> (r: u16)
    ensures
        r == host_admin_status_of(*error),
{
    match error {
        HostAdminError::InvalidHostCode
        | HostAdminError::InvalidHostname
        | HostAdminError::InvalidStatus
        | HostAdminError::InvalidEmulatorCapacity => http_status::BAD_REQUEST,
        HostAdminError::HostNotFound | HostAdminError::EmulatorNotFound => http_status::NOT_FOUND,
        HostAdminError::Database(_) => http_status::INTERNAL_SERVER_ERROR,
    }
}


/// A bootstrap status is matched regardless of ASCII case and surrounding
/// whitespace, and the stored status, typed again, gives itself.
pub proof fn law_bootstrap_status_normalizes(value: Seq<char>)
    ensures
        bootstrap_status_of(trim_seq(value)) == bootstrap_status_of(value),
        bootstrap_status_of(ascii_lower(value)) == bootstrap_status_of(value),
        bootstrap_status_of(ascii_upper(value)) == bootstrap_status_of(value),
        bootstrap_status_of(value) matches Some(n) ==> bootstrap_status_of(n) == Some(n),
{
    law_keys_ignore_case_and_padding(value);
    reveal_strlit("OFFLINE");
    reveal_strlit("MAINTENANCE");
    lemma_upper_key_fixed("OFFLINE"@);
    lemma_upper_key_fixed("MAINTENANCE"@);
    assert("OFFLINE"@ != "MAINTENANCE"@) by {
        assert("OFFLINE"@.len() != "MAINTENANCE"@.len());
    }
}

} // verus!
