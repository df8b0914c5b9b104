use foster_server::config::{
    admin_token_of, bind_addr_text, AgentGatewayConfig, ServerConfig, ServerConfigError,
};
use foster_server::control_plane::AllocationError;
use foster_server::domain::IdentityType;
use foster_server::enrollment::{DispatchLoginResult, EnrollmentError};
use foster_server::host_admin::{
    check_emulator_capacity, check_host_request, emulator_view, host_admin_status_code, host_view,
    normalize_bootstrap_status, EmulatorAdminRow, HostAdminError, HostAdminRow,
    UpsertHostRequest,
};
use foster_server::identity::{identity_type_from, identity_type_name};
use foster_server::onboarding::{
    authorize_admin, check_onboard_request, dispatch_status_name, login_ttl_secs,
    map_enrollment_error, onboarding_result, onboarding_status_code, service_end_at,
    AdminAuthConfig, OnboardCustomerRequest, OnboardingError,
};
use foster_server::public_portal::{
    block_state, build_status, check_quiet_period_count, current_quiet_until, effective_pause,
    pause_until, portal_status_code, public_job, public_quiet_periods, quiet_period_rows,
    validate_share, PortalSubscriptionRow, PublicPortalError, QuietPeriodInput, QuietPeriodRow,
    RecentJobRow,
};
use foster_server::recovery::{
    check_recovery_job, check_recovery_resources, confirmed_occupied_until,
    not_executed_resolution, plan_confirm_success, recovery_list_limit, recovery_status_code,
    success_resolution,
    validate_request, LockedAllocation, LockedJob, LockedSubscription, RecoveryAction,
    RecoveryError, ResolveRecoveryRequest,
};
use foster_server::resource_admin::{
    check_cycle_request, check_provider_request, clean_optional, find_cycle, find_provider,
    group_pool, map_provider_db_error, normalize_binding_status, normalize_cycle_status,
    normalize_provider_status, normalize_resource_type, resource_admin_status_code,
    CreateResourceCycleRequest, ProviderRow, ResourceAdminError, ResourceCycleRow,
    UpsertProviderRequest,
};
use foster_server::scheduler::{
    new_job_no, plan_due_job, scans_due_subscriptions, DueSubscriptionRow, PendingJobPlan,
};

#[test]
fn admin_values_normalize_whatever_the_case() {
    assert_eq!(normalize_provider_status(" active "), Ok("ACTIVE"));
    assert_eq!(normalize_provider_status("Disabled"), Ok("DISABLED"));
    assert_eq!(normalize_provider_status("gone"), Err(ResourceAdminError::InvalidProviderStatus));
    assert_eq!(normalize_binding_status("suspect"), Ok("SUSPECT"));
    assert_eq!(normalize_binding_status("x"), Err(ResourceAdminError::InvalidBindingStatus));
    assert_eq!(normalize_cycle_status(" available"), Ok("AVAILABLE"));
    assert_eq!(normalize_cycle_status("FULL"), Err(ResourceAdminError::InvalidCycleStatus));
    assert_eq!(normalize_resource_type("douyu"), Ok("FISH"));
    assert_eq!(normalize_resource_type("taiko"), Ok("TAIKO_JADE"));
    assert_eq!(normalize_resource_type("gold"), Err(ResourceAdminError::InvalidResourceType));
    // A stored value, typed again, gives itself.
    for v in ["ACTIVE", "DISABLED"] {
        assert_eq!(normalize_provider_status(v), Ok(v));
    }
    assert_eq!(normalize_bootstrap_status(" maintenance "), Ok("MAINTENANCE"));
    assert_eq!(normalize_bootstrap_status("OFFLINE"), Ok("OFFLINE"));
    assert_eq!(normalize_bootstrap_status("READY"), Err(HostAdminError::InvalidStatus));
}

#[test]
fn identity_type_names_round_trip() {
    for kind in [
        IdentityType::MaskedAccount,
        IdentityType::OcrAlias,
        IdentityType::CharacterName,
        IdentityType::ServerName,
        IdentityType::GameUid,
    ] {
        assert_eq!(identity_type_from(identity_type_name(kind)), Some(kind));
    }
    assert_eq!(identity_type_from("game_uid"), None);
}

fn provider_request() -> UpsertProviderRequest {
    UpsertProviderRequest {
        provider_code: " P1 ".to_string(),
        game_uid: Some("  ".to_string()),
        nickname: "Nick".to_string(),
        provider_alias: " alias ".to_string(),
        server_name: Some(" S1 ".to_string()),
        status: None,
    }
}

#[test]
fn provider_requests_are_checked_in_order() {
    let checked = check_provider_request(&provider_request()).unwrap();
    assert_eq!(checked.provider_code, "P1");
    assert_eq!(checked.provider_alias, "alias");
    assert_eq!(checked.game_uid, None);
    assert_eq!(checked.server_name, Some("S1".to_string()));
    assert_eq!(checked.status, "ACTIVE");
    let mut r = provider_request();
    r.provider_code = " ".to_string();
    r.provider_alias = " ".to_string();
    assert_eq!(check_provider_request(&r).err(), Some(ResourceAdminError::InvalidProviderCode));
    let mut r = provider_request();
    r.provider_alias = "".to_string();
    assert_eq!(check_provider_request(&r).err(), Some(ResourceAdminError::InvalidProviderAlias));
    let mut r = provider_request();
    r.nickname = "\t".to_string();
    assert_eq!(check_provider_request(&r).err(), Some(ResourceAdminError::InvalidNickname));
    let mut r = provider_request();
    r.status = Some("paused".to_string());
    assert_eq!(check_provider_request(&r).err(), Some(ResourceAdminError::InvalidProviderStatus));
    assert_eq!(clean_optional(Some("  x ")), Some("x"));
    assert_eq!(clean_optional(Some("   ")), None);
    assert_eq!(clean_optional(None), None);
}

#[test]
fn provider_write_errors() {
    assert_eq!(
        map_provider_db_error(Some("1062"), "Duplicate entry 'a' for key 'uk_provider_alias'", "e".to_string()),
        ResourceAdminError::ProviderAliasConflict
    );
    assert_eq!(
        map_provider_db_error(Some("1062"), "Duplicate entry for key 'uk_code'", "e".to_string()),
        ResourceAdminError::Database("e".to_string())
    );
    assert_eq!(
        map_provider_db_error(None, "uk_provider_alias", "e".to_string()),
        ResourceAdminError::Database("e".to_string())
    );
}

fn provider_row(id: i64) -> ProviderRow {
    ProviderRow {
        id,
        provider_code: format!("P{id}"),
        game_uid: None,
        nickname: "n".to_string(),
        provider_alias: format!("a{id}"),
        server_name: None,
        status: "ACTIVE".to_string(),
    }
}

fn cycle_row(id: i64, provider: i64) -> ResourceCycleRow {
    ResourceCycleRow {
        id,
        provider_account_id: provider,
        resource_type: "FISH".to_string(),
        resource_level: 1,
        start_at_ms: 0,
        end_at_ms: 10,
        slot_capacity: 3,
        occupied_slots: 1,
        status: "AVAILABLE".to_string(),
        verified_binding_count: 2,
    }
}

#[test]
fn finding_and_grouping_the_pool() {
    let providers = vec![provider_row(1), provider_row(2), provider_row(1)];
    let cycles = vec![cycle_row(10, 2), cycle_row(11, 1), cycle_row(12, 2), cycle_row(13, 9)];
    assert_eq!(find_provider(&providers, 2).unwrap().provider_code, "P2");
    assert_eq!(find_provider(&providers, 5).err(), Some(ResourceAdminError::ProviderNotFound));
    assert_eq!(find_cycle(&cycles, 12).unwrap().id, 12);
    assert_eq!(find_cycle(&cycles, 99).err(), Some(ResourceAdminError::CycleNotFound));
    let pool = group_pool(&providers, &cycles);
    let ids: Vec<Vec<i64>> = pool.providers.iter().map(|p| p.cycles.iter().map(|c| c.id).collect()).collect();
    assert_eq!(ids, vec![vec![11], vec![10, 12], vec![]]);
}

#[test]
fn cycle_requests_are_checked_in_order() {
    let good = CreateResourceCycleRequest { resource_type: "jade".to_string(), resource_level: 1, start_at_ms: 0, end_at_ms: 10, slot_capacity: 2 };
    assert_eq!(check_cycle_request(true, &good), Ok("TAIKO_JADE"));
    assert_eq!(check_cycle_request(false, &good), Err(ResourceAdminError::ProviderNotFound));
    let backwards = CreateResourceCycleRequest { end_at_ms: 0, ..good.clone() };
    assert_eq!(check_cycle_request(true, &backwards), Err(ResourceAdminError::InvalidTimeRange));
    let empty = CreateResourceCycleRequest { slot_capacity: 0, ..good.clone() };
    assert_eq!(check_cycle_request(true, &empty), Err(ResourceAdminError::InvalidSlotCapacity));
    let unknown = CreateResourceCycleRequest { resource_type: "gold".to_string(), ..good };
    assert_eq!(check_cycle_request(true, &unknown), Err(ResourceAdminError::InvalidResourceType));
}

#[test]
fn admin_errors_map_to_http_statuses() {
    assert_eq!(resource_admin_status_code(&ResourceAdminError::InvalidTimeRange), 400);
    assert_eq!(resource_admin_status_code(&ResourceAdminError::CycleNotFound), 404);
    assert_eq!(resource_admin_status_code(&ResourceAdminError::ProviderAliasConflict), 409);
    assert_eq!(resource_admin_status_code(&ResourceAdminError::Database("x".to_string())), 500);
    assert_eq!(host_admin_status_code(&HostAdminError::InvalidHostCode), 400);
    assert_eq!(host_admin_status_code(&HostAdminError::EmulatorNotFound), 404);
    assert_eq!(host_admin_status_code(&HostAdminError::Database("x".to_string())), 500);
    assert_eq!(portal_status_code(&PublicPortalError::NotFound), 404);
    assert_eq!(portal_status_code(&PublicPortalError::Expired), 410);
    assert_eq!(portal_status_code(&PublicPortalError::InvalidQuietPeriod), 400);
    assert_eq!(portal_status_code(&PublicPortalError::Database("x".to_string())), 500);
    assert_eq!(onboarding_status_code(&OnboardingError::NoCapacity), 409);
    assert_eq!(onboarding_status_code(&OnboardingError::UnknownPlan), 400);
}

#[test]
fn host_requests_and_views() {
    let request = UpsertHostRequest { host_code: " H1 ".to_string(), hostname: "box".to_string(), status: None };
    let checked = check_host_request(&request).unwrap();
    assert_eq!(checked.host_code, "H1");
    assert_eq!(checked.status, "OFFLINE");
    let blank = UpsertHostRequest { host_code: " ".to_string(), ..request.clone() };
    assert_eq!(check_host_request(&blank).err(), Some(HostAdminError::InvalidHostCode));
    let no_name = UpsertHostRequest { hostname: "".to_string(), ..request.clone() };
    assert_eq!(check_host_request(&no_name).err(), Some(HostAdminError::InvalidHostname));
    let bad = UpsertHostRequest { status: Some("READY".to_string()), ..request };
    assert_eq!(check_host_request(&bad).err(), Some(HostAdminError::InvalidStatus));
    assert_eq!(check_emulator_capacity(1), Ok(()));
    assert_eq!(check_emulator_capacity(100), Ok(()));
    assert_eq!(check_emulator_capacity(0), Err(HostAdminError::InvalidEmulatorCapacity));
    assert_eq!(check_emulator_capacity(101), Err(HostAdminError::InvalidEmulatorCapacity));
    let row = HostAdminRow {
        id: 1,
        host_code: "H1".to_string(),
        hostname: "box".to_string(),
        status: "ONLINE".to_string(),
        agent_version: Some("1.2".to_string()),
        last_heartbeat_at_ms: Some(5),
        total_emulators: 3,
        online_emulators: 2,
        configured_capacity: 9,
        bound_accounts: 4,
    };
    let view = host_view(&row);
    assert_eq!(view.host_code, "H1");
    assert_eq!(view.configured_capacity, 9);
    let emulator = EmulatorAdminRow {
        id: 2,
        host_id: 1,
        emulator_code: "E2".to_string(),
        driver_type: "MUMU".to_string(),
        max_account_count: 3,
        status: "READY".to_string(),
        adb_serial: None,
        current_job_id: Some("J".to_string()),
        last_heartbeat_at_ms: None,
        bound_accounts: 1,
    };
    assert_eq!(emulator_view(&emulator).current_job_id, Some("J".to_string()));
}

#[test]
fn onboarding_rules() {
    let request = OnboardCustomerRequest { customer_id: 1, plan_code: "P".to_string(), service_days: 30, login_ttl_minutes: 60 };
    assert_eq!(check_onboard_request(&request), Ok(()));
    let no_days = OnboardCustomerRequest { service_days: 0, login_ttl_minutes: 0, ..request.clone() };
    assert_eq!(check_onboard_request(&no_days), Err(OnboardingError::InvalidServiceDays));
    let long_ttl = OnboardCustomerRequest { login_ttl_minutes: 1441, ..request.clone() };
    assert_eq!(check_onboard_request(&long_ttl), Err(OnboardingError::InvalidLoginTtl));
    assert_eq!(service_end_at(1_000, 2), 1_000 + 2 * 86_400_000);
    assert_eq!(login_ttl_secs(60), 3_600);
    assert_eq!(
        map_enrollment_error(EnrollmentError::Allocation(AllocationError::NoCapacity)),
        OnboardingError::NoCapacity
    );
    assert_eq!(
        map_enrollment_error(EnrollmentError::InvalidTtl),
        OnboardingError::Enrollment(EnrollmentError::InvalidTtl)
    );
    assert_eq!(dispatch_status_name(DispatchLoginResult::WaitingEmulator), "WAITING_EMULATOR");
    let result = onboarding_result("SUB-1", "lp", "lc", "sp", "sc");
    assert_eq!(result.login_url, "/login/lp#control=lc");
    assert_eq!(result.service_url, "/service/sp#control=sc");
    assert_eq!(result.login_dispatch_status, "AWAITING_USER_INPUT");
}

#[test]
fn admin_authorization() {
    let configured = AdminAuthConfig { token: Some("s3cret".to_string()) };
    assert_eq!(authorize_admin(&configured, Some("Bearer s3cret")), Ok(()));
    assert_eq!(authorize_admin(&configured, Some("Bearer s3cret2")), Err(401));
    assert_eq!(authorize_admin(&configured, Some("bearer s3cret")), Err(401));
    assert_eq!(authorize_admin(&configured, None), Err(401));
    let missing = AdminAuthConfig { token: None };
    assert_eq!(authorize_admin(&missing, Some("Bearer x")), Err(503));
    let empty = AdminAuthConfig { token: Some(String::new()) };
    assert_eq!(authorize_admin(&empty, Some("Bearer ")), Err(503));
}

#[test]
fn share_links_and_pauses() {
    assert_eq!(validate_share("ACTIVE", None, 5), Ok(()));
    assert_eq!(validate_share("ACTIVE", Some(6), 5), Ok(()));
    assert_eq!(validate_share("ACTIVE", Some(5), 5), Err(PublicPortalError::Expired));
    assert_eq!(validate_share("REVOKED", None, 5), Err(PublicPortalError::NotFound));
    assert_eq!(pause_until("1H", 0), Ok(3_600_000));
    assert_eq!(pause_until("2H", 10), Ok(7_200_010));
    assert_eq!(pause_until("4H", 0), Ok(14_400_000));
    assert_eq!(pause_until("TODAY", 0), Ok(57_600_000));
    assert_eq!(pause_until("3H", 0), Err(PublicPortalError::InvalidPausePreset));
    assert_eq!(pause_until("1h", 0), Err(PublicPortalError::InvalidPausePreset));
    assert_eq!(effective_pause(Some(9), 5), 9);
    assert_eq!(effective_pause(None, 5), 5);
    assert_eq!(check_quiet_period_count(8), Ok(()));
    assert_eq!(check_quiet_period_count(9), Err(PublicPortalError::InvalidQuietPeriod));
}

fn quiet_input(start: &str, end: &str, mask: i32) -> QuietPeriodInput {
    QuietPeriodInput {
        weekday_mask: mask,
        start_time: start.to_string(),
        end_time: end.to_string(),
        before_buffer_minutes: 10,
        after_buffer_minutes: 0,
    }
}

#[test]
fn quiet_periods_are_read_and_shown() {
    let rows = quiet_period_rows(&vec![quiet_input("22:30", "07:05", 127)]).unwrap();
    assert_eq!(rows.len(), 1);
    assert_eq!(rows[0].start_time_secs, 81_000);
    assert_eq!(rows[0].end_time_secs, 25_500);
    assert_eq!(rows[0].timezone, "Asia/Shanghai");
    assert_eq!(
        quiet_period_rows(&vec![quiet_input("22:30", "07:05", 0)]).err(),
        Some(PublicPortalError::InvalidQuietPeriod)
    );
    assert_eq!(
        quiet_period_rows(&vec![quiet_input("25:00", "07:05", 1)]).err(),
        Some(PublicPortalError::InvalidQuietPeriod)
    );
    let shown = public_quiet_periods(&rows);
    assert_eq!(shown[0].start_time, "22:30");
    assert_eq!(shown[0].end_time, "07:05");
    let stored = QuietPeriodRow {
        weekday_mask: 3,
        start_time_secs: 0,
        end_time_secs: 60,
        timezone: "Asia/Shanghai".to_string(),
        before_buffer_minutes: 0,
        after_buffer_minutes: 5,
    };
    assert_eq!(public_quiet_periods(&vec![stored])[0].end_time, "00:01");
}

#[test]
fn the_block_is_the_later_pause() {
    assert_eq!(current_quiet_until(&vec![None, Some(5), Some(9), None, Some(7)]), Some(9));
    assert_eq!(current_quiet_until(&vec![None, None]), None);
    assert_eq!(block_state(Some(10), Some(8), 100), (Some(10), Some("MANUAL_PAUSE".to_string())));
    assert_eq!(block_state(Some(8), Some(10), 0), (Some(10), Some("QUIET_PERIOD".to_string())));
    assert_eq!(block_state(Some(10), Some(10), 0), (Some(10), Some("MANUAL_PAUSE".to_string())));
    assert_eq!(block_state(Some(10), None, 5), (Some(10), Some("MANUAL_PAUSE".to_string())));
    assert_eq!(block_state(Some(10), None, 10), (None, None));
    assert_eq!(block_state(None, Some(3), 10), (Some(3), Some("QUIET_PERIOD".to_string())));
    assert_eq!(block_state(None, None, 10), (None, None));
}

#[test]
fn service_status_is_built_from_its_parts() {
    let row = PortalSubscriptionRow {
        subscription_no: "SUB-1".to_string(),
        service_status: "ACTIVE".to_string(),
        game_account_id: 3,
        character_name: Some("Hero".to_string()),
        server_name: None,
        login_status: "RELOGIN_REQUIRED".to_string(),
        verify_status: "VERIFIED".to_string(),
        plan_name: "Gold".to_string(),
        resource_mode: "PLATFORM".to_string(),
        resource_type: Some("FISH".to_string()),
        daily_target_runs: 4,
        last_success_at_ms: Some(1),
        next_run_at_ms: Some(2),
        manual_pause_until_ms: Some(50),
        service_end_at_ms: 99,
    };
    let job = public_job(&RecentJobRow {
        status: "SUCCESS".to_string(),
        scheduled_at_ms: 1,
        started_at_ms: Some(2),
        finished_at_ms: Some(3),
        result_message: None,
        screenshot_url: Some("u".to_string()),
    });
    let status = build_status(&row, 2, Some(40), Vec::new(), vec![job.clone()], 10);
    assert_eq!(status.subscription_no, "SUB-1");
    assert_eq!(status.today_success_count, 2);
    assert_eq!(status.effective_blocked_until_ms, Some(50));
    assert_eq!(status.block_reason, Some("MANUAL_PAUSE".to_string()));
    assert!(status.relogin_required);
    assert_eq!(status.recent_jobs, vec![job]);
}

fn recovery_request(action: RecoveryAction) -> ResolveRecoveryRequest {
    ResolveRecoveryRequest {
        expected_attempt: 2,
        action,
        operator: "  ops ".to_string(),
        note: " checked the screen ".to_string(),
        observed_remaining_seconds: Some(600),
        confirmed_stopped: true,
    }
}

#[test]
fn recovery_requests_are_checked_in_order() {
    assert_eq!(recovery_list_limit(0), 1);
    assert_eq!(recovery_list_limit(50), 50);
    assert_eq!(recovery_list_limit(500), 100);
    let ok = validate_request(&recovery_request(RecoveryAction::ConfirmSucceeded)).unwrap();
    assert_eq!(ok, ("ops".to_string(), "checked the screen".to_string()));
    let mut r = recovery_request(RecoveryAction::ConfirmSucceeded);
    r.operator = " ".to_string();
    assert_eq!(validate_request(&r).err(), Some(RecoveryError::InvalidOperator));
    let mut r = recovery_request(RecoveryAction::ConfirmSucceeded);
    r.note = "tiny".to_string();
    assert_eq!(validate_request(&r).err(), Some(RecoveryError::InvalidNote));
    let mut r = recovery_request(RecoveryAction::ConfirmNotExecuted);
    r.confirmed_stopped = false;
    assert_eq!(validate_request(&r).err(), Some(RecoveryError::MustConfirmStopped));
    let mut r = recovery_request(RecoveryAction::ConfirmSucceeded);
    r.observed_remaining_seconds = Some(0);
    assert_eq!(validate_request(&r).err(), Some(RecoveryError::InvalidRemaining));
    assert_eq!(RecoveryAction::ConfirmSucceeded.as_str(), "CONFIRM_SUCCEEDED");
    assert_eq!(RecoveryAction::ConfirmNotExecuted.as_str(), "CONFIRM_NOT_EXECUTED");
}

#[test]
fn recovery_resolutions() {
    let job = LockedJob { id: 1, subscription_id: 2, status: "RECOVERY_REQUIRED".to_string(), retry_count: 2, resource_allocation_id: None };
    assert_eq!(check_recovery_job(Some(&job), 2), Ok(()));
    assert_eq!(check_recovery_job(Some(&job), 1), Err(RecoveryError::AttemptMismatch));
    let running = LockedJob { status: "RUNNING".to_string(), ..job.clone() };
    assert_eq!(check_recovery_job(Some(&running), 2), Err(RecoveryError::StateConflict));
    assert_eq!(check_recovery_job(None, 2), Err(RecoveryError::JobNotFound));
    let platform = LockedSubscription { id: 2, resource_mode: "PLATFORM".to_string(), interval_minutes: 30, status: "ACTIVE".to_string() };
    let friend = LockedSubscription { resource_mode: "USER_FRIEND".to_string(), ..platform.clone() };
    assert_eq!(check_recovery_resources(None, true), Err(RecoveryError::SubscriptionUnavailable));
    assert_eq!(check_recovery_resources(Some(&platform), false), Err(RecoveryError::AllocationUnavailable));
    assert_eq!(check_recovery_resources(Some(&friend), false), Ok(()));
    let reserved = LockedAllocation { id: 4, resource_cycle_id: 5, status: "RESERVED".to_string() };
    assert_eq!(plan_confirm_success(&platform, Some(&reserved), None, 0), Err(RecoveryError::RemainingRequired));
    assert_eq!(plan_confirm_success(&platform, None, Some(60), 0), Err(RecoveryError::AllocationUnavailable));
    assert_eq!(plan_confirm_success(&platform, Some(&reserved), Some(60), 1_000), Ok(61_000));
    assert_eq!(plan_confirm_success(&friend, None, None, 0), Ok(1_800_000));
    assert_eq!(confirmed_occupied_until(5_000, 4_000, 100), Ok(4_000));
    assert_eq!(confirmed_occupied_until(3_000, 4_000, 100), Ok(3_000));
    assert_eq!(confirmed_occupied_until(3_000, 100, 100), Err(RecoveryError::AllocationUnavailable));
    let success = success_resolution(1, &platform, 9_000);
    assert_eq!(success.status, "SUCCESS");
    assert_eq!(success.next_run_at_ms, Some(9_000));
    assert_eq!(success.allocation_status, Some("CONFIRMED".to_string()));
    let paused = LockedSubscription { status: "PAUSED".to_string(), ..friend };
    let quiet = success_resolution(1, &paused, 9_000);
    assert_eq!(quiet.next_run_at_ms, None);
    assert_eq!(quiet.allocation_status, None);
    let retry = not_executed_resolution(1, Some(&reserved), 0).unwrap();
    assert_eq!(retry.status, "RETRY");
    assert_eq!(retry.retry_after_ms, Some(300_000));
    assert_eq!(retry.allocation_status, Some("RELEASED".to_string()));
    let confirmed = LockedAllocation { status: "CONFIRMED".to_string(), ..reserved };
    assert_eq!(not_executed_resolution(1, Some(&confirmed), 0).err(), Some(RecoveryError::AllocationUnavailable));
}

#[test]
fn server_configuration() {
    let production = AgentGatewayConfig::production("tok".to_string());
    assert_eq!(production.agent_token, "tok");
    assert_eq!(production.heartbeat_timeout_secs, 45);
    assert_eq!(production.sweep_interval_secs, 5);
    assert_eq!(bind_addr_text(None), "0.0.0.0:8080");
    assert_eq!(bind_addr_text(Some("127.0.0.1:9".to_string())), "127.0.0.1:9");
    assert_eq!(admin_token_of(Some("  ".to_string())), None);
    assert_eq!(admin_token_of(Some(" t ".to_string())), Some(" t ".to_string()));
    let config = ServerConfig::from_values(Some("mysql://x".to_string()), Some("a".to_string()), Some("".to_string()), None, true).unwrap();
    assert_eq!(config.bind_addr, "0.0.0.0:8080");
    assert_eq!(config.admin_token, None);
    assert_eq!(
        ServerConfig::from_values(None, None, None, None, true).err(),
        Some(ServerConfigError::MissingDatabaseUrl)
    );
    assert_eq!(
        ServerConfig::from_values(Some("d".to_string()), None, None, None, true).err(),
        Some(ServerConfigError::MissingAgentToken)
    );
    let invalid = ServerConfig::from_values(Some("d".to_string()), Some("a".to_string()), None, Some("nowhere".to_string()), false).err().unwrap();
    assert_eq!(invalid, ServerConfigError::InvalidBindAddr("nowhere".to_string()));
    assert_eq!(invalid.message(), "invalid FOSTER_BIND_ADDR: nowhere");
    assert_eq!(ServerConfigError::MissingDatabaseUrl.message(), "DATABASE_URL is required");
}

#[test]
fn due_subscriptions_become_pending_jobs() {
    assert!(!scans_due_subscriptions(0));
    assert!(scans_due_subscriptions(5));
    let row = DueSubscriptionRow { id: 1, game_account_id: 2, next_run_at_ms: 3 };
    assert_eq!(
        plan_due_job(&Some(row.clone()), true, false),
        Some(PendingJobPlan { subscription_id: 1, game_account_id: 2, scheduled_at_ms: 3 })
    );
    assert_eq!(plan_due_job(&Some(row.clone()), false, false), None);
    assert_eq!(plan_due_job(&Some(row), true, true), None);
    assert_eq!(plan_due_job(&None, true, false), None);
    let job_no = new_job_no();
    assert!(job_no.starts_with("JOB-"));
    assert_eq!(job_no.len(), 40);
}

#[test]
fn recovery_errors_map_to_statuses() {
    assert_eq!(recovery_status_code(&RecoveryError::InvalidNote), 400);
    assert_eq!(recovery_status_code(&RecoveryError::RemainingRequired), 400);
    assert_eq!(recovery_status_code(&RecoveryError::JobNotFound), 404);
    assert_eq!(recovery_status_code(&RecoveryError::AttemptMismatch), 409);
    assert_eq!(recovery_status_code(&RecoveryError::SubscriptionUnavailable), 409);
    assert_eq!(recovery_status_code(&RecoveryError::Database("x".to_string())), 500);
}

#[test]
fn the_pool_shows_every_field_of_its_rows() {
    let mut first = provider_row(1);
    first.nickname = "nick".to_string();
    first.provider_alias = "alias".to_string();
    first.game_uid = Some("uid".to_string());
    let mut cycle = cycle_row(11, 1);
    cycle.occupied_slots = 2;
    cycle.status = "FULL".to_string();
    cycle.resource_level = 4;
    let pool = group_pool(&vec![first, provider_row(1)], &vec![cycle]);
    let shown = &pool.providers[0];
    assert_eq!(shown.provider.nickname, "nick");
    assert_eq!(shown.provider.provider_alias, "alias");
    assert_eq!(shown.provider.game_uid, Some("uid".to_string()));
    assert_eq!(shown.cycles.len(), 1);
    assert_eq!(shown.cycles[0].occupied_slots, 2);
    assert_eq!(shown.cycles[0].status, "FULL");
    assert_eq!(shown.cycles[0].resource_level, 4);
    assert_eq!(shown.cycles[0].slot_capacity, 3);
    assert!(pool.providers[1].cycles.is_empty());
}
