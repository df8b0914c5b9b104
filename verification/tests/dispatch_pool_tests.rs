use foster_server::control_plane::{
    binding_insert_error, check_bindable_account, emulator_activity_name,
    emulator_legacy_status_name, emulator_lifecycle_name, emulator_occupancy_name, free_slot,
    is_lease_ready, lease_expires_at, lease_plan, renewed_lease, renewed_lease_with_token,
    AcquiredEmulatorLease, AllocationError, GameAccountLockRow, LeasePlan, LeaseRow,
};
use foster_server::domain::{
    is_platform_mode, resource_type_from, resource_type_name, EmulatorActivity, EmulatorLifecycleStatus,
    EmulatorOccupancyStatus, FosterErrorCode, FosterJobStatus, FosterStage, ResourceMode,
    ResourceType,
};
use foster_server::foster_dispatch::{
    build_target_identity, command_resources, completes_on_success, delivery_plan,
    dispatch_start, execute_command, failure_followup, first_identity, first_stage_transition,
    identity_values, is_current_attempt, is_executing_status, is_terminal_status,
    lease_owner_key, lease_step, needs_reservation, outcome_report_applies, parse_resource_mode,
    reservation_step, running_transition, LeaseStep, ReservationStep,
    stage_report_applies, success_plan, to_account_identities, uncertain_delivery_result,
    DeliveryOutcome, DeliveryPlan, DispatchFosterResult, DispatchStart, FosterDispatchError,
    FosterDispatchTargetRow, FosterIdentityRow, PoolFollowup, SuccessPlan,
};
use foster_server::resource_pool::{
    check_reservable_job, confirm_gate, confirm_step, occupied_until, released_from_row,
    reservation_from_candidate, reservation_from_row, reserve_step, AllocationRow, ConfirmStep,
    ReserveForJobResult, ReserveStep, ResourceReservation,
    LockedResourceJob, ReleasableAllocationRow, ReleasedAllocation, ResourceCandidateRow,
    ResourcePoolError, ResourcePoolService,
};

fn dispatch_target(status: &str, mode: &str) -> FosterDispatchTargetRow {
    FosterDispatchTargetRow {
        job_id: 10,
        game_account_id: 20,
        status: status.to_string(),
        retry_count: 2,
        emulator_id: 30,
        host_id: 40,
        emulator_code: "EMU-30".to_string(),
        resource_mode: mode.to_string(),
        resource_type: Some("DOUYU".to_string()),
        character_name: None,
        server_name: Some("S9".to_string()),
        game_uid: None,
    }
}

fn row(kind: &str, value: &str, confidence: i32) -> FosterIdentityRow {
    FosterIdentityRow {
        identity_type: kind.to_string(),
        identity_value: value.to_string(),
        normalized_value: value.to_lowercase(),
        confidence,
    }
}

#[test]
fn resource_type_names_round_trip() {
    for t in [ResourceType::Fish, ResourceType::TaikoJade] {
        assert_eq!(resource_type_from(resource_type_name(t)), Some(t));
    }
    assert_eq!(resource_type_from("DOUYU"), Some(ResourceType::Fish));
    assert_eq!(resource_type_from("JADE"), Some(ResourceType::TaikoJade));
    assert_eq!(resource_type_from("TAIKO"), Some(ResourceType::TaikoJade));
    assert_eq!(resource_type_from("fish"), None);
}

#[test]
fn dispatch_starts_only_for_switching_jobs() {
    assert_eq!(dispatch_start(None), Err(FosterDispatchError::JobNotFound));
    assert_eq!(
        dispatch_start(Some(&dispatch_target("RUNNING", "PLATFORM"))),
        Ok(DispatchStart::Finished(DispatchFosterResult::AlreadyHandled))
    );
    assert_eq!(
        dispatch_start(Some(&dispatch_target("SWITCHING_ACCOUNT", "PLATFORM"))),
        Ok(DispatchStart::Proceed(ResourceMode::Platform))
    );
    assert_eq!(
        dispatch_start(Some(&dispatch_target("SWITCHING_ACCOUNT", "USER_FRIEND"))),
        Ok(DispatchStart::Proceed(ResourceMode::UserFriend))
    );
    assert_eq!(
        dispatch_start(Some(&dispatch_target("SWITCHING_ACCOUNT", "BORROWED"))),
        Err(FosterDispatchError::UnsupportedResourceMode("BORROWED".to_string()))
    );
    assert_eq!(
        parse_resource_mode("platform"),
        Err(FosterDispatchError::UnsupportedResourceMode("platform".to_string()))
    );
}

#[test]
fn target_identity_takes_account_names_before_hints() {
    let rows = vec![
        row("OCR_ALIAS", "alias-1", 50),
        row("CHARACTER_NAME", "HintHero", 80),
        row("MASKED_ACCOUNT", "m***1", 90),
        row("OCR_ALIAS", "alias-2", 50),
        row("MASKED_ACCOUNT", "m***2", 90),
        row("GAME_UID", "777", 120),
        row("SOMETHING", "x", 1),
    ];
    let target = dispatch_target("SWITCHING_ACCOUNT", "PLATFORM");
    let identity = build_target_identity(&target, &rows);
    assert_eq!(identity.masked_account, Some("m***1".to_string()));
    assert_eq!(identity.account_aliases, vec!["alias-1".to_string(), "alias-2".to_string()]);
    assert_eq!(identity.character_name, Some("HintHero".to_string()));
    assert_eq!(identity.server_name, Some("S9".to_string()));
    assert_eq!(identity.game_uid, Some("777".to_string()));
    assert_eq!(first_identity(&rows, "SERVER_NAME"), None);
    assert_eq!(identity_values(&rows, "MASKED_ACCOUNT"), vec!["m***1".to_string(), "m***2".to_string()]);
    let identities = to_account_identities(&rows);
    assert_eq!(identities.len(), 6);
    assert_eq!(identities[5].confidence, 100);
    assert_eq!(identities[1].normalized_value, "hinthero");
}

#[test]
fn command_resources_and_execute_command() {
    let target = dispatch_target("SWITCHING_ACCOUNT", "USER_FRIEND");
    assert_eq!(command_resources(None, &target), Ok((Some(ResourceType::Fish), None)));
    let mut no_type = target.clone();
    no_type.resource_type = None;
    assert_eq!(command_resources(None, &no_type), Ok((None, None)));
    let mut bad_type = target.clone();
    bad_type.resource_type = Some("GOLD".to_string());
    assert_eq!(
        command_resources(None, &bad_type),
        Err(FosterDispatchError::UnsupportedResourceType("GOLD".to_string()))
    );
    let allocation = AllocationRow {
        id: 5,
        resource_cycle_id: 6,
        provider_account_id: 7,
        provider_alias: "prov".to_string(),
        resource_type: "TAIKO_JADE".to_string(),
        status: "RESERVED".to_string(),
    };
    let reservation = reservation_from_row(&allocation).unwrap();
    assert_eq!(
        command_resources(Some(&reservation), &target),
        Ok((Some(ResourceType::TaikoJade), Some("prov".to_string())))
    );
    let identity = build_target_identity(&target, &Vec::new());
    let command = execute_command(&target, ResourceMode::UserFriend, None, None, identity);
    assert_eq!(command.job_id, 10);
    assert_eq!(command.attempt, 2);
    assert_eq!(command.emulator_code, "EMU-30");
}

#[test]
fn uncertain_delivery_never_releases_anything() {
    assert_eq!(
        delivery_plan(DeliveryOutcome::Delivered, ResourceMode::Platform),
        DeliveryPlan::Finished(DispatchFosterResult::Dispatched)
    );
    assert_eq!(
        delivery_plan(DeliveryOutcome::Offline, ResourceMode::Platform),
        DeliveryPlan::Undo { release_resource: true }
    );
    assert_eq!(
        delivery_plan(DeliveryOutcome::QueueClosed, ResourceMode::UserFriend),
        DeliveryPlan::Undo { release_resource: false }
    );
    for outcome in [DeliveryOutcome::DeliveryClosed, DeliveryOutcome::DeliveryFailed, DeliveryOutcome::TimedOut] {
        assert_eq!(delivery_plan(outcome, ResourceMode::Platform), DeliveryPlan::MarkUncertain);
    }
    assert_eq!(uncertain_delivery_result(true), DispatchFosterResult::RecoveryRequired);
    assert_eq!(uncertain_delivery_result(false), DispatchFosterResult::AlreadyHandled);
}

#[test]
fn reports_apply_only_to_live_jobs() {
    assert!(is_current_attempt(Some(3), 3));
    assert!(!is_current_attempt(Some(3), 2));
    assert!(!is_current_attempt(None, 0));
    for s in ["SUCCESS", "FAILED", "IDENTITY_MISMATCH", "CANCELLED"] {
        assert!(is_terminal_status(s));
        assert!(!stage_report_applies(&Some(s.to_string())));
        assert!(!outcome_report_applies(&Some(s.to_string())));
    }
    for s in ["SWITCHING_ACCOUNT", "VERIFYING_ACCOUNT", "RUNNING"] {
        assert!(is_executing_status(s));
        assert!(!is_terminal_status(s));
        assert!(outcome_report_applies(&Some(s.to_string())));
    }
    assert!(stage_report_applies(&Some("PENDING".to_string())));
    assert!(!outcome_report_applies(&Some("PENDING".to_string())));
    assert!(!stage_report_applies(&None));
}

#[test]
fn stage_transitions_move_forward() {
    assert_eq!(first_stage_transition(FosterStage::SwitchingAccount, "SWITCHING_ACCOUNT"), None);
    assert_eq!(
        first_stage_transition(FosterStage::Running, "SWITCHING_ACCOUNT"),
        Some((FosterJobStatus::SwitchingAccount, FosterJobStatus::VerifyingAccount))
    );
    assert_eq!(first_stage_transition(FosterStage::VerifyingAccount, "RUNNING"), None);
    assert_eq!(
        running_transition(FosterStage::Running, "VERIFYING_ACCOUNT"),
        Some((FosterJobStatus::VerifyingAccount, FosterJobStatus::Running))
    );
    assert_eq!(running_transition(FosterStage::VerifyingAccount, "VERIFYING_ACCOUNT"), None);
}

#[test]
fn success_and_failure_plans() {
    assert_eq!(success_plan("PLATFORM", true), SuccessPlan::Verified { confirm_resource: true });
    assert_eq!(success_plan("USER_FRIEND", false), SuccessPlan::Mismatch { release_resource: false });
    assert!(completes_on_success("RUNNING"));
    assert!(!completes_on_success("VERIFYING_ACCOUNT"));
    let released = ReleasedAllocation { allocation_id: 1, provider_account_id: 2, resource_cycle_id: 3 };
    assert_eq!(
        failure_followup(FosterErrorCode::ProviderNotFound, Some(released), 9),
        Some(PoolFollowup::ProviderNotFound { game_account_id: 9, provider_account_id: 2 })
    );
    assert_eq!(
        failure_followup(FosterErrorCode::NoSlot, Some(released), 9),
        Some(PoolFollowup::NoSlot { resource_cycle_id: 3 })
    );
    assert_eq!(failure_followup(FosterErrorCode::Other, Some(released), 9), None);
    assert_eq!(failure_followup(FosterErrorCode::NoSlot, None, 9), None);
    assert_eq!(lease_owner_key(-12), "-12");
    assert_eq!(lease_owner_key(345), "345");
}

fn pool_job(mode: &str, status: &str) -> LockedResourceJob {
    LockedResourceJob {
        id: 1,
        game_account_id: 2,
        status: status.to_string(),
        resource_mode: mode.to_string(),
        resource_type: Some("FISH".to_string()),
        interval_minutes: 30,
    }
}

#[test]
fn reservable_jobs() {
    assert_eq!(check_reservable_job(None), Err(ResourcePoolError::JobNotFound));
    assert_eq!(
        check_reservable_job(Some(&pool_job("USER_FRIEND", "SWITCHING_ACCOUNT"))),
        Err(ResourcePoolError::NotPlatformJob)
    );
    assert_eq!(
        check_reservable_job(Some(&pool_job("PLATFORM", "RUNNING"))),
        Err(ResourcePoolError::InvalidJobState("RUNNING".to_string()))
    );
    assert_eq!(check_reservable_job(Some(&pool_job("PLATFORM", "SWITCHING_ACCOUNT"))), Ok(()));
    assert_eq!(confirm_gate(None), Err(ResourcePoolError::JobNotFound));
    assert_eq!(confirm_gate(Some(&pool_job("PLATFORM", "RUNNING"))), Ok(true));
    assert_eq!(confirm_gate(Some(&pool_job("USER_FRIEND", "RUNNING"))), Ok(false));
}

#[test]
fn reservation_rows_and_confirmation() {
    let allocation = AllocationRow {
        id: 5,
        resource_cycle_id: 6,
        provider_account_id: 7,
        provider_alias: "prov".to_string(),
        resource_type: "COIN".to_string(),
        status: "CONFIRMED".to_string(),
    };
    assert_eq!(
        reservation_from_row(&allocation),
        Err(ResourcePoolError::UnsupportedResourceType("COIN".to_string()))
    );
    assert_eq!(confirm_step(None), ConfirmStep::Done(false));
    assert_eq!(confirm_step(Some(&allocation)), ConfirmStep::Done(true));
    let reserved = AllocationRow { status: "RESERVED".to_string(), ..allocation };
    assert_eq!(confirm_step(Some(&reserved)), ConfirmStep::Confirm);
    let candidate = ResourceCandidateRow { resource_cycle_id: 8, provider_account_id: 9, provider_alias: "p".to_string() };
    let r = reservation_from_candidate(&candidate, 77, ResourceType::Fish);
    assert_eq!(r.allocation_id, 77);
    assert_eq!(r.resource_cycle_id, 8);
    let released = released_from_row(&ReleasableAllocationRow {
        id: 1,
        resource_cycle_id: 2,
        provider_account_id: 3,
        status: "RESERVED".to_string(),
    });
    assert_eq!(released, ReleasedAllocation { allocation_id: 1, provider_account_id: 3, resource_cycle_id: 2 });
}

#[test]
fn occupied_until_formula() {
    assert_eq!(occupied_until(1_000, Some(120), 30), 121_000);
    assert_eq!(occupied_until(1_000, Some(0), 30), 1_801_000);
    assert_eq!(occupied_until(1_000, None, 30), 1_801_000);
}

#[test]
fn pool_settings_respect_their_minimums() {
    let defaults = ResourcePoolService::from_settings(None, None);
    assert_eq!(defaults.min_remaining_minutes, 330);
    assert_eq!(defaults.retry_seconds, 60);
    let parsed = ResourcePoolService::from_settings(Some("0"), Some("5"));
    assert_eq!(parsed.min_remaining_minutes, 0);
    assert_eq!(parsed.retry_seconds, 5);
    let refused = ResourcePoolService::from_settings(Some("-1"), Some("0"));
    assert_eq!(refused.min_remaining_minutes, 330);
    assert_eq!(refused.retry_seconds, 60);
    let junk = ResourcePoolService::from_settings(Some("ten"), Some(" 5"));
    assert_eq!(junk.min_remaining_minutes, 330);
    assert_eq!(junk.retry_seconds, 60);
    let adjusted = defaults.with_min_remaining_minutes(-5).with_retry_seconds(0);
    assert_eq!(adjusted.min_remaining_minutes, 0);
    assert_eq!(adjusted.retry_seconds, 1);
    assert_eq!(adjusted.retry_at(10_000), 11_000);
    let search = defaults.reservation_search(&pool_job("PLATFORM", "SWITCHING_ACCOUNT"), 0).unwrap();
    assert_eq!(search.resource_type, ResourceType::Fish);
    assert_eq!(search.min_end_at_ms, 330 * 60_000);
    let mut untyped = pool_job("PLATFORM", "SWITCHING_ACCOUNT");
    untyped.resource_type = None;
    assert_eq!(defaults.reservation_search(&untyped, 0), Err(ResourcePoolError::MissingResourceType));
}

#[test]
fn bindable_accounts_and_free_slots() {
    assert_eq!(check_bindable_account(None, false), Err(AllocationError::AccountNotFound));
    let free = GameAccountLockRow { id: 1, active_emulator_id: None };
    assert_eq!(check_bindable_account(Some(&free), false), Ok(()));
    assert_eq!(check_bindable_account(Some(&free), true), Err(AllocationError::AlreadyBound));
    let bound = GameAccountLockRow { id: 1, active_emulator_id: Some(3) };
    assert_eq!(check_bindable_account(Some(&bound), false), Err(AllocationError::AlreadyBound));
    assert_eq!(free_slot(3, &vec![]), Some(1));
    assert_eq!(free_slot(3, &vec![1, 3]), Some(2));
    assert_eq!(free_slot(3, &vec![2, 1]), Some(3));
    assert_eq!(free_slot(3, &vec![1, 2, 3]), None);
    assert_eq!(free_slot(2, &vec![7, 9]), None);
    assert_eq!(free_slot(0, &vec![]), None);
    assert_eq!(binding_insert_error(true, "dup".to_string()), AllocationError::NoCapacity);
    assert_eq!(
        binding_insert_error(false, "boom".to_string()),
        AllocationError::Database("boom".to_string())
    );
}

#[test]
fn leases() {
    assert!(is_lease_ready("READY", "IDLE"));
    assert!(!is_lease_ready("READY", "BUSY"));
    assert!(!is_lease_ready("BOOTING", "IDLE"));
    let token = "67e55044-10b1-426f-9247-bb680e5fe0c8";
    let value = uuid::Uuid::parse_str(token).unwrap().as_u128();
    assert_eq!(
        renewed_lease(4, token, "FOSTER", "12", "FOSTER", "12"),
        Some(AcquiredEmulatorLease { emulator_id: 4, lease_token: value })
    );
    assert_eq!(renewed_lease(4, token, "FOSTER", "12", "FOSTER", "13"), None);
    assert_eq!(renewed_lease(4, token, "LOGIN", "12", "FOSTER", "12"), None);
    assert_eq!(renewed_lease(4, "not-a-uuid", "FOSTER", "12", "FOSTER", "12"), None);
    assert_eq!(renewed_lease_with_token(4, "A", "B", "A", "B", Some(9)), Some(AcquiredEmulatorLease { emulator_id: 4, lease_token: 9 }));
    assert_eq!(lease_expires_at(1_000, 900), 901_000);
    assert_eq!(lease_expires_at(0, u64::MAX), 900_000);
}

#[test]
fn emulator_status_names() {
    assert_eq!(emulator_lifecycle_name(EmulatorLifecycleStatus::Ready), "READY");
    assert_eq!(emulator_occupancy_name(EmulatorOccupancyStatus::Recovery), "RECOVERY");
    assert_eq!(emulator_activity_name(EmulatorActivity::NoActivity), "NONE");
    assert_eq!(emulator_activity_name(EmulatorActivity::ManualControl), "MANUAL_CONTROL");
    assert_eq!(
        emulator_legacy_status_name(EmulatorLifecycleStatus::Ready, EmulatorOccupancyStatus::Busy, EmulatorActivity::Login),
        "LOGIN_SESSION"
    );
    assert_eq!(
        emulator_legacy_status_name(EmulatorLifecycleStatus::Ready, EmulatorOccupancyStatus::Busy, EmulatorActivity::Foster),
        "RUNNING"
    );
    assert_eq!(
        emulator_legacy_status_name(EmulatorLifecycleStatus::Booting, EmulatorOccupancyStatus::Idle, EmulatorActivity::NoActivity),
        "RUNNING"
    );
    assert_eq!(
        emulator_legacy_status_name(EmulatorLifecycleStatus::Ready, EmulatorOccupancyStatus::Recovery, EmulatorActivity::NoActivity),
        "ERROR"
    );
}

#[test]
fn dispatch_waits_for_a_resource_or_an_emulator() {
    assert!(needs_reservation(ResourceMode::Platform));
    assert!(!needs_reservation(ResourceMode::UserFriend));
    let reservation = ResourceReservation {
        allocation_id: 1,
        provider_account_id: 2,
        provider_alias: "p".to_string(),
        resource_cycle_id: 3,
        resource_type: ResourceType::Fish,
    };
    match reservation_step(ReserveForJobResult::Reserved(reservation.clone())) {
        ReservationStep::Proceed(r) => assert_eq!(r, reservation),
        ReservationStep::Finished(_) => panic!("a reserved resource goes on"),
    }
    match reservation_step(ReserveForJobResult::WaitingResource) {
        ReservationStep::Finished(result) => assert_eq!(result, DispatchFosterResult::WaitingResource),
        ReservationStep::Proceed(_) => panic!("no resource stops the dispatch"),
    }
    assert_eq!(lease_step(true, ResourceMode::Platform), LeaseStep::Proceed);
    assert_eq!(
        lease_step(false, ResourceMode::Platform),
        LeaseStep::WaitForEmulator { release_resource: true, result: DispatchFosterResult::WaitingEmulator }
    );
    assert_eq!(
        lease_step(false, ResourceMode::UserFriend),
        LeaseStep::WaitForEmulator { release_resource: false, result: DispatchFosterResult::WaitingEmulator }
    );
}

#[test]
fn a_second_reservation_reuses_the_first() {
    assert_eq!(reserve_step(None), Ok(ReserveStep::Search));
    let candidate = ResourceCandidateRow { resource_cycle_id: 8, provider_account_id: 9, provider_alias: "p".to_string() };
    let first = reservation_from_candidate(&candidate, 77, ResourceType::Fish);
    let recorded = AllocationRow {
        id: 77,
        resource_cycle_id: 8,
        provider_account_id: 9,
        provider_alias: "p".to_string(),
        resource_type: resource_type_name(ResourceType::Fish).to_string(),
        status: "RESERVED".to_string(),
    };
    assert_eq!(reserve_step(Some(&recorded)), Ok(ReserveStep::Reuse(first)));
    let unknown = AllocationRow { resource_type: "GOLD".to_string(), ..recorded };
    assert_eq!(
        reserve_step(Some(&unknown)),
        Err(ResourcePoolError::UnsupportedResourceType("GOLD".to_string()))
    );
}

#[test]
fn an_emulator_holds_one_live_lease() {
    let c1: u128 = 0x67e55044_10b1_426f_9247_bb680e5fe0c8;
    assert!(matches!(lease_plan(4, false, None, c1, "FOSTER", "12"), LeasePlan::Answer(None)));
    let (text, lease) = match lease_plan(4, true, None, c1, "FOSTER", "12") {
        LeasePlan::Insert { token_text, lease } => (token_text, lease),
        LeasePlan::Answer(_) => panic!("a free ready emulator gets a new lease"),
    };
    assert_eq!(text, "67e55044-10b1-426f-9247-bb680e5fe0c8");
    assert_eq!(lease, AcquiredEmulatorLease { emulator_id: 4, lease_token: c1 });
    let stored = LeaseRow { lease_token: text, owner_type: "FOSTER".to_string(), owner_key: "12".to_string() };
    match lease_plan(4, true, Some(&stored), 99, "FOSTER", "12") {
        LeasePlan::Answer(answer) => assert_eq!(answer, Some(AcquiredEmulatorLease { emulator_id: 4, lease_token: c1 })),
        LeasePlan::Insert { .. } => panic!("a live lease is never replaced"),
    }
    assert!(matches!(lease_plan(4, true, Some(&stored), 99, "LOGIN", "S1"), LeasePlan::Answer(None)));
}

#[test]
fn only_the_platform_mode_is_the_platform() {
    assert!(is_platform_mode("PLATFORM"));
    assert!(!is_platform_mode("USER_FRIEND"));
    assert!(!is_platform_mode("platform"));
}
