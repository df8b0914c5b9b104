use foster_server::control_plane::AllocationError;
use foster_server::domain::{DetectedIdentity, IdentityType, LoginPlatform};
use foster_server::enrollment::{
    activation_status, after_login_delivered, cancel_plan, check_binding_activated,
    check_confirm_account, check_confirm_binding, check_expected_character,
    check_session_completed, confirm_gate, confirmed_game_uid, detected_identity,
    enrollment_identity_plan, expiry_applies, is_dispatchable_status, is_dispatched_status,
    is_final_login_status, login_delivery_step, login_dispatch_start, login_lease_step,
    login_stream_step, LoginDispatchStep, LoginStreamStep, login_expires_at, login_failure_reason,
    login_qr_image, normalize_login_target, parse_login_platform, public_login_view,
    releases_login_lease, start_login_command, start_login_gate, to_account_identity,
    trusted_identities, DispatchLoginResult, EnrollmentError, IdentityPlan, LockedBinding,
    LockedGameAccount, LockedLoginSession, LoginDispatchTarget, LoginEvent, PublicLoginRow,
    PublicLoginStatus, TrustedIdentityRow, MAX_LOGIN_TTL_SECS,
};

#[test]
fn parses_android_and_ios_platforms() {
    assert_eq!(
        parse_login_platform("android"),
        Some(LoginPlatform::Android)
    );
    assert_eq!(parse_login_platform("安卓"), Some(LoginPlatform::Android));
    assert_eq!(parse_login_platform("ios"), Some(LoginPlatform::Ios));
    assert_eq!(parse_login_platform("苹果"), Some(LoginPlatform::Ios));
    assert_eq!(parse_login_platform("windows"), None);
}

#[test]
fn login_platform_ignores_case_and_padding() {
    assert_eq!(parse_login_platform("  ANDROID \n"), Some(LoginPlatform::Android));
    assert_eq!(parse_login_platform("Apple"), Some(LoginPlatform::Ios));
    assert_eq!(parse_login_platform(" iOS"), Some(LoginPlatform::Ios));
    assert_eq!(parse_login_platform("andro id"), None);
    assert_eq!(parse_login_platform(""), None);
}

fn session(status: &str, expires_at_ms: i64) -> LockedLoginSession {
    LockedLoginSession {
        id: 7,
        session_no: "LOGIN-1".to_string(),
        game_account_id: 11,
        binding_id: 21,
        emulator_id: 31,
        status: status.to_string(),
        expires_at_ms,
        detected_masked_account: Some("abc***".to_string()),
        detected_character_name: Some("Hero".to_string()),
        detected_server_name: Some("S1".to_string()),
        detected_game_uid: None,
    }
}

fn target(status: &str) -> LoginDispatchTarget {
    LoginDispatchTarget {
        id: 1,
        session_no: "LOGIN-9".to_string(),
        game_account_id: 5,
        status: status.to_string(),
        emulator_id: 6,
        host_id: 7,
        emulator_code: "EMU-1".to_string(),
        platform: Some("ANDROID".to_string()),
        character_name: Some("Hero".to_string()),
        game_uid: Some("1001".to_string()),
    }
}

#[test]
fn login_status_classes_do_not_overlap() {
    for s in ["CREATED", "WAITING_EMULATOR"] {
        assert!(is_dispatchable_status(s));
        assert!(!is_dispatched_status(s));
        assert!(!is_final_login_status(s));
    }
    for s in ["PREPARING", "WAITING_QR", "QR_READY", "WAITING_SCAN", "DETECTING_LOGIN", "VERIFYING_ACCOUNT"] {
        assert!(is_dispatched_status(s));
        assert!(!is_dispatchable_status(s));
    }
    assert!(is_final_login_status("SUCCESS"));
    assert!(is_final_login_status("FAILED"));
    assert!(is_final_login_status("CANCELLED"));
    assert!(!is_final_login_status("QR_READY"));
}

#[test]
fn login_dispatch_start_decides_by_status() {
    assert_eq!(login_dispatch_start(None), Err(EnrollmentError::LoginSessionNotFound));
    assert_eq!(login_dispatch_start(Some(&target("CREATED"))), Ok(true));
    assert_eq!(login_dispatch_start(Some(&target("WAITING_EMULATOR"))), Ok(true));
    assert_eq!(login_dispatch_start(Some(&target("QR_READY"))), Ok(false));
    assert_eq!(login_dispatch_start(Some(&target("SUCCESS"))), Ok(false));
    assert_eq!(
        login_dispatch_start(Some(&target("FAILED"))),
        Err(EnrollmentError::InvalidLoginState)
    );
}

#[test]
fn start_login_command_needs_complete_target() {
    let command = start_login_command(&target("CREATED")).unwrap();
    assert_eq!(command.session_no, "LOGIN-9");
    assert_eq!(command.emulator_code, "EMU-1");
    assert_eq!(command.platform, "ANDROID");
    assert_eq!(command.game_uid, "1001");
    let mut missing = target("CREATED");
    missing.game_uid = Some("   ".to_string());
    assert!(matches!(
        start_login_command(&missing),
        Err(EnrollmentError::InvalidLoginTarget)
    ));
}

#[test]
fn after_delivery_requires_preparing_mark() {
    assert_eq!(after_login_delivered(true), Ok(DispatchLoginResult::Dispatched));
    assert_eq!(after_login_delivered(false), Err(EnrollmentError::InvalidLoginState));
}

#[test]
fn login_target_is_trimmed_and_upper_cased() {
    let t = normalize_login_target(" android ", " Hero ", " 1001 ").unwrap();
    assert_eq!(t.platform, "ANDROID");
    assert_eq!(t.character_name, "Hero");
    assert_eq!(t.game_uid, "1001");
    assert!(matches!(
        normalize_login_target("windows", "Hero", "1"),
        Err(EnrollmentError::InvalidLoginTarget)
    ));
    assert!(matches!(
        normalize_login_target("ios", "  ", "1"),
        Err(EnrollmentError::InvalidLoginTarget)
    ));
}

#[test]
fn start_gate_and_expiry() {
    assert_eq!(start_login_gate(None, 0), Err(EnrollmentError::LoginSessionNotFound));
    assert_eq!(
        start_login_gate(Some(&session("CREATED", 100)), 100),
        Err(EnrollmentError::LoginSessionExpired)
    );
    assert_eq!(start_login_gate(Some(&session("CREATED", 100)), 99), Ok(true));
    assert_eq!(start_login_gate(Some(&session("QR_READY", 100)), 99), Ok(false));
    assert!(expiry_applies(&session("QR_READY", 100), 100));
    assert!(!expiry_applies(&session("QR_READY", 100), 99));
    assert!(!expiry_applies(&session("SUCCESS", 100), 1000));
}

#[test]
fn cancel_plan_by_status() {
    assert_eq!(cancel_plan(None), Err(EnrollmentError::LoginSessionNotFound));
    assert_eq!(cancel_plan(Some(&session("CANCELLED", 0))), Ok(false));
    assert_eq!(
        cancel_plan(Some(&session("SUCCESS", 0))),
        Err(EnrollmentError::InvalidLoginState)
    );
    assert_eq!(
        cancel_plan(Some(&session("FAILED", 0))),
        Err(EnrollmentError::InvalidLoginState)
    );
    assert_eq!(cancel_plan(Some(&session("WAITING_SCAN", 0))), Ok(true));
}

#[test]
fn confirm_gate_by_status_and_time() {
    assert_eq!(confirm_gate(None, 0), Err(EnrollmentError::LoginSessionNotFound));
    assert_eq!(confirm_gate(Some(&session("SUCCESS", 10)), 50), Ok(false));
    assert_eq!(
        confirm_gate(Some(&session("VERIFYING_ACCOUNT", 10)), 10),
        Err(EnrollmentError::LoginSessionExpired)
    );
    assert_eq!(
        confirm_gate(Some(&session("QR_READY", 100)), 10),
        Err(EnrollmentError::InvalidLoginState)
    );
    assert_eq!(confirm_gate(Some(&session("VERIFYING_ACCOUNT", 100)), 10), Ok(true));
}

#[test]
fn confirm_binding_and_account_checks() {
    let s = session("VERIFYING_ACCOUNT", 100);
    let good = LockedBinding { id: 21, emulator_id: 31, game_account_id: 11, status: "PENDING".to_string() };
    assert_eq!(check_confirm_binding(&s, Some(&good)), Ok(()));
    let active = LockedBinding { status: "ACTIVE".to_string(), ..good.clone() };
    assert_eq!(check_confirm_binding(&s, Some(&active)), Err(EnrollmentError::BindingMismatch));
    assert_eq!(check_confirm_binding(&s, None), Err(EnrollmentError::BindingMismatch));
    let account = LockedGameAccount {
        id: 11,
        active_emulator_id: None,
        platform: None,
        character_name: Some("Hero".to_string()),
        game_uid: Some("1001".to_string()),
    };
    assert_eq!(check_confirm_account(&s, Some(&account)), Ok(()));
    let elsewhere = LockedGameAccount { active_emulator_id: Some(99), ..account.clone() };
    assert_eq!(
        check_confirm_account(&s, Some(&elsewhere)),
        Err(EnrollmentError::AccountBindingConflict)
    );
    let here = LockedGameAccount { active_emulator_id: Some(31), ..account.clone() };
    assert_eq!(check_confirm_account(&s, Some(&here)), Ok(()));
    assert_eq!(check_confirm_account(&s, None), Err(EnrollmentError::BindingMismatch));
    assert_eq!(confirmed_game_uid(&account), Some("1001".to_string()));
    let blank = LockedGameAccount { game_uid: Some(" ".to_string()), ..account };
    assert_eq!(confirmed_game_uid(&blank), None);
}

#[test]
fn expected_character_must_match() {
    let s = session("VERIFYING_ACCOUNT", 100);
    let detected = detected_identity(&s);
    assert_eq!(detected.character_name, Some("Hero".to_string()));
    assert!(detected.ocr_aliases.is_empty());
    let account = LockedGameAccount {
        id: 11,
        active_emulator_id: None,
        platform: None,
        character_name: Some("Hero".to_string()),
        game_uid: None,
    };
    assert_eq!(check_expected_character(&account, &detected), Ok(()));
    let other = LockedGameAccount { character_name: Some("Villain".to_string()), ..account.clone() };
    assert_eq!(
        check_expected_character(&other, &detected),
        Err(EnrollmentError::IdentityRejected)
    );
    let none = LockedGameAccount { character_name: None, ..account };
    assert_eq!(check_expected_character(&none, &detected), Ok(()));
}

#[test]
fn trusted_identity_rows_are_read() {
    let rows = vec![
        TrustedIdentityRow {
            identity_type: "CHARACTER_NAME".to_string(),
            identity_value: "Hero".to_string(),
            normalized_value: "hero".to_string(),
            confidence: 300,
        },
        TrustedIdentityRow {
            identity_type: "UNKNOWN".to_string(),
            identity_value: "x".to_string(),
            normalized_value: "x".to_string(),
            confidence: 10,
        },
        TrustedIdentityRow {
            identity_type: "GAME_UID".to_string(),
            identity_value: "1001".to_string(),
            normalized_value: "1001".to_string(),
            confidence: -5,
        },
    ];
    let identities = trusted_identities(&rows);
    assert_eq!(identities.len(), 2);
    assert_eq!(identities[0].kind, IdentityType::CharacterName);
    assert_eq!(identities[0].confidence, 255);
    assert_eq!(identities[1].kind, IdentityType::GameUid);
    assert_eq!(identities[1].confidence, 0);
    assert!(to_account_identity(&rows[1]).is_none());
}

#[test]
fn identity_plan_for_first_and_later_enrollments() {
    let detected = DetectedIdentity {
        masked_account: Some("a***".to_string()),
        character_name: Some("Hero".to_string()),
        server_name: Some("S1".to_string()),
        game_uid: Some("  ".to_string()),
        ocr_aliases: Vec::new(),
    };
    assert!(matches!(
        enrollment_identity_plan(true, &detected, true),
        Ok(IdentityPlan::AlreadyTrusted)
    ));
    assert_eq!(
        enrollment_identity_plan(true, &detected, false).err(),
        Some(EnrollmentError::IdentityRejected)
    );
    match enrollment_identity_plan(false, &detected, false) {
        Ok(IdentityPlan::PersistFirst(hints)) => {
            assert_eq!(
                hints,
                vec![
                    (IdentityType::MaskedAccount, "a***".to_string()),
                    (IdentityType::CharacterName, "Hero".to_string()),
                    (IdentityType::ServerName, "S1".to_string()),
                ]
            );
        }
        other => panic!("unexpected plan: {:?}", other),
    }
    let weak = DetectedIdentity { server_name: None, ..detected };
    assert_eq!(
        enrollment_identity_plan(false, &weak, true).err(),
        Some(EnrollmentError::IdentityRejected)
    );
}

#[test]
fn completion_checks() {
    assert_eq!(check_binding_activated(true), Ok(()));
    assert_eq!(check_binding_activated(false), Err(EnrollmentError::BindingMismatch));
    assert_eq!(check_session_completed(true), Ok(()));
    assert_eq!(check_session_completed(false), Err(EnrollmentError::InvalidLoginState));
}

#[test]
fn login_expiry_formula() {
    assert_eq!(login_expires_at(1_000, 900), Ok(901_000));
    assert_eq!(login_expires_at(0, MAX_LOGIN_TTL_SECS + 1), Err(EnrollmentError::InvalidTtl));
}

#[test]
fn failure_reason_joins_code_and_message() {
    assert_eq!(login_failure_reason("QR_TIMEOUT", "no scan"), "QR_TIMEOUT: no scan");
}

#[test]
fn which_login_events_free_the_emulator() {
    assert!(!releases_login_lease(&LoginEvent::Preparing { session_no: "s".to_string() }));
    assert!(!releases_login_lease(&LoginEvent::QrReady {
        session_no: "s".to_string(),
        qr_payload: "p".to_string(),
        expires_at_ms: 1
    }));
    assert!(releases_login_lease(&LoginEvent::QrExpired { session_no: "s".to_string() }));
    assert!(releases_login_lease(&LoginEvent::Failed {
        session_no: "s".to_string(),
        code: "c".to_string(),
        message: "m".to_string()
    }));
    assert!(releases_login_lease(&LoginEvent::IdentityDetected {
        session_no: "s".to_string(),
        masked_account: None,
        character_name: None,
        server_name: None,
        game_uid: None
    }));
}

#[test]
fn enrollment_errors_map_to_http_statuses() {
    assert_eq!(activation_status(&EnrollmentError::LoginSessionNotFound), 404);
    assert_eq!(activation_status(&EnrollmentError::LoginSessionExpired), 410);
    assert_eq!(activation_status(&EnrollmentError::InvalidIdentityInput), 400);
    assert_eq!(activation_status(&EnrollmentError::InvalidLoginTarget), 400);
    assert_eq!(activation_status(&EnrollmentError::InvalidLoginState), 409);
    assert_eq!(activation_status(&EnrollmentError::IdentityRejected), 409);
    assert_eq!(activation_status(&EnrollmentError::BindingMismatch), 409);
    assert_eq!(activation_status(&EnrollmentError::AccountBindingConflict), 409);
    assert_eq!(activation_status(&EnrollmentError::InvalidTtl), 500);
    assert_eq!(activation_status(&EnrollmentError::Database("x".to_string())), 500);
    assert_eq!(
        activation_status(&EnrollmentError::Allocation(AllocationError::NoCapacity)),
        500
    );
}

fn public_row(status: &str, qr_expires_at_ms: Option<i64>) -> PublicLoginRow {
    PublicLoginRow {
        id: 1,
        session_no: "LOGIN-1".to_string(),
        status: status.to_string(),
        qr_payload: Some("data:image/png;base64,AAAA".to_string()),
        qr_expires_at_ms,
        detected_character_name: None,
        detected_server_name: None,
        identity_verified: false,
        identity_verify_reason: None,
        expires_at_ms: 1_000,
        updated_at_ms: 0,
    }
}

#[test]
fn public_view_shows_qr_only_while_current() {
    let row = public_row("QR_READY", Some(500));
    let shown = public_login_view(Some(&row), 100, true).unwrap();
    assert_eq!(shown.qr_payload, row.qr_payload);
    assert_eq!(shown.qr_expires_at_ms, Some(500));
    let meta = public_login_view(Some(&row), 100, false).unwrap();
    assert_eq!(meta.qr_payload, None);
    let stale = public_login_view(Some(&row), 600, true).unwrap();
    assert_eq!(stale.qr_payload, None);
    let other = public_row("PREPARING", Some(500));
    assert_eq!(public_login_view(Some(&other), 100, true).unwrap().qr_payload, None);
    assert_eq!(public_login_view(None, 0, true).err(), Some(404));
    assert_eq!(public_login_view(Some(&row), 1_000, true).err(), Some(410));
    assert!(row.is_expired(1_000));
    assert!(!row.is_expired(999));
}

fn status_with(payload: Option<String>) -> PublicLoginStatus {
    PublicLoginStatus {
        session_no: "LOGIN-1".to_string(),
        status: "QR_READY".to_string(),
        qr_payload: payload,
        qr_expires_at_ms: None,
        character_name: None,
        server_name: None,
        identity_verified: false,
        identity_verify_reason: None,
        expires_at_ms: 0,
    }
}

#[test]
fn qr_image_decodes_the_data_url() {
    assert_eq!(login_qr_image(&status_with(None)).err(), Some(404));
    assert_eq!(login_qr_image(&status_with(Some("no-comma".to_string()))).err(), Some(422));
    assert_eq!(login_qr_image(&status_with(Some("data:,%%%".to_string()))).err(), Some(422));
    // Not an image: served as decoded.
    assert_eq!(
        login_qr_image(&status_with(Some("data:text/plain;base64,aGVsbG8=".to_string()))),
        Ok(b"hello".to_vec())
    );
}

#[test]
fn login_stream_sends_only_changes() {
    assert_eq!(login_stream_step(5, Some(6)), LoginStreamStep::Emit);
    assert_eq!(login_stream_step(5, Some(5)), LoginStreamStep::Wait);
    assert_eq!(login_stream_step(5, None), LoginStreamStep::End);
}

#[test]
fn login_dispatch_falls_back_to_waiting() {
    assert_eq!(login_lease_step(true), LoginDispatchStep::Send);
    assert_eq!(
        login_lease_step(false),
        LoginDispatchStep::WaitForEmulator { release_lease: false, result: DispatchLoginResult::WaitingEmulator }
    );
    assert_eq!(login_delivery_step(true), LoginDispatchStep::MarkPreparing);
    assert_eq!(
        login_delivery_step(false),
        LoginDispatchStep::WaitForEmulator { release_lease: true, result: DispatchLoginResult::WaitingEmulator }
    );
}
