use foster_server::agent_gateway::{
    delivery_result, first_message_hello, session_step, AgentMessage, AgentPresence,
    AgentRegistry, AgentSendError, SessionAction, SocketEvent,
};
use foster_server::agent_reconciliation::{
    is_trusted_state, reconciliation_plan, trusted_commands, ExecutingFosterJob,
};
use foster_server::domain::{AgentCommandKind, AgentCommandState, AgentCommandStatus};
use foster_server::ids::foster_command_id;

fn presence(host_id: i64, connection_id: u128, at_ms: u64) -> AgentPresence {
    AgentPresence {
        connection_id,
        agent_id: format!("agent-{host_id}"),
        host_id,
        connected_at_ms: at_ms,
        last_heartbeat_at_ms: at_ms,
    }
}

#[test]
fn newer_connection_replaces_older_one() {
    let mut registry = AgentRegistry::new();
    registry.register(presence(1, 100, 0));
    registry.register(presence(1, 200, 10));
    assert_eq!(registry.connection_count(), 1);
    assert_eq!(registry.current_connection(1), Some(200));
    // The older connection can neither beat nor remove the newer one.
    assert!(!registry.heartbeat(1, 100, 20));
    assert!(!registry.remove_if_current(1, 100));
    assert!(registry.is_online(1));
    assert!(registry.remove_if_current(1, 200));
    assert!(!registry.is_online(1));
    assert_eq!(registry.current_connection(1), None);
}

#[test]
fn heartbeat_keeps_an_agent_from_the_sweep() {
    let mut registry = AgentRegistry::new();
    registry.register(presence(1, 100, 0));
    registry.register(presence(2, 200, 0));
    registry.register(presence(3, 300, 0));
    assert!(registry.heartbeat(2, 200, 50_000));
    assert!(!registry.heartbeat(9, 1, 50_000));
    let mut removed = registry.remove_stale(45_000, 50_000);
    removed.sort();
    assert_eq!(removed, vec![1, 3]);
    assert!(registry.is_online(2));
    assert_eq!(registry.connection_count(), 1);
    // Exactly at the timeout an agent is stale.
    assert_eq!(registry.remove_stale(45_000, 95_000), vec![2]);
    assert_eq!(registry.connection_count(), 0);
}

fn text(message: AgentMessage) -> SocketEvent {
    SocketEvent::Text { version_ok: true, message: Some(message) }
}

#[test]
fn first_message_must_be_a_supported_hello() {
    let hello = AgentMessage::Hello {
        host_id: 5,
        agent_id: "a".to_string(),
        agent_version: "1.0".to_string(),
    };
    assert_eq!(
        first_message_hello(&text(hello.clone())),
        Some((5, "a".to_string(), "1.0".to_string()))
    );
    assert_eq!(
        first_message_hello(&SocketEvent::Text { version_ok: false, message: Some(hello) }),
        None
    );
    assert_eq!(first_message_hello(&text(AgentMessage::Pong)), None);
    assert_eq!(first_message_hello(&SocketEvent::Close), None);
    assert_eq!(
        first_message_hello(&SocketEvent::Text { version_ok: true, message: None }),
        None
    );
}

#[test]
fn session_steps() {
    let mut registry = AgentRegistry::new();
    registry.register(presence(5, 500, 0));
    assert_eq!(
        session_step(&mut registry, 5, 500, &text(AgentMessage::Heartbeat { host_id: 5 }), 7),
        SessionAction::StoreHeartbeat
    );
    assert_eq!(
        session_step(&mut registry, 5, 500, &text(AgentMessage::Heartbeat { host_id: 6 }), 7),
        SessionAction::Stop
    );
    assert_eq!(
        session_step(&mut registry, 5, 499, &text(AgentMessage::Heartbeat { host_id: 5 }), 7),
        SessionAction::Stop
    );
    assert_eq!(
        session_step(&mut registry, 5, 500, &text(AgentMessage::EmulatorSnapshot { host_id: 5 }), 7),
        SessionAction::StoreSnapshot
    );
    assert_eq!(
        session_step(&mut registry, 5, 500, &text(AgentMessage::EmulatorSnapshot { host_id: 4 }), 7),
        SessionAction::Stop
    );
    assert_eq!(
        session_step(&mut registry, 5, 500, &text(AgentMessage::LoginReport), 7),
        SessionAction::Continue
    );
    assert_eq!(
        session_step(
            &mut registry,
            5,
            500,
            &SocketEvent::Text { version_ok: false, message: Some(AgentMessage::Pong) },
            7
        ),
        SessionAction::Stop
    );
    assert_eq!(
        session_step(&mut registry, 5, 500, &SocketEvent::Text { version_ok: false, message: None }, 7),
        SessionAction::Continue
    );
    assert_eq!(session_step(&mut registry, 5, 500, &SocketEvent::OtherFrame, 7), SessionAction::Continue);
    assert_eq!(session_step(&mut registry, 5, 500, &SocketEvent::TimedOut, 7), SessionAction::Stop);
    assert_eq!(session_step(&mut registry, 5, 500, &SocketEvent::Ended, 7), SessionAction::Stop);
    assert_eq!(session_step(&mut registry, 5, 500, &SocketEvent::Close, 7), SessionAction::Stop);
    let hello = AgentMessage::Hello { host_id: 5, agent_id: "a".to_string(), agent_version: "1".to_string() };
    assert_eq!(session_step(&mut registry, 5, 500, &text(hello), 7), SessionAction::Stop);
}

#[test]
fn delivery_answers_map_to_errors() {
    assert_eq!(delivery_result(Ok(None)), Ok(()));
    assert_eq!(
        delivery_result(Ok(Some("broken pipe".to_string()))),
        Err(AgentSendError::DeliveryFailed("broken pipe".to_string()))
    );
    assert_eq!(delivery_result(Err(())), Err(AgentSendError::DeliveryClosed));
}

fn state(job: i64, attempt: i32, status: AgentCommandStatus, genuine: bool) -> AgentCommandState {
    let id = foster_command_id(job, attempt);
    AgentCommandState {
        command_id: if genuine { id } else { id ^ 1 },
        kind: AgentCommandKind::Foster,
        job_id: Some(job),
        attempt: Some(attempt),
        status,
    }
}

fn job(id: i64, retry_count: i32) -> ExecutingFosterJob {
    ExecutingFosterJob { id, retry_count, status: "RUNNING".to_string() }
}

#[test]
fn forged_reports_are_not_trusted() {
    assert!(is_trusted_state(&state(1, 0, AgentCommandStatus::Running, true)));
    assert!(!is_trusted_state(&state(1, 0, AgentCommandStatus::Running, false)));
    let login = AgentCommandState {
        command_id: foster_command_id(1, 0),
        kind: AgentCommandKind::Login,
        job_id: Some(1),
        attempt: Some(0),
        status: AgentCommandStatus::Running,
    };
    assert!(!is_trusted_state(&login));
    let no_attempt = AgentCommandState { attempt: None, ..state(1, 0, AgentCommandStatus::Running, true) };
    assert!(!is_trusted_state(&no_attempt));
}

#[test]
fn later_trusted_reports_replace_earlier_ones() {
    let states = vec![
        state(1, 0, AgentCommandStatus::Running, true),
        state(2, 0, AgentCommandStatus::Running, true),
        state(1, 0, AgentCommandStatus::Finished, true),
        state(2, 0, AgentCommandStatus::Interrupted, false),
    ];
    let trusted = trusted_commands(&states);
    assert_eq!(trusted.len(), 2);
    let one = trusted.iter().find(|t| t.job_id == 1).unwrap();
    assert_eq!(one.status, AgentCommandStatus::Finished);
    let two = trusted.iter().find(|t| t.job_id == 2).unwrap();
    assert_eq!(two.status, AgentCommandStatus::Running);
}

#[test]
fn reconciliation_accounts_for_every_job() {
    let states = vec![
        state(1, 0, AgentCommandStatus::Running, true),
        state(2, 1, AgentCommandStatus::Interrupted, true),
        state(3, 0, AgentCommandStatus::Finished, true),
        state(4, 0, AgentCommandStatus::Running, false),
        state(9, 2, AgentCommandStatus::Interrupted, true),
    ];
    let jobs = vec![job(1, 0), job(2, 1), job(3, 0), job(4, 0), job(5, 3)];
    let plan = reconciliation_plan(&states, &jobs);
    assert_eq!(plan.preserved, 2);
    let mut interrupted = plan.interrupted.clone();
    interrupted.sort();
    assert_eq!(interrupted, vec![(2, 1), (9, 2)]);
    assert_eq!(plan.missing, vec![(4, 0), (5, 3)]);
    // preserved + interrupted among the jobs + missing = all jobs
    assert_eq!(plan.preserved + 1 + plan.missing.len(), jobs.len());
}
