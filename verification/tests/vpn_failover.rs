use media_gateway::fleet::{
    country_body, local_reconnect_call, public_ip_url, rotation_default, settings_url, status_url, ControlAction, ControlEvent,
    InstanceConfig, ReconnectPhase, RecoveryPhase, RotatePhase, StatusAction, StatusEvent,
    StatusPhase, VpnManager, VpnStatus,
};
use media_gateway::vpn::{
    backoff_secs, finish_local_vpn_reconnect, is_cooling_down, status_is_success,
    trigger_local_vpn_reconnect, ControlReply, Trigger, VpnError, VpnReconnectState,
};

#[test]
fn backoff_doubles_up_to_the_cap() {
    assert_eq!(backoff_secs(0), 0);
    assert_eq!(backoff_secs(1), 0);
    assert_eq!(backoff_secs(2), 10);
    assert_eq!(backoff_secs(3), 20);
    assert_eq!(backoff_secs(4), 20);
    assert_eq!(backoff_secs(u32::MAX), 20);
}

#[test]
fn success_is_the_two_hundreds() {
    assert!(!status_is_success(199));
    assert!(status_is_success(200));
    assert!(status_is_success(204));
    assert!(status_is_success(299));
    assert!(!status_is_success(300));
    assert!(!status_is_success(403));
}

#[test]
fn first_signal_is_dispatched_at_once() {
    let mut state = VpnReconnectState::default();
    assert_eq!(state, VpnReconnectState::new());
    let r = trigger_local_vpn_reconnect(&mut state, 1000000);
    assert_eq!(r, Ok(Trigger::Dispatch { attempt: 1, wait_secs: 0 }));
    assert_eq!(state.attempts, 1);
    assert_eq!(state.last_reconnect, 1000000);
}

#[test]
fn two_signals_within_the_cooldown_give_one_attempt() {
    let mut state = VpnReconnectState::new();
    assert!(matches!(
        trigger_local_vpn_reconnect(&mut state, 1000000),
        Ok(Trigger::Dispatch { .. })
    ));
    let after_first = state;
    assert_eq!(trigger_local_vpn_reconnect(&mut state, 1000000), Ok(Trigger::Swallowed));
    assert_eq!(trigger_local_vpn_reconnect(&mut state, 1029000), Ok(Trigger::Swallowed));
    // A millisecond short of the cooldown is still within it.
    assert_eq!(trigger_local_vpn_reconnect(&mut state, 1029999), Ok(Trigger::Swallowed));
    assert_eq!(state, after_first);
    // At the end of the cooldown the next attempt goes out, with a wait.
    assert_eq!(
        trigger_local_vpn_reconnect(&mut state, 1030000),
        Ok(Trigger::Dispatch { attempt: 2, wait_secs: 10 })
    );
}

#[test]
fn a_clock_that_goes_back_counts_as_cooling_down() {
    assert!(is_cooling_down(1000000, 999000, 30));
    assert!(is_cooling_down(1000000, 1029000, 30));
    assert!(is_cooling_down(1000000, 1029999, 30));
    assert!(!is_cooling_down(1000000, 1030000, 30));
    assert!(!is_cooling_down(0, u64::MAX, 30));
    assert!(is_cooling_down(0, u64::MAX, u64::MAX));
    assert!(!is_cooling_down(5, 5, 0));
    let mut state = VpnReconnectState { last_reconnect: 1000000, attempts: 1 };
    assert_eq!(trigger_local_vpn_reconnect(&mut state, 5000), Ok(Trigger::Swallowed));
}

#[test]
fn three_failures_reach_the_ceiling() {
    let mut state = VpnReconnectState::new();
    let mut now = 100_000;
    for attempt in 1..=3u32 {
        let r = trigger_local_vpn_reconnect(&mut state, now);
        assert_eq!(
            r,
            Ok(Trigger::Dispatch { attempt, wait_secs: backoff_secs(attempt) })
        );
        let done = finish_local_vpn_reconnect(&mut state, ControlReply::Status(500));
        assert_eq!(done, Ok(false));
        now += 30_000;
    }
    assert_eq!(state.attempts, 3);
    assert!(state.exhausted());
    let before = state;
    assert_eq!(
        trigger_local_vpn_reconnect(&mut state, now + 1_000_000),
        Err(VpnError::MaxAttemptsReached)
    );
    assert_eq!(state, before);
}

#[test]
fn a_confirmed_reconnect_clears_the_count() {
    let mut state = VpnReconnectState { last_reconnect: 50000, attempts: 2 };
    assert_eq!(finish_local_vpn_reconnect(&mut state, ControlReply::Status(200)), Ok(true));
    assert_eq!(state, VpnReconnectState { last_reconnect: 50000, attempts: 0 });
}

#[test]
fn an_unreachable_endpoint_is_an_error_and_keeps_the_count() {
    let mut state = VpnReconnectState { last_reconnect: 50000, attempts: 2 };
    assert_eq!(
        finish_local_vpn_reconnect(&mut state, ControlReply::Unreachable),
        Err(VpnError::RequestFailed)
    );
    assert_eq!(state.attempts, 2);
}

#[test]
fn control_addresses() {
    assert_eq!(status_url(8001), "http://localhost:8001/v1/vpn/status");
    assert_eq!(public_ip_url(8002), "http://localhost:8002/v1/publicip/ip");
    assert_eq!(settings_url(65535), "http://localhost:65535/v1/settings");
    assert_eq!(status_url(0), "http://localhost:0/v1/vpn/status");
}

#[test]
fn the_call_of_the_local_reconnect() {
    assert_eq!(
        local_reconnect_call(8000),
        ControlAction::PutStatus { port: 8000, status: VpnStatus::Reconnecting }
    );
    let by_way_of_vpn: media_gateway::vpn::VpnManager =
        media_gateway::vpn::VpnManager::new("a".to_string(), "b".to_string());
    assert_eq!(by_way_of_vpn.username(), "a");
}

#[test]
fn status_bodies() {
    assert_eq!(VpnStatus::Stopped.body(), r#"{"status":"stopped"}"#);
    assert_eq!(VpnStatus::Running.body(), r#"{"status":"running"}"#);
    assert_eq!(VpnStatus::Reconnecting.body(), r#"{"status":"reconnecting"}"#);
    assert_eq!(VpnStatus::Running.as_str(), "running");
    assert_eq!(
        country_body("Japan"),
        r#"{"vpn":{"provider":{"name":"mullvad","server_selection":{"countries":["Japan"]}}}}"#
    );
    assert_eq!(
        country_body("Côte \"d'Ivoire\""),
        r#"{"vpn":{"provider":{"name":"mullvad","server_selection":{"countries":["Côte \"d'Ivoire\""]}}}}"#
    );
}

#[test]
fn rotation_goes_round() {
    assert_eq!(rotation_default("singapore"), "Japan");
    assert_eq!(rotation_default("japan"), "USA");
    assert_eq!(rotation_default("usa"), "Singapore");
    assert_eq!(rotation_default("mars"), "Singapore");
    let m = VpnManager::new("admin".to_string(), "pw".to_string());
    assert_eq!(m.rotation_target("instance-sg", None).unwrap(), "Japan");
    assert_eq!(m.rotation_target("instance-jp", None).unwrap(), "USA");
    assert_eq!(m.rotation_target("instance-us", None).unwrap(), "Singapore");
    assert_eq!(m.rotation_target("instance-us", Some("Norway")).unwrap(), "Norway");
    assert_eq!(m.rotation_target("nobody", Some("Norway")), None);
}

#[test]
fn the_fleet_of_three() {
    let m = VpnManager::new("admin".to_string(), "pw".to_string());
    assert_eq!(m.username(), "admin");
    assert_eq!(m.password(), "pw");
    let sg = m.instance("instance-sg").unwrap();
    assert_eq!((sg.control_port, sg.region.as_str(), sg.name.as_str()), (8001, "singapore", "Singapore"));
    let jp = m.instance("instance-jp").unwrap();
    assert_eq!((jp.control_port, jp.region.as_str(), jp.name.as_str()), (8002, "japan", "Japan"));
    let us = m.instance("instance-us").unwrap();
    assert_eq!((us.control_port, us.region.as_str(), us.name.as_str()), (8003, "usa", "USA"));
    assert!(m.instance("instance-xx").is_none());
    assert_eq!(m.last_reconnect_of("instance-jp"), Some(0));
    assert_eq!(m.last_reconnect_of("instance-xx"), None);
}

fn drive_reconnect(
    m: &mut VpnManager,
    id: &str,
    now: u64,
    stop: ControlReply,
    start: ControlReply,
) -> (Vec<ControlAction>, bool) {
    let mut actions = Vec::new();
    let (mut phase, mut action) = m.reconnect_vpn(id, ReconnectPhase::Idle, ControlEvent::Begin, now);
    let mut puts = 0;
    loop {
        actions.push(action);
        let event = match action {
            ControlAction::PutStatus { .. } => {
                puts += 1;
                ControlEvent::Reply(if puts == 1 { stop } else { start })
            }
            ControlAction::PutCountry { .. } => ControlEvent::Reply(ControlReply::Status(200)),
            ControlAction::Wait { .. } => ControlEvent::Elapsed,
            ControlAction::Verify { .. } => ControlEvent::Verified,
            ControlAction::Finish { ok } => return (actions, ok),
        };
        let next = m.reconnect_vpn(id, phase, event, now);
        phase = next.0;
        action = next.1;
    }
}

#[test]
fn a_reconnect_is_stop_wait_start_wait_verify() {
    let mut m = VpnManager::new("u".to_string(), "p".to_string());
    let ok = ControlReply::Status(200);
    let (actions, done) = drive_reconnect(&mut m, "instance-jp", 1000000, ok, ok);
    assert!(done);
    assert_eq!(
        actions,
        vec![
            ControlAction::PutStatus { port: 8002, status: VpnStatus::Stopped },
            ControlAction::Wait { seconds: 2 },
            ControlAction::PutStatus { port: 8002, status: VpnStatus::Running },
            ControlAction::Wait { seconds: 5 },
            ControlAction::Verify { port: 8002 },
            ControlAction::Finish { ok: true },
        ]
    );
    assert_eq!(m.last_reconnect_of("instance-jp"), Some(1000000));
    assert_eq!(m.last_reconnect_of("instance-sg"), Some(0));
}

#[test]
fn a_failed_stop_ends_the_reconnect() {
    let mut m = VpnManager::new("u".to_string(), "p".to_string());
    let (actions, done) = drive_reconnect(
        &mut m,
        "instance-sg",
        1000000,
        ControlReply::Status(500),
        ControlReply::Status(200),
    );
    assert!(!done);
    assert_eq!(
        actions,
        vec![
            ControlAction::PutStatus { port: 8001, status: VpnStatus::Stopped },
            ControlAction::Finish { ok: false },
        ]
    );
    // The attempt was recorded before the call went out.
    assert_eq!(m.last_reconnect_of("instance-sg"), Some(1000000));
}

#[test]
fn a_failed_start_ends_the_reconnect() {
    let mut m = VpnManager::new("u".to_string(), "p".to_string());
    let (actions, done) = drive_reconnect(
        &mut m,
        "instance-us",
        1000000,
        ControlReply::Status(200),
        ControlReply::Unreachable,
    );
    assert!(!done);
    assert_eq!(actions.len(), 4);
    assert_eq!(actions[3], ControlAction::Finish { ok: false });
}

#[test]
fn an_unknown_instance_fails_fast() {
    let mut m = VpnManager::new("u".to_string(), "p".to_string());
    assert_eq!(
        m.reconnect_vpn("nobody", ReconnectPhase::Idle, ControlEvent::Begin, 1000000),
        (ReconnectPhase::Done(false), ControlAction::Finish { ok: false })
    );
    assert_eq!(
        m.rotate_server("nobody", RotatePhase::Idle, ControlEvent::Begin, 1000000),
        (RotatePhase::Done(false), ControlAction::Finish { ok: false })
    );
    assert_eq!(
        m.handle_403_error("nobody", RecoveryPhase::Idle, ControlEvent::Begin, 1000000),
        (RecoveryPhase::Done(false), ControlAction::Finish { ok: false })
    );
    assert_eq!(
        m.get_instance_status("nobody", StatusPhase::Idle, StatusEvent::Begin),
        (
            StatusPhase::Done { found: false, with_address: false },
            StatusAction::Finish { found: false, with_address: false }
        )
    );
}

#[test]
fn the_cooldown_of_an_instance_refuses_a_second_reconnect() {
    let mut m = VpnManager::new("u".to_string(), "p".to_string());
    let first = m.reconnect_vpn("instance-sg", ReconnectPhase::Idle, ControlEvent::Begin, 100000);
    assert_eq!(first.0, ReconnectPhase::Stopping);
    let second = m.reconnect_vpn("instance-sg", ReconnectPhase::Idle, ControlEvent::Begin, 129000);
    assert_eq!(second, (ReconnectPhase::Done(false), ControlAction::Finish { ok: false }));
    // Another instance is not held back.
    let other = m.reconnect_vpn("instance-jp", ReconnectPhase::Idle, ControlEvent::Begin, 129000);
    assert_eq!(other.0, ReconnectPhase::Stopping);
    let third = m.reconnect_vpn("instance-sg", ReconnectPhase::Idle, ControlEvent::Begin, 130000);
    assert_eq!(third.0, ReconnectPhase::Stopping);
}

#[test]
fn a_fresh_manager_refuses_reconnects_in_the_first_seconds_of_the_epoch() {
    let mut m = VpnManager::new("u".to_string(), "p".to_string());
    let r = m.reconnect_vpn("instance-sg", ReconnectPhase::Idle, ControlEvent::Begin, 29000);
    assert_eq!(r.0, ReconnectPhase::Done(false));
}

#[test]
fn a_rotation_sets_the_country_and_then_reconnects() {
    let mut m = VpnManager::new("u".to_string(), "p".to_string());
    let (phase, action) = m.rotate_server("instance-sg", RotatePhase::Idle, ControlEvent::Begin, 500000);
    assert_eq!(phase, RotatePhase::Configuring);
    assert_eq!(action, ControlAction::PutCountry { port: 8001 });
    let (phase, action) = m.rotate_server(
        "instance-sg",
        phase,
        ControlEvent::Reply(ControlReply::Status(200)),
        500000,
    );
    assert_eq!(phase, RotatePhase::Reconnecting(ReconnectPhase::Stopping));
    assert_eq!(action, ControlAction::PutStatus { port: 8001, status: VpnStatus::Stopped });
    let (phase, action) = m.rotate_server(
        "instance-sg",
        phase,
        ControlEvent::Reply(ControlReply::Status(200)),
        500000,
    );
    assert_eq!(phase, RotatePhase::Reconnecting(ReconnectPhase::Settling));
    assert_eq!(action, ControlAction::Wait { seconds: 2 });
}

#[test]
fn a_refused_country_ends_the_rotation() {
    let mut m = VpnManager::new("u".to_string(), "p".to_string());
    let (phase, _) = m.rotate_server("instance-sg", RotatePhase::Idle, ControlEvent::Begin, 500000);
    let r = m.rotate_server(
        "instance-sg",
        phase,
        ControlEvent::Reply(ControlReply::Status(400)),
        500000,
    );
    assert_eq!(r, (RotatePhase::Done(false), ControlAction::Finish { ok: false }));
    assert_eq!(m.last_reconnect_of("instance-sg"), Some(0));
}

#[test]
fn recovery_turns_to_rotation_when_the_reconnect_fails() {
    let mut m = VpnManager::new("u".to_string(), "p".to_string());
    let (phase, action) = m.handle_403_error("instance-jp", RecoveryPhase::Idle, ControlEvent::Begin, 700000);
    assert_eq!(phase, RecoveryPhase::Reconnecting(ReconnectPhase::Stopping));
    assert_eq!(action, ControlAction::PutStatus { port: 8002, status: VpnStatus::Stopped });
    let (phase, action) = m.handle_403_error(
        "instance-jp",
        phase,
        ControlEvent::Reply(ControlReply::Status(503)),
        700000,
    );
    assert_eq!(phase, RecoveryPhase::Rotating(RotatePhase::Configuring));
    assert_eq!(action, ControlAction::PutCountry { port: 8002 });
    // The country is taken, but the instance was reconnected a moment ago.
    let (phase, action) = m.handle_403_error(
        "instance-jp",
        phase,
        ControlEvent::Reply(ControlReply::Status(200)),
        701000,
    );
    assert_eq!(phase, RecoveryPhase::Done(false));
    assert_eq!(action, ControlAction::Finish { ok: false });
}

#[test]
fn recovery_within_the_cooldown_goes_straight_to_rotation() {
    let mut m = VpnManager::new("u".to_string(), "p".to_string());
    let (phase, action) = m.handle_403_error("instance-jp", RecoveryPhase::Idle, ControlEvent::Begin, 10000);
    assert_eq!(phase, RecoveryPhase::Rotating(RotatePhase::Configuring));
    assert_eq!(action, ControlAction::PutCountry { port: 8002 });
}

#[test]
fn a_status_query_asks_for_status_and_address() {
    let m = VpnManager::new("u".to_string(), "p".to_string());
    let (phase, action) = m.get_instance_status("instance-us", StatusPhase::Idle, StatusEvent::Begin);
    assert_eq!(action, StatusAction::GetStatus { port: 8003 });
    let (phase, action) = m.get_instance_status(
        "instance-us",
        phase,
        StatusEvent::Answer { status: 200, readable: true },
    );
    assert_eq!(action, StatusAction::GetAddress { port: 8003 });
    let (_, action) = m.get_instance_status("instance-us", phase, StatusEvent::Unreachable);
    assert_eq!(action, StatusAction::Finish { found: true, with_address: false });
    let (_, action) = m.get_instance_status(
        "instance-us",
        phase,
        StatusEvent::Answer { status: 200, readable: true },
    );
    assert_eq!(action, StatusAction::Finish { found: true, with_address: true });
    let (_, action) = m.get_instance_status(
        "instance-us",
        StatusPhase::AskingStatus,
        StatusEvent::Answer { status: 500, readable: true },
    );
    assert_eq!(action, StatusAction::Finish { found: false, with_address: false });
}

#[test]
fn a_fleet_of_ones_own() {
    let instances = vec![InstanceConfig {
        instance_id: "solo".to_string(),
        control_port: 9000,
        region: "japan".to_string(),
        name: "Solo".to_string(),
    }];
    let mut m = VpnManager::with_instances("u".to_string(), "p".to_string(), instances, 5);
    assert_eq!(m.rotation_target("solo", None).unwrap(), "USA");
    let r = m.reconnect_vpn("solo", ReconnectPhase::Idle, ControlEvent::Begin, 5000);
    assert_eq!(r.1, ControlAction::PutStatus { port: 9000, status: VpnStatus::Stopped });
    let r = m.reconnect_vpn("solo", ReconnectPhase::Idle, ControlEvent::Begin, 9000);
    assert_eq!(r.1, ControlAction::Finish { ok: false });
    let r = m.reconnect_vpn("solo", ReconnectPhase::Idle, ControlEvent::Begin, 10000);
    assert_eq!(r.0, ReconnectPhase::Stopping);
}
