use dataconnect::events::AppEvent;
use dataconnect::launch::{
    find_first_true, pick_port, plan_launch, sidecar_environment, BinaryProbe, EnvVar, LaunchPlan,
};
use dataconnect::sidecar::{
    exited_event, next_stop_step, observe_exit, ExitOutcome, PersonalServerStatus, ProcessProbe,
    SidecarPhase, SidecarSupervisor, StartDecision, StopStep, CLEANUP_POLL_LIMIT,
    POLL_INTERVAL_MS, PORT_RELEASE_POLL_LIMIT, STOP_POLL_LIMIT,
};
use dataconnect::sidecar_output::{
    decode_sidecar_line, handle_output_line, publish_sidecar_event, SidecarEvent,
};

fn event(name: &str, payload: &str) -> Option<AppEvent> {
    Some(AppEvent { name: name.to_string(), payload: payload.to_string() })
}

#[test]
fn start_on_a_running_helper_spawns_nothing() {
    let mut supervisor = SidecarSupervisor::new();
    assert_eq!(supervisor.begin_start(), StartDecision::Spawn);
    assert_eq!(supervisor.phase(), SidecarPhase::Starting);
    assert_eq!(
        supervisor.begin_start(),
        StartDecision::AlreadyRunning(PersonalServerStatus { running: true, port: None })
    );
    let status = supervisor.record_spawned(4321, 8080);
    assert_eq!(status, PersonalServerStatus { running: true, port: Some(8080) });
    assert_eq!(supervisor.phase(), SidecarPhase::Running);
    for _ in 0..3 {
        assert_eq!(supervisor.begin_start(), StartDecision::AlreadyRunning(status));
        assert_eq!(supervisor.phase(), SidecarPhase::Running);
        assert_eq!(supervisor.port(), Some(8080));
    }
}

#[test]
fn exit_with_code_zero_after_stop_publishes_nothing() {
    let mut supervisor = SidecarSupervisor::new();
    supervisor.begin_start();
    supervisor.record_spawned(4321, 8080);
    assert_eq!(supervisor.begin_stop(), Some(4321));
    assert_eq!(supervisor.phase(), SidecarPhase::Stopping);
    assert!(supervisor.stop_requested());
    assert_eq!(supervisor.on_output_closed(Some(0)), None);
    assert_eq!(supervisor.finish_stop(), Some(8080));
    assert_eq!(supervisor.phase(), SidecarPhase::Stopped);
    assert_eq!(supervisor.port(), None);
    assert_eq!(supervisor.on_output_closed(Some(1)), None);
    assert_eq!(supervisor.begin_start(), StartDecision::Spawn);
}

#[test]
fn exit_with_nonzero_code_without_stop_is_a_crash() {
    let mut supervisor = SidecarSupervisor::new();
    supervisor.begin_start();
    supervisor.record_spawned(4321, 8080);
    supervisor.remember_dev_token("secret".to_string());
    assert_eq!(
        supervisor.on_output_closed(Some(3)),
        event("sidecar-exited", "{\"exitCode\":3,\"crashed\":true}")
    );
    assert_eq!(supervisor.phase(), SidecarPhase::Crashed);
    assert_eq!(supervisor.port(), None);
    assert_eq!(supervisor.dev_token(), None);
    assert_eq!(
        supervisor.status(ProcessProbe::Alive),
        PersonalServerStatus { running: false, port: None }
    );
    assert_eq!(supervisor.begin_start(), StartDecision::Spawn);
    assert_eq!(supervisor.phase(), SidecarPhase::Starting);
}

#[test]
fn exits_are_told_apart() {
    assert_eq!(observe_exit(true, Some(0)), ExitOutcome::GracefulStop);
    assert_eq!(observe_exit(true, Some(9)), ExitOutcome::GracefulStop);
    assert_eq!(observe_exit(true, None), ExitOutcome::GracefulStop);
    assert_eq!(observe_exit(false, Some(0)), ExitOutcome::Exited { exit_code: Some(0), crashed: false });
    assert_eq!(observe_exit(false, Some(1)), ExitOutcome::Exited { exit_code: Some(1), crashed: true });
    assert_eq!(observe_exit(false, Some(-1)), ExitOutcome::Exited { exit_code: Some(-1), crashed: true });
    assert_eq!(observe_exit(false, None), ExitOutcome::Exited { exit_code: None, crashed: true });
}

#[test]
fn exit_events_carry_code_and_flag() {
    assert_eq!(exited_event(ExitOutcome::GracefulStop), None);
    assert_eq!(
        exited_event(observe_exit(false, Some(0))),
        event("sidecar-exited", "{\"exitCode\":0,\"crashed\":false}")
    );
    assert_eq!(
        exited_event(observe_exit(false, None)),
        event("sidecar-exited", "{\"exitCode\":null,\"crashed\":true}")
    );
    assert_eq!(
        exited_event(observe_exit(false, Some(-11))),
        event("sidecar-exited", "{\"exitCode\":-11,\"crashed\":true}")
    );
    assert_eq!(
        exited_event(observe_exit(false, Some(i32::MIN))),
        event("sidecar-exited", "{\"exitCode\":-2147483648,\"crashed\":true}")
    );
    assert_eq!(
        exited_event(observe_exit(false, Some(i32::MAX))),
        event("sidecar-exited", "{\"exitCode\":2147483647,\"crashed\":true}")
    );
}

#[test]
fn clean_exit_without_stop_leaves_the_helper_stopped() {
    let mut supervisor = SidecarSupervisor::new();
    supervisor.begin_start();
    supervisor.record_spawned(1, 9000);
    assert_eq!(
        supervisor.on_output_closed(Some(0)),
        event("sidecar-exited", "{\"exitCode\":0,\"crashed\":false}")
    );
    assert_eq!(supervisor.phase(), SidecarPhase::Stopped);
}

#[test]
fn failed_spawn_allows_another_start() {
    let mut supervisor = SidecarSupervisor::new();
    assert_eq!(supervisor.begin_start(), StartDecision::Spawn);
    supervisor.record_spawn_failed();
    assert_eq!(supervisor.phase(), SidecarPhase::Stopped);
    assert_eq!(supervisor.begin_start(), StartDecision::Spawn);
}

#[test]
fn status_follows_the_probe() {
    let mut supervisor = SidecarSupervisor::new();
    assert_eq!(
        supervisor.status(ProcessProbe::Alive),
        PersonalServerStatus { running: false, port: None }
    );
    supervisor.begin_start();
    supervisor.record_spawned(1, 9000);
    assert_eq!(
        supervisor.status(ProcessProbe::Alive),
        PersonalServerStatus { running: true, port: Some(9000) }
    );
    assert_eq!(
        supervisor.status(ProcessProbe::Unknown),
        PersonalServerStatus { running: false, port: None }
    );
    assert_eq!(supervisor.phase(), SidecarPhase::Running);
    assert_eq!(
        supervisor.status(ProcessProbe::Exited),
        PersonalServerStatus { running: false, port: None }
    );
    assert_eq!(supervisor.phase(), SidecarPhase::Stopped);
    assert_eq!(supervisor.begin_stop(), None);
}

#[test]
fn stopping_waits_then_kills() {
    assert_eq!(STOP_POLL_LIMIT, 50);
    assert_eq!(CLEANUP_POLL_LIMIT, 10);
    assert_eq!(PORT_RELEASE_POLL_LIMIT, 30);
    assert_eq!(POLL_INTERVAL_MS, 100);
    assert_eq!(next_stop_step(0, true, 50), StopStep::Done);
    assert_eq!(next_stop_step(50, true, 50), StopStep::Done);
    assert_eq!(next_stop_step(0, false, 50), StopStep::Wait);
    assert_eq!(next_stop_step(49, false, 50), StopStep::Wait);
    assert_eq!(next_stop_step(50, false, 50), StopStep::ForceKill);
    assert_eq!(next_stop_step(0, false, 0), StopStep::ForceKill);
}

#[test]
fn lines_are_decoded_by_their_type() {
    assert_eq!(
        decode_sidecar_line("{\"type\":\"ready\",\"port\":8080}"),
        SidecarEvent::Ready { port: Some(8080) }
    );
    assert_eq!(decode_sidecar_line("{\"type\":\"ready\"}"), SidecarEvent::Ready { port: None });
    assert_eq!(
        decode_sidecar_line("{\"type\":\"ready\",\"port\":\"8080\"}"),
        SidecarEvent::Ready { port: None }
    );
    assert_eq!(
        decode_sidecar_line("{\"type\":\"ready\",\"port\":65536}"),
        SidecarEvent::Ready { port: Some(0) }
    );
    assert_eq!(
        decode_sidecar_line("{\"type\":\"ready\",\"port\":70000}"),
        SidecarEvent::Ready { port: Some(4464) }
    );
    assert_eq!(
        decode_sidecar_line("{\"type\":\"error\",\"message\":\"boom\"}"),
        SidecarEvent::Error { message: "boom".to_string() }
    );
    assert_eq!(
        decode_sidecar_line("{\"type\":\"error\"}"),
        SidecarEvent::Error { message: "Unknown error".to_string() }
    );
    assert_eq!(
        decode_sidecar_line("{\"type\":\"tunnel\",\"url\":\"https://t\"}"),
        SidecarEvent::Tunnel { url: "https://t".to_string() }
    );
    assert_eq!(
        decode_sidecar_line("{\"type\":\"log\",\"message\":\"hello\"}"),
        SidecarEvent::Log { message: "hello".to_string() }
    );
    assert_eq!(
        decode_sidecar_line("{\"type\":\"log\"}"),
        SidecarEvent::Log { message: "".to_string() }
    );
    assert_eq!(
        decode_sidecar_line("{\"type\":\"tunnel-failed\",\"message\":\"nope\"}"),
        SidecarEvent::TunnelFailed { message: "nope".to_string() }
    );
    assert_eq!(
        decode_sidecar_line("{\"type\":\"dev-token\",\"token\":\"t0\"}"),
        SidecarEvent::DevToken { token: "t0".to_string() }
    );
    for line in ["", "plain text", "{\"type\":\"other\"}", "{\"type\":5}", "{}", "[]", "{\"type\":\"READY\"}"] {
        assert_eq!(decode_sidecar_line(line), SidecarEvent::Unknown);
    }
}

#[test]
fn decoded_lines_become_events() {
    assert_eq!(
        publish_sidecar_event(&SidecarEvent::Ready { port: Some(8080) }),
        event("sidecar-ready", "{\"port\":8080}")
    );
    assert_eq!(
        publish_sidecar_event(&SidecarEvent::Ready { port: None }),
        event("sidecar-ready", "{\"port\":null}")
    );
    assert_eq!(
        publish_sidecar_event(&SidecarEvent::Error { message: "a\"b".to_string() }),
        event("sidecar-error", "{\"message\":\"a\\\"b\"}")
    );
    assert_eq!(
        publish_sidecar_event(&SidecarEvent::Log { message: "line\n2".to_string() }),
        event("sidecar-log", "{\"message\":\"line\\n2\"}")
    );
    assert_eq!(
        publish_sidecar_event(&SidecarEvent::Tunnel { url: "u".to_string() }),
        event("sidecar-tunnel", "{\"url\":\"u\"}")
    );
    assert_eq!(
        publish_sidecar_event(&SidecarEvent::TunnelFailed { message: "m".to_string() }),
        event("sidecar-tunnel-failed", "{\"message\":\"m\"}")
    );
    assert_eq!(
        publish_sidecar_event(&SidecarEvent::DevToken { token: "t".to_string() }),
        event("sidecar-dev-token", "{\"token\":\"t\"}")
    );
    assert_eq!(publish_sidecar_event(&SidecarEvent::Unknown), None);
}

#[test]
fn announced_token_is_kept_until_the_helper_stops() {
    let mut supervisor = SidecarSupervisor::new();
    supervisor.begin_start();
    supervisor.record_spawned(1, 9000);
    assert_eq!(
        handle_output_line(&mut supervisor, "{\"type\":\"dev-token\",\"token\":\"t0\"}"),
        event("sidecar-dev-token", "{\"token\":\"t0\"}")
    );
    assert_eq!(supervisor.dev_token(), Some("t0".to_string()));
    assert_eq!(
        handle_output_line(&mut supervisor, "{\"type\":\"log\",\"message\":\"x\"}"),
        event("sidecar-log", "{\"message\":\"x\"}")
    );
    assert_eq!(handle_output_line(&mut supervisor, "noise"), None);
    assert_eq!(supervisor.dev_token(), Some("t0".to_string()));
    supervisor.begin_stop();
    supervisor.finish_stop();
    assert_eq!(supervisor.dev_token(), None);
}

#[test]
fn port_is_the_requested_one_or_the_first_free() {
    assert_eq!(pick_port(Some(7000), &vec![true; 6], Some(1)), Some(7000));
    assert_eq!(pick_port(None, &vec![true; 6], Some(1)), Some(8080));
    assert_eq!(pick_port(None, &vec![false, false, true, true, false, false], Some(1)), Some(8082));
    assert_eq!(pick_port(None, &vec![false, false, false, false, false, true], None), Some(8085));
    assert_eq!(pick_port(None, &vec![false; 6], Some(49152)), Some(49152));
    assert_eq!(pick_port(None, &vec![false; 6], None), None);
    assert_eq!(pick_port(None, &vec![], Some(5)), Some(5));
    assert_eq!(pick_port(None, &vec![false, false, false, false, false, false, true], Some(5)), Some(5));
    assert_eq!(find_first_true(&vec![false, true, true]), Some(1));
    assert_eq!(find_first_true(&vec![]), None);
}

#[test]
fn environment_holds_what_is_given() {
    let var = |name: &str, value: &str| EnvVar { name: name.to_string(), value: value.to_string() };
    assert_eq!(
        sidecar_environment(8080, &None, &None, &None, &None),
        vec![var("PORT", "8080"), var("NODE_ENV", "production")]
    );
    assert_eq!(
        sidecar_environment(
            65535,
            &Some("sig".to_string()),
            &Some("https://g".to_string()),
            &Some("0xme".to_string()),
            &Some("/home/me/data-connect/personal-server".to_string()),
        ),
        vec![
            var("PORT", "65535"),
            var("NODE_ENV", "production"),
            var("VANA_MASTER_KEY_SIGNATURE", "sig"),
            var("GATEWAY_URL", "https://g"),
            var("OWNER_ADDRESS", "0xme"),
            var("CONFIG_DIR", "/home/me/data-connect/personal-server"),
        ]
    );
    assert_eq!(
        sidecar_environment(1, &None, &None, &Some("0xme".to_string()), &None),
        vec![var("PORT", "1"), var("NODE_ENV", "production"), var("OWNER_ADDRESS", "0xme")]
    );
}

#[test]
fn bundled_binary_needs_its_runtime_assets() {
    let probe = |exists, has_runtime_assets| BinaryProbe { exists, has_runtime_assets };
    assert_eq!(
        plan_launch(&vec![probe(true, false), probe(true, true), probe(true, true)], true, true),
        LaunchPlan::Bundled(1)
    );
    assert_eq!(
        plan_launch(&vec![probe(false, true), probe(true, false), probe(false, false)], true, true),
        LaunchPlan::DevBinary
    );
    assert_eq!(plan_launch(&vec![probe(true, false)], true, false), LaunchPlan::NodeScript);
    assert_eq!(plan_launch(&vec![], false, true), LaunchPlan::NotFound);
    assert_eq!(plan_launch(&vec![probe(true, true)], false, false), LaunchPlan::Bundled(0));
}
