use dataconnect::events::AppEvent;
use dataconnect::run_output::{
    decode_run_line, log_event, publish_run_message, run_command_line, run_started,
    status_event, stopped_event, terminal_message, window_run_started, RunContext, RunMessage,
    RunStatus,
};
use dataconnect::runs::{RunProcessManager, StopRunPlan, TrackedRun, STOP_RUN_POLL_LIMIT};

fn ctx() -> RunContext {
    RunContext {
        run_id: "run-1".to_string(),
        platform_id: "chatgpt-001".to_string(),
        company: "OpenAI".to_string(),
        name: "ChatGPT".to_string(),
    }
}

fn event(name: &str, payload: &str) -> Option<AppEvent> {
    Some(AppEvent { name: name.to_string(), payload: payload.to_string() })
}

#[test]
fn run_command_is_one_json_line() {
    let line = run_command_line("run-1", "/c/\"x\".js", "https://example.com/?a=1");
    assert_eq!(
        line,
        "{\"type\":\"run\",\"runId\":\"run-1\",\"connectorPath\":\"/c/\\\"x\\\".js\",\"url\":\"https://example.com/?a=1\",\"headless\":true}"
    );
    let parsed: serde_json::Value = serde_json::from_str(&line).unwrap();
    assert_eq!(parsed["type"], "run");
    assert_eq!(parsed["runId"], "run-1");
    assert_eq!(parsed["connectorPath"], "/c/\"x\".js");
    assert_eq!(parsed["url"], "https://example.com/?a=1");
    assert_eq!(parsed["headless"], true);
    assert!(!line.contains('\n'));
}

#[test]
fn run_lines_are_decoded_by_their_type() {
    assert_eq!(decode_run_line("{\"type\":\"ready\"}"), RunMessage::Ready);
    assert_eq!(
        decode_run_line("{\"type\":\"log\",\"message\":\"hi\"}"),
        RunMessage::Log { message: Some("hi".to_string()) }
    );
    assert_eq!(decode_run_line("{\"type\":\"log\",\"message\":3}"), RunMessage::Log { message: None });
    assert_eq!(
        decode_run_line("{\"type\":\"status\",\"status\":\"RUNNING\"}"),
        RunMessage::Status { status: Some(RunStatus::Named("RUNNING".to_string())) }
    );
    assert_eq!(
        decode_run_line("{\"type\":\"status\",\"status\":{\"type\":\"COLLECTING\",\"count\":3}}"),
        RunMessage::Status {
            status: Some(RunStatus::Structured("{\"count\":3,\"type\":\"COLLECTING\"}".to_string()))
        }
    );
    assert_eq!(
        decode_run_line("{\"type\":\"status\",\"status\":null}"),
        RunMessage::Status { status: Some(RunStatus::Structured("null".to_string())) }
    );
    assert_eq!(decode_run_line("{\"type\":\"status\"}"), RunMessage::Status { status: None });
    assert_eq!(
        decode_run_line("{\"type\":\"result\",\"data\":{\"n\":[1,2.5,\"x\"]}}"),
        RunMessage::Result { data: Some("{\"n\":[1,2.5,\"x\"]}".to_string()) }
    );
    assert_eq!(decode_run_line("{\"type\":\"result\"}"), RunMessage::Result { data: None });
    assert_eq!(
        decode_run_line("{\"type\":\"error\",\"message\":\"bad\"}"),
        RunMessage::Error { message: Some("bad".to_string()) }
    );
    assert_eq!(
        decode_run_line("{\"type\":\"data\",\"key\":\"k\",\"value\":true}"),
        RunMessage::Data { key: "k".to_string(), value: Some("true".to_string()) }
    );
    assert_eq!(
        decode_run_line("{\"type\":\"data\"}"),
        RunMessage::Data { key: "".to_string(), value: None }
    );
    for line in ["", "text", "[]", "{}", "{\"type\":\"tunnel\"}", "{\"type\":null}"] {
        assert_eq!(decode_run_line(line), RunMessage::Other);
    }
}

#[test]
fn run_messages_become_events() {
    let c = ctx();
    assert_eq!(publish_run_message(&c, &RunMessage::Ready, 5), None);
    assert_eq!(publish_run_message(&c, &RunMessage::Other, 5), None);
    assert_eq!(publish_run_message(&c, &RunMessage::Log { message: None }, 5), None);
    assert_eq!(publish_run_message(&c, &RunMessage::Status { status: None }, 5), None);
    assert_eq!(publish_run_message(&c, &RunMessage::Result { data: None }, 5), None);
    assert_eq!(publish_run_message(&c, &RunMessage::Error { message: None }, 5), None);
    assert_eq!(
        publish_run_message(&c, &RunMessage::Log { message: Some("hi".to_string()) }, 1700000000123),
        event("connector-log", "{\"runId\":\"run-1\",\"message\":\"hi\",\"timestamp\":1700000000123}")
    );
    assert_eq!(
        publish_run_message(&c, &RunMessage::Error { message: Some("bad".to_string()) }, 7),
        event("connector-log", "{\"runId\":\"run-1\",\"message\":\"Error: bad\",\"timestamp\":7}")
    );
    assert_eq!(
        publish_run_message(
            &c,
            &RunMessage::Status { status: Some(RunStatus::Named("RUNNING".to_string())) },
            7
        ),
        event(
            "connector-status",
            "{\"runId\":\"run-1\",\"status\":{\"type\":\"RUNNING\"},\"timestamp\":7}"
        )
    );
    assert_eq!(
        publish_run_message(
            &c,
            &RunMessage::Status {
                status: Some(RunStatus::Structured("{\"type\":\"X\",\"n\":1}".to_string()))
            },
            7
        ),
        event(
            "connector-status",
            "{\"runId\":\"run-1\",\"status\":{\"type\":\"X\",\"n\":1},\"timestamp\":7}"
        )
    );
    assert_eq!(
        publish_run_message(&c, &RunMessage::Result { data: Some("{\"n\":1}".to_string()) }, 7),
        event(
            "export-complete",
            "{\"runId\":\"run-1\",\"platformId\":\"chatgpt-001\",\"company\":\"OpenAI\",\"name\":\"ChatGPT\",\"data\":{\"n\":1},\"timestamp\":7}"
        )
    );
    assert_eq!(
        publish_run_message(
            &c,
            &RunMessage::Data { key: "k".to_string(), value: Some("[1]".to_string()) },
            7
        ),
        event("connector-data", "{\"runId\":\"run-1\",\"key\":\"k\",\"value\":[1],\"timestamp\":7}")
    );
    assert_eq!(
        publish_run_message(&c, &RunMessage::Data { key: "".to_string(), value: None }, 0),
        event("connector-data", "{\"runId\":\"run-1\",\"key\":\"\",\"value\":null,\"timestamp\":0}")
    );
}

#[test]
fn payloads_are_valid_json() {
    let c = RunContext {
        run_id: "r\"1".to_string(),
        platform_id: "p\\".to_string(),
        company: "c\n".to_string(),
        name: "n\u{1}".to_string(),
    };
    let started = run_started(&c);
    assert_eq!(started.name, "run-started");
    let parsed: serde_json::Value = serde_json::from_str(&started.payload).unwrap();
    assert_eq!(parsed["runId"], "r\"1");
    assert_eq!(parsed["platformId"], "p\\");
    assert_eq!(parsed["company"], "c\n");
    assert_eq!(parsed["name"], "n\u{1}");
    assert_eq!(parsed["runtime"], "playwright");
    let log = log_event("r\"1", "tab\there", 3);
    let parsed: serde_json::Value = serde_json::from_str(&log.payload).unwrap();
    assert_eq!(parsed["message"], "tab\there");
    assert_eq!(parsed["timestamp"], 3);
    assert_eq!(
        status_event("a", "7", u64::MAX).payload,
        "{\"runId\":\"a\",\"status\":7,\"timestamp\":18446744073709551615}"
    );
}

#[test]
fn runs_announce_their_start() {
    assert_eq!(
        Some(run_started(&ctx())),
        event(
            "run-started",
            "{\"runId\":\"run-1\",\"platformId\":\"chatgpt-001\",\"company\":\"OpenAI\",\"name\":\"ChatGPT\",\"runtime\":\"playwright\"}"
        )
    );
    assert_eq!(
        Some(window_run_started(&ctx())),
        event(
            "run-started",
            "{\"runId\":\"run-1\",\"platformId\":\"chatgpt-001\",\"company\":\"OpenAI\",\"name\":\"ChatGPT\"}"
        )
    );
}

#[test]
fn result_and_error_end_a_run() {
    assert!(terminal_message(&RunMessage::Result { data: None }));
    assert!(terminal_message(&RunMessage::Error { message: None }));
    assert!(!terminal_message(&RunMessage::Ready));
    assert!(!terminal_message(&RunMessage::Log { message: None }));
    assert!(!terminal_message(&RunMessage::Status { status: None }));
    assert!(!terminal_message(&RunMessage::Other));
}

#[test]
fn runs_are_found_by_their_identifier() {
    let mut manager = RunProcessManager::new();
    assert_eq!(manager.len(), 0);
    manager.track("a".to_string(), 10);
    manager.track("b".to_string(), 20);
    assert_eq!(manager.len(), 2);
    assert_eq!(manager.pid_of("a"), Some(10));
    assert_eq!(manager.pid_of("b"), Some(20));
    assert_eq!(manager.pid_of("c"), None);
    manager.track("a".to_string(), 30);
    assert_eq!(manager.len(), 2);
    assert_eq!(manager.pid_of("a"), Some(30));
    assert_eq!(
        manager.untrack("a"),
        Some(TrackedRun { run_id: "a".to_string(), pid: 30, finished: false })
    );
    assert_eq!(manager.untrack("a"), None);
    assert_eq!(manager.len(), 1);
    assert_eq!(manager.pid_of("b"), Some(20));
}

#[test]
fn a_run_that_ends_silently_is_reported_as_stopped() {
    let mut manager = RunProcessManager::new();
    manager.track("run-1".to_string(), 10);
    assert_eq!(
        manager.on_run_line(&ctx(), "{\"type\":\"log\",\"message\":\"x\"}", 1),
        event("connector-log", "{\"runId\":\"run-1\",\"message\":\"x\",\"timestamp\":1}")
    );
    assert_eq!(
        manager.on_run_closed("run-1", 2),
        event(
            "connector-status",
            "{\"runId\":\"run-1\",\"status\":{\"type\":\"STOPPED\",\"message\":\"Process ended\"},\"timestamp\":2}"
        )
    );
    assert_eq!(manager.len(), 0);
    assert_eq!(manager.on_run_closed("run-1", 3), Some(stopped_event("run-1", 3)));
}

#[test]
fn a_run_that_reported_its_end_is_not_reported_again() {
    for line in ["{\"type\":\"result\",\"data\":1}", "{\"type\":\"error\",\"message\":\"m\"}", "{\"type\":\"result\"}"] {
        let mut manager = RunProcessManager::new();
        manager.track("other".to_string(), 5);
        manager.track("run-1".to_string(), 10);
        manager.on_run_line(&ctx(), line, 1);
        assert_eq!(manager.pid_of("run-1"), Some(10));
        assert_eq!(manager.on_run_closed("run-1", 2), None);
        assert_eq!(manager.pid_of("run-1"), None);
        assert_eq!(manager.pid_of("other"), Some(5));
        assert_eq!(manager.on_run_closed("other", 2), Some(stopped_event("other", 2)));
    }
}

#[test]
fn lines_of_an_unknown_run_are_still_published() {
    let mut manager = RunProcessManager::new();
    assert_eq!(
        manager.on_run_line(&ctx(), "{\"type\":\"result\",\"data\":1}", 1).map(|e| e.name),
        Some("export-complete".to_string())
    );
    assert_eq!(manager.len(), 0);
}

#[test]
fn stopping_a_run_kills_its_group_or_closes_its_window() {
    assert_eq!(STOP_RUN_POLL_LIMIT, 20);
    let mut manager = RunProcessManager::new();
    manager.track("run-1".to_string(), 10);
    assert_eq!(manager.begin_stop_run("run-1"), StopRunPlan::KillGroup { pid: 10 });
    assert_eq!(
        manager.begin_stop_run("run-1"),
        StopRunPlan::CloseWindow { label: "connector-run-1".to_string() }
    );
    assert_eq!(
        manager.begin_stop_run(""),
        StopRunPlan::CloseWindow { label: "connector-".to_string() }
    );
}

#[test]
fn cleanup_hands_out_every_run() {
    let mut manager = RunProcessManager::new();
    manager.track("a".to_string(), 1);
    manager.track("b".to_string(), 2);
    manager.track("c".to_string(), 3);
    manager.untrack("b");
    let mut drained = manager.drain();
    drained.sort_by(|x, y| x.run_id.cmp(&y.run_id));
    assert_eq!(
        drained,
        vec![
            TrackedRun { run_id: "a".to_string(), pid: 1, finished: false },
            TrackedRun { run_id: "c".to_string(), pid: 3, finished: false },
        ]
    );
    assert_eq!(manager.len(), 0);
    assert_eq!(manager.drain(), vec![]);
}
