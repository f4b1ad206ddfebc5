use dataconnect::decimal::{push_signed, read_signed};
use dataconnect::history::{
    count_items, encode_run_data, export_file_name, export_name, export_parts, item_label,
    items_exported, label_items, measure, saved_run, sort_runs, start_date, text_before_or_same,
    ArrayLengths, SavedRun,
};
use dataconnect::json::{JsonItem, JsonMember};
use dataconnect::platforms::{
    is_connector_metadata, merge_platforms, parse_metadata, platform_from_metadata,
    ConnectorMetadata, Platform,
};
use dataconnect::server::{asset_head, asset_head_for, landing_page};
use dataconnect::text::replace_all;
use dataconnect::webview::{
    close_request_window, decode_poll_fragment, poll_again, poll_reply, read_poll_fragment,
    run_kind, timeout_event, window_label, window_of_close_request, PollMessage, RunKind,
    POLL_INTERVAL_MS, POLL_LIMIT, SCRIPT_SETTLE_MS,
};
use dataconnect::run_output::RunContext;

fn parse(text: &str) -> Option<Vec<JsonMember>> {
    let value: serde_json::Value = serde_json::from_str(text).ok()?;
    let map = value.as_object()?;
    Some(
        map.iter()
            .map(|(key, v)| JsonMember {
                key: key.clone(),
                value: match v {
                    serde_json::Value::Null => JsonItem::Null,
                    serde_json::Value::Bool(b) => JsonItem::Bool(*b),
                    serde_json::Value::Number(n) => JsonItem::Number(n.to_string()),
                    serde_json::Value::String(s) => JsonItem::Text(s.clone()),
                    serde_json::Value::Array(_) => JsonItem::Array(v.to_string()),
                    serde_json::Value::Object(_) => JsonItem::Object(v.to_string()),
                },
            })
            .collect(),
    )
}

fn summary_of(file: &str) -> (Option<i64>, Option<String>) {
    let parts = export_parts(&parse(file));
    (items_exported(&parts), item_label(&parts))
}

fn run(id: &str, date: &str) -> SavedRun {
    SavedRun {
        id: id.to_string(),
        platform_id: "p".to_string(),
        filename: "p".to_string(),
        company: "c".to_string(),
        name: "n".to_string(),
        start_date: date.to_string(),
        end_date: Some(date.to_string()),
        status: "success".to_string(),
        export_path: None,
        items_exported: None,
        item_label: None,
    }
}

fn platform(id: &str, company: &str) -> Platform {
    Platform {
        id: id.to_string(),
        company: company.to_string(),
        name: "n".to_string(),
        filename: "f".to_string(),
        description: "d".to_string(),
        is_updated: false,
        logo_url: "f".to_string(),
        needs_connection: true,
        connect_url: None,
        connect_selector: None,
        export_frequency: None,
        vectorize_config: None,
        runtime: None,
    }
}

#[test]
fn signed_numbers_are_read_and_written_as_the_standard_library_does() {
    for text in ["0", "-0", "7", "-7", "+7", "-+7", "+-7", "-", "+", "", "9223372036854775807", "9223372036854775808", "-9223372036854775808", "-9223372036854775809", "1.0", "--1", "- 1", "-a"] {
        assert_eq!(read_signed(text), text.parse::<i64>().ok(), "{:?}", text);
    }
    for n in [0i64, 1, -1, 42, -42, i64::MAX, i64::MIN, i64::MIN + 1] {
        let mut out = "n=".to_string();
        push_signed(&mut out, n);
        assert_eq!(out, format!("n={}", n));
    }
}

#[test]
fn summary_is_taken_from_the_export() {
    assert_eq!(
        summary_of("{\"content\":{\"exportSummary\":{\"count\":12,\"label\":\"chats\"},\"totalPosts\":3}}"),
        (Some(12), Some("chats".to_string()))
    );
    assert_eq!(
        summary_of("{\"content\":{\"data\":{\"exportSummary\":{\"count\":-4,\"label\":\"x\"}}}}"),
        (Some(-4), Some("x".to_string()))
    );
    assert_eq!(
        summary_of("{\"content\":{\"exportSummary\":null,\"data\":{\"exportSummary\":{\"count\":4}},\"posts\":[1,2,3]}}"),
        (Some(3), Some("posts".to_string()))
    );
    assert_eq!(
        summary_of("{\"content\":{\"totalConversations\":7,\"conversations\":[1]}}"),
        (Some(7), Some("conversations".to_string()))
    );
    assert_eq!(
        summary_of("{\"content\":{\"totalPosts\":9,\"memories\":[]}}"),
        (Some(9), Some("memories".to_string()))
    );
    assert_eq!(
        summary_of("{\"content\":{\"conversations\":[{},{}],\"posts\":[1]}}"),
        (Some(2), Some("posts".to_string()))
    );
    assert_eq!(summary_of("{\"content\":{\"memories\":[1,2,3,4]}}"), (Some(4), Some("memories".to_string())));
    assert_eq!(summary_of("{\"content\":{\"media_count\":5}}"), (Some(5), Some("posts".to_string())));
    assert_eq!(
        summary_of("{\"content\":{\"conversations\":\"many\",\"data\":{\"memories\":[1]}}}"),
        (Some(1), Some("conversations".to_string()))
    );
    assert_eq!(
        summary_of("{\"content\":{\"data\":{\"posts\":[1,2],\"totalPosts\":1.5}}}"),
        (Some(2), Some("posts".to_string()))
    );
    assert_eq!(summary_of("{\"content\":{\"other\":1}}"), (None, None));
    assert_eq!(summary_of("{\"content\":[1,2]}"), (None, None));
    assert_eq!(summary_of("{\"conversations\":[1]}"), (None, None));
    assert_eq!(summary_of("nope"), (None, None));
}

#[test]
fn items_are_counted_and_named() {
    let members = parse("{\"posts\":[1,2,3],\"memories\":[],\"conversations\":{},\"media_count\":8}").unwrap();
    let lengths = measure(&members);
    assert_eq!(lengths, ArrayLengths { conversations: None, posts: Some(3), memories: Some(0) });
    assert_eq!(count_items(&members, lengths), Some(3));
    assert_eq!(
        count_items(&members, ArrayLengths { conversations: None, posts: None, memories: None }),
        Some(8)
    );
    assert_eq!(
        count_items(&members, ArrayLengths { conversations: Some(1), posts: Some(2), memories: Some(3) }),
        Some(1)
    );
    assert_eq!(label_items(&members), Some("posts".to_string()));
    assert_eq!(label_items(&parse("{\"conversations\":null}").unwrap()), Some("conversations".to_string()));
    assert_eq!(label_items(&parse("{}").unwrap()), None);
}

#[test]
fn past_runs_are_described_from_their_export() {
    let file = parse("{\"name\":\"ChatGPT\",\"content\":{\"totalConversations\":3}}");
    let saved = saved_run("run-1", "chatgpt", "OpenAI", "/data/run-1", "2023-11-14T22:13:20.000Z".to_string(), &file);
    assert_eq!(
        saved,
        SavedRun {
            id: "run-1".to_string(),
            platform_id: "chatgpt".to_string(),
            filename: "chatgpt".to_string(),
            company: "OpenAI".to_string(),
            name: "ChatGPT".to_string(),
            start_date: "2023-11-14T22:13:20.000Z".to_string(),
            end_date: Some("2023-11-14T22:13:20.000Z".to_string()),
            status: "success".to_string(),
            export_path: Some("/data/run-1".to_string()),
            items_exported: Some(3),
            item_label: None,
        }
    );
    let unnamed = saved_run("r", "chatgpt", "OpenAI", "/d", "x".to_string(), &parse("{\"name\":5}"));
    assert_eq!(unnamed.name, "chatgpt");
    assert_eq!(saved_run("r", "chatgpt", "OpenAI", "/d", "x".to_string(), &None).name, "chatgpt");
}

#[test]
fn dates_are_written_with_milliseconds() {
    assert_eq!(start_date(1_700_000_000, "now"), "2023-11-14T22:13:20.000Z");
    assert_eq!(start_date(0, "now"), "1970-01-01T00:00:00.000Z");
    assert_eq!(start_date(u64::MAX, "now"), "now");
    assert_eq!(start_date(i64::MAX as u64, "now"), "now");
}

#[test]
fn runs_are_sorted_latest_first() {
    let sorted = sort_runs(vec![
        run("a", "2023-01-01T00:00:00.000Z"),
        run("b", "2024-06-01T00:00:00.000Z"),
        run("c", "2023-01-01T00:00:00.000Z"),
        run("d", "2023-12-31T23:59:59.999Z"),
        run("e", ""),
        run("f", "2024-06-01T00:00:00.000Z"),
    ]);
    let ids: Vec<&str> = sorted.iter().map(|r| r.id.as_str()).collect();
    assert_eq!(ids, vec!["b", "f", "d", "a", "c", "e"]);
    assert_eq!(sort_runs(vec![]), vec![]);
    let mut expected = vec![run("x", "b"), run("y", "a"), run("z", "ab"), run("w", "é")];
    let sorted = sort_runs(expected.clone());
    expected.sort_by(|a, b| b.start_date.cmp(&a.start_date));
    assert_eq!(sorted, expected);
}

#[test]
fn texts_are_ordered_as_strings_are() {
    let samples = ["", "a", "ab", "b", "B", "é", "z", "日本", "a\u{10ffff}", "aa"];
    for a in samples {
        for b in samples {
            assert_eq!(text_before_or_same(a, b), a <= b, "{:?} {:?}", a, b);
        }
    }
}

#[test]
fn exports_are_named_and_written() {
    assert_eq!(export_file_name("chatgpt-001", 1_700_000_000), "chatgpt-001_1700000000.json");
    let content = parse("{\"platform\":\"ChatGPT\"}");
    assert_eq!(export_name(Some("Given".to_string()), &content, "id"), "Given");
    assert_eq!(export_name(None, &content, "id"), "ChatGPT");
    assert_eq!(export_name(None, &parse("{\"platform\":1}"), "id"), "id");
    assert_eq!(export_name(None, &None, "id"), "id");
    let text = encode_run_data("Open\"AI", "ChatGPT", "run-1", 17, "{\"a\":[1]}");
    assert_eq!(
        text,
        "{\"company\":\"Open\\\"AI\",\"name\":\"ChatGPT\",\"runID\":\"run-1\",\"timestamp\":17,\"content\":{\"a\":[1]}}"
    );
    let parsed: serde_json::Value = serde_json::from_str(&text).unwrap();
    assert_eq!(parsed["company"], "Open\"AI");
    assert_eq!(parsed["content"]["a"][0], 1);
}

#[test]
fn metadata_is_read_from_its_file() {
    let text = "{\"name\":\"ChatGPT\",\"description\":\"d\",\"connectURL\":\"https://c\",\"connectSelector\":\"#s\",\"vectorize_config\":{\"k\":[1]},\"runtime\":\"playwright\",\"extra\":1}";
    let metadata = parse_metadata(text).unwrap();
    assert_eq!(
        metadata,
        ConnectorMetadata {
            id: None,
            name: "ChatGPT".to_string(),
            company: None,
            description: "d".to_string(),
            connect_url: "https://c".to_string(),
            connect_selector: "#s".to_string(),
            export_frequency: None,
            vectorize_config: Some("{\"k\":[1]}".to_string()),
            runtime: Some("playwright".to_string()),
        }
    );
    let listed = platform_from_metadata(metadata.clone(), "chatgpt-playwright", Some("openai"));
    assert_eq!(listed.id, "chatgpt-playwright-001");
    assert_eq!(listed.company, "openai");
    assert_eq!(listed.filename, "chatgpt-playwright");
    assert_eq!(listed.logo_url, "chatgpt-playwright");
    assert!(!listed.is_updated);
    assert!(listed.needs_connection);
    assert_eq!(listed.connect_url, Some("https://c".to_string()));
    assert_eq!(listed.connect_selector, Some("#s".to_string()));
    assert_eq!(listed.vectorize_config, Some("{\"k\":[1]}".to_string()));
    assert_eq!(listed.runtime, Some("playwright".to_string()));
    assert_eq!(platform_from_metadata(metadata.clone(), "x", None).company, "Unknown");
    let named = ConnectorMetadata {
        id: Some("own".to_string()),
        company: Some("Own".to_string()),
        ..metadata
    };
    let listed = platform_from_metadata(named, "x", Some("dir"));
    assert_eq!(listed.id, "own");
    assert_eq!(listed.company, "Own");
    for text in [
        "{}",
        "[]",
        "{\"name\":\"n\",\"description\":\"d\",\"connectURL\":\"u\"}",
        "{\"name\":1,\"description\":\"d\",\"connectURL\":\"u\",\"connectSelector\":\"s\"}",
        "{\"name\":\"n\",\"description\":\"d\",\"connectURL\":\"u\",\"connectSelector\":\"s\",\"id\":5}",
    ] {
        assert_eq!(parse_metadata(text), None);
    }
    assert!(is_connector_metadata("chatgpt", "openai"));
    assert!(!is_connector_metadata("connector", "openai"));
    assert!(!is_connector_metadata("chatgpt", "schemas"));
    assert!(!is_connector_metadata("chatgpt", "types"));
}

#[test]
fn user_connectors_take_the_place_of_bundled_ones() {
    let merged = merge_platforms(
        vec![platform("a", "bundled"), platform("b", "bundled"), platform("c", "bundled")],
        vec![platform("b", "user"), platform("d", "user")],
    );
    assert_eq!(
        merged,
        vec![platform("a", "bundled"), platform("c", "bundled"), platform("b", "user"), platform("d", "user")]
    );
    let merged = merge_platforms(
        vec![platform("a", "1"), platform("a", "2")],
        vec![platform("x", "3"), platform("x", "4"), platform("a", "5")],
    );
    assert_eq!(merged, vec![platform("x", "4"), platform("a", "5")]);
    assert_eq!(
        merge_platforms(vec![platform("a", "1"), platform("a", "2")], vec![]),
        vec![platform("a", "1"), platform("a", "2")]
    );
    assert_eq!(merge_platforms(vec![], vec![]), vec![]);
}

#[test]
fn placeholders_are_filled_in() {
    assert_eq!(
        landing_page("<a id=\"%PRIVY_APP_ID%\" c=\"%PRIVY_CLIENT_ID%\">%PRIVY_APP_ID%</a>", "app", "client"),
        "<a id=\"app\" c=\"client\">app</a>"
    );
    assert_eq!(landing_page("plain", "app", "client"), "plain");
    assert_eq!(landing_page("%PRIVY_APP_ID%", "%PRIVY_CLIENT_ID%", "x"), "x");
    for (text, pattern, with) in [
        ("aaa", "aa", "b"),
        ("abcabc", "bc", ""),
        ("abc", "abc", "xyz"),
        ("abc", "abcd", "x"),
        ("", "a", "b"),
        ("ééé", "é", "e"),
        ("a-b-c", "-", "--"),
        ("aXbXc", "X", "X"),
    ] {
        assert_eq!(replace_all(text, pattern, with), text.replace(pattern, with));
    }
    assert_eq!(replace_all("abc", "", "x"), "abc");
}

#[test]
fn assets_are_served_with_their_media_type() {
    assert_eq!(
        asset_head("assets/app.js", 12),
        "HTTP/1.1 200 OK\r\nContent-Type: text/javascript\r\nCache-Control: no-store\r\nContent-Length: 12\r\n\r\n"
    );
    assert!(asset_head("favicon.ico", 0).contains("Content-Type: image/x-icon\r\n"));
    assert!(asset_head("fonts/a.woff2", 0).contains("Content-Type: font/woff2\r\n"));
    assert!(asset_head("assets/unknown.zzzz", 0).contains("Content-Type: application/octet-stream\r\n"));
    assert!(asset_head("noext", 0).contains("Content-Type: application/octet-stream\r\n"));
    assert_eq!(
        asset_head_for("text/css", 5),
        "HTTP/1.1 200 OK\r\nContent-Type: text/css\r\nCache-Control: no-store\r\nContent-Length: 5\r\n\r\n"
    );
}

#[test]
fn runs_are_driven_by_a_helper_or_a_window() {
    assert_eq!(run_kind(Some("playwright")), RunKind::Helper);
    assert_eq!(run_kind(Some("network-capture")), RunKind::Window { network_capture: true });
    assert_eq!(run_kind(Some("vanilla")), RunKind::Window { network_capture: false });
    assert_eq!(run_kind(Some("Playwright")), RunKind::Window { network_capture: false });
    assert_eq!(run_kind(None), RunKind::Window { network_capture: false });
    assert_eq!(window_label("run-1"), "connector-run-1");
    assert_eq!(window_of_close_request("{\"runId\":\"r7\"}"), Some("connector-r7".to_string()));
    assert_eq!(window_of_close_request("{\"runId\":7}"), None);
    assert_eq!(window_of_close_request("{}"), None);
    assert_eq!(window_of_close_request("r7"), None);
    assert_eq!(close_request_window(None), None);
    assert_eq!(POLL_LIMIT, 300);
    assert_eq!(POLL_INTERVAL_MS, 1000);
    assert_eq!(SCRIPT_SETTLE_MS, 200);
    assert!(poll_again(0));
    assert!(poll_again(299));
    assert!(!poll_again(300));
}

#[test]
fn reports_are_read_from_the_fragment() {
    assert_eq!(
        read_poll_fragment("https://chat.example/c/1#DATACONNECT_abc="),
        Some("abc=".to_string())
    );
    assert_eq!(read_poll_fragment("https://x/#DATACONNECT_"), Some("".to_string()));
    assert_eq!(
        read_poll_fragment("https://x/#DATACONNECT_a#DATACONNECT_b"),
        Some("a#DATACONNECT_b".to_string())
    );
    assert_eq!(read_poll_fragment("https://x/#dataconnect_abc"), None);
    assert_eq!(read_poll_fragment("https://x/#other"), None);
    // {"type":"RESULT","data":{"totalConversations":3,"x":"é"}}
    let result = "eyJ0eXBlIjoiUkVTVUxUIiwiZGF0YSI6eyJ0b3RhbENvbnZlcnNhdGlvbnMiOjMsIngiOiLDqSJ9fQ==";
    assert_eq!(
        decode_poll_fragment(result),
        PollMessage::Result { data: "{\"totalConversations\":3,\"x\":\"é\"}".to_string(), total: 3 }
    );
    // {"type":"STATUS","data":{"type":"COLLECTING","message":"page 2"}}
    let status = "eyJ0eXBlIjoiU1RBVFVTIiwiZGF0YSI6eyJ0eXBlIjoiQ09MTEVDVElORyIsIm1lc3NhZ2UiOiJwYWdlIDIifX0=";
    assert_eq!(
        decode_poll_fragment(status),
        PollMessage::Status {
            data: "{\"message\":\"page 2\",\"type\":\"COLLECTING\"}".to_string(),
            message: Some("page 2".to_string()),
        }
    );
    // {"type":"RESULT"}
    assert_eq!(
        decode_poll_fragment("eyJ0eXBlIjoiUkVTVUxUIn0="),
        PollMessage::Result { data: "null".to_string(), total: 0 }
    );
    // {"type":"STATUS","data":"plain"}
    assert_eq!(
        decode_poll_fragment("eyJ0eXBlIjoiU1RBVFVTIiwiZGF0YSI6InBsYWluIn0="),
        PollMessage::Status { data: "\"plain\"".to_string(), message: None }
    );
    // {"type":"OTHER"}
    assert_eq!(decode_poll_fragment("eyJ0eXBlIjoiT1RIRVIifQ=="), PollMessage::Other);
    assert_eq!(decode_poll_fragment("_eyJ0eXBlIjoiUkVTVUxUIn0="), PollMessage::Other);
    assert_eq!(decode_poll_fragment("not base64!"), PollMessage::Other);
    assert_eq!(decode_poll_fragment(""), PollMessage::Other);
    // bytes ff fe
    assert_eq!(decode_poll_fragment("//4="), PollMessage::Other);
}

#[test]
fn reports_become_events() {
    let ctx = RunContext {
        run_id: "run-1".to_string(),
        platform_id: "p".to_string(),
        company: "c".to_string(),
        name: "n".to_string(),
    };
    let reply = poll_reply(&ctx, &PollMessage::Result { data: "{\"k\":1}".to_string(), total: 3 }, 9);
    assert!(reply.finished);
    assert_eq!(reply.events.len(), 2);
    assert_eq!(reply.events[0].name, "connector-status");
    assert_eq!(
        reply.events[0].payload,
        "{\"runId\":\"run-1\",\"status\":{\"type\":\"COMPLETE\",\"message\":\"Exported 3 conversations\",\"data\":{\"k\":1}},\"timestamp\":9}"
    );
    assert_eq!(reply.events[1].name, "export-complete");
    assert_eq!(
        reply.events[1].payload,
        "{\"runId\":\"run-1\",\"platformId\":\"p\",\"company\":\"c\",\"name\":\"n\",\"data\":{\"k\":1},\"timestamp\":9}"
    );
    let reply = poll_reply(
        &ctx,
        &PollMessage::Status { data: "{\"type\":\"X\"}".to_string(), message: Some("m".to_string()) },
        9,
    );
    assert!(!reply.finished);
    assert_eq!(reply.events.len(), 2);
    assert_eq!(reply.events[0].payload, "{\"runId\":\"run-1\",\"status\":{\"type\":\"X\"},\"timestamp\":9}");
    assert_eq!(reply.events[1].name, "connector-log");
    assert_eq!(reply.events[1].payload, "{\"runId\":\"run-1\",\"message\":\"m\",\"timestamp\":9}");
    let reply = poll_reply(&ctx, &PollMessage::Status { data: "1".to_string(), message: None }, 9);
    assert_eq!(reply.events.len(), 1);
    let reply = poll_reply(&ctx, &PollMessage::Other, 9);
    assert!(!reply.finished);
    assert!(reply.events.is_empty());
    assert_eq!(
        timeout_event("run-1", 9).payload,
        "{\"runId\":\"run-1\",\"status\":{\"type\":\"ERROR\",\"message\":\"Polling timeout\"},\"timestamp\":9}"
    );
}
