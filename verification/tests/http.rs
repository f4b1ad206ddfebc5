use dataconnect::http::{
    blank_line, content_length_field, content_type_field, decode_text, json_content_type,
    parse_request_line, read_content_length, read_content_type, read_utf8_body, RequestLine,
    MAX_BODY_BYTES,
};
use dataconnect::response::{
    accepted, bare_response, build_callback_reject_response, json_response, not_found,
    page_response, preflight, reason_phrase, rejection, CorsPolicy, HeaderField, HttpResponse,
};
use dataconnect::route::{dispatch, proxy_route, ProxyRoute, Route};
use dataconnect::callback_state::CallbackRejectReason;

fn lines(list: &[&str]) -> Vec<String> {
    list.iter().map(|s| s.to_string()).collect()
}

#[test]
fn request_line_is_split_into_its_words() {
    assert_eq!(
        parse_request_line("POST /auth-callback?state=1 HTTP/1.1\r\n"),
        Some(RequestLine {
            method: "POST".to_string(),
            target: "/auth-callback?state=1".to_string(),
            version: "HTTP/1.1".to_string(),
        })
    );
    assert_eq!(
        parse_request_line("  GET \t /  "),
        Some(RequestLine {
            method: "GET".to_string(),
            target: "/".to_string(),
            version: "".to_string(),
        })
    );
    assert_eq!(
        parse_request_line("GET\u{a0}/x\u{3000}HTTP/1.0 extra"),
        Some(RequestLine {
            method: "GET".to_string(),
            target: "/x".to_string(),
            version: "HTTP/1.0".to_string(),
        })
    );
}

#[test]
fn request_line_needs_two_words() {
    assert_eq!(parse_request_line(""), None);
    assert_eq!(parse_request_line("\r\n"), None);
    assert_eq!(parse_request_line("GET"), None);
    assert_eq!(parse_request_line("   GET   \r\n"), None);
}

#[test]
fn request_line_agrees_with_split_whitespace() {
    for line in ["a b c", " a  b", "a\tb\nc d", "x", "é ü ö ä", "\u{2003}p\u{2003}q\u{2003}"] {
        let words: Vec<&str> = line.split_whitespace().collect();
        let parsed = parse_request_line(line);
        if words.len() < 2 {
            assert_eq!(parsed, None);
        } else {
            let parsed = parsed.unwrap();
            assert_eq!(parsed.method, words[0]);
            assert_eq!(parsed.target, words[1]);
            assert_eq!(parsed.version, if words.len() > 2 { words[2] } else { "" });
        }
    }
}

#[test]
fn words_are_parted_by_what_the_standard_library_calls_white_space() {
    for code in (0u32..0x3100).chain([0xfeff, 0x1d11e, 0x10ffff]) {
        let Some(c) = char::from_u32(code) else {
            continue;
        };
        let line = format!("a{}b c", c);
        let parsed = parse_request_line(&line).unwrap();
        if c.is_whitespace() {
            assert_eq!((parsed.method.as_str(), parsed.target.as_str()), ("a", "b"), "U+{:04X}", code);
            assert_eq!(parsed.version, "c");
        } else {
            assert_eq!(parsed.method, format!("a{}b", c), "U+{:04X}", code);
            assert_eq!(parsed.target, "c");
        }
    }
}

#[test]
fn header_names_are_matched_without_regard_to_ascii_case() {
    for name in ["content-length", "CONTENT-LENGTH", "Content-Length", "cOnTeNt-LeNgTh"] {
        assert_eq!(content_length_field(&format!("{}: 5\r\n", name)), Some(5));
    }
    for name in ["content\u{2010}length", "c\u{3bf}ntent-length", "\u{212a}ontent-length", " content-length"] {
        assert_eq!(content_length_field(&format!("{}: 5\r\n", name)), None);
    }
}

#[test]
fn blank_lines_end_the_headers() {
    assert!(blank_line("\r\n"));
    assert!(blank_line("\n"));
    assert!(blank_line(""));
    assert!(!blank_line(" \r\n"));
    assert!(!blank_line("Host: x\r\n"));
}

#[test]
fn content_length_is_read_from_its_header() {
    assert_eq!(content_length_field("Content-Length: 42\r\n"), Some(42));
    assert_eq!(content_length_field("content-length:7"), Some(7));
    assert_eq!(content_length_field("CONTENT-LENGTH:   +9  \r\n"), Some(9));
    assert_eq!(content_length_field("Content-Length: 12:34\r\n"), Some(12));
    assert_eq!(content_length_field("Content-Length: 0012\r\n"), Some(12));
    assert_eq!(content_length_field("Content-Length: abc\r\n"), Some(0));
    assert_eq!(content_length_field("Content-Length: -1\r\n"), Some(0));
    assert_eq!(content_length_field("Content-Length: 1 2\r\n"), Some(0));
    assert_eq!(content_length_field("Content-Length:\r\n"), Some(0));
    assert_eq!(content_length_field("Content-Length: 99999999999999999999999\r\n"), Some(0));
    assert_eq!(content_length_field("Content-Lengthy: 3\r\n"), None);
    assert_eq!(content_length_field("X-Content-Length: 3\r\n"), None);
    assert_eq!(content_length_field("Host: localhost\r\n"), None);
    assert_eq!(
        content_length_field(&format!("Content-Length: {}\r\n", usize::MAX)),
        Some(usize::MAX)
    );
}

#[test]
fn last_content_length_before_the_blank_line_counts() {
    assert_eq!(read_content_length(&lines(&[])), 0);
    assert_eq!(read_content_length(&lines(&["Host: x\r\n", "\r\n"])), 0);
    assert_eq!(
        read_content_length(&lines(&["Content-Length: 5\r\n", "Content-Length: 8\r\n", "\r\n"])),
        8
    );
    assert_eq!(
        read_content_length(&lines(&["Content-Length: 5\r\n", "\r\n", "Content-Length: 8\r\n"])),
        5
    );
    assert_eq!(
        read_content_length(&lines(&["Content-Length: 5\r\n", "Content-Length: x\r\n"])),
        0
    );
}

#[test]
fn content_type_is_read_from_its_header() {
    assert_eq!(
        content_type_field("Content-Type: application/json; charset=utf-8\r\n"),
        Some("application/json; charset=utf-8".to_string())
    );
    assert_eq!(content_type_field("content-type:text/plain"), Some("text/plain".to_string()));
    assert_eq!(content_type_field("Content-Type:\r\n"), Some("".to_string()));
    assert_eq!(content_type_field("Content-Length: 3\r\n"), None);
    assert_eq!(
        read_content_type(&lines(&["Content-Type: a/b\r\n", "Content-Type: c/d\r\n", "\r\n"])),
        Some("c/d".to_string())
    );
    assert_eq!(read_content_type(&lines(&["\r\n", "Content-Type: c/d\r\n"])), None);
}

#[test]
fn json_content_types_are_recognised() {
    assert!(json_content_type(Some("application/json")));
    assert!(json_content_type(Some("Application/JSON; charset=utf-8")));
    assert!(json_content_type(Some("  application/json  ;x")));
    assert!(!json_content_type(Some("application/json+ld")));
    assert!(!json_content_type(Some("text/json")));
    assert!(!json_content_type(Some("")));
    assert!(!json_content_type(None));
}

#[test]
fn body_is_the_declared_prefix_of_what_arrived() {
    assert_eq!(read_utf8_body(b"hello world", 5), Some("hello".to_string()));
    assert_eq!(read_utf8_body(b"hello", 5), Some("hello".to_string()));
    assert_eq!(read_utf8_body(b"hello", 0), None);
    assert_eq!(read_utf8_body(b"hell", 5), None);
    assert_eq!(read_utf8_body(b"", 0), None);
    assert_eq!(read_utf8_body("é".as_bytes(), 2), Some("é".to_string()));
    assert_eq!(read_utf8_body("é".as_bytes(), 1), None);
    assert_eq!(read_utf8_body(&[0xff, 0x41], 2), None);
}

#[test]
fn decoding_agrees_with_the_standard_library() {
    let samples: [&[u8]; 7] = [
        b"",
        b"plain",
        "grüße €".as_bytes(),
        "𝄞".as_bytes(),
        &[0xc3],
        &[0xed, 0xa0, 0x80],
        &[0xc0, 0x80],
    ];
    for bytes in samples {
        assert_eq!(decode_text(bytes), String::from_utf8(bytes.to_vec()).ok());
    }
}

#[test]
fn the_cap_is_thirty_two_kibibytes() {
    assert_eq!(MAX_BODY_BYTES, 32 * 1024);
}

#[test]
fn requests_are_routed_in_order() {
    assert_eq!(dispatch("OPTIONS", "/anything"), Route::Preflight);
    assert_eq!(dispatch("OPTIONS", "/auth-callback"), Route::Preflight);
    assert_eq!(dispatch("GET", "/"), Route::LandingPage);
    assert_eq!(dispatch("GET", "/?auth_state=x"), Route::LandingPage);
    assert_eq!(dispatch("GET", "/assets/app.js"), Route::Asset);
    assert_eq!(dispatch("GET", "/assets/app.js?v=2"), Route::Asset);
    assert_eq!(dispatch("GET", "/fonts/a.woff2"), Route::Asset);
    assert_eq!(dispatch("GET", "/favicon.ico"), Route::Asset);
    assert_eq!(dispatch("POST", "/auth-callback"), Route::AuthCallback);
    assert_eq!(dispatch("POST", "/auth-callback?callbackState=1"), Route::AuthCallback);
    assert_eq!(dispatch("POST", "/"), Route::AuthCallback);
    assert_eq!(dispatch("POST", "/?state=1"), Route::AuthCallback);
    assert_eq!(dispatch("GET", "/close-tab"), Route::CloseTab);
    assert_eq!(dispatch("GET", "/server-identity"), Route::Proxy(ProxyRoute::ServerIdentity));
    assert_eq!(dispatch("POST", "/register-server"), Route::Proxy(ProxyRoute::RegisterServer));
    assert_eq!(
        dispatch("GET", "/check-server-url?address=0xabc"),
        Route::Proxy(ProxyRoute::CheckServerUrl)
    );
    assert_eq!(dispatch("POST", "/deregister-server"), Route::Proxy(ProxyRoute::DeregisterServer));
}

#[test]
fn everything_else_is_not_found() {
    assert_eq!(dispatch("GET", "/auth-callback"), Route::NotFound);
    assert_eq!(dispatch("PUT", "/auth-callback"), Route::NotFound);
    assert_eq!(dispatch("POST", "/auth-callback/"), Route::NotFound);
    assert_eq!(dispatch("GET", "/close-tab?x=1"), Route::NotFound);
    assert_eq!(dispatch("POST", "/close-tab"), Route::NotFound);
    assert_eq!(dispatch("POST", "/server-identity"), Route::NotFound);
    assert_eq!(dispatch("GET", "/register-server"), Route::NotFound);
    assert_eq!(dispatch("DELETE", "/deregister-server"), Route::NotFound);
    assert_eq!(dispatch("get", "/"), Route::NotFound);
    assert_eq!(dispatch("GET", "/assets"), Route::NotFound);
    assert_eq!(dispatch("POST", "/assets/x"), Route::NotFound);
    assert_eq!(dispatch("", ""), Route::NotFound);
    assert_eq!(proxy_route("GET", "/"), None);
}

#[test]
fn responses_are_written_with_their_length() {
    assert_eq!(not_found().encode(), "HTTP/1.1 404 Not Found\r\nContent-Length: 0\r\n\r\n");
    assert_eq!(
        preflight().encode(),
        "HTTP/1.1 200 OK\r\nAccess-Control-Allow-Origin: *\r\nAccess-Control-Allow-Methods: POST, OPTIONS\r\nAccess-Control-Allow-Headers: Content-Type\r\nContent-Length: 0\r\n\r\n"
    );
    assert_eq!(
        bare_response(503, CorsPolicy::Local).encode(),
        "HTTP/1.1 503 Service Unavailable\r\nAccess-Control-Allow-Origin: *\r\nAccess-Control-Allow-Methods: GET, POST, OPTIONS\r\nAccess-Control-Allow-Headers: Content-Type\r\nContent-Length: 0\r\n\r\n"
    );
    assert_eq!(
        json_response(201, CorsPolicy::Gateway, "{\"é\":1}".to_string()).encode(),
        "HTTP/1.1 201 Created\r\nContent-Type: application/json\r\nAccess-Control-Allow-Origin: *\r\nAccess-Control-Allow-Methods: GET, POST, DELETE, OPTIONS\r\nAccess-Control-Allow-Headers: Content-Type, Authorization\r\nContent-Length: 8\r\n\r\n{\"é\":1}"
    );
    assert_eq!(
        page_response("<p>hi</p>".to_string()).encode(),
        "HTTP/1.1 200 OK\r\nContent-Type: text/html; charset=utf-8\r\nCache-Control: no-store\r\nContent-Length: 9\r\n\r\n<p>hi</p>"
    );
    let custom = HttpResponse {
        status: 418,
        headers: vec![HeaderField { name: "X-A".to_string(), value: "b".to_string() }],
        body: "x".to_string(),
    };
    assert_eq!(custom.encode(), "HTTP/1.1 418 Error\r\nX-A: b\r\nContent-Length: 1\r\n\r\nx");
}

#[test]
fn rejections_carry_status_and_code() {
    assert_eq!(
        build_callback_reject_response(CallbackRejectReason::ReplayedState),
        "HTTP/1.1 409 Conflict\r\nContent-Type: application/json\r\nAccess-Control-Allow-Origin: *\r\nAccess-Control-Allow-Methods: POST, OPTIONS\r\nAccess-Control-Allow-Headers: Content-Type\r\nContent-Length: 37\r\n\r\n{\"ok\":false,\"error\":\"REPLAYED_STATE\"}"
    );
    let unsupported = rejection(CallbackRejectReason::UnsupportedContentType);
    assert_eq!(unsupported.status, 415);
    assert_eq!(unsupported.body, "{\"ok\":false,\"error\":\"UNSUPPORTED_CONTENT_TYPE\"}");
    assert!(unsupported.encode().starts_with("HTTP/1.1 415 Unsupported Media Type\r\n"));
    assert_eq!(accepted().body, "{\"ok\":true}");
}

#[test]
fn statuses_have_their_phrases() {
    assert_eq!(reason_phrase(200), "OK");
    assert_eq!(reason_phrase(204), "OK");
    assert_eq!(reason_phrase(400), "Bad Request");
    assert_eq!(reason_phrase(401), "Unauthorized");
    assert_eq!(reason_phrase(409), "Conflict");
    assert_eq!(reason_phrase(500), "Internal Server Error");
    assert_eq!(reason_phrase(502), "Bad Gateway");
    assert_eq!(reason_phrase(599), "Error");
}
