use dataconnect::events::AppEvent;
use dataconnect::proxy::{
    gateway_url, plan_proxy, translate_upstream, try_handle_proxy_route, HttpMethod,
    OutboundRequest, ProxyStep, UpstreamResult, DEFAULT_GATEWAY_URL, HTTP_CONNECT_TIMEOUT_SECS,
    HTTP_REQUEST_TIMEOUT_SECS,
};
use dataconnect::route::ProxyRoute;

const GATEWAY: &str = "https://gateway.example";

fn answered(status: u16, body: &str) -> UpstreamResult {
    UpstreamResult::Answered { status, body: body.to_string() }
}

fn failed(message: &str) -> UpstreamResult {
    UpstreamResult::Failed { message: message.to_string() }
}

#[test]
fn gateway_is_the_first_setting_that_is_not_blank() {
    let some = |s: &str| Some(s.to_string());
    assert_eq!(gateway_url(&some("https://a"), &some("https://b")), "https://a");
    assert_eq!(gateway_url(&some("  "), &some("https://b")), "https://b");
    assert_eq!(gateway_url(&None, &some("https://b")), "https://b");
    assert_eq!(gateway_url(&some(""), &some(" \t")), DEFAULT_GATEWAY_URL);
    assert_eq!(gateway_url(&None, &None), "https://data-gateway-env-dev-opendatalabs.vercel.app");
    assert_eq!(HTTP_CONNECT_TIMEOUT_SECS, 3);
    assert_eq!(HTTP_REQUEST_TIMEOUT_SECS, 10);
}

#[test]
fn health_is_asked_of_the_running_helper() {
    assert_eq!(
        plan_proxy(ProxyRoute::ServerIdentity, "/server-identity", None, Some(8080), GATEWAY),
        ProxyStep::Forward(OutboundRequest {
            method: HttpMethod::Get,
            url: "http://localhost:8080/health".to_string(),
            authorization: None,
            json_body: None,
        })
    );
    match plan_proxy(ProxyRoute::ServerIdentity, "/server-identity", None, None, GATEWAY) {
        ProxyStep::Respond(response) => {
            assert_eq!(response.status, 503);
            assert_eq!(response.body, "");
        }
        other => panic!("unexpected step {:?}", other),
    }
}

#[test]
fn registration_sends_the_message_signed() {
    let body = "{\"signature\":\"0xsig\",\"message\":{\"b\":[1,2],\"a\":\"x\"}}";
    assert_eq!(
        plan_proxy(ProxyRoute::RegisterServer, "/register-server", Some(body), None, GATEWAY),
        ProxyStep::Forward(OutboundRequest {
            method: HttpMethod::Post,
            url: "https://gateway.example/v1/servers".to_string(),
            authorization: Some("Web3Signed 0xsig".to_string()),
            json_body: Some("{\"a\":\"x\",\"b\":[1,2]}".to_string()),
        })
    );
    assert_eq!(
        plan_proxy(ProxyRoute::RegisterServer, "/register-server", Some("{}"), None, GATEWAY),
        ProxyStep::Forward(OutboundRequest {
            method: HttpMethod::Post,
            url: "https://gateway.example/v1/servers".to_string(),
            authorization: Some("Web3Signed ".to_string()),
            json_body: Some("null".to_string()),
        })
    );
    let scalar = "{\"signature\":7,\"message\":\"say \\\"hi\\\"\"}";
    assert_eq!(
        plan_proxy(ProxyRoute::RegisterServer, "/register-server", Some(scalar), None, GATEWAY),
        ProxyStep::Forward(OutboundRequest {
            method: HttpMethod::Post,
            url: "https://gateway.example/v1/servers".to_string(),
            authorization: Some("Web3Signed ".to_string()),
            json_body: Some("\"say \\\"hi\\\"\"".to_string()),
        })
    );
}

#[test]
fn requests_without_a_usable_body_are_dropped() {
    for route in [ProxyRoute::RegisterServer, ProxyRoute::DeregisterServer] {
        assert_eq!(plan_proxy(route, "/x", None, Some(1), GATEWAY), ProxyStep::Drop);
        assert_eq!(plan_proxy(route, "/x", Some("{not-json"), Some(1), GATEWAY), ProxyStep::Drop);
        assert_eq!(plan_proxy(route, "/x", Some("[1]"), Some(1), GATEWAY), ProxyStep::Drop);
    }
}

#[test]
fn lookup_needs_an_address() {
    assert_eq!(
        plan_proxy(ProxyRoute::CheckServerUrl, "/check-server-url?address=0xabc&x=1", None, None, GATEWAY),
        ProxyStep::Forward(OutboundRequest {
            method: HttpMethod::Get,
            url: "https://gateway.example/v1/servers/0xabc".to_string(),
            authorization: None,
            json_body: None,
        })
    );
    match plan_proxy(ProxyRoute::CheckServerUrl, "/check-server-url?address=", None, None, GATEWAY) {
        ProxyStep::Respond(response) => {
            assert_eq!(response.status, 400);
            assert_eq!(response.body, "{\"error\":\"Missing address parameter\"}");
            assert!(response.encode().contains("Access-Control-Allow-Methods: GET, POST, DELETE, OPTIONS\r\n"));
        }
        other => panic!("unexpected step {:?}", other),
    }
}

#[test]
fn deregistration_sends_owner_and_deadline() {
    let body = "{\"serverAddress\":\"0xserver\",\"signature\":\"0xsig\",\"ownerAddress\":\"0x\\\"own\",\"deadline\":1700000000}";
    assert_eq!(
        plan_proxy(ProxyRoute::DeregisterServer, "/deregister-server", Some(body), None, GATEWAY),
        ProxyStep::Forward(OutboundRequest {
            method: HttpMethod::Delete,
            url: "https://gateway.example/v1/servers/0xserver".to_string(),
            authorization: Some("Web3Signed 0xsig".to_string()),
            json_body: Some("{\"ownerAddress\":\"0x\\\"own\",\"deadline\":1700000000}".to_string()),
        })
    );
    for deadline in ["-5", "1.5", "\"7\"", "null", "18446744073709551616"] {
        let body = format!("{{\"deadline\":{}}}", deadline);
        assert_eq!(
            plan_proxy(ProxyRoute::DeregisterServer, "/deregister-server", Some(&body), None, GATEWAY),
            ProxyStep::Forward(OutboundRequest {
                method: HttpMethod::Delete,
                url: "https://gateway.example/v1/servers/".to_string(),
                authorization: Some("Web3Signed ".to_string()),
                json_body: Some("{\"ownerAddress\":\"\",\"deadline\":0}".to_string()),
            })
        );
    }
    let max = "{\"deadline\":18446744073709551615}";
    match plan_proxy(ProxyRoute::DeregisterServer, "/deregister-server", Some(max), None, GATEWAY) {
        ProxyStep::Forward(request) => assert_eq!(
            request.json_body,
            Some("{\"ownerAddress\":\"\",\"deadline\":18446744073709551615}".to_string())
        ),
        other => panic!("unexpected step {:?}", other),
    }
}

#[test]
fn only_proxied_calls_are_planned() {
    assert_eq!(try_handle_proxy_route("GET", "/", "/", None, None, GATEWAY), None);
    assert_eq!(
        try_handle_proxy_route("POST", "/check-server-url", "/check-server-url", None, None, GATEWAY),
        None
    );
    assert_eq!(
        try_handle_proxy_route(
            "GET",
            "/check-server-url?address=7",
            "/check-server-url",
            None,
            None,
            GATEWAY
        ),
        Some(ProxyStep::Forward(OutboundRequest {
            method: HttpMethod::Get,
            url: "https://gateway.example/v1/servers/7".to_string(),
            authorization: None,
            json_body: None,
        }))
    );
}

#[test]
fn registration_publishes_the_identifier_for_200_201_and_409() {
    for status in [200u16, 201, 409] {
        let reply = translate_upstream(
            ProxyRoute::RegisterServer,
            &answered(status, "{\"serverId\":\"srv-1\",\"other\":true}"),
        );
        assert_eq!(reply.response.status, status);
        assert_eq!(reply.response.body, "{\"serverId\":\"srv-1\",\"other\":true}");
        assert_eq!(
            reply.event,
            Some(AppEvent {
                name: "server-registered".to_string(),
                payload: format!("{{\"status\":{},\"serverId\":\"srv-1\"}}", status),
            })
        );
    }
}

#[test]
fn registration_publishes_nothing_for_other_statuses() {
    for status in [100u16, 199, 202, 204, 301, 400, 401, 404, 408, 410, 500, 502] {
        let reply =
            translate_upstream(ProxyRoute::RegisterServer, &answered(status, "{\"serverId\":\"srv-1\"}"));
        assert_eq!(reply.response.status, status);
        assert_eq!(reply.event, None);
    }
    assert_eq!(translate_upstream(ProxyRoute::RegisterServer, &failed("down")).event, None);
    for route in [ProxyRoute::ServerIdentity, ProxyRoute::CheckServerUrl, ProxyRoute::DeregisterServer] {
        assert_eq!(translate_upstream(route, &answered(200, "{\"serverId\":\"srv-1\"}")).event, None);
    }
}

#[test]
fn registration_without_an_identifier_publishes_null() {
    for body in ["{}", "not json", "{\"serverId\":5}", "[\"serverId\"]"] {
        let reply = translate_upstream(ProxyRoute::RegisterServer, &answered(200, body));
        assert_eq!(
            reply.event,
            Some(AppEvent {
                name: "server-registered".to_string(),
                payload: "{\"status\":200,\"serverId\":null}".to_string(),
            })
        );
        assert_eq!(reply.response.body, body);
    }
}

#[test]
fn failed_calls_are_bad_gateways() {
    for route in [
        ProxyRoute::ServerIdentity,
        ProxyRoute::RegisterServer,
        ProxyRoute::CheckServerUrl,
        ProxyRoute::DeregisterServer,
    ] {
        let reply = translate_upstream(route, &failed("connection \"refused\""));
        assert_eq!(reply.response.status, 502);
        assert_eq!(reply.response.body, "{\"error\":\"connection \\\"refused\\\"\"}");
        assert!(reply.response.encode().starts_with("HTTP/1.1 502 Bad Gateway\r\n"));
    }
}

#[test]
fn health_is_passed_on_as_it_is() {
    for (status, body) in [(200u16, "{\"ok\":1}"), (204, ""), (404, "{}"), (500, "down"), (503, "")] {
        let reply = translate_upstream(ProxyRoute::ServerIdentity, &answered(status, body));
        assert_eq!(reply.response.status, status);
        assert_eq!(reply.response.body, body);
        assert_eq!(reply.event, None);
    }
    assert_eq!(
        translate_upstream(ProxyRoute::ServerIdentity, &answered(200, "{\"ok\":1}")).response.encode(),
        "HTTP/1.1 200 OK\r\nContent-Type: application/json\r\nAccess-Control-Allow-Origin: *\r\nAccess-Control-Allow-Methods: GET, POST, OPTIONS\r\nAccess-Control-Allow-Headers: Content-Type\r\nContent-Length: 8\r\n\r\n{\"ok\":1}"
    );
}

#[test]
fn failed_health_check_is_a_bad_gateway() {
    let reply = translate_upstream(ProxyRoute::ServerIdentity, &failed("connection refused"));
    assert_eq!(reply.response.status, 502);
    assert_eq!(reply.response.body, "{\"error\":\"connection refused\"}");
    assert_eq!(reply.event, None);
    assert!(reply.response.encode().contains("Access-Control-Allow-Methods: GET, POST, OPTIONS\r\n"));
}

#[test]
fn gateway_answers_are_passed_on() {
    let reply = translate_upstream(ProxyRoute::CheckServerUrl, &answered(404, "{\"error\":\"none\"}"));
    assert_eq!(
        reply.response.encode(),
        "HTTP/1.1 404 Not Found\r\nContent-Type: application/json\r\nAccess-Control-Allow-Origin: *\r\nAccess-Control-Allow-Methods: GET, POST, DELETE, OPTIONS\r\nAccess-Control-Allow-Headers: Content-Type, Authorization\r\nContent-Length: 16\r\n\r\n{\"error\":\"none\"}"
    );
}
