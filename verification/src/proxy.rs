//! The calls that the loopback server passes on: to the health endpoint of
//! the local helper and to the remote registration gateway.
//!
//! The server plans the outbound call, the application makes it, and the
//! server turns what came back into its own answer.

use crate::decimal::{decimal_digits, push_decimal};
use crate::events::{
    opt_event, push_json_text, server_registered, server_registered_of, AppEvent, AppEventView,
};
use crate::http::{query_param, query_value};
use crate::json::{
    find_member, json_of, json_quoted, json_text, member, members_view, object_members, opt_members,
    opt_str, opt_text, parse_object, text_member, text_member_or_empty, text_of, text_or_empty,
    unsigned_member, unsigned_of, JsonMember, JsonMemberView,
};
use crate::response::{
    bare_response, bare_response_of, json_response, json_response_of, CorsPolicy, HttpResponse,
    HttpResponseView,
};
use crate::route::{proxy_route, proxy_route_of, ProxyRoute};
use crate::text::{chars_of, owned, skip_spaces, skip_spaces_in};
use vstd::prelude::*;
use vstd::string::StringExecFns;

verus! {

/// The gateway that is called where the environment names no other.
pub const DEFAULT_GATEWAY_URL: &'static str =
    "https://data-gateway-env-dev-opendatalabs.vercel.app";

/// Seconds allowed for connecting to an upstream server.
pub const HTTP_CONNECT_TIMEOUT_SECS: u64 = 3;

/// Seconds allowed for one upstream call.
pub const HTTP_REQUEST_TIMEOUT_SECS: u64 = 10;

/// Whether a setting holds anything but white space.
pub open spec fn is_set(value: Option<Seq<char>>) -> bool {
    match value {
        Some(v) => skip_spaces(v, 0, v.len() as int) < v.len(),
        None => false,
    }
}

/// The gateway to call: the first of the two settings that is not blank,
/// or the default.
pub open spec fn gateway_url_of(first: Option<Seq<char>>, second: Option<Seq<char>>) -> Seq<char> {
    if is_set(first) {
        first->0
    } else if is_set(second) {
        second->0
    } else {
        DEFAULT_GATEWAY_URL@
    }
}

fn setting_is_set(value: &Option<String>) -> (r: bool)
    ensures
        r == is_set(opt_text(*value)),
{
    match value {
        Some(s) => {
            let v = chars_of(s.as_str());
            skip_spaces_in(&v, 0, v.len()) < v.len()
        },
        None => false,
    }
}

pub fn gateway_url(first: &Option<String>, second: &Option<String>) -> (r: String)
    ensures
        r@ == gateway_url_of(opt_text(*first), opt_text(*second)),
{
    if setting_is_set(first) {
        match first {
            Some(s) => s.clone(),
            None => owned(DEFAULT_GATEWAY_URL),
        }
    } else if setting_is_set(second) {
        match second {
            Some(s) => s.clone(),
            None => owned(DEFAULT_GATEWAY_URL),
        }
    } else {
        owned(DEFAULT_GATEWAY_URL)
    }
}

/// The methods of outbound calls.
#[derive(Debug, Clone, Copy, PartialEq, Eq, Structural)]
pub enum HttpMethod {
    Get,
    Post,
    Delete,
}

/// One call to make on behalf of a request.
#[derive(Debug, Clone, PartialEq, Eq)]
pub struct OutboundRequest {
    pub method: HttpMethod,
    pub url: String,
    /// The value of the `Authorization` header, if one is sent.
    pub authorization: Option<String>,
    /// The JSON body, if one is sent.
    pub json_body: Option<String>,
}

pub ghost struct OutboundRequestView {
    pub method: HttpMethod,
    pub url: Seq<char>,
    pub authorization: Option<Seq<char>>,
    pub json_body: Option<Seq<char>>,
}

impl View for OutboundRequest {
    type V = OutboundRequestView;

    open spec fn view(&self) -> OutboundRequestView {
        OutboundRequestView {
            method: self.method,
            url: self.url@,
            authorization: opt_text(self.authorization),
            json_body: opt_text(self.json_body),
        }
    }
}

/// What to do with a proxied request.
#[derive(Debug, Clone, PartialEq, Eq)]
pub enum ProxyStep {
    /// Answer at once.
    Respond(HttpResponse),
    /// Write nothing and close the connection.
    Drop,
    /// Make this call and answer with what comes back.
    Forward(OutboundRequest),
}

pub ghost enum ProxyStepView {
    Respond(HttpResponseView),
    Drop,
    Forward(OutboundRequestView),
}

impl View for ProxyStep {
    type V = ProxyStepView;

    open spec fn view(&self) -> ProxyStepView {
        match *self {
            ProxyStep::Respond(r) => ProxyStepView::Respond(r@),
            ProxyStep::Drop => ProxyStepView::Drop,
            ProxyStep::Forward(o) => ProxyStepView::Forward(o@),
        }
    }
}

pub open spec fn authorization_of(signature: Seq<char>) -> Seq<char> {
    "Web3Signed "@ + signature
}

/// The health check of the helper that listens on `port`.
pub open spec fn identity_step(port: Option<u16>) -> ProxyStepView {
    match port {
        Some(p) => ProxyStepView::Forward(
            OutboundRequestView {
                method: HttpMethod::Get,
                url: "http://localhost:"@ + decimal_digits(p as nat) + "/health"@,
                authorization: None,
                json_body: None,
            },
        ),
        None => ProxyStepView::Respond(bare_response_of(503, CorsPolicy::Local)),
    }
}

/// The registration that a request body asks for: its `message` is sent to
/// the gateway, signed with its `signature`.
pub open spec fn register_step(
    gateway: Seq<char>,
    parsed: Option<Seq<JsonMemberView>>,
) -> ProxyStepView {
    match parsed {
        Some(members) => ProxyStepView::Forward(
            OutboundRequestView {
                method: HttpMethod::Post,
                url: gateway + "/v1/servers"@,
                authorization: Some(
                    authorization_of(text_or_empty(text_of(member(members, "signature"@)))),
                ),
                json_body: Some(json_of(member(members, "message"@))),
            },
        ),
        None => ProxyStepView::Drop,
    }
}

/// The lookup of the server registered for the `address` of the query.
pub open spec fn lookup_step(gateway: Seq<char>, target: Seq<char>) -> ProxyStepView {
    match query_value(target, "address"@) {
        Some(address) => ProxyStepView::Forward(
            OutboundRequestView {
                method: HttpMethod::Get,
                url: gateway + "/v1/servers/"@ + address,
                authorization: None,
                json_body: None,
            },
        ),
        None => ProxyStepView::Respond(
            json_response_of(
                400,
                CorsPolicy::Gateway,
                "{\"error\":\"Missing address parameter\"}"@,
            ),
        ),
    }
}

pub open spec fn deadline_of(members: Seq<JsonMemberView>) -> u64 {
    match unsigned_of(member(members, "deadline"@)) {
        Some(d) => d,
        None => 0,
    }
}

/// The body of a deregistration: the owner and the deadline of the request.
pub open spec fn deregister_body(members: Seq<JsonMemberView>) -> Seq<char> {
    "{\"ownerAddress\":"@ + json_quoted(text_or_empty(text_of(member(members, "ownerAddress"@))))
        + ",\"deadline\":"@ + decimal_digits(deadline_of(members) as nat) + "}"@
}

/// The deregistration that a request body asks for.
pub open spec fn deregister_step(
    gateway: Seq<char>,
    parsed: Option<Seq<JsonMemberView>>,
) -> ProxyStepView {
    match parsed {
        Some(members) => ProxyStepView::Forward(
            OutboundRequestView {
                method: HttpMethod::Delete,
                url: gateway + "/v1/servers/"@ + text_or_empty(
                    text_of(member(members, "serverAddress"@)),
                ),
                authorization: Some(
                    authorization_of(text_or_empty(text_of(member(members, "signature"@)))),
                ),
                json_body: Some(deregister_body(members)),
            },
        ),
        None => ProxyStepView::Drop,
    }
}

/// What to do with a proxied request. `parsed` holds the members of its
/// body, none where there is no body or the body is no JSON object.
pub open spec fn proxy_step(
    route: ProxyRoute,
    target: Seq<char>,
    parsed: Option<Seq<JsonMemberView>>,
    port: Option<u16>,
    gateway: Seq<char>,
) -> ProxyStepView {
    match route {
        ProxyRoute::ServerIdentity => identity_step(port),
        ProxyRoute::RegisterServer => register_step(gateway, parsed),
        ProxyRoute::CheckServerUrl => lookup_step(gateway, target),
        ProxyRoute::DeregisterServer => deregister_step(gateway, parsed),
    }
}

fn signed_by(members: &Vec<JsonMember>) -> (r: String)
    ensures
        r@ == authorization_of(
            text_or_empty(text_of(member(members_view(members@), "signature"@))),
        ),
{
    let signature = text_member_or_empty(members, "signature");
    let mut out = String::new();
    out.append("Web3Signed ");
    out.append(signature.as_str());
    assert(out@ =~= "Web3Signed "@ + signature@);
    out
}

/// Plans the call for a proxied request whose body was parsed already.
pub fn plan_proxy_step(
    route: ProxyRoute,
    target: &str,
    parsed: Option<&Vec<JsonMember>>,
    port: Option<u16>,
    gateway: &str,
) -> (r: ProxyStep)
    ensures
        r@ == proxy_step(route, target@, opt_members(parsed), port, gateway@),
{
    match route {
        ProxyRoute::ServerIdentity => match port {
            Some(p) => {
                let mut url = String::new();
                url.append("http://localhost:");
                push_decimal(&mut url, p as u64);
                url.append("/health");
                assert(url@ =~= "http://localhost:"@ + decimal_digits(p as nat) + "/health"@);
                ProxyStep::Forward(
                    OutboundRequest {
                        method: HttpMethod::Get,
                        url,
                        authorization: None,
                        json_body: None,
                    },
                )
            },
            None => ProxyStep::Respond(bare_response(503, CorsPolicy::Local)),
        },
        ProxyRoute::RegisterServer => match parsed {
            Some(members) => {
                let mut url = String::new();
                url.append(gateway);
                url.append("/v1/servers");
                assert(url@ =~= gateway@ + "/v1/servers"@);
                ProxyStep::Forward(
                    OutboundRequest {
                        method: HttpMethod::Post,
                        url,
                        authorization: Some(signed_by(members)),
                        json_body: Some(json_text(find_member(members, "message"))),
                    },
                )
            },
            None => ProxyStep::Drop,
        },
        ProxyRoute::CheckServerUrl => match query_param(target, "address") {
            Some(address) => {
                let mut url = String::new();
                url.append(gateway);
                url.append("/v1/servers/");
                url.append(address.as_str());
                assert(url@ =~= gateway@ + "/v1/servers/"@ + address@);
                ProxyStep::Forward(
                    OutboundRequest {
                        method: HttpMethod::Get,
                        url,
                        authorization: None,
                        json_body: None,
                    },
                )
            },
            None => ProxyStep::Respond(
                json_response(
                    400,
                    CorsPolicy::Gateway,
                    owned("{\"error\":\"Missing address parameter\"}"),
                ),
            ),
        },
        ProxyRoute::DeregisterServer => match parsed {
            Some(members) => {
                let address = text_member_or_empty(members, "serverAddress");
                let owner = text_member_or_empty(members, "ownerAddress");
                let deadline: u64 = match unsigned_member(members, "deadline") {
                    Some(d) => d,
                    None => 0,
                };
                let mut url = String::new();
                url.append(gateway);
                url.append("/v1/servers/");
                url.append(address.as_str());
                assert(url@ =~= gateway@ + "/v1/servers/"@ + address@);
                let mut body = String::new();
                body.append("{\"ownerAddress\":");
                push_json_text(&mut body, owner.as_str());
                body.append(",\"deadline\":");
                push_decimal(&mut body, deadline);
                body.append("}");
                assert(body@ =~= deregister_body(members_view(members@)));
                ProxyStep::Forward(
                    OutboundRequest {
                        method: HttpMethod::Delete,
                        url,
                        authorization: Some(signed_by(members)),
                        json_body: Some(body),
                    },
                )
            },
            None => ProxyStep::Drop,
        },
    }
}

/// The members of a request body, read as a JSON object.
pub open spec fn body_members(body: Option<Seq<char>>) -> Option<Seq<JsonMemberView>> {
    match body {
        Some(text) => object_members(text),
        None => None,
    }
}

/// Plans the call for a proxied request. `body` is the request body as
/// text, none where it is empty, cut short or not UTF-8.
pub fn plan_proxy(
    route: ProxyRoute,
    target: &str,
    body: Option<&str>,
    port: Option<u16>,
    gateway: &str,
) -> (r: ProxyStep)
    ensures
        r@ == proxy_step(route, target@, body_members(opt_str(body)), port, gateway@),
{
    let parsed = match body {
        Some(text) => parse_object(text),
        None => None,
    };
    plan_proxy_step(route, target, parsed.as_ref(), port, gateway)
}

pub open spec fn opt_step(step: Option<ProxyStep>) -> Option<ProxyStepView> {
    match step {
        Some(x) => Some(x@),
        None => None,
    }
}

/// Plans the call for a request if it is one of the proxied calls; none
/// where it is not, for the caller to go on with its other routes. `path`
/// is the request target, `request_path` its part before the query.
pub fn try_handle_proxy_route(
    method: &str,
    path: &str,
    request_path: &str,
    body: Option<&str>,
    port: Option<u16>,
    gateway: &str,
) -> (r: Option<ProxyStep>)
    ensures
        opt_step(r) == match proxy_route_of(method@, request_path@) {
            Some(route) => Some(
                proxy_step(route, path@, body_members(opt_str(body)), port, gateway@),
            ),
            None => None,
        },
{
    match proxy_route(method, request_path) {
        Some(route) => Some(plan_proxy(route, path, body, port, gateway)),
        None => None,
    }
}

/// What an outbound call came to.
#[derive(Debug, Clone, PartialEq, Eq)]
pub enum UpstreamResult {
    Answered { status: u16, body: String },
    /// The call could not be made or did not come back.
    Failed { message: String },
}

pub ghost enum UpstreamResultView {
    Answered { status: u16, body: Seq<char> },
    Failed { message: Seq<char> },
}

impl View for UpstreamResult {
    type V = UpstreamResultView;

    open spec fn view(&self) -> UpstreamResultView {
        match *self {
            UpstreamResult::Answered { status, body } => UpstreamResultView::Answered {
                status,
                body: body@,
            },
            UpstreamResult::Failed { message } => UpstreamResultView::Failed { message: message@ },
        }
    }
}

/// The answer to a proxied request and the event that goes with it.
#[derive(Debug, Clone, PartialEq, Eq)]
pub struct ProxyReply {
    pub response: HttpResponse,
    pub event: Option<AppEvent>,
}

pub ghost struct ProxyReplyView {
    pub response: HttpResponseView,
    pub event: Option<AppEventView>,
}

impl View for ProxyReply {
    type V = ProxyReplyView;

    open spec fn view(&self) -> ProxyReplyView {
        ProxyReplyView { response: self.response@, event: opt_event(self.event) }
    }
}

/// Whom the answer of a route admits across origins.
pub open spec fn policy_of(route: ProxyRoute) -> CorsPolicy {
    match route {
        ProxyRoute::ServerIdentity => CorsPolicy::Local,
        ProxyRoute::RegisterServer => CorsPolicy::Local,
        ProxyRoute::CheckServerUrl => CorsPolicy::Gateway,
        ProxyRoute::DeregisterServer => CorsPolicy::Gateway,
    }
}

/// Whether the gateway's status tells that the server is registered: newly,
/// or from before.
pub open spec fn is_registered_status(status: u16) -> bool {
    status == 200 || status == 201 || status == 409
}

/// The body that reports a failed upstream call.
pub open spec fn failure_body(message: Seq<char>) -> Seq<char> {
    "{\"error\":"@ + json_quoted(message) + "}"@
}

/// The event that a gateway's answer to a registration brings about: for a
/// status that tells that the server is registered, the identifier that the
/// answer's member `serverId` holds. `answer` holds the members of the
/// answer's body.
pub open spec fn registration_event(
    status: u16,
    answer: Option<Seq<JsonMemberView>>,
) -> Option<AppEventView> {
    if is_registered_status(status) {
        Some(
            server_registered_of(
                status,
                match answer {
                    Some(members) => text_of(member(members, "serverId"@)),
                    None => None,
                },
            ),
        )
    } else {
        None
    }
}

/// The answer to a proxied request, from what the outbound call came to.
/// An upstream answer is passed on with its status and body; a call that
/// failed is reported as a bad gateway, with the failure in the body. A
/// registration brings its event with it.
pub open spec fn upstream_reply(
    route: ProxyRoute,
    upstream: UpstreamResultView,
    answer: Option<Seq<JsonMemberView>>,
) -> ProxyReplyView {
    match upstream {
        UpstreamResultView::Answered { status, body } => ProxyReplyView {
            response: json_response_of(status, policy_of(route), body),
            event: if route == ProxyRoute::RegisterServer {
                registration_event(status, answer)
            } else {
                None
            },
        },
        UpstreamResultView::Failed { message } => ProxyReplyView {
            response: json_response_of(502, policy_of(route), failure_body(message)),
            event: None,
        },
    }
}

fn route_policy(route: ProxyRoute) -> (r: CorsPolicy)
    ensures
        r == policy_of(route),
{
    match route {
        ProxyRoute::ServerIdentity => CorsPolicy::Local,
        ProxyRoute::RegisterServer => CorsPolicy::Local,
        ProxyRoute::CheckServerUrl => CorsPolicy::Gateway,
        ProxyRoute::DeregisterServer => CorsPolicy::Gateway,
    }
}

/// Turns the result of an outbound call into the answer, the body of an
/// upstream answer having been parsed already.
pub fn settle_upstream(
    route: ProxyRoute,
    upstream: &UpstreamResult,
    answer: Option<&Vec<JsonMember>>,
) -> (r: ProxyReply)
    ensures
        r@ == upstream_reply(route, upstream@, opt_members(answer)),
{
    match upstream {
        UpstreamResult::Answered { status, body } => {
            let event = match route {
                ProxyRoute::RegisterServer => if *status == 200 || *status == 201 || *status
                    == 409 {
                    let server_id = match answer {
                        Some(members) => text_member(members, "serverId"),
                        None => None,
                    };
                    Some(server_registered(*status, &server_id))
                } else {
                    None
                },
                _ => None,
            };
            ProxyReply {
                response: json_response(*status, route_policy(route), body.clone()),
                event,
            }
        },
        UpstreamResult::Failed { message } => {
            let mut body = String::new();
            body.append("{\"error\":");
            push_json_text(&mut body, message.as_str());
            body.append("}");
            assert(body@ =~= failure_body(message@));
            ProxyReply { response: json_response(502, route_policy(route), body), event: None }
        },
    }
}

/// The members of an upstream answer's body, read as a JSON object.
pub open spec fn answer_members(upstream: UpstreamResultView) -> Option<Seq<JsonMemberView>> {
    match upstream {
        UpstreamResultView::Answered { status, body } => object_members(body),
        UpstreamResultView::Failed { message } => None,
    }
}

/// Turns the result of an outbound call into the answer to the proxied
/// request.
pub fn translate_upstream(route: ProxyRoute, upstream: &UpstreamResult) -> (r: ProxyReply)
    ensures
        r@ == upstream_reply(route, upstream@, answer_members(upstream@)),
{
    let answer = match upstream {
        UpstreamResult::Answered { status, body } => parse_object(body.as_str()),
        UpstreamResult::Failed { message } => None,
    };
    settle_upstream(route, upstream, answer.as_ref())
}

/// A registration publishes an event exactly when the gateway answers 200,
/// 201 or 409, and the event then carries the identifier that the answer
/// names. No other route publishes anything.
pub proof fn lemma_registration_event(
    status: u16,
    body: Seq<char>,
    answer: Option<Seq<JsonMemberView>>,
)
    ensures
        is_registered_status(status) ==> upstream_reply(
            ProxyRoute::RegisterServer,
            UpstreamResultView::Answered { status, body },
            answer,
        ).event == Some(
            server_registered_of(
                status,
                match answer {
                    Some(members) => text_of(member(members, "serverId"@)),
                    None => None,
                },
            ),
        ),
        !is_registered_status(status) ==> upstream_reply(
            ProxyRoute::RegisterServer,
            UpstreamResultView::Answered { status, body },
            answer,
        ).event is None,
        forall|route: ProxyRoute|
            route != ProxyRoute::RegisterServer ==> (#[trigger] upstream_reply(
                route,
                UpstreamResultView::Answered { status, body },
                answer,
            )).event is None,
{
}

/// A call that fails is answered 502 with the failure in the body, on
/// every proxied route, and publishes nothing.
pub proof fn lemma_failed_call_is_bad_gateway(
    route: ProxyRoute,
    message: Seq<char>,
    answer: Option<Seq<JsonMemberView>>,
)
    ensures
        upstream_reply(route, UpstreamResultView::Failed { message }, answer) == (ProxyReplyView {
            response: json_response_of(502, policy_of(route), failure_body(message)),
            event: None,
        }),
{
}

} // verus!
