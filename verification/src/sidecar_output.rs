//! The helper's standard output: one JSON object per line, told apart by
//! its member `type`.

use crate::decimal::{decimal_digits, push_decimal};
use crate::events::{opt_event, push_json_text, AppEvent, AppEventView};
use crate::json::{
    json_quoted, member, object_members, opt_members, parse_object, text_member,
    text_member_or_empty, text_of, text_or_empty, unsigned_member, unsigned_of, JsonMember,
    JsonMemberView,
};
use crate::sidecar::{SidecarSupervisor, SupervisorView};
use crate::text::{owned, same_text};
use vstd::prelude::*;
use vstd::string::StringExecFns;

verus! {

/// One decoded line of the helper's output.
#[derive(Debug, Clone, PartialEq, Eq)]
pub enum SidecarEvent {
    Ready { port: Option<u16> },
    Error { message: String },
    Tunnel { url: String },
    Log { message: String },
    TunnelFailed { message: String },
    DevToken { token: String },
    /// A line that is no JSON object, or one of a kind that is not known.
    Unknown,
}

pub ghost enum SidecarEventView {
    Ready { port: Option<u16> },
    Error { message: Seq<char> },
    Tunnel { url: Seq<char> },
    Log { message: Seq<char> },
    TunnelFailed { message: Seq<char> },
    DevToken { token: Seq<char> },
    Unknown,
}

impl View for SidecarEvent {
    type V = SidecarEventView;

    open spec fn view(&self) -> SidecarEventView {
        match *self {
            SidecarEvent::Ready { port } => SidecarEventView::Ready { port },
            SidecarEvent::Error { message } => SidecarEventView::Error { message: message@ },
            SidecarEvent::Tunnel { url } => SidecarEventView::Tunnel { url: url@ },
            SidecarEvent::Log { message } => SidecarEventView::Log { message: message@ },
            SidecarEvent::TunnelFailed { message } => SidecarEventView::TunnelFailed {
                message: message@,
            },
            SidecarEvent::DevToken { token } => SidecarEventView::DevToken { token: token@ },
            SidecarEvent::Unknown => SidecarEventView::Unknown,
        }
    }
}

/// The port that a `ready` line names, cut to 16 bits.
pub open spec fn announced_port(members: Seq<JsonMemberView>) -> Option<u16> {
    match unsigned_of(member(members, "port"@)) {
        Some(p) => Some((p % 65536) as u16),
        None => None,
    }
}

/// What a line's members denote. A member that is missing, or not a
/// string, reads as the empty string, but an error's message as
/// `Unknown error`.
pub open spec fn sidecar_event_of(parsed: Option<Seq<JsonMemberView>>) -> SidecarEventView {
    match parsed {
        None => SidecarEventView::Unknown,
        Some(m) => {
            let kind = text_or_empty(text_of(member(m, "type"@)));
            let message = text_or_empty(text_of(member(m, "message"@)));
            if kind == "ready"@ {
                SidecarEventView::Ready { port: announced_port(m) }
            } else if kind == "error"@ {
                SidecarEventView::Error {
                    message: match text_of(member(m, "message"@)) {
                        Some(t) => t,
                        None => "Unknown error"@,
                    },
                }
            } else if kind == "tunnel"@ {
                SidecarEventView::Tunnel { url: text_or_empty(text_of(member(m, "url"@))) }
            } else if kind == "log"@ {
                SidecarEventView::Log { message }
            } else if kind == "tunnel-failed"@ {
                SidecarEventView::TunnelFailed { message }
            } else if kind == "dev-token"@ {
                SidecarEventView::DevToken { token: text_or_empty(text_of(member(m, "token"@))) }
            } else {
                SidecarEventView::Unknown
            }
        },
    }
}

/// Decodes a line that was parsed already.
pub fn decode_sidecar_members(parsed: Option<&Vec<JsonMember>>) -> (r: SidecarEvent)
    ensures
        r@ == sidecar_event_of(opt_members(parsed)),
{
    let m = match parsed {
        Some(m) => m,
        None => {
            return SidecarEvent::Unknown;
        },
    };
    let kind = text_member_or_empty(m, "type");
    let kind = kind.as_str();
    if same_text(kind, "ready") {
        let port: Option<u16> = match unsigned_member(m, "port") {
            Some(p) => Some((p % 65536) as u16),
            None => None,
        };
        SidecarEvent::Ready { port }
    } else if same_text(kind, "error") {
        let message = match text_member(m, "message") {
            Some(t) => t,
            None => owned("Unknown error"),
        };
        SidecarEvent::Error { message }
    } else if same_text(kind, "tunnel") {
        SidecarEvent::Tunnel { url: text_member_or_empty(m, "url") }
    } else if same_text(kind, "log") {
        SidecarEvent::Log { message: text_member_or_empty(m, "message") }
    } else if same_text(kind, "tunnel-failed") {
        SidecarEvent::TunnelFailed { message: text_member_or_empty(m, "message") }
    } else if same_text(kind, "dev-token") {
        SidecarEvent::DevToken { token: text_member_or_empty(m, "token") }
    } else {
        SidecarEvent::Unknown
    }
}

/// Decodes one line of the helper's output.
pub fn decode_sidecar_line(line: &str) -> (r: SidecarEvent)
    ensures
        r@ == sidecar_event_of(object_members(line@)),
{
    let parsed = parse_object(line);
    decode_sidecar_members(parsed.as_ref())
}

pub open spec fn text_payload(key: Seq<char>, value: Seq<char>) -> Seq<char> {
    "{\""@ + key + "\":"@ + json_quoted(value) + "}"@
}

/// The application event for a decoded line; none for an unknown one.
pub open spec fn sidecar_app_event(event: SidecarEventView) -> Option<AppEventView> {
    match event {
        SidecarEventView::Ready { port } => Some(
            AppEventView {
                name: "sidecar-ready"@,
                payload: "{\"port\":"@ + (match port {
                    Some(p) => decimal_digits(p as nat),
                    None => "null"@,
                }) + "}"@,
            },
        ),
        SidecarEventView::Error { message } => Some(
            AppEventView { name: "sidecar-error"@, payload: text_payload("message"@, message) },
        ),
        SidecarEventView::Tunnel { url } => Some(
            AppEventView { name: "sidecar-tunnel"@, payload: text_payload("url"@, url) },
        ),
        SidecarEventView::Log { message } => Some(
            AppEventView { name: "sidecar-log"@, payload: text_payload("message"@, message) },
        ),
        SidecarEventView::TunnelFailed { message } => Some(
            AppEventView {
                name: "sidecar-tunnel-failed"@,
                payload: text_payload("message"@, message),
            },
        ),
        SidecarEventView::DevToken { token } => Some(
            AppEventView { name: "sidecar-dev-token"@, payload: text_payload("token"@, token) },
        ),
        SidecarEventView::Unknown => None,
    }
}

fn text_event(name: &str, key: &str, value: &str) -> (r: AppEvent)
    ensures
        r@ == (AppEventView { name: name@, payload: text_payload(key@, value@) }),
{
    let mut out = String::new();
    out.append("{\"");
    out.append(key);
    out.append("\":");
    push_json_text(&mut out, value);
    out.append("}");
    assert(out@ =~= text_payload(key@, value@));
    AppEvent { name: owned(name), payload: out }
}

pub fn publish_sidecar_event(event: &SidecarEvent) -> (r: Option<AppEvent>)
    ensures
        opt_event(r) == sidecar_app_event(event@),
{
    match event {
        SidecarEvent::Ready { port } => {
            let mut out = String::new();
            out.append("{\"port\":");
            match port {
                Some(p) => push_decimal(&mut out, *p as u64),
                None => out.append("null"),
            }
            out.append("}");
            assert(out@ =~= sidecar_app_event(event@)->0.payload);
            Some(AppEvent { name: owned("sidecar-ready"), payload: out })
        },
        SidecarEvent::Error { message } => Some(
            text_event("sidecar-error", "message", message.as_str()),
        ),
        SidecarEvent::Tunnel { url } => Some(text_event("sidecar-tunnel", "url", url.as_str())),
        SidecarEvent::Log { message } => Some(
            text_event("sidecar-log", "message", message.as_str()),
        ),
        SidecarEvent::TunnelFailed { message } => Some(
            text_event("sidecar-tunnel-failed", "message", message.as_str()),
        ),
        SidecarEvent::DevToken { token } => Some(
            text_event("sidecar-dev-token", "token", token.as_str()),
        ),
        SidecarEvent::Unknown => None,
    }
}

/// The supervisor's state after a line: a token that the helper announced
/// is kept.
pub open spec fn after_line(s: SupervisorView, event: SidecarEventView) -> SupervisorView {
    match event {
        SidecarEventView::DevToken { token } => SupervisorView { dev_token: Some(token), ..s },
        _ => s,
    }
}

/// Takes one line of the helper's output: keeps what the supervisor has to
/// remember and hands out the event to publish.
pub fn handle_output_line(supervisor: &mut SidecarSupervisor, line: &str) -> (r: Option<AppEvent>)
    ensures
        opt_event(r) == sidecar_app_event(sidecar_event_of(object_members(line@))),
        final(supervisor)@ == after_line(
            old(supervisor)@,
            sidecar_event_of(object_members(line@)),
        ),
{
    let event = decode_sidecar_line(line);
    match &event {
        SidecarEvent::DevToken { token } => {
            supervisor.remember_dev_token(token.clone());
        },
        _ => {},
    }
    publish_sidecar_event(&event)
}

} // verus!
