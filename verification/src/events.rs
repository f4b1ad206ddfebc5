//! What the control plane publishes on the application's event bus: a name
//! and a JSON payload.

use crate::auth::{AuthResult, AuthResultView, AuthUser, AuthUserView};
use crate::callback_state::CallbackRejectReason;
use crate::decimal::{decimal_digits, push_decimal};
use crate::json::{json_quote, json_quoted, opt_text};
use crate::text::owned;
use vstd::prelude::*;
use vstd::string::StringExecFns;

verus! {

/// One event for the application: its name and what it carries.
#[derive(Debug, Clone, PartialEq, Eq)]
pub struct AppEvent {
    pub name: String,
    /// The payload, as JSON text.
    pub payload: String,
}

pub ghost struct AppEventView {
    pub name: Seq<char>,
    pub payload: Seq<char>,
}

impl View for AppEvent {
    type V = AppEventView;

    open spec fn view(&self) -> AppEventView {
        AppEventView { name: self.name@, payload: self.payload@ }
    }
}

pub open spec fn opt_event(e: Option<AppEvent>) -> Option<AppEventView> {
    match e {
        Some(x) => Some(x@),
        None => None,
    }
}

/// A string or `null`, as JSON.
pub open spec fn json_opt_text(text: Option<Seq<char>>) -> Seq<char> {
    match text {
        Some(t) => json_quoted(t),
        None => "null"@,
    }
}

pub open spec fn json_bool(b: bool) -> Seq<char> {
    if b {
        "true"@
    } else {
        "false"@
    }
}

pub fn push_json_text(out: &mut String, text: &str)
    ensures
        final(out)@ == old(out)@ + json_quoted(text@),
{
    let quoted = json_quote(text);
    out.append(quoted.as_str());
}

pub fn push_json_opt_text(out: &mut String, text: &Option<String>)
    ensures
        final(out)@ == old(out)@ + json_opt_text(opt_text(*text)),
{
    match text {
        Some(t) => push_json_text(out, t.as_str()),
        None => out.append("null"),
    }
}

pub fn push_json_bool(out: &mut String, b: bool)
    ensures
        final(out)@ == old(out)@ + json_bool(b),
{
    if b {
        out.append("true");
    } else {
        out.append("false");
    }
}

pub open spec fn user_json(user: Option<AuthUserView>) -> Seq<char> {
    match user {
        Some(u) => "{\"id\":"@ + json_quoted(u.id) + ",\"email\":"@ + json_opt_text(u.email)
            + "}"@,
        None => "null"@,
    }
}

/// An identity flow's result as a JSON object.
pub open spec fn auth_result_json(r: AuthResultView) -> Seq<char> {
    "{\"success\":"@ + json_bool(r.success) + ",\"user\":"@ + user_json(r.user)
        + ",\"walletAddress\":"@ + json_opt_text(r.wallet_address) + ",\"authToken\":"@
        + json_opt_text(r.auth_token) + ",\"masterKeySignature\":"@ + json_opt_text(
        r.master_key_signature,
    ) + ",\"error\":"@ + json_opt_text(r.error) + "}"@
}

fn push_user_json(out: &mut String, user: &Option<AuthUser>)
    ensures
        final(out)@ == old(out)@ + user_json(crate::auth::opt_user(*user)),
{
    match user {
        Some(u) => {
            out.append("{\"id\":");
            push_json_text(out, u.id.as_str());
            out.append(",\"email\":");
            push_json_opt_text(out, &u.email);
            out.append("}");
            assert(out@ =~= old(out)@ + user_json(Some(u@)));
        },
        None => out.append("null"),
    }
}

pub fn encode_auth_result(result: &AuthResult) -> (r: String)
    ensures
        r@ == auth_result_json(result@),
{
    let mut out = String::new();
    out.append("{\"success\":");
    push_json_bool(&mut out, result.success);
    out.append(",\"user\":");
    push_user_json(&mut out, &result.user);
    out.append(",\"walletAddress\":");
    push_json_opt_text(&mut out, &result.wallet_address);
    out.append(",\"authToken\":");
    push_json_opt_text(&mut out, &result.auth_token);
    out.append(",\"masterKeySignature\":");
    push_json_opt_text(&mut out, &result.master_key_signature);
    out.append(",\"error\":");
    push_json_opt_text(&mut out, &result.error);
    out.append("}");
    assert(out@ =~= auth_result_json(result@));
    out
}

/// The event that carries the result of a completed flow.
pub open spec fn auth_complete_of(result: AuthResultView) -> AppEventView {
    AppEventView { name: "auth-complete"@, payload: auth_result_json(result) }
}

pub fn auth_complete(result: &AuthResult) -> (r: AppEvent)
    ensures
        r@ == auth_complete_of(result@),
{
    AppEvent { name: owned("auth-complete"), payload: encode_auth_result(result) }
}

/// The event that tells why a callback was turned away.
pub open spec fn callback_rejected_of(reason: CallbackRejectReason) -> AppEventView {
    AppEventView {
        name: "auth-callback-rejected"@,
        payload: "{\"code\":\""@ + reason.code_text() + "\",\"message\":\""@
            + reason.message_text() + "\",\"status\":"@ + decimal_digits(reason.status() as nat)
            + "}"@,
    }
}

pub fn callback_rejected(reason: CallbackRejectReason) -> (r: AppEvent)
    ensures
        r@ == callback_rejected_of(reason),
{
    let mut out = String::new();
    out.append("{\"code\":\"");
    out.append(reason.code());
    out.append("\",\"message\":\"");
    out.append(reason.message());
    out.append("\",\"status\":");
    push_decimal(&mut out, reason.status_code() as u64);
    out.append("}");
    assert(out@ =~= callback_rejected_of(reason).payload);
    AppEvent { name: owned("auth-callback-rejected"), payload: out }
}

/// The event that tells where the flow's browser page was opened.
pub open spec fn auth_started_of(callback_port: u16, auth_url: Seq<char>) -> AppEventView {
    AppEventView {
        name: "auth-started"@,
        payload: "{\"callbackPort\":"@ + decimal_digits(callback_port as nat) + ",\"authUrl\":"@
            + json_quoted(auth_url) + "}"@,
    }
}

pub fn auth_started(callback_port: u16, auth_url: &str) -> (r: AppEvent)
    ensures
        r@ == auth_started_of(callback_port, auth_url@),
{
    let mut out = String::new();
    out.append("{\"callbackPort\":");
    push_decimal(&mut out, callback_port as u64);
    out.append(",\"authUrl\":");
    push_json_text(&mut out, auth_url);
    out.append("}");
    assert(out@ =~= auth_started_of(callback_port, auth_url@).payload);
    AppEvent { name: owned("auth-started"), payload: out }
}

/// The event that tells under which identifier the gateway knows the
/// server.
pub open spec fn server_registered_of(status: u16, server_id: Option<Seq<char>>) -> AppEventView {
    AppEventView {
        name: "server-registered"@,
        payload: "{\"status\":"@ + decimal_digits(status as nat) + ",\"serverId\":"@
            + json_opt_text(server_id) + "}"@,
    }
}

pub fn server_registered(status: u16, server_id: &Option<String>) -> (r: AppEvent)
    ensures
        r@ == server_registered_of(status, opt_text(*server_id)),
{
    let mut out = String::new();
    out.append("{\"status\":");
    push_decimal(&mut out, status as u64);
    out.append(",\"serverId\":");
    push_json_opt_text(&mut out, server_id);
    out.append("}");
    assert(out@ =~= server_registered_of(status, opt_text(*server_id)).payload);
    AppEvent { name: owned("server-registered"), payload: out }
}

} // verus!
