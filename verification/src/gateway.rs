//! The callback route: a request is judged by its state token first, then
//! by its framing, then by its body.

use crate::auth::{
    auth_result_with, decode_auth_result_with, nested_of, parse_nested_user, AuthResult,
    AuthResultView,
};
use crate::callback_state::{
    pending_after, validation_of, CallbackRejectReason, CallbackStateIssuer, CallbackValidation,
};
use crate::events::{
    auth_complete, auth_complete_of, callback_rejected, callback_rejected_of, AppEvent,
    AppEventView,
};
use crate::http::{
    decode_text, is_json_content_type, json_content_type, query_param, query_value, MAX_BODY_BYTES,
};
use crate::json::{object_members, opt_members, opt_text, parse_object, JsonMember, JsonMemberView};
use crate::response::{
    accepted, accepted_of, rejection, rejection_of, HttpResponse, HttpResponseView,
};
use vstd::prelude::*;
use vstd::utf8::{decode_utf8, valid_utf8};

verus! {

/// One request, read from its connection.
#[derive(Debug, Clone, PartialEq, Eq)]
pub struct PendingRequest {
    pub method: String,
    /// The request target: path and query.
    pub target: String,
    /// The declared length of the body; 0 where none was declared.
    pub content_length: usize,
    pub content_type: Option<String>,
    pub body: Vec<u8>,
}

pub ghost struct PendingRequestView {
    pub method: Seq<char>,
    pub target: Seq<char>,
    pub content_length: usize,
    pub content_type: Option<Seq<char>>,
    pub body: Seq<u8>,
}

impl View for PendingRequest {
    type V = PendingRequestView;

    open spec fn view(&self) -> PendingRequestView {
        PendingRequestView {
            method: self.method@,
            target: self.target@,
            content_length: self.content_length,
            content_type: opt_text(self.content_type),
            body: self.body@,
        }
    }
}

/// The state token of a callback: the query parameter `callbackState`, or
/// else `state`.
pub open spec fn callback_token(target: Seq<char>) -> Option<Seq<char>> {
    match query_value(target, "callbackState"@) {
        Some(t) => Some(t),
        None => query_value(target, "state"@),
    }
}

pub fn extract_callback_token(target: &str) -> (r: Option<String>)
    ensures
        opt_text(r) == callback_token(target@),
{
    match query_param(target, "callbackState") {
        Some(t) => Some(t),
        None => query_param(target, "state"),
    }
}

/// What stands against reading the body of a callback: a content type
/// other than JSON; a declared length of 0, one over the cap, or one that
/// the body does not have; a body that is not UTF-8.
pub open spec fn framing_objection(request: PendingRequestView) -> Option<CallbackRejectReason> {
    if !is_json_content_type(request.content_type) {
        Some(CallbackRejectReason::UnsupportedContentType)
    } else if request.content_length == 0 || request.content_length > MAX_BODY_BYTES
        || request.body.len() != request.content_length {
        Some(CallbackRejectReason::InvalidContentLength)
    } else if !valid_utf8(request.body) {
        Some(CallbackRejectReason::InvalidEncoding)
    } else {
        None
    }
}

/// Checks the framing of a callback and hands out its body as text.
pub fn check_framing(request: &PendingRequest) -> (r: Result<String, CallbackRejectReason>)
    ensures
        match framing_objection(request@) {
            Some(reason) => r == Err::<String, CallbackRejectReason>(reason),
            None => r matches Ok(text) && text@ == decode_utf8(request@.body),
        },
{
    let json = match &request.content_type {
        Some(t) => json_content_type(Some(t.as_str())),
        None => json_content_type(None),
    };
    if !json {
        return Err(CallbackRejectReason::UnsupportedContentType);
    }
    if request.content_length == 0 || request.content_length > MAX_BODY_BYTES
        || request.body.len() != request.content_length {
        return Err(CallbackRejectReason::InvalidContentLength);
    }
    match decode_text(request.body.as_slice()) {
        Some(text) => Ok(text),
        None => Err(CallbackRejectReason::InvalidEncoding),
    }
}

/// How a callback ended.
#[derive(Debug, Clone, PartialEq, Eq)]
pub enum CallbackOutcome {
    Accepted(AuthResult),
    Rejected(CallbackRejectReason),
}

pub ghost enum CallbackOutcomeView {
    Accepted(AuthResultView),
    Rejected(CallbackRejectReason),
}

impl View for CallbackOutcome {
    type V = CallbackOutcomeView;

    open spec fn view(&self) -> CallbackOutcomeView {
        match *self {
            CallbackOutcome::Accepted(result) => CallbackOutcomeView::Accepted(result@),
            CallbackOutcome::Rejected(reason) => CallbackOutcomeView::Rejected(reason),
        }
    }
}

/// How a callback ends whose state and framing were accepted. `parsed`
/// holds the members of its body, none where the body is no JSON object;
/// `nested` those of the body's `user` object.
pub open spec fn body_outcome(
    parsed: Option<Seq<JsonMemberView>>,
    nested: Option<Seq<JsonMemberView>>,
) -> CallbackOutcomeView {
    match parsed {
        Some(members) => match auth_result_with(members, nested) {
            Some(result) => CallbackOutcomeView::Accepted(result),
            None => CallbackOutcomeView::Rejected(CallbackRejectReason::InvalidPayload),
        },
        None => CallbackOutcomeView::Rejected(CallbackRejectReason::InvalidPayload),
    }
}

/// Reads the result out of a callback body that was parsed already.
pub fn settle_body(parsed: Option<&Vec<JsonMember>>, nested: Option<&Vec<JsonMember>>) -> (r:
    CallbackOutcome)
    ensures
        r@ == body_outcome(opt_members(parsed), opt_members(nested)),
{
    match parsed {
        Some(members) => match decode_auth_result_with(members, nested) {
            Some(result) => CallbackOutcome::Accepted(result),
            None => CallbackOutcome::Rejected(CallbackRejectReason::InvalidPayload),
        },
        None => CallbackOutcome::Rejected(CallbackRejectReason::InvalidPayload),
    }
}

/// How a callback ends: turned away for its state; else for its framing;
/// else by what its body holds.
pub open spec fn callback_outcome(
    validation: CallbackValidation,
    request: PendingRequestView,
    parsed: Option<Seq<JsonMemberView>>,
    nested: Option<Seq<JsonMemberView>>,
) -> CallbackOutcomeView {
    match validation.rejection_of() {
        Some(reason) => CallbackOutcomeView::Rejected(reason),
        None => match framing_objection(request) {
            Some(reason) => CallbackOutcomeView::Rejected(reason),
            None => body_outcome(parsed, nested),
        },
    }
}

/// The members of the body of a request, read as a JSON object.
pub open spec fn body_members(request: PendingRequestView) -> Option<Seq<JsonMemberView>> {
    object_members(decode_utf8(request.body))
}

/// Handles one callback. The state token is taken from the query and used
/// up by this attempt when it is the pending one; the body is looked at only
/// after the token was accepted.
pub fn handle_auth_callback(
    issuer: &mut CallbackStateIssuer,
    request: &PendingRequest,
    now_ms: u64,
) -> (r: CallbackOutcome)
    ensures
        r@ == callback_outcome(
            validation_of(old(issuer).pending(), callback_token(request@.target), now_ms),
            request@,
            body_members(request@),
            nested_of(body_members(request@)),
        ),
        final(issuer).pending() == pending_after(
            old(issuer).pending(),
            callback_token(request@.target),
            now_ms,
        ),
        final(issuer).issued_count() == old(issuer).issued_count(),
{
    let token = extract_callback_token(request.target.as_str());
    let validation = match &token {
        Some(t) => issuer.validate_and_consume(Some(t.as_str()), now_ms),
        None => issuer.validate_and_consume(None, now_ms),
    };
    match validation.rejection() {
        Some(reason) => {
            return CallbackOutcome::Rejected(reason);
        },
        None => {},
    }
    let text = match check_framing(request) {
        Ok(text) => text,
        Err(reason) => {
            return CallbackOutcome::Rejected(reason);
        },
    };
    let parsed = parse_object(text.as_str());
    let nested = match &parsed {
        Some(members) => parse_nested_user(members),
        None => None,
    };
    settle_body(parsed.as_ref(), nested.as_ref())
}

/// What follows from a callback: the answer on its connection, the event
/// for the application, and whether the main window is to be raised.
#[derive(Debug, Clone, PartialEq, Eq)]
pub struct CallbackReply {
    pub response: HttpResponse,
    pub event: AppEvent,
    pub focus_main_window: bool,
}

pub ghost struct CallbackReplyView {
    pub response: HttpResponseView,
    pub event: AppEventView,
    pub focus_main_window: bool,
}

impl View for CallbackReply {
    type V = CallbackReplyView;

    open spec fn view(&self) -> CallbackReplyView {
        CallbackReplyView {
            response: self.response@,
            event: self.event@,
            focus_main_window: self.focus_main_window,
        }
    }
}

/// An accepted callback is acknowledged, its result is published and the
/// main window is raised; a rejected one is answered with the status and
/// code of its reason, and the reason is published.
pub open spec fn reply_of(outcome: CallbackOutcomeView) -> CallbackReplyView {
    match outcome {
        CallbackOutcomeView::Accepted(result) => CallbackReplyView {
            response: accepted_of(),
            event: auth_complete_of(result),
            focus_main_window: true,
        },
        CallbackOutcomeView::Rejected(reason) => CallbackReplyView {
            response: rejection_of(reason),
            event: callback_rejected_of(reason),
            focus_main_window: false,
        },
    }
}

pub fn callback_reply(outcome: &CallbackOutcome) -> (r: CallbackReply)
    ensures
        r@ == reply_of(outcome@),
{
    match outcome {
        CallbackOutcome::Accepted(result) => CallbackReply {
            response: accepted(),
            event: auth_complete(result),
            focus_main_window: true,
        },
        CallbackOutcome::Rejected(reason) => CallbackReply {
            response: rejection(*reason),
            event: callback_rejected(*reason),
            focus_main_window: false,
        },
    }
}

} // verus!
