//! The result of an external identity flow, and how a callback's JSON body
//! is read into it.

use crate::callback_state::{CallbackRejectReason, CallbackState};
use crate::json::{
    find_member, member, members_view, object_members, opt_members, opt_text, optional_text_member,
    optional_text_of, parse_object, parsed_view, text_member, text_of, JsonItem, JsonItemView,
    JsonMember, JsonMemberView,
};
use crate::text::same_text;
use vstd::prelude::*;

verus! {

/// The identity that a flow reported.
#[derive(Debug, Clone, PartialEq, Eq)]
pub struct AuthUser {
    pub id: String,
    pub email: Option<String>,
}

pub ghost struct AuthUserView {
    pub id: Seq<char>,
    pub email: Option<Seq<char>>,
}

impl View for AuthUser {
    type V = AuthUserView;

    open spec fn view(&self) -> AuthUserView {
        AuthUserView { id: self.id@, email: opt_text(self.email) }
    }
}

/// Outcome of a completed identity flow.
#[derive(Debug, Clone, PartialEq, Eq)]
pub struct AuthResult {
    pub success: bool,
    pub user: Option<AuthUser>,
    pub wallet_address: Option<String>,
    pub auth_token: Option<String>,
    pub master_key_signature: Option<String>,
    pub error: Option<String>,
}

pub ghost struct AuthResultView {
    pub success: bool,
    pub user: Option<AuthUserView>,
    pub wallet_address: Option<Seq<char>>,
    pub auth_token: Option<Seq<char>>,
    pub master_key_signature: Option<Seq<char>>,
    pub error: Option<Seq<char>>,
}

pub open spec fn opt_user(user: Option<AuthUser>) -> Option<AuthUserView> {
    match user {
        Some(u) => Some(u@),
        None => None,
    }
}

impl View for AuthResult {
    type V = AuthResultView;

    open spec fn view(&self) -> AuthResultView {
        AuthResultView {
            success: self.success,
            user: opt_user(self.user),
            wallet_address: opt_text(self.wallet_address),
            auth_token: opt_text(self.auth_token),
            master_key_signature: opt_text(self.master_key_signature),
            error: opt_text(self.error),
        }
    }
}

/// The part of a session that outlives the process.
#[derive(Debug, Clone, PartialEq, Eq)]
pub struct DurableAuthSession {
    pub user: AuthUser,
    pub wallet_address: Option<String>,
    pub master_key_signature: Option<String>,
    pub saved_at_ms: u64,
}

pub ghost struct DurableAuthSessionView {
    pub user: AuthUserView,
    pub wallet_address: Option<Seq<char>>,
    pub master_key_signature: Option<Seq<char>>,
    pub saved_at_ms: u64,
}

impl View for DurableAuthSession {
    type V = DurableAuthSessionView;

    open spec fn view(&self) -> DurableAuthSessionView {
        DurableAuthSessionView {
            user: self.user@,
            wallet_address: opt_text(self.wallet_address),
            master_key_signature: opt_text(self.master_key_signature),
            saved_at_ms: self.saved_at_ms,
        }
    }
}

/// The user that an object's members denote: `id` must be a string, `email`
/// is an optional string.
pub open spec fn auth_user_of(members: Seq<JsonMemberView>) -> Option<AuthUserView> {
    match (text_of(member(members, "id"@)), optional_text_of(member(members, "email"@))) {
        (Some(id), Some(email)) => Some(AuthUserView { id, email }),
        _ => None,
    }
}

/// Reads a user from the members of its object.
pub fn decode_auth_user(members: &Vec<JsonMember>) -> (r: Option<AuthUser>)
    ensures
        opt_user(r) == auth_user_of(members_view(members@)),
{
    let id = text_member(members, "id");
    let email = optional_text_member(members, "email");
    match (id, email) {
        (Some(id), Some(email)) => Some(AuthUser { id, email }),
        _ => None,
    }
}

/// The optional `user` member: absent or `null` is no user; an object must
/// denote a user, `nested` being its members; anything else is malformed,
/// for which the outer result is none.
pub open spec fn user_member_of(
    item: Option<JsonItemView>,
    nested: Option<Seq<JsonMemberView>>,
) -> Option<Option<AuthUserView>> {
    match item {
        None => Some(None),
        Some(JsonItemView::Null) => Some(None),
        Some(JsonItemView::Object(_)) => match nested {
            Some(m) => match auth_user_of(m) {
                Some(u) => Some(Some(u)),
                None => None,
            },
            None => None,
        },
        _ => None,
    }
}

pub open spec fn bool_of(item: Option<JsonItemView>) -> Option<bool> {
    match item {
        Some(JsonItemView::Bool(b)) => Some(b),
        _ => None,
    }
}

/// The result that a callback body's members denote. `success` must be a
/// boolean; the other members are optional, and of the right kind where
/// they are present. `nested` holds the members of the `user` object.
pub open spec fn auth_result_with(
    members: Seq<JsonMemberView>,
    nested: Option<Seq<JsonMemberView>>,
) -> Option<AuthResultView> {
    match (
        bool_of(member(members, "success"@)),
        user_member_of(member(members, "user"@), nested),
        optional_text_of(member(members, "walletAddress"@)),
        optional_text_of(member(members, "authToken"@)),
        optional_text_of(member(members, "masterKeySignature"@)),
        optional_text_of(member(members, "error"@)),
    ) {
        (
            Some(success),
            Some(user),
            Some(wallet_address),
            Some(auth_token),
            Some(master_key_signature),
            Some(error),
        ) => Some(
            AuthResultView {
                success,
                user,
                wallet_address,
                auth_token,
                master_key_signature,
                error,
            },
        ),
        _ => None,
    }
}

/// The members of the object stored under `user`, where an object is stored
/// there.
pub open spec fn nested_user(members: Seq<JsonMemberView>) -> Option<Seq<JsonMemberView>> {
    match member(members, "user"@) {
        Some(JsonItemView::Object(raw)) => object_members(raw),
        _ => None,
    }
}

pub open spec fn opt_result(r: Option<AuthResult>) -> Option<AuthResultView> {
    match r {
        Some(x) => Some(x@),
        None => None,
    }
}

/// Reads a result from the members of a callback body, `nested` being the
/// members of its `user` object.
pub fn decode_auth_result_with(members: &Vec<JsonMember>, nested: Option<&Vec<JsonMember>>) -> (r:
    Option<AuthResult>)
    ensures
        opt_result(r) == auth_result_with(members_view(members@), opt_members(nested)),
{
    let success: bool = match find_member(members, "success") {
        Some(JsonItem::Bool(b)) => *b,
        _ => {
            return None;
        },
    };
    let user: Option<AuthUser> = match find_member(members, "user") {
        None => None,
        Some(JsonItem::Null) => None,
        Some(JsonItem::Object(_)) => match nested {
            Some(m) => match decode_auth_user(m) {
                Some(u) => Some(u),
                None => {
                    return None;
                },
            },
            None => {
                return None;
            },
        },
        _ => {
            return None;
        },
    };
    let wallet_address = match optional_text_member(members, "walletAddress") {
        Some(x) => x,
        None => {
            return None;
        },
    };
    let auth_token = match optional_text_member(members, "authToken") {
        Some(x) => x,
        None => {
            return None;
        },
    };
    let master_key_signature = match optional_text_member(members, "masterKeySignature") {
        Some(x) => x,
        None => {
            return None;
        },
    };
    let error = match optional_text_member(members, "error") {
        Some(x) => x,
        None => {
            return None;
        },
    };
    Some(AuthResult { success, user, wallet_address, auth_token, master_key_signature, error })
}

/// Parses the object stored under `user`, where an object is stored there.
pub fn parse_nested_user(members: &Vec<JsonMember>) -> (r: Option<Vec<JsonMember>>)
    ensures
        parsed_view(r) == nested_user(members_view(members@)),
{
    match find_member(members, "user") {
        Some(JsonItem::Object(raw)) => parse_object(raw.as_str()),
        _ => None,
    }
}

/// Reads a result from the members of a callback body.
pub fn decode_auth_result(members: &Vec<JsonMember>) -> (r: Option<AuthResult>)
    ensures
        opt_result(r) == auth_result_with(
            members_view(members@),
            nested_user(members_view(members@)),
        ),
{
    let nested = parse_nested_user(members);
    decode_auth_result_with(members, nested.as_ref())
}

/// What stands against accepting a callback whose body names its state in
/// the member `state`: no such string; a state that was used before; a
/// token that is not the state's; a state whose time has run out.
pub open spec fn state_objection(
    members: Seq<JsonMemberView>,
    state: CallbackState,
    now_ms: u64,
) -> Option<CallbackRejectReason> {
    match text_of(member(members, "state"@)) {
        None => Some(CallbackRejectReason::MissingState),
        Some(token) => if state.consumed {
            Some(CallbackRejectReason::ReplayedState)
        } else if token != state.token@ {
            Some(CallbackRejectReason::InvalidState)
        } else if now_ms > state.expires_at_ms {
            Some(CallbackRejectReason::ExpiredState)
        } else {
            None
        },
    }
}

/// Checks the state that a callback body names against `state`.
pub fn check_payload_state(members: &Vec<JsonMember>, state: &CallbackState, now_ms: u64) -> (r:
    Option<CallbackRejectReason>)
    ensures
        r == state_objection(members_view(members@), *state, now_ms),
{
    let token = match text_member(members, "state") {
        Some(t) => t,
        None => {
            return Some(CallbackRejectReason::MissingState);
        },
    };
    if state.consumed {
        Some(CallbackRejectReason::ReplayedState)
    } else if !same_text(token.as_str(), state.token.as_str()) {
        Some(CallbackRejectReason::InvalidState)
    } else if now_ms > state.expires_at_ms {
        Some(CallbackRejectReason::ExpiredState)
    } else {
        None
    }
}

/// What a callback body comes to. `parsed` holds the members of the body,
/// none where it is no JSON object; `nested` those of its `user` object.
/// The state is judged before the rest of the body is read.
pub open spec fn payload_outcome(
    parsed: Option<Seq<JsonMemberView>>,
    nested: Option<Seq<JsonMemberView>>,
    state: CallbackState,
    now_ms: u64,
) -> Result<AuthResultView, CallbackRejectReason> {
    match parsed {
        None => Err(CallbackRejectReason::InvalidPayload),
        Some(members) => match state_objection(members, state, now_ms) {
            Some(reason) => Err(reason),
            None => match auth_result_with(members, nested) {
                Some(result) => Ok(result),
                None => Err(CallbackRejectReason::InvalidPayload),
            },
        },
    }
}

pub open spec fn outcome_view(r: Result<AuthResult, CallbackRejectReason>) -> Result<
    AuthResultView,
    CallbackRejectReason,
> {
    match r {
        Ok(x) => Ok(x@),
        Err(e) => Err(e),
    }
}

/// Judges a callback body that was parsed already, and marks the state as
/// used when the callback is accepted or the state is found expired.
pub fn judge_callback_payload(
    parsed: Option<&Vec<JsonMember>>,
    nested: Option<&Vec<JsonMember>>,
    callback_state: &mut CallbackState,
    now_ms: u64,
) -> (r: Result<AuthResult, CallbackRejectReason>)
    ensures
        outcome_view(r) == payload_outcome(
            opt_members(parsed),
            opt_members(nested),
            *old(callback_state),
            now_ms,
        ),
        final(callback_state).token == old(callback_state).token,
        final(callback_state).expires_at_ms == old(callback_state).expires_at_ms,
        final(callback_state).consumed == (old(callback_state).consumed || r is Ok
            || r matches Err(CallbackRejectReason::ExpiredState)),
{
    let members = match parsed {
        Some(m) => m,
        None => {
            return Err(CallbackRejectReason::InvalidPayload);
        },
    };
    match check_payload_state(members, callback_state, now_ms) {
        Some(reason) => {
            match reason {
                CallbackRejectReason::ExpiredState => {
                    callback_state.consumed = true;
                },
                _ => {},
            }
            return Err(reason);
        },
        None => {},
    }
    match decode_auth_result_with(members, nested) {
        Some(result) => {
            callback_state.consumed = true;
            Ok(result)
        },
        None => Err(CallbackRejectReason::InvalidPayload),
    }
}

/// The members of the `user` object of a parsed body.
pub open spec fn nested_of(parsed: Option<Seq<JsonMemberView>>) -> Option<Seq<JsonMemberView>> {
    match parsed {
        Some(members) => nested_user(members),
        None => None,
    }
}

/// Reads a callback body, judges the state it names against
/// `callback_state`, and marks the state as used when the callback is
/// accepted or the state is found expired.
pub fn parse_auth_callback_payload(body: &str, callback_state: &mut CallbackState, now_ms: u64) -> (r:
    Result<AuthResult, CallbackRejectReason>)
    ensures
        outcome_view(r) == payload_outcome(
            object_members(body@),
            nested_of(object_members(body@)),
            *old(callback_state),
            now_ms,
        ),
        final(callback_state).token == old(callback_state).token,
        final(callback_state).expires_at_ms == old(callback_state).expires_at_ms,
        final(callback_state).consumed == (old(callback_state).consumed || r is Ok
            || r matches Err(CallbackRejectReason::ExpiredState)),
{
    let parsed = parse_object(body);
    let nested = match &parsed {
        Some(members) => parse_nested_user(members),
        None => None,
    };
    judge_callback_payload(parsed.as_ref(), nested.as_ref(), callback_state, now_ms)
}

/// A state that was found expired is used up: whatever body names a state
/// afterwards is answered with `ReplayedState`, at any later time, and
/// never accepted.
pub proof fn lemma_expired_state_then_replayed(
    parsed: Option<Seq<JsonMemberView>>,
    nested: Option<Seq<JsonMemberView>>,
    later: Seq<JsonMemberView>,
    later_nested: Option<Seq<JsonMemberView>>,
    state: CallbackState,
    now_ms: u64,
    later_ms: u64,
)
    requires
        payload_outcome(parsed, nested, state, now_ms) == Err::<
            AuthResultView,
            CallbackRejectReason,
        >(CallbackRejectReason::ExpiredState),
        text_of(member(later, "state"@)) is Some,
    ensures
        payload_outcome(
            Some(later),
            later_nested,
            CallbackState { consumed: true, ..state },
            later_ms,
        ) == Err::<AuthResultView, CallbackRejectReason>(CallbackRejectReason::ReplayedState),
{
}

} // verus!
