//! What the application keeps on disk between runs: its configuration and
//! the session of the signed-in user, both as JSON.

use crate::auth::{auth_user_of, decode_auth_user, DurableAuthSession, DurableAuthSessionView};
use crate::decimal::{decimal_digits, push_decimal};
use crate::events::{json_opt_text, push_json_opt_text, push_json_text};
use crate::json::{
    find_member, json_quoted, member, members_view, object_members, opt_members, opt_str, opt_text,
    optional_text_member, optional_text_of, parse_object, unsigned_member, unsigned_of, JsonItem,
    JsonItemView, JsonMember, JsonMemberView,
};
use crate::text::owned;
use vstd::prelude::*;
use vstd::string::StringExecFns;

verus! {

/// The configuration of the application.
#[derive(Debug, Clone, PartialEq, Eq)]
pub struct AppConfig {
    pub storage_provider: Option<String>,
    pub server_mode: Option<String>,
    pub self_hosted_url: Option<String>,
}

pub ghost struct AppConfigView {
    pub storage_provider: Option<Seq<char>>,
    pub server_mode: Option<Seq<char>>,
    pub self_hosted_url: Option<Seq<char>>,
}

impl View for AppConfig {
    type V = AppConfigView;

    open spec fn view(&self) -> AppConfigView {
        AppConfigView {
            storage_provider: opt_text(self.storage_provider),
            server_mode: opt_text(self.server_mode),
            self_hosted_url: opt_text(self.self_hosted_url),
        }
    }
}

/// The configuration of an application that was never configured: local
/// storage, the cloud's server.
pub open spec fn default_config() -> AppConfigView {
    AppConfigView {
        storage_provider: Some("local"@),
        server_mode: Some("cloud"@),
        self_hosted_url: None,
    }
}

impl Default for AppConfig {
    fn default() -> (r: Self)
        ensures
            r@ == default_config(),
    {
        AppConfig {
            storage_provider: Some(owned("local")),
            server_mode: Some(owned("cloud")),
            self_hosted_url: None,
        }
    }
}

/// The configuration that an object's members denote: each setting is an
/// optional string.
pub open spec fn config_of(members: Seq<JsonMemberView>) -> Option<AppConfigView> {
    match (
        optional_text_of(member(members, "storageProvider"@)),
        optional_text_of(member(members, "serverMode"@)),
        optional_text_of(member(members, "selfHostedUrl"@)),
    ) {
        (Some(storage_provider), Some(server_mode), Some(self_hosted_url)) => Some(
            AppConfigView { storage_provider, server_mode, self_hosted_url },
        ),
        _ => None,
    }
}

pub open spec fn opt_config(c: Option<AppConfig>) -> Option<AppConfigView> {
    match c {
        Some(x) => Some(x@),
        None => None,
    }
}

/// Reads a configuration from the members of its object.
pub fn decode_config(members: &Vec<JsonMember>) -> (r: Option<AppConfig>)
    ensures
        opt_config(r) == config_of(members_view(members@)),
{
    match (
        optional_text_member(members, "storageProvider"),
        optional_text_member(members, "serverMode"),
        optional_text_member(members, "selfHostedUrl"),
    ) {
        (Some(storage_provider), Some(server_mode), Some(self_hosted_url)) => Some(
            AppConfig { storage_provider, server_mode, self_hosted_url },
        ),
        _ => None,
    }
}

/// The configuration that a file holds. `content` is the text of the
/// file, none where there is no file: the default then. A file that is
/// no configuration gives none.
pub open spec fn loaded_config(content: Option<Seq<char>>) -> Option<AppConfigView> {
    match content {
        None => Some(default_config()),
        Some(text) => match object_members(text) {
            Some(members) => config_of(members),
            None => None,
        },
    }
}

pub fn load_config(content: Option<&str>) -> (r: Option<AppConfig>)
    ensures
        opt_config(r) == loaded_config(
            opt_str(content),
        ),
{
    match content {
        None => Some(AppConfig::default()),
        Some(text) => match parse_object(text) {
            Some(members) => decode_config(&members),
            None => None,
        },
    }
}

/// A configuration as the JSON that is written to its file.
pub open spec fn config_json(config: AppConfigView) -> Seq<char> {
    "{\"storageProvider\":"@ + json_opt_text(config.storage_provider) + ",\"serverMode\":"@
        + json_opt_text(config.server_mode) + ",\"selfHostedUrl\":"@ + json_opt_text(
        config.self_hosted_url,
    ) + "}"@
}

pub fn encode_config(config: &AppConfig) -> (r: String)
    ensures
        r@ == config_json(config@),
{
    let mut out = String::new();
    out.append("{\"storageProvider\":");
    push_json_opt_text(&mut out, &config.storage_provider);
    out.append(",\"serverMode\":");
    push_json_opt_text(&mut out, &config.server_mode);
    out.append(",\"selfHostedUrl\":");
    push_json_opt_text(&mut out, &config.self_hosted_url);
    out.append("}");
    assert(out@ =~= config_json(config@));
    out
}

/// The session that an object's members denote. `nested` holds the members
/// of its `user` object. The user and the time of saving must be there; the
/// wallet and the signature are optional strings.
pub open spec fn session_of(
    members: Seq<JsonMemberView>,
    nested: Option<Seq<JsonMemberView>>,
) -> Option<DurableAuthSessionView> {
    match (
        member(members, "user"@),
        nested,
        optional_text_of(member(members, "walletAddress"@)),
        optional_text_of(member(members, "masterKeySignature"@)),
        unsigned_of(member(members, "savedAtMs"@)),
    ) {
        (
            Some(JsonItemView::Object(_)),
            Some(user_members),
            Some(wallet_address),
            Some(master_key_signature),
            Some(saved_at_ms),
        ) => match auth_user_of(user_members) {
            Some(user) => Some(
                DurableAuthSessionView { user, wallet_address, master_key_signature, saved_at_ms },
            ),
            None => None,
        },
        _ => None,
    }
}

pub open spec fn opt_session(s: Option<DurableAuthSession>) -> Option<DurableAuthSessionView> {
    match s {
        Some(x) => Some(x@),
        None => None,
    }
}

/// Reads a session from the members of its object, `nested` being the
/// members of its `user` object.
pub fn decode_session_with(members: &Vec<JsonMember>, nested: Option<&Vec<JsonMember>>) -> (r:
    Option<DurableAuthSession>)
    ensures
        opt_session(r) == session_of(members_view(members@), opt_members(nested)),
{
    match find_member(members, "user") {
        Some(JsonItem::Object(_)) => {},
        _ => {
            return None;
        },
    }
    let user_members = match nested {
        Some(m) => m,
        None => {
            return None;
        },
    };
    let wallet_address = match optional_text_member(members, "walletAddress") {
        Some(x) => x,
        None => {
            return None;
        },
    };
    let master_key_signature = match optional_text_member(members, "masterKeySignature") {
        Some(x) => x,
        None => {
            return None;
        },
    };
    let saved_at_ms: u64 = match unsigned_member(members, "savedAtMs") {
        Some(x) => x,
        None => {
            return None;
        },
    };
    match decode_auth_user(user_members) {
        Some(user) => Some(
            DurableAuthSession { user, wallet_address, master_key_signature, saved_at_ms },
        ),
        None => None,
    }
}

/// The session that a file holds; none where the text of the file is no
/// session.
pub open spec fn loaded_session(text: Seq<char>) -> Option<DurableAuthSessionView> {
    match object_members(text) {
        Some(members) => session_of(members, crate::auth::nested_user(members)),
        None => None,
    }
}

pub fn decode_auth_session(text: &str) -> (r: Option<DurableAuthSession>)
    ensures
        opt_session(r) == loaded_session(text@),
{
    match parse_object(text) {
        Some(members) => {
            let nested = crate::auth::parse_nested_user(&members);
            decode_session_with(&members, nested.as_ref())
        },
        None => None,
    }
}

/// A session as the JSON that is written to its file.
pub open spec fn session_json(session: DurableAuthSessionView) -> Seq<char> {
    "{\"user\":{\"id\":"@ + json_quoted(session.user.id) + ",\"email\":"@ + json_opt_text(
        session.user.email,
    ) + "},\"walletAddress\":"@ + json_opt_text(session.wallet_address)
        + ",\"masterKeySignature\":"@ + json_opt_text(session.master_key_signature)
        + ",\"savedAtMs\":"@ + decimal_digits(session.saved_at_ms as nat) + "}"@
}

pub fn encode_auth_session(session: &DurableAuthSession) -> (r: String)
    ensures
        r@ == session_json(session@),
{
    let mut out = String::new();
    out.append("{\"user\":{\"id\":");
    push_json_text(&mut out, session.user.id.as_str());
    out.append(",\"email\":");
    push_json_opt_text(&mut out, &session.user.email);
    out.append("},\"walletAddress\":");
    push_json_opt_text(&mut out, &session.wallet_address);
    out.append(",\"masterKeySignature\":");
    push_json_opt_text(&mut out, &session.master_key_signature);
    out.append(",\"savedAtMs\":");
    push_decimal(&mut out, session.saved_at_ms);
    out.append("}");
    assert(out@ =~= session_json(session@));
    out
}

} // verus!
