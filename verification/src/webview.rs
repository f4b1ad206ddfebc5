//! Runs that are driven by a window instead of a helper: the page reports
//! its status and its result in the fragment of its address, which is
//! polled.

use crate::decimal::{push_signed, signed_digits};
use crate::events::{AppEvent, AppEventView};
use crate::http::{decode_text, utf8_text};
use crate::json::{
    find_member, json_of, json_text, member, object_members, opt_members, opt_str, opt_text,
    parse_object, signed_member, signed_of, text_member, text_member_or_empty, text_of,
    text_or_empty, JsonItem, JsonItemView, JsonMember, JsonMemberView,
};
use crate::run_output::{
    log_event, log_event_of, status_event, status_event_of, RunContext, RunContextView,
};
use crate::text::{chars_of, find_text, first_occurrence, piece, same_text};
use vstd::prelude::*;
use vstd::string::StringExecFns;

verus! {

/// What drives a run.
#[derive(Debug, Clone, Copy, PartialEq, Eq, Structural)]
pub enum RunKind {
    /// An automation helper of its own.
    Helper,
    /// A window, into which the connector's script is injected; with or
    /// without the scripts that capture the page's network traffic.
    Window { network_capture: bool },
}

/// What drives a run of a connector, by the runtime the connector names.
pub open spec fn run_kind_of(runtime: Option<Seq<char>>) -> RunKind {
    if runtime == Some("playwright"@) {
        RunKind::Helper
    } else {
        RunKind::Window { network_capture: runtime == Some("network-capture"@) }
    }
}

pub fn run_kind(runtime: Option<&str>) -> (r: RunKind)
    ensures
        r == run_kind_of(
            opt_str(runtime),
        ),
{
    match runtime {
        Some(s) => if same_text(s, "playwright") {
            RunKind::Helper
        } else {
            RunKind::Window { network_capture: same_text(s, "network-capture") }
        },
        None => RunKind::Window { network_capture: false },
    }
}

/// The label of the window that drives a run.
pub fn window_label(run_id: &str) -> (r: String)
    ensures
        r@ == crate::runs::window_label(run_id@),
{
    let mut label = String::new();
    label.append("connector-");
    label.append(run_id);
    assert(label@ =~= crate::runs::window_label(run_id@));
    label
}

/// The window that a request to close names: that of the run whose
/// identifier the members hold under `runId`.
pub open spec fn window_to_close(parsed: Option<Seq<JsonMemberView>>) -> Option<Seq<char>> {
    match parsed {
        Some(m) => match text_of(member(m, "runId"@)) {
            Some(id) => Some(crate::runs::window_label(id)),
            None => None,
        },
        None => None,
    }
}

/// The window to close for a request that was parsed already.
pub fn close_request_window(parsed: Option<&Vec<JsonMember>>) -> (r: Option<String>)
    ensures
        opt_text(r) == window_to_close(opt_members(parsed)),
{
    match parsed {
        Some(m) => match text_member(m, "runId") {
            Some(id) => Some(window_label(id.as_str())),
            None => None,
        },
        None => None,
    }
}

/// The window to close for the payload of a request to close.
pub fn window_of_close_request(payload: &str) -> (r: Option<String>)
    ensures
        opt_text(r) == window_to_close(object_members(payload@)),
{
    let parsed = parse_object(payload);
    close_request_window(parsed.as_ref())
}

/// How often a window is polled before the run is given up.
pub const POLL_LIMIT: u32 = 300;

/// Milliseconds between two polls.
pub const POLL_INTERVAL_MS: u64 = 1000;

/// Milliseconds that the page is given to write its fragment.
pub const SCRIPT_SETTLE_MS: u64 = 200;

/// The bytes that base64 text, in the standard alphabet with padding,
/// stands for; none for text that is no such base64.
pub uninterp spec fn base64_decoded(input: Seq<char>) -> Option<Seq<u8>>;

pub open spec fn opt_bytes(b: Option<Vec<u8>>) -> Option<Seq<u8>> {
    match b {
        Some(v) => Some(v@),
        None => None,
    }
}

/// Calls `decode` of `base64::engine::general_purpose::STANDARD`. Trusted:
/// the result is a function of `input` alone.
#[verifier::external_body]
pub(crate) fn base64_decode(input: &str) -> (r: Option<Vec<u8>>)
    ensures
        opt_bytes(r) == base64_decoded(input@),
{
    base64::Engine::decode(&base64::engine::general_purpose::STANDARD, input).ok()
}

/// What a page wrote into its address: what follows the mark
/// `#DATACONNECT_`.
pub open spec fn poll_fragment(url: Seq<char>) -> Option<Seq<char>> {
    match first_occurrence(url, "#DATACONNECT_"@, 0) {
        Some(i) => Some(url.subrange(i + 13, url.len() as int)),
        None => None,
    }
}

pub fn read_poll_fragment(url: &str) -> (r: Option<String>)
    ensures
        opt_text(r) == poll_fragment(url@),
{
    proof {
        reveal_strlit("#DATACONNECT_");
    }
    let v = chars_of(url);
    let mark = chars_of("#DATACONNECT_");
    match find_text(&v, &mark) {
        Some(i) => Some(piece(url, i + 13, v.len())),
        None => None,
    }
}

/// What a page reported.
#[derive(Debug, Clone, PartialEq, Eq)]
pub enum PollMessage {
    /// The export, as JSON text, and the number of conversations it counts.
    Result { data: String, total: i64 },
    /// The status, as JSON text, and the message it carries.
    Status { data: String, message: Option<String> },
    /// Nothing that is understood.
    Other,
}

pub ghost enum PollMessageView {
    Result { data: Seq<char>, total: i64 },
    Status { data: Seq<char>, message: Option<Seq<char>> },
    Other,
}

impl View for PollMessage {
    type V = PollMessageView;

    open spec fn view(&self) -> PollMessageView {
        match *self {
            PollMessage::Result { data, total } => PollMessageView::Result { data: data@, total },
            PollMessage::Status { data, message } => PollMessageView::Status {
                data: data@,
                message: opt_text(message),
            },
            PollMessage::Other => PollMessageView::Other,
        }
    }
}

/// The members of the object stored under `data`, where one is stored
/// there.
pub open spec fn nested_data(members: Seq<JsonMemberView>) -> Option<Seq<JsonMemberView>> {
    match member(members, "data"@) {
        Some(JsonItemView::Object(raw)) => object_members(raw),
        _ => None,
    }
}

/// What the members of a report denote, `data` being the members of the
/// report's `data` object.
pub open spec fn poll_message_of(
    parsed: Option<Seq<JsonMemberView>>,
    data: Option<Seq<JsonMemberView>>,
) -> PollMessageView {
    match parsed {
        None => PollMessageView::Other,
        Some(m) => {
            let kind = text_or_empty(text_of(member(m, "type"@)));
            let raw = json_of(member(m, "data"@));
            if kind == "RESULT"@ {
                PollMessageView::Result {
                    data: raw,
                    total: match data {
                        Some(d) => match signed_of(member(d, "totalConversations"@)) {
                            Some(n) => n,
                            None => 0,
                        },
                        None => 0,
                    },
                }
            } else if kind == "STATUS"@ {
                PollMessageView::Status {
                    data: raw,
                    message: match data {
                        Some(d) => text_of(member(d, "message"@)),
                        None => None,
                    },
                }
            } else {
                PollMessageView::Other
            }
        },
    }
}

/// Decodes a report that was parsed already.
pub fn decode_poll_members(parsed: Option<&Vec<JsonMember>>, data: Option<&Vec<JsonMember>>) -> (r:
    PollMessage)
    ensures
        r@ == poll_message_of(opt_members(parsed), opt_members(data)),
{
    let m = match parsed {
        Some(m) => m,
        None => {
            return PollMessage::Other;
        },
    };
    let kind = text_member_or_empty(m, "type");
    let raw = json_text(find_member(m, "data"));
    if same_text(kind.as_str(), "RESULT") {
        let total: i64 = match data {
            Some(d) => match signed_member(d, "totalConversations") {
                Some(n) => n,
                None => 0,
            },
            None => 0,
        };
        PollMessage::Result { data: raw, total }
    } else if same_text(kind.as_str(), "STATUS") {
        let message = match data {
            Some(d) => text_member(d, "message"),
            None => None,
        };
        PollMessage::Status { data: raw, message }
    } else {
        PollMessage::Other
    }
}

/// The members of the JSON object that a fragment holds in base64.
pub open spec fn fragment_members(fragment: Seq<char>) -> Option<Seq<JsonMemberView>> {
    match base64_decoded(fragment) {
        Some(bytes) => match utf8_text(bytes) {
            Some(text) => object_members(text),
            None => None,
        },
        None => None,
    }
}

pub open spec fn nested_of(parsed: Option<Seq<JsonMemberView>>) -> Option<Seq<JsonMemberView>> {
    match parsed {
        Some(m) => nested_data(m),
        None => None,
    }
}

/// Decodes what a page wrote into its address.
pub fn decode_poll_fragment(fragment: &str) -> (r: PollMessage)
    ensures
        r@ == poll_message_of(fragment_members(fragment@), nested_of(fragment_members(fragment@))),
{
    let parsed = match base64_decode(fragment) {
        Some(bytes) => match decode_text(bytes.as_slice()) {
            Some(text) => parse_object(text.as_str()),
            None => None,
        },
        None => None,
    };
    let data = match &parsed {
        Some(m) => match find_member(m, "data") {
            Some(JsonItem::Object(raw)) => parse_object(raw.as_str()),
            _ => None,
        },
        None => None,
    };
    decode_poll_members(parsed.as_ref(), data.as_ref())
}

/// The status that is published with a result.
pub open spec fn complete_status(data: Seq<char>, total: i64) -> Seq<char> {
    "{\"type\":\"COMPLETE\",\"message\":\"Exported "@ + signed_digits(total as int)
        + " conversations\",\"data\":"@ + data + "}"@
}

/// The status that is published for a window that reported nothing in
/// time.
pub open spec fn timeout_event_of(run_id: Seq<char>, now_ms: u64) -> AppEventView {
    status_event_of(run_id, "{\"type\":\"ERROR\",\"message\":\"Polling timeout\"}"@, now_ms)
}

pub fn timeout_event(run_id: &str, now_ms: u64) -> (r: AppEvent)
    ensures
        r@ == timeout_event_of(run_id@, now_ms),
{
    status_event(run_id, "{\"type\":\"ERROR\",\"message\":\"Polling timeout\"}", now_ms)
}

/// Whether polling goes on after `polls` polls.
pub fn poll_again(polls: u32) -> (r: bool)
    ensures
        r == (polls < POLL_LIMIT),
{
    polls < POLL_LIMIT
}

/// What follows from a report: the events to publish, in order, and
/// whether the run is over.
pub struct PollReply {
    pub events: Vec<AppEvent>,
    pub finished: bool,
}

pub open spec fn events_view(events: Seq<AppEvent>) -> Seq<AppEventView> {
    Seq::new(events.len(), |i: int| events[i]@)
}

/// A result is published as a completed status and as the export, and ends
/// the run; a status is published as it is, and its message as a line of
/// the log.
pub open spec fn poll_events(ctx: RunContextView, message: PollMessageView, now_ms: u64) -> Seq<
    AppEventView,
> {
    match message {
        PollMessageView::Result { data, total } => seq![
            status_event_of(ctx.run_id, complete_status(data, total), now_ms),
            crate::run_output::export_event_of(ctx, data, now_ms),
        ],
        PollMessageView::Status { data, message } => match message {
            Some(text) => seq![
                status_event_of(ctx.run_id, data, now_ms),
                log_event_of(ctx.run_id, text, now_ms),
            ],
            None => seq![status_event_of(ctx.run_id, data, now_ms)],
        },
        PollMessageView::Other => Seq::<AppEventView>::empty(),
    }
}

pub fn poll_reply(ctx: &RunContext, message: &PollMessage, now_ms: u64) -> (r: PollReply)
    ensures
        events_view(r.events@) == poll_events(ctx@, message@, now_ms),
        r.finished == message@ is Result,
{
    let mut events: Vec<AppEvent> = Vec::new();
    let run_id = ctx.run_id.as_str();
    match message {
        PollMessage::Result { data, total } => {
            let mut status = String::new();
            status.append("{\"type\":\"COMPLETE\",\"message\":\"Exported ");
            push_signed(&mut status, *total);
            status.append(" conversations\",\"data\":");
            status.append(data.as_str());
            status.append("}");
            assert(status@ =~= complete_status(data@, *total));
            events.push(status_event(run_id, status.as_str(), now_ms));
            let export = crate::run_output::publish_run_message(
                ctx,
                &crate::run_output::RunMessage::Result { data: Some(data.clone()) },
                now_ms,
            );
            match export {
                Some(e) => {
                    events.push(e);
                },
                None => {},
            }
            assert(events_view(events@) =~= poll_events(ctx@, message@, now_ms));
            PollReply { events, finished: true }
        },
        PollMessage::Status { data, message: text } => {
            events.push(status_event(run_id, data.as_str(), now_ms));
            match text {
                Some(t) => {
                    events.push(log_event(run_id, t.as_str(), now_ms));
                },
                None => {},
            }
            assert(events_view(events@) =~= poll_events(ctx@, message@, now_ms));
            PollReply { events, finished: false }
        },
        PollMessage::Other => {
            assert(events_view(events@) =~= poll_events(ctx@, message@, now_ms));
            PollReply { events, finished: false }
        },
    }
}

} // verus!
