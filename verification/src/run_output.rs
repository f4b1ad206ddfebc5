//! The protocol of a per-run automation helper: the command it is given on
//! its standard input, and the JSON lines it writes to its standard output.

use crate::decimal::{decimal_digits, push_decimal};
use crate::events::{opt_event, push_json_text, AppEvent, AppEventView};
use crate::json::{
    find_member, json_of, json_quoted, json_text, member, members_view, object_members, opt_members,
    opt_text, parse_object, text_member, text_member_or_empty, text_of, text_or_empty, JsonItem,
    JsonItemView, JsonMember, JsonMemberView,
};
use crate::text::{owned, same_text};
use vstd::prelude::*;
use vstd::string::StringExecFns;

verus! {

/// What a run is about; goes into the events of the run.
#[derive(Debug, Clone, PartialEq, Eq)]
pub struct RunContext {
    pub run_id: String,
    pub platform_id: String,
    pub company: String,
    pub name: String,
}

pub ghost struct RunContextView {
    pub run_id: Seq<char>,
    pub platform_id: Seq<char>,
    pub company: Seq<char>,
    pub name: Seq<char>,
}

impl View for RunContext {
    type V = RunContextView;

    open spec fn view(&self) -> RunContextView {
        RunContextView {
            run_id: self.run_id@,
            platform_id: self.platform_id@,
            company: self.company@,
            name: self.name@,
        }
    }
}

/// The one line that tells a helper what to run.
pub open spec fn run_command_of(run_id: Seq<char>, connector_path: Seq<char>, url: Seq<char>) -> Seq<
    char,
> {
    "{\"type\":\"run\",\"runId\":"@ + json_quoted(run_id) + ",\"connectorPath\":"@ + json_quoted(
        connector_path,
    ) + ",\"url\":"@ + json_quoted(url) + ",\"headless\":true}"@
}

pub fn run_command_line(run_id: &str, connector_path: &str, url: &str) -> (r: String)
    ensures
        r@ == run_command_of(run_id@, connector_path@, url@),
{
    let mut out = String::new();
    out.append("{\"type\":\"run\",\"runId\":");
    push_json_text(&mut out, run_id);
    out.append(",\"connectorPath\":");
    push_json_text(&mut out, connector_path);
    out.append(",\"url\":");
    push_json_text(&mut out, url);
    out.append(",\"headless\":true}");
    assert(out@ =~= run_command_of(run_id@, connector_path@, url@));
    out
}

/// The status of a run as the helper reports it.
#[derive(Debug, Clone, PartialEq, Eq)]
pub enum RunStatus {
    /// A bare name, such as `RUNNING`.
    Named(String),
    /// Anything else, as JSON text.
    Structured(String),
}

pub ghost enum RunStatusView {
    Named(Seq<char>),
    Structured(Seq<char>),
}

impl View for RunStatus {
    type V = RunStatusView;

    open spec fn view(&self) -> RunStatusView {
        match *self {
            RunStatus::Named(s) => RunStatusView::Named(s@),
            RunStatus::Structured(s) => RunStatusView::Structured(s@),
        }
    }
}

/// One decoded line of a helper's output.
#[derive(Debug, Clone, PartialEq, Eq)]
pub enum RunMessage {
    Ready,
    Log { message: Option<String> },
    Status { status: Option<RunStatus> },
    /// The export, as JSON text.
    Result { data: Option<String> },
    Error { message: Option<String> },
    /// A keyed value, as JSON text.
    Data { key: String, value: Option<String> },
    /// A line that is no JSON object, or one of another kind.
    Other,
}

pub ghost enum RunMessageView {
    Ready,
    Log { message: Option<Seq<char>> },
    Status { status: Option<RunStatusView> },
    Result { data: Option<Seq<char>> },
    Error { message: Option<Seq<char>> },
    Data { key: Seq<char>, value: Option<Seq<char>> },
    Other,
}

pub open spec fn opt_status(s: Option<RunStatus>) -> Option<RunStatusView> {
    match s {
        Some(x) => Some(x@),
        None => None,
    }
}

impl View for RunMessage {
    type V = RunMessageView;

    open spec fn view(&self) -> RunMessageView {
        match *self {
            RunMessage::Ready => RunMessageView::Ready,
            RunMessage::Log { message } => RunMessageView::Log { message: opt_text(message) },
            RunMessage::Status { status } => RunMessageView::Status { status: opt_status(status) },
            RunMessage::Result { data } => RunMessageView::Result { data: opt_text(data) },
            RunMessage::Error { message } => RunMessageView::Error { message: opt_text(message) },
            RunMessage::Data { key, value } => RunMessageView::Data {
                key: key@,
                value: opt_text(value),
            },
            RunMessage::Other => RunMessageView::Other,
        }
    }
}

/// A member as JSON text, where it is present.
pub open spec fn raw_of(item: Option<JsonItemView>) -> Option<Seq<char>> {
    match item {
        Some(_) => Some(json_of(item)),
        None => None,
    }
}

/// A status member: a string is a name, anything else is kept as it is.
pub open spec fn status_of(item: Option<JsonItemView>) -> Option<RunStatusView> {
    match item {
        Some(JsonItemView::Text(t)) => Some(RunStatusView::Named(t)),
        Some(_) => Some(RunStatusView::Structured(json_of(item))),
        None => None,
    }
}

/// What a line's members denote.
pub open spec fn run_message_of(parsed: Option<Seq<JsonMemberView>>) -> RunMessageView {
    match parsed {
        None => RunMessageView::Other,
        Some(m) => {
            let kind = text_or_empty(text_of(member(m, "type"@)));
            if kind == "ready"@ {
                RunMessageView::Ready
            } else if kind == "log"@ {
                RunMessageView::Log { message: text_of(member(m, "message"@)) }
            } else if kind == "status"@ {
                RunMessageView::Status { status: status_of(member(m, "status"@)) }
            } else if kind == "result"@ {
                RunMessageView::Result { data: raw_of(member(m, "data"@)) }
            } else if kind == "error"@ {
                RunMessageView::Error { message: text_of(member(m, "message"@)) }
            } else if kind == "data"@ {
                RunMessageView::Data {
                    key: text_or_empty(text_of(member(m, "key"@))),
                    value: raw_of(member(m, "value"@)),
                }
            } else {
                RunMessageView::Other
            }
        },
    }
}

fn raw_member(members: &Vec<JsonMember>, key: &str) -> (r: Option<String>)
    ensures
        opt_text(r) == raw_of(member(members_view(members@), key@)),
{
    match find_member(members, key) {
        Some(item) => Some(json_text(Some(item))),
        None => None,
    }
}

fn status_member(members: &Vec<JsonMember>) -> (r: Option<RunStatus>)
    ensures
        opt_status(r) == status_of(member(members_view(members@), "status"@)),
{
    match find_member(members, "status") {
        Some(JsonItem::Text(t)) => Some(RunStatus::Named(t.clone())),
        Some(item) => Some(RunStatus::Structured(json_text(Some(item)))),
        None => None,
    }
}

/// Decodes a line that was parsed already.
pub fn decode_run_members(parsed: Option<&Vec<JsonMember>>) -> (r: RunMessage)
    ensures
        r@ == run_message_of(opt_members(parsed)),
{
    let m = match parsed {
        Some(m) => m,
        None => {
            return RunMessage::Other;
        },
    };
    let kind = text_member_or_empty(m, "type");
    let kind = kind.as_str();
    if same_text(kind, "ready") {
        RunMessage::Ready
    } else if same_text(kind, "log") {
        RunMessage::Log { message: text_member(m, "message") }
    } else if same_text(kind, "status") {
        RunMessage::Status { status: status_member(m) }
    } else if same_text(kind, "result") {
        RunMessage::Result { data: raw_member(m, "data") }
    } else if same_text(kind, "error") {
        RunMessage::Error { message: text_member(m, "message") }
    } else if same_text(kind, "data") {
        RunMessage::Data { key: text_member_or_empty(m, "key"), value: raw_member(m, "value") }
    } else {
        RunMessage::Other
    }
}

/// Decodes one line of a helper's output.
pub fn decode_run_line(line: &str) -> (r: RunMessage)
    ensures
        r@ == run_message_of(object_members(line@)),
{
    let parsed = parse_object(line);
    decode_run_members(parsed.as_ref())
}

/// Whether a message ends a run: its result, or its failure.
pub open spec fn is_terminal(message: RunMessageView) -> bool {
    message is Result || message is Error
}

pub fn terminal_message(message: &RunMessage) -> (r: bool)
    ensures
        r == is_terminal(message@),
{
    match message {
        RunMessage::Result { data } => true,
        RunMessage::Error { message } => true,
        _ => false,
    }
}

/// The beginning of every payload of a run: the run it belongs to.
pub open spec fn run_head(run_id: Seq<char>) -> Seq<char> {
    "{\"runId\":"@ + json_quoted(run_id)
}

/// The end of a payload that is stamped with the time.
pub open spec fn stamped(now_ms: u64) -> Seq<char> {
    ",\"timestamp\":"@ + decimal_digits(now_ms as nat) + "}"@
}

pub open spec fn log_event_of(run_id: Seq<char>, message: Seq<char>, now_ms: u64) -> AppEventView {
    AppEventView {
        name: "connector-log"@,
        payload: run_head(run_id) + ",\"message\":"@ + json_quoted(message) + stamped(now_ms),
    }
}

/// A status as the JSON that is published: a name becomes an object with
/// the name as its `type`.
pub open spec fn status_json(status: RunStatusView) -> Seq<char> {
    match status {
        RunStatusView::Named(n) => "{\"type\":"@ + json_quoted(n) + "}"@,
        RunStatusView::Structured(raw) => raw,
    }
}

pub open spec fn status_event_of(run_id: Seq<char>, status: Seq<char>, now_ms: u64) -> AppEventView {
    AppEventView {
        name: "connector-status"@,
        payload: run_head(run_id) + ",\"status\":"@ + status + stamped(now_ms),
    }
}

/// The status that is published for a run whose helper ended without
/// having reported how.
pub open spec fn stopped_event_of(run_id: Seq<char>, now_ms: u64) -> AppEventView {
    status_event_of(run_id, "{\"type\":\"STOPPED\",\"message\":\"Process ended\"}"@, now_ms)
}

pub open spec fn export_event_of(ctx: RunContextView, data: Seq<char>, now_ms: u64) -> AppEventView {
    AppEventView {
        name: "export-complete"@,
        payload: run_head(ctx.run_id) + ",\"platformId\":"@ + json_quoted(ctx.platform_id)
            + ",\"company\":"@ + json_quoted(ctx.company) + ",\"name\":"@ + json_quoted(ctx.name)
            + ",\"data\":"@ + data + stamped(now_ms),
    }
}

pub open spec fn data_event_of(
    run_id: Seq<char>,
    key: Seq<char>,
    value: Option<Seq<char>>,
    now_ms: u64,
) -> AppEventView {
    AppEventView {
        name: "connector-data"@,
        payload: run_head(run_id) + ",\"key\":"@ + json_quoted(key) + ",\"value\":"@ + (match value {
            Some(v) => v,
            None => "null"@,
        }) + stamped(now_ms),
    }
}

pub open spec fn run_started_of(ctx: RunContextView) -> AppEventView {
    AppEventView {
        name: "run-started"@,
        payload: run_head(ctx.run_id) + ",\"platformId\":"@ + json_quoted(ctx.platform_id)
            + ",\"company\":"@ + json_quoted(ctx.company) + ",\"name\":"@ + json_quoted(ctx.name)
            + ",\"runtime\":\"playwright\"}"@,
    }
}

/// The event that tells that a run has started in a window of its own.
pub open spec fn window_run_started_of(ctx: RunContextView) -> AppEventView {
    AppEventView {
        name: "run-started"@,
        payload: run_head(ctx.run_id) + ",\"platformId\":"@ + json_quoted(ctx.platform_id)
            + ",\"company\":"@ + json_quoted(ctx.company) + ",\"name\":"@ + json_quoted(ctx.name)
            + "}"@,
    }
}

/// The application event for a message of a run: each kind has its own,
/// and a message that lacks what its event carries has none.
pub open spec fn run_app_event(ctx: RunContextView, message: RunMessageView, now_ms: u64) -> Option<
    AppEventView,
> {
    match message {
        RunMessageView::Log { message: Some(text) } => Some(
            log_event_of(ctx.run_id, text, now_ms),
        ),
        RunMessageView::Status { status: Some(status) } => Some(
            status_event_of(ctx.run_id, status_json(status), now_ms),
        ),
        RunMessageView::Result { data: Some(data) } => Some(export_event_of(ctx, data, now_ms)),
        RunMessageView::Error { message: Some(text) } => Some(
            log_event_of(ctx.run_id, "Error: "@ + text, now_ms),
        ),
        RunMessageView::Data { key, value } => Some(
            data_event_of(ctx.run_id, key, value, now_ms),
        ),
        _ => None,
    }
}

fn begin_payload(run_id: &str) -> (r: String)
    ensures
        r@ == run_head(run_id@),
{
    let mut out = String::new();
    out.append("{\"runId\":");
    push_json_text(&mut out, run_id);
    out
}

fn push_stamp(out: &mut String, now_ms: u64)
    ensures
        final(out)@ == old(out)@ + stamped(now_ms),
{
    out.append(",\"timestamp\":");
    push_decimal(out, now_ms);
    out.append("}");
    assert(out@ =~= old(out)@ + stamped(now_ms));
}

pub fn log_event(run_id: &str, message: &str, now_ms: u64) -> (r: AppEvent)
    ensures
        r@ == log_event_of(run_id@, message@, now_ms),
{
    let mut out = begin_payload(run_id);
    out.append(",\"message\":");
    push_json_text(&mut out, message);
    push_stamp(&mut out, now_ms);
    assert(out@ =~= log_event_of(run_id@, message@, now_ms).payload);
    AppEvent { name: owned("connector-log"), payload: out }
}

pub fn status_event(run_id: &str, status_json: &str, now_ms: u64) -> (r: AppEvent)
    ensures
        r@ == status_event_of(run_id@, status_json@, now_ms),
{
    let mut out = begin_payload(run_id);
    out.append(",\"status\":");
    out.append(status_json);
    push_stamp(&mut out, now_ms);
    assert(out@ =~= status_event_of(run_id@, status_json@, now_ms).payload);
    AppEvent { name: owned("connector-status"), payload: out }
}

pub fn stopped_event(run_id: &str, now_ms: u64) -> (r: AppEvent)
    ensures
        r@ == stopped_event_of(run_id@, now_ms),
{
    status_event(run_id, "{\"type\":\"STOPPED\",\"message\":\"Process ended\"}", now_ms)
}

fn push_context(out: &mut String, ctx: &RunContext)
    ensures
        final(out)@ == old(out)@ + ",\"platformId\":"@ + json_quoted(ctx@.platform_id)
            + ",\"company\":"@ + json_quoted(ctx@.company) + ",\"name\":"@ + json_quoted(
            ctx@.name,
        ),
{
    out.append(",\"platformId\":");
    push_json_text(out, ctx.platform_id.as_str());
    out.append(",\"company\":");
    push_json_text(out, ctx.company.as_str());
    out.append(",\"name\":");
    push_json_text(out, ctx.name.as_str());
}

pub fn run_started(ctx: &RunContext) -> (r: AppEvent)
    ensures
        r@ == run_started_of(ctx@),
{
    let mut out = begin_payload(ctx.run_id.as_str());
    push_context(&mut out, ctx);
    out.append(",\"runtime\":\"playwright\"}");
    assert(out@ =~= run_started_of(ctx@).payload);
    AppEvent { name: owned("run-started"), payload: out }
}

pub fn window_run_started(ctx: &RunContext) -> (r: AppEvent)
    ensures
        r@ == window_run_started_of(ctx@),
{
    let mut out = begin_payload(ctx.run_id.as_str());
    push_context(&mut out, ctx);
    out.append("}");
    assert(out@ =~= window_run_started_of(ctx@).payload);
    AppEvent { name: owned("run-started"), payload: out }
}

/// The event to publish for a message of a run.
pub fn publish_run_message(ctx: &RunContext, message: &RunMessage, now_ms: u64) -> (r: Option<
    AppEvent,
>)
    ensures
        opt_event(r) == run_app_event(ctx@, message@, now_ms),
{
    let run_id = ctx.run_id.as_str();
    match message {
        RunMessage::Log { message: Some(text) } => Some(log_event(run_id, text.as_str(), now_ms)),
        RunMessage::Status { status: Some(status) } => {
            let json = match status {
                RunStatus::Named(n) => {
                    let mut s = String::new();
                    s.append("{\"type\":");
                    push_json_text(&mut s, n.as_str());
                    s.append("}");
                    assert(s@ =~= status_json(status@));
                    s
                },
                RunStatus::Structured(raw) => raw.clone(),
            };
            Some(status_event(run_id, json.as_str(), now_ms))
        },
        RunMessage::Result { data: Some(data) } => {
            let mut out = begin_payload(run_id);
            push_context(&mut out, ctx);
            out.append(",\"data\":");
            out.append(data.as_str());
            push_stamp(&mut out, now_ms);
            assert(out@ =~= export_event_of(ctx@, data@, now_ms).payload);
            Some(AppEvent { name: owned("export-complete"), payload: out })
        },
        RunMessage::Error { message: Some(text) } => {
            let mut line = String::new();
            line.append("Error: ");
            line.append(text.as_str());
            assert(line@ =~= "Error: "@ + text@);
            Some(log_event(run_id, line.as_str(), now_ms))
        },
        RunMessage::Data { key, value } => {
            let mut out = begin_payload(run_id);
            out.append(",\"key\":");
            push_json_text(&mut out, key.as_str());
            out.append(",\"value\":");
            match value {
                Some(v) => out.append(v.as_str()),
                None => out.append("null"),
            }
            push_stamp(&mut out, now_ms);
            assert(out@ =~= data_event_of(ctx@.run_id, key@, opt_text(*value), now_ms).payload);
            Some(AppEvent { name: owned("connector-data"), payload: out })
        },
        _ => None,
    }
}

} // verus!
