//! The loopback server as a whole: where it binds, how one request is read
//! from its connection, and what is done with a request once it is read.

use crate::auth::nested_of;
use crate::callback_state::{
    pending_after, validation_of, CallbackRejectReason, CallbackStateIssuer, CallbackValidation,
    PendingToken,
};
use crate::decimal::{decimal_digits, push_decimal};
use crate::gateway::{
    body_members, callback_outcome, callback_reply, callback_token, handle_auth_callback, reply_of,
    CallbackOutcome, CallbackOutcomeView, CallbackReply, CallbackReplyView, PendingRequest,
    PendingRequestView,
};
use crate::http::{
    blank_line, body_text, content_length_field, content_length_in, content_type_field,
    content_type_in, is_blank_line, parse_request_line, path_of, read_utf8_body, request_line_of,
    request_path, MAX_BODY_BYTES,
};
use crate::json::opt_text;
use crate::proxy::{plan_proxy, proxy_step, ProxyStep, ProxyStepView};
use crate::response::{
    bare_response_of, json_response, json_response_of, not_found, not_found_of, preflight,
    CorsPolicy, HttpResponse, HttpResponseView,
};
use crate::route::{dispatch, route_of, ProxyRoute, Route};
use crate::text::{chars_of, owned, piece, replace_all, replaced, same_text};
use vstd::prelude::*;
use vstd::string::StringExecFns;

verus! {

/// The port that the identity provider admits for callbacks.
pub const PREFERRED_CALLBACK_PORT: u16 = 3083;

/// The port that is tried where the preferred one is taken.
pub const FALLBACK_CALLBACK_PORT: u16 = 5173;

/// Where to bind the listener.
#[derive(Debug, Clone, Copy, PartialEq, Eq, Structural)]
pub enum BindAttempt {
    /// This port of the loopback address.
    Fixed(u16),
    /// Any port that the operating system assigns.
    Ephemeral,
}

/// The place to bind after `failures` places could not be bound: the
/// preferred port, the fallback port, any port; none after that.
pub open spec fn bind_attempt_of(failures: usize) -> Option<BindAttempt> {
    if failures == 0 {
        Some(BindAttempt::Fixed(PREFERRED_CALLBACK_PORT))
    } else if failures == 1 {
        Some(BindAttempt::Fixed(FALLBACK_CALLBACK_PORT))
    } else if failures == 2 {
        Some(BindAttempt::Ephemeral)
    } else {
        None
    }
}

pub fn bind_attempt(failures: usize) -> (r: Option<BindAttempt>)
    ensures
        r == bind_attempt_of(failures),
{
    if failures == 0 {
        Some(BindAttempt::Fixed(PREFERRED_CALLBACK_PORT))
    } else if failures == 1 {
        Some(BindAttempt::Fixed(FALLBACK_CALLBACK_PORT))
    } else if failures == 2 {
        Some(BindAttempt::Ephemeral)
    } else {
        None
    }
}

/// The address of the page that starts a flow in the browser.
pub open spec fn auth_url_of(port: u16, token: Seq<char>) -> Seq<char> {
    "http://localhost:"@ + decimal_digits(port as nat) + "?auth_state="@ + token
}

pub fn auth_url(port: u16, token: &str) -> (r: String)
    ensures
        r@ == auth_url_of(port, token@),
{
    let mut out = String::new();
    out.append("http://localhost:");
    push_decimal(&mut out, port as u64);
    out.append("?auth_state=");
    out.append(token);
    assert(out@ =~= auth_url_of(port, token@));
    out
}

/// What is known of a request once its headers are read.
#[derive(Debug, Clone, PartialEq, Eq)]
pub struct RequestHead {
    pub method: String,
    pub target: String,
    pub content_length: usize,
    pub content_type: Option<String>,
}

pub ghost struct RequestHeadView {
    pub method: Seq<char>,
    pub target: Seq<char>,
    pub content_length: usize,
    pub content_type: Option<Seq<char>>,
}

impl View for RequestHead {
    type V = RequestHeadView;

    open spec fn view(&self) -> RequestHeadView {
        RequestHeadView {
            method: self.method@,
            target: self.target@,
            content_length: self.content_length,
            content_type: opt_text(self.content_type),
        }
    }
}

/// Why a request could not be read.
#[derive(Debug, Clone, Copy, PartialEq, Eq, Structural)]
pub enum FramingError {
    /// The first line was no request line.
    MalformedRequestLine,
    /// The connection ended, or the body was shorter than declared.
    Truncated,
    /// The reader was handed something it had not asked for.
    OutOfTurn,
}

/// How far the reading of a request has come.
#[derive(Debug, Clone, PartialEq, Eq)]
pub enum ReaderState {
    AwaitingRequestLine,
    AwaitingHeaders(RequestHead),
    AwaitingBody(RequestHead),
    Complete(PendingRequest),
    Failed(FramingError),
}

pub ghost enum ReaderStateView {
    AwaitingRequestLine,
    AwaitingHeaders(RequestHeadView),
    AwaitingBody(RequestHeadView),
    Complete(PendingRequestView),
    Failed(FramingError),
}

impl View for ReaderState {
    type V = ReaderStateView;

    open spec fn view(&self) -> ReaderStateView {
        match *self {
            ReaderState::AwaitingRequestLine => ReaderStateView::AwaitingRequestLine,
            ReaderState::AwaitingHeaders(h) => ReaderStateView::AwaitingHeaders(h@),
            ReaderState::AwaitingBody(h) => ReaderStateView::AwaitingBody(h@),
            ReaderState::Complete(r) => ReaderStateView::Complete(r@),
            ReaderState::Failed(e) => ReaderStateView::Failed(e),
        }
    }
}

/// What was read from the connection.
#[derive(Debug, Clone, PartialEq, Eq)]
pub enum ReaderInput {
    /// One line, with its line ending.
    Line(String),
    /// The bytes that arrived for the body.
    Bytes(Vec<u8>),
    /// Nothing: the connection has ended or failed.
    Closed,
}

pub ghost enum ReaderInputView {
    Line(Seq<char>),
    Bytes(Seq<u8>),
    Closed,
}

impl View for ReaderInput {
    type V = ReaderInputView;

    open spec fn view(&self) -> ReaderInputView {
        match *self {
            ReaderInput::Line(l) => ReaderInputView::Line(l@),
            ReaderInput::Bytes(b) => ReaderInputView::Bytes(b@),
            ReaderInput::Closed => ReaderInputView::Closed,
        }
    }
}

/// What the reader asks of the connection next.
#[derive(Debug, Clone, Copy, PartialEq, Eq, Structural)]
pub enum ReadWant {
    Line,
    /// Exactly this many bytes.
    Bytes(usize),
    Nothing,
}

pub open spec fn want_of(state: ReaderStateView) -> ReadWant {
    match state {
        ReaderStateView::AwaitingRequestLine => ReadWant::Line,
        ReaderStateView::AwaitingHeaders(_) => ReadWant::Line,
        ReaderStateView::AwaitingBody(h) => ReadWant::Bytes(h.content_length),
        _ => ReadWant::Nothing,
    }
}

pub fn wanted(state: &ReaderState) -> (r: ReadWant)
    ensures
        r == want_of(state@),
{
    match state {
        ReaderState::AwaitingRequestLine => ReadWant::Line,
        ReaderState::AwaitingHeaders(_) => ReadWant::Line,
        ReaderState::AwaitingBody(h) => ReadWant::Bytes(h.content_length),
        _ => ReadWant::Nothing,
    }
}

/// Whether requests of a method carry a body.
pub open spec fn permits_body(method: Seq<char>) -> bool {
    method == "POST"@ || method == "PUT"@ || method == "PATCH"@ || method == "DELETE"@
}

fn method_permits_body(method: &str) -> (r: bool)
    ensures
        r == permits_body(method@),
{
    same_text(method, "POST") || same_text(method, "PUT") || same_text(method, "PATCH")
        || same_text(method, "DELETE")
}

/// Whether a body is read for a request: its method carries one, and the
/// declared length is neither 0 nor over the cap.
pub open spec fn reads_body(head: RequestHeadView) -> bool {
    permits_body(head.method) && 0 < head.content_length <= MAX_BODY_BYTES
}

pub open spec fn request_of(head: RequestHeadView, body: Seq<u8>) -> PendingRequestView {
    PendingRequestView {
        method: head.method,
        target: head.target,
        content_length: head.content_length,
        content_type: head.content_type,
        body,
    }
}

/// A head after one more header line: a length or a content type that the
/// line declares takes the place of what was declared before.
pub open spec fn head_after(head: RequestHeadView, line: Seq<char>) -> RequestHeadView {
    RequestHeadView {
        content_length: match content_length_in(line) {
            Some(n) => n,
            None => head.content_length,
        },
        content_type: match content_type_in(line) {
            Some(t) => Some(t),
            None => head.content_type,
        },
        ..head
    }
}

/// The reader's state after an input. A request line is followed by header
/// lines up to the blank line, and those by the body where one is read. A
/// connection that ends before that, a first line that is no request line
/// and a body of another length than declared make the reading fail.
pub open spec fn advanced(state: ReaderStateView, input: ReaderInputView) -> ReaderStateView {
    match state {
        ReaderStateView::AwaitingRequestLine => match input {
            ReaderInputView::Line(line) => match request_line_of(line) {
                Some(l) => ReaderStateView::AwaitingHeaders(
                    RequestHeadView {
                        method: l.method,
                        target: l.target,
                        content_length: 0,
                        content_type: None,
                    },
                ),
                None => ReaderStateView::Failed(FramingError::MalformedRequestLine),
            },
            ReaderInputView::Bytes(_) => ReaderStateView::Failed(FramingError::OutOfTurn),
            ReaderInputView::Closed => ReaderStateView::Failed(FramingError::Truncated),
        },
        ReaderStateView::AwaitingHeaders(head) => match input {
            ReaderInputView::Line(line) => if is_blank_line(line) {
                if reads_body(head) {
                    ReaderStateView::AwaitingBody(head)
                } else {
                    ReaderStateView::Complete(request_of(head, Seq::<u8>::empty()))
                }
            } else {
                ReaderStateView::AwaitingHeaders(head_after(head, line))
            },
            ReaderInputView::Bytes(_) => ReaderStateView::Failed(FramingError::OutOfTurn),
            ReaderInputView::Closed => ReaderStateView::Failed(FramingError::Truncated),
        },
        ReaderStateView::AwaitingBody(head) => match input {
            ReaderInputView::Bytes(bytes) => if bytes.len() == head.content_length {
                ReaderStateView::Complete(request_of(head, bytes))
            } else {
                ReaderStateView::Failed(FramingError::Truncated)
            },
            ReaderInputView::Line(_) => ReaderStateView::Failed(FramingError::OutOfTurn),
            ReaderInputView::Closed => ReaderStateView::Failed(FramingError::Truncated),
        },
        ReaderStateView::Complete(_) => state,
        ReaderStateView::Failed(_) => state,
    }
}

fn assemble(head: RequestHead, body: Vec<u8>) -> (r: PendingRequest)
    ensures
        r@ == request_of(head@, body@),
{
    PendingRequest {
        method: head.method,
        target: head.target,
        content_length: head.content_length,
        content_type: head.content_type,
        body,
    }
}

/// Takes the reading of a request one input further.
pub fn advance(state: ReaderState, input: ReaderInput) -> (r: ReaderState)
    ensures
        r@ == advanced(state@, input@),
{
    match state {
        ReaderState::AwaitingRequestLine => match input {
            ReaderInput::Line(line) => match parse_request_line(line.as_str()) {
                Some(l) => ReaderState::AwaitingHeaders(
                    RequestHead {
                        method: l.method,
                        target: l.target,
                        content_length: 0,
                        content_type: None,
                    },
                ),
                None => ReaderState::Failed(FramingError::MalformedRequestLine),
            },
            ReaderInput::Bytes(_) => ReaderState::Failed(FramingError::OutOfTurn),
            ReaderInput::Closed => ReaderState::Failed(FramingError::Truncated),
        },
        ReaderState::AwaitingHeaders(head) => match input {
            ReaderInput::Line(line) => {
                if blank_line(line.as_str()) {
                    if method_permits_body(head.method.as_str()) && 0 < head.content_length
                        && head.content_length <= MAX_BODY_BYTES {
                        ReaderState::AwaitingBody(head)
                    } else {
                        let body: Vec<u8> = Vec::new();
                        assert(body@ =~= Seq::<u8>::empty());
                        ReaderState::Complete(assemble(head, body))
                    }
                } else {
                    let content_length: usize = match content_length_field(line.as_str()) {
                        Some(n) => n,
                        None => head.content_length,
                    };
                    let content_type: Option<String> = match content_type_field(line.as_str()) {
                        Some(t) => Some(t),
                        None => head.content_type,
                    };
                    ReaderState::AwaitingHeaders(
                        RequestHead {
                            method: head.method,
                            target: head.target,
                            content_length,
                            content_type,
                        },
                    )
                }
            },
            ReaderInput::Bytes(_) => ReaderState::Failed(FramingError::OutOfTurn),
            ReaderInput::Closed => ReaderState::Failed(FramingError::Truncated),
        },
        ReaderState::AwaitingBody(head) => match input {
            ReaderInput::Bytes(bytes) => if bytes.len() == head.content_length {
                ReaderState::Complete(assemble(head, bytes))
            } else {
                ReaderState::Failed(FramingError::Truncated)
            },
            ReaderInput::Line(_) => ReaderState::Failed(FramingError::OutOfTurn),
            ReaderInput::Closed => ReaderState::Failed(FramingError::Truncated),
        },
        ReaderState::Complete(r) => ReaderState::Complete(r),
        ReaderState::Failed(e) => ReaderState::Failed(e),
    }
}

/// The code that tells why a request could not be read.
pub open spec fn framing_code(error: FramingError) -> Seq<char> {
    match error {
        FramingError::MalformedRequestLine => "MALFORMED_REQUEST"@,
        FramingError::Truncated => "TRUNCATED_REQUEST"@,
        FramingError::OutOfTurn => "READER_OUT_OF_TURN"@,
    }
}

/// The status that answers a request that could not be read: a bad request
/// for what the client sent, a server error for a reader that was handed
/// what it had not asked for.
pub open spec fn framing_status(error: FramingError) -> u16 {
    match error {
        FramingError::MalformedRequestLine => 400,
        FramingError::Truncated => 400,
        FramingError::OutOfTurn => 500,
    }
}

/// The answer to a request that could not be read: the status and the code
/// of what went wrong.
pub open spec fn framing_answer(error: FramingError) -> HttpResponseView {
    json_response_of(
        framing_status(error),
        CorsPolicy::Callback,
        "{\"ok\":false,\"error\":\""@ + framing_code(error) + "\"}"@,
    )
}

pub fn framing_response(error: FramingError) -> (r: HttpResponse)
    ensures
        r@ == framing_answer(error),
{
    let (status, code): (u16, &str) = match error {
        FramingError::MalformedRequestLine => (400, "MALFORMED_REQUEST"),
        FramingError::Truncated => (400, "TRUNCATED_REQUEST"),
        FramingError::OutOfTurn => (500, "READER_OUT_OF_TURN"),
    };
    let mut body = String::new();
    body.append("{\"ok\":false,\"error\":\"");
    body.append(code);
    body.append("\"}");
    assert(body@ =~= "{\"ok\":false,\"error\":\""@ + framing_code(error) + "\"}"@);
    json_response(status, CorsPolicy::Callback, body)
}

/// The landing page with its two placeholders filled in: the identity
/// provider's application and client.
pub open spec fn landing_page_of(
    template: Seq<char>,
    app_id: Seq<char>,
    client_id: Seq<char>,
) -> Seq<char> {
    replaced(
        replaced(template, "%PRIVY_APP_ID%"@, app_id, 0),
        "%PRIVY_CLIENT_ID%"@,
        client_id,
        0,
    )
}

pub fn landing_page(template: &str, app_id: &str, client_id: &str) -> (r: String)
    ensures
        r@ == landing_page_of(template@, app_id@, client_id@),
{
    let first = replace_all(template, "%PRIVY_APP_ID%", app_id);
    replace_all(first.as_str(), "%PRIVY_CLIENT_ID%", client_id)
}

/// The media type that a file's name lets one expect, and that of
/// arbitrary bytes where it tells nothing.
pub uninterp spec fn mime_of(path: Seq<char>) -> Seq<char>;

/// Calls `mime_guess::from_path` and `MimeGuess::first_or_octet_stream`,
/// and writes the media type out. Trusted: the result is a function of
/// `path` alone.
#[verifier::external_body]
pub(crate) fn guess_mime(path: &str) -> (r: String)
    ensures
        r@ == mime_of(path@),
{
    mime_guess::from_path(path).first_or_octet_stream().to_string()
}

/// What is written before the bytes of a file of the landing page.
pub open spec fn asset_head_of(mime: Seq<char>, length: usize) -> Seq<char> {
    "HTTP/1.1 200 OK\r\nContent-Type: "@ + mime + "\r\nCache-Control: no-store\r\nContent-Length: "@
        + decimal_digits(length as nat) + "\r\n\r\n"@
}

/// The head of the answer that serves a file whose media type is known.
pub fn asset_head_for(mime: &str, length: usize) -> (r: String)
    ensures
        r@ == asset_head_of(mime@, length),
{
    let mut out = String::new();
    out.append("HTTP/1.1 200 OK\r\nContent-Type: ");
    out.append(mime);
    out.append("\r\nCache-Control: no-store\r\nContent-Length: ");
    push_decimal(&mut out, length as u64);
    out.append("\r\n\r\n");
    assert(out@ =~= asset_head_of(mime@, length));
    out
}

/// The head of the answer that serves the file `file` of `length` bytes.
pub fn asset_head(file: &str, length: usize) -> (r: String)
    ensures
        r@ == asset_head_of(mime_of(file@), length),
{
    let mime = guess_mime(file);
    asset_head_for(mime.as_str(), length)
}

/// What the server does with a request.
#[derive(Debug, Clone, PartialEq, Eq)]
pub enum ServerAction {
    /// Write this answer.
    Respond(HttpResponse),
    /// Write the answer to a callback, publish its event and raise the main
    /// window where the reply says so.
    Callback(CallbackReply),
    /// Serve the landing page.
    ServeLandingPage,
    /// Serve this file of the landing page, named from the page's
    /// directory.
    ServeAsset { file: String },
    /// Carry out this step of a proxied call, and translate what comes back
    /// for this route.
    Proxy { route: ProxyRoute, step: ProxyStep },
    /// Serve the closing page, then stop accepting connections.
    CloseTab,
}

pub ghost enum ServerActionView {
    Respond(HttpResponseView),
    Callback(CallbackReplyView),
    ServeLandingPage,
    ServeAsset { file: Seq<char> },
    Proxy { route: ProxyRoute, step: ProxyStepView },
    CloseTab,
}

impl View for ServerAction {
    type V = ServerActionView;

    open spec fn view(&self) -> ServerActionView {
        match *self {
            ServerAction::Respond(r) => ServerActionView::Respond(r@),
            ServerAction::Callback(r) => ServerActionView::Callback(r@),
            ServerAction::ServeLandingPage => ServerActionView::ServeLandingPage,
            ServerAction::ServeAsset { file } => ServerActionView::ServeAsset { file: file@ },
            ServerAction::Proxy { route, step } => ServerActionView::Proxy { route, step: step@ },
            ServerAction::CloseTab => ServerActionView::CloseTab,
        }
    }
}

/// The first position of `s` that holds no `/`.
pub open spec fn skip_slashes(s: Seq<char>, from: int) -> int
    decreases s.len() - from,
{
    if from < 0 || from >= s.len() || s[from] != '/' {
        from
    } else {
        skip_slashes(s, from + 1)
    }
}

/// Whether two dots stand side by side somewhere at or after `from`.
pub open spec fn has_dot_dot(s: Seq<char>, from: int) -> bool
    decreases s.len() - from,
{
    if from < 0 || from + 1 >= s.len() {
        false
    } else if s[from] == '.' && s[from + 1] == '.' {
        true
    } else {
        has_dot_dot(s, from + 1)
    }
}

/// The file that an asset path names, from the page's directory: the path
/// without its leading slashes. A path that holds `..` names no file.
pub open spec fn asset_file(path: Seq<char>) -> Option<Seq<char>> {
    if has_dot_dot(path, 0) {
        None
    } else {
        Some(path.subrange(skip_slashes(path, 0), path.len() as int))
    }
}

pub fn asset_file_of(path: &str) -> (r: Option<String>)
    ensures
        opt_text(r) == asset_file(path@),
{
    let v = chars_of(path);
    let n: usize = v.len();
    let mut i: usize = 0;
    while n - i > 1
        invariant
            i <= n,
            n == v.len(),
            v@ == path@,
            has_dot_dot(v@, 0) == has_dot_dot(v@, i as int),
        decreases n - i,
    {
        if v[i] == '.' && v[i + 1] == '.' {
            return None;
        }
        i = i + 1;
    }
    let mut start: usize = 0;
    while start < n && v[start] == '/'
        invariant
            start <= n,
            n == v.len(),
            v@ == path@,
            !has_dot_dot(path@, 0),
            skip_slashes(v@, 0) == skip_slashes(v@, start as int),
        decreases n - start,
    {
        start = start + 1;
    }
    Some(piece(path, start, n))
}

/// What the server does with a request, by its route. `body` holds the
/// members of the request body where a proxied call reads them.
pub open spec fn action_of(
    request: PendingRequestView,
    reply: CallbackReplyView,
    step: ProxyStepView,
) -> ServerActionView {
    match route_of(request.method, request.target) {
        Route::Preflight => ServerActionView::Respond(bare_response_of(200, CorsPolicy::Callback)),
        Route::LandingPage => ServerActionView::ServeLandingPage,
        Route::Asset => match asset_file(path_of(request.target)) {
            Some(file) => ServerActionView::ServeAsset { file },
            None => ServerActionView::Respond(not_found_of()),
        },
        Route::AuthCallback => ServerActionView::Callback(reply),
        Route::CloseTab => ServerActionView::CloseTab,
        Route::Proxy(route) => ServerActionView::Proxy { route, step },
        Route::NotFound => ServerActionView::Respond(not_found_of()),
    }
}

/// The reply to a request, were it a callback.
pub open spec fn callback_reply_of(
    pending: Option<PendingToken>,
    request: PendingRequestView,
    now_ms: u64,
) -> CallbackReplyView {
    reply_of(
        callback_outcome(
            validation_of(pending, callback_token(request.target), now_ms),
            request,
            body_members(request),
            nested_of(body_members(request)),
        ),
    )
}

/// The step for a request, were it the proxied call `route`.
pub open spec fn proxy_step_of(
    route: ProxyRoute,
    request: PendingRequestView,
    port: Option<u16>,
    gateway: Seq<char>,
) -> ProxyStepView {
    proxy_step(
        route,
        request.target,
        crate::proxy::body_members(body_text(request.body, request.content_length)),
        port,
        gateway,
    )
}

pub open spec fn proxied(request: PendingRequestView) -> ProxyRoute {
    match route_of(request.method, request.target) {
        Route::Proxy(route) => route,
        _ => ProxyRoute::ServerIdentity,
    }
}

/// Decides what to do with a request. Only a callback touches the pending
/// state token. `sidecar_port` is the port of the local helper, if one
/// runs; `gateway` the address of the registration gateway.
pub fn handle_request(
    issuer: &mut CallbackStateIssuer,
    request: &PendingRequest,
    now_ms: u64,
    sidecar_port: Option<u16>,
    gateway: &str,
) -> (r: ServerAction)
    ensures
        r@ == action_of(
            request@,
            callback_reply_of(old(issuer).pending(), request@, now_ms),
            proxy_step_of(proxied(request@), request@, sidecar_port, gateway@),
        ),
        final(issuer).pending() == if route_of(request@.method, request@.target)
            == Route::AuthCallback {
            pending_after(old(issuer).pending(), callback_token(request@.target), now_ms)
        } else {
            old(issuer).pending()
        },
        final(issuer).issued_count() == old(issuer).issued_count(),
{
    match dispatch(request.method.as_str(), request.target.as_str()) {
        Route::Preflight => ServerAction::Respond(preflight()),
        Route::LandingPage => ServerAction::ServeLandingPage,
        Route::Asset => {
            let path = request_path(request.target.as_str());
            match asset_file_of(path.as_str()) {
                Some(file) => ServerAction::ServeAsset { file },
                None => ServerAction::Respond(not_found()),
            }
        },
        Route::AuthCallback => {
            let outcome = handle_auth_callback(issuer, request, now_ms);
            ServerAction::Callback(callback_reply(&outcome))
        },
        Route::CloseTab => ServerAction::CloseTab,
        Route::Proxy(route) => {
            let body = read_utf8_body(request.body.as_slice(), request.content_length);
            let step = match &body {
                Some(text) => plan_proxy(
                    route,
                    request.target.as_str(),
                    Some(text.as_str()),
                    sidecar_port,
                    gateway,
                ),
                None => plan_proxy(route, request.target.as_str(), None, sidecar_port, gateway),
            };
            ServerAction::Proxy { route, step }
        },
        Route::NotFound => ServerAction::Respond(not_found()),
    }
}

/// Decides what to do with a request when the pending state token cannot
/// be had, its lock being broken: a callback is turned away, and every
/// other request is handled as ever.
pub fn handle_request_without_state(
    request: &PendingRequest,
    sidecar_port: Option<u16>,
    gateway: &str,
) -> (r: ServerAction)
    ensures
        r@ == action_of(
            request@,
            reply_of(
                CallbackOutcomeView::Rejected(
                    CallbackValidation::LockError.rejection_of()->0,
                ),
            ),
            proxy_step_of(proxied(request@), request@, sidecar_port, gateway@),
        ),
{
    match dispatch(request.method.as_str(), request.target.as_str()) {
        Route::AuthCallback => {
            let outcome = match CallbackValidation::LockError.rejection() {
                Some(reason) => CallbackOutcome::Rejected(reason),
                None => CallbackOutcome::Rejected(CallbackRejectReason::StateUnavailable),
            };
            ServerAction::Callback(callback_reply(&outcome))
        },
        _ => {
            let mut nothing = CallbackStateIssuer::new();
            handle_request(&mut nothing, request, 0, sidecar_port, gateway)
        },
    }
}

} // verus!
