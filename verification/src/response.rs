//! Responses of the loopback server: a status, the headers the handler
//! declares, and a text body that is written in one piece.

use crate::callback_state::CallbackRejectReason;
use crate::decimal::{decimal_digits, push_decimal};
use crate::text::{byte_len, owned};
use vstd::prelude::*;
use vstd::string::StringExecFns;
use vstd::utf8::encode_utf8;

verus! {

/// One header of a response.
#[derive(Debug, Clone, PartialEq, Eq)]
pub struct HeaderField {
    pub name: String,
    pub value: String,
}

pub ghost struct HeaderFieldView {
    pub name: Seq<char>,
    pub value: Seq<char>,
}

impl View for HeaderField {
    type V = HeaderFieldView;

    open spec fn view(&self) -> HeaderFieldView {
        HeaderFieldView { name: self.name@, value: self.value@ }
    }
}

/// A response, before it is written.
#[derive(Debug, Clone, PartialEq, Eq)]
pub struct HttpResponse {
    pub status: u16,
    pub headers: Vec<HeaderField>,
    pub body: String,
}

pub ghost struct HttpResponseView {
    pub status: u16,
    pub headers: Seq<HeaderFieldView>,
    pub body: Seq<char>,
}

pub open spec fn fields_view(fields: Seq<HeaderField>) -> Seq<HeaderFieldView> {
    Seq::new(fields.len(), |i: int| fields[i]@)
}

impl View for HttpResponse {
    type V = HttpResponseView;

    open spec fn view(&self) -> HttpResponseView {
        HttpResponseView {
            status: self.status,
            headers: fields_view(self.headers@),
            body: self.body@,
        }
    }
}

/// The words that follow a status on the status line.
pub open spec fn reason_phrase_of(status: u16) -> Seq<char> {
    if status == 200 {
        "OK"@
    } else if status == 201 {
        "Created"@
    } else if status == 400 {
        "Bad Request"@
    } else if status == 401 {
        "Unauthorized"@
    } else if status == 404 {
        "Not Found"@
    } else if status == 409 {
        "Conflict"@
    } else if status == 415 {
        "Unsupported Media Type"@
    } else if status == 500 {
        "Internal Server Error"@
    } else if status == 502 {
        "Bad Gateway"@
    } else if status == 503 {
        "Service Unavailable"@
    } else if status < 400 {
        "OK"@
    } else {
        "Error"@
    }
}

pub fn reason_phrase(status: u16) -> (r: &'static str)
    ensures
        r@ == reason_phrase_of(status),
{
    if status == 200 {
        "OK"
    } else if status == 201 {
        "Created"
    } else if status == 400 {
        "Bad Request"
    } else if status == 401 {
        "Unauthorized"
    } else if status == 404 {
        "Not Found"
    } else if status == 409 {
        "Conflict"
    } else if status == 415 {
        "Unsupported Media Type"
    } else if status == 500 {
        "Internal Server Error"
    } else if status == 502 {
        "Bad Gateway"
    } else if status == 503 {
        "Service Unavailable"
    } else if status < 400 {
        "OK"
    } else {
        "Error"
    }
}

/// The header lines of a response, each `name: value` and a line ending.
pub open spec fn header_block(headers: Seq<HeaderFieldView>) -> Seq<char>
    decreases headers.len(),
{
    if headers.len() == 0 {
        Seq::<char>::empty()
    } else {
        header_block(headers.drop_last()) + headers.last().name + ": "@ + headers.last().value
            + "\r\n"@
    }
}

/// What is written to the connection: the status line, the declared
/// headers, the length of the body in bytes, an empty line, the body.
pub open spec fn response_text(r: HttpResponseView) -> Seq<char> {
    "HTTP/1.1 "@ + decimal_digits(r.status as nat) + " "@ + reason_phrase_of(r.status) + "\r\n"@
        + header_block(r.headers) + "Content-Length: "@ + decimal_digits(encode_utf8(r.body).len())
        + "\r\n\r\n"@ + r.body
}

impl HttpResponse {
    /// The text to write to the connection.
    pub fn encode(&self) -> (r: String)
        ensures
            r@ == response_text(self@),
    {
        let mut out = String::new();
        out.append("HTTP/1.1 ");
        push_decimal(&mut out, self.status as u64);
        out.append(" ");
        out.append(reason_phrase(self.status));
        out.append("\r\n");
        let ghost head = out@;
        let ghost fields = fields_view(self.headers@);
        let mut i: usize = 0;
        while i < self.headers.len()
            invariant
                i <= self.headers.len(),
                fields == fields_view(self.headers@),
                out@ == head + header_block(fields.subrange(0, i as int)),
            decreases self.headers.len() - i,
        {
            let ghost before = out@;
            out.append(self.headers[i].name.as_str());
            out.append(": ");
            out.append(self.headers[i].value.as_str());
            out.append("\r\n");
            proof {
                let p = fields.subrange(0, i + 1);
                assert(p.drop_last() =~= fields.subrange(0, i as int));
                assert(p.last() == self.headers@[i as int]@);
                assert(out@ =~= head + header_block(p));
            }
            i = i + 1;
        }
        assert(fields.subrange(0, fields.len() as int) =~= fields);
        out.append("Content-Length: ");
        let length: usize = byte_len(self.body.as_str());
        push_decimal(&mut out, length as u64);
        out.append("\r\n\r\n");
        out.append(self.body.as_str());
        assert(out@ =~= response_text(self@));
        out
    }
}

/// Which callers a response admits across origins.
#[derive(Debug, Clone, Copy, PartialEq, Eq, Structural)]
pub enum CorsPolicy {
    /// The callback itself: `POST` with a content type.
    Callback,
    /// Calls answered from this machine: `GET` and `POST`.
    Local,
    /// Calls passed on to the registration gateway, which may delete and
    /// carry an authorisation.
    Gateway,
}

pub open spec fn allowed_methods(policy: CorsPolicy) -> Seq<char> {
    match policy {
        CorsPolicy::Callback => "POST, OPTIONS"@,
        CorsPolicy::Local => "GET, POST, OPTIONS"@,
        CorsPolicy::Gateway => "GET, POST, DELETE, OPTIONS"@,
    }
}

pub open spec fn allowed_headers(policy: CorsPolicy) -> Seq<char> {
    match policy {
        CorsPolicy::Callback => "Content-Type"@,
        CorsPolicy::Local => "Content-Type"@,
        CorsPolicy::Gateway => "Content-Type, Authorization"@,
    }
}

/// The three cross-origin headers of a policy.
pub open spec fn cors_fields(policy: CorsPolicy) -> Seq<HeaderFieldView> {
    seq![
        HeaderFieldView { name: "Access-Control-Allow-Origin"@, value: "*"@ },
        HeaderFieldView { name: "Access-Control-Allow-Methods"@, value: allowed_methods(policy) },
        HeaderFieldView { name: "Access-Control-Allow-Headers"@, value: allowed_headers(policy) },
    ]
}

fn field(name: &str, value: &str) -> (r: HeaderField)
    ensures
        r@ == (HeaderFieldView { name: name@, value: value@ }),
{
    HeaderField { name: owned(name), value: owned(value) }
}

fn push_cors(headers: &mut Vec<HeaderField>, policy: CorsPolicy)
    ensures
        fields_view(final(headers)@) == fields_view(old(headers)@) + cors_fields(policy),
{
    let methods: &str = match policy {
        CorsPolicy::Callback => "POST, OPTIONS",
        CorsPolicy::Local => "GET, POST, OPTIONS",
        CorsPolicy::Gateway => "GET, POST, DELETE, OPTIONS",
    };
    let allowed: &str = match policy {
        CorsPolicy::Callback => "Content-Type",
        CorsPolicy::Local => "Content-Type",
        CorsPolicy::Gateway => "Content-Type, Authorization",
    };
    headers.push(field("Access-Control-Allow-Origin", "*"));
    headers.push(field("Access-Control-Allow-Methods", methods));
    headers.push(field("Access-Control-Allow-Headers", allowed));
    assert(fields_view(headers@) =~= fields_view(old(headers)@) + cors_fields(policy));
}

/// A JSON answer: the content type, the cross-origin headers, the body.
pub open spec fn json_response_of(status: u16, policy: CorsPolicy, body: Seq<char>) -> HttpResponseView {
    HttpResponseView {
        status,
        headers: seq![HeaderFieldView { name: "Content-Type"@, value: "application/json"@ }]
            + cors_fields(policy),
        body,
    }
}

pub fn json_response(status: u16, policy: CorsPolicy, body: String) -> (r: HttpResponse)
    ensures
        r@ == json_response_of(status, policy, body@),
{
    let mut headers: Vec<HeaderField> = Vec::new();
    headers.push(field("Content-Type", "application/json"));
    assert(fields_view(headers@) =~= seq![
        HeaderFieldView { name: "Content-Type"@, value: "application/json"@ },
    ]);
    push_cors(&mut headers, policy);
    HttpResponse { status, headers, body }
}

/// An answer without a body that carries only the cross-origin headers.
pub open spec fn bare_response_of(status: u16, policy: CorsPolicy) -> HttpResponseView {
    HttpResponseView { status, headers: cors_fields(policy), body: Seq::<char>::empty() }
}

pub fn bare_response(status: u16, policy: CorsPolicy) -> (r: HttpResponse)
    ensures
        r@ == bare_response_of(status, policy),
{
    let mut headers: Vec<HeaderField> = Vec::new();
    assert(fields_view(headers@) =~= Seq::<HeaderFieldView>::empty());
    push_cors(&mut headers, policy);
    assert(fields_view(headers@) =~= cors_fields(policy));
    HttpResponse { status, headers, body: String::new() }
}

/// The answer to a request that matches no route.
pub open spec fn not_found_of() -> HttpResponseView {
    HttpResponseView {
        status: 404,
        headers: Seq::<HeaderFieldView>::empty(),
        body: Seq::<char>::empty(),
    }
}

pub fn not_found() -> (r: HttpResponse)
    ensures
        r@ == not_found_of(),
{
    let headers: Vec<HeaderField> = Vec::new();
    assert(fields_view(headers@) =~= Seq::<HeaderFieldView>::empty());
    HttpResponse { status: 404, headers, body: String::new() }
}

/// The answer to a cross-origin preflight: success, no body.
pub fn preflight() -> (r: HttpResponse)
    ensures
        r@ == bare_response_of(200, CorsPolicy::Callback),
{
    bare_response(200, CorsPolicy::Callback)
}

/// A page: its content type, a ban on caching, the page.
pub open spec fn page_response_of(body: Seq<char>) -> HttpResponseView {
    HttpResponseView {
        status: 200,
        headers: seq![
            HeaderFieldView { name: "Content-Type"@, value: "text/html; charset=utf-8"@ },
            HeaderFieldView { name: "Cache-Control"@, value: "no-store"@ },
        ],
        body,
    }
}

pub fn page_response(body: String) -> (r: HttpResponse)
    ensures
        r@ == page_response_of(body@),
{
    let mut headers: Vec<HeaderField> = Vec::new();
    headers.push(field("Content-Type", "text/html; charset=utf-8"));
    headers.push(field("Cache-Control", "no-store"));
    assert(fields_view(headers@) =~= page_response_of(body@).headers);
    HttpResponse { status: 200, headers, body }
}

/// The acknowledgement of an accepted callback.
pub open spec fn accepted_of() -> HttpResponseView {
    json_response_of(200, CorsPolicy::Callback, "{\"ok\":true}"@)
}

pub fn accepted() -> (r: HttpResponse)
    ensures
        r@ == accepted_of(),
{
    json_response(200, CorsPolicy::Callback, owned("{\"ok\":true}"))
}

/// The body that tells a caller why its callback was turned away.
pub open spec fn rejection_body(reason: CallbackRejectReason) -> Seq<char> {
    "{\"ok\":false,\"error\":\""@ + reason.code_text() + "\"}"@
}

/// The answer to a rejected callback: the status of the reason and its
/// code.
pub open spec fn rejection_of(reason: CallbackRejectReason) -> HttpResponseView {
    json_response_of(reason.status(), CorsPolicy::Callback, rejection_body(reason))
}

pub fn rejection(reason: CallbackRejectReason) -> (r: HttpResponse)
    ensures
        r@ == rejection_of(reason),
{
    let mut body = String::new();
    body.append("{\"ok\":false,\"error\":\"");
    body.append(reason.code());
    body.append("\"}");
    assert(body@ =~= rejection_body(reason));
    json_response(reason.status_code(), CorsPolicy::Callback, body)
}

/// The text of the answer to a rejected callback.
pub fn build_callback_reject_response(reason: CallbackRejectReason) -> (r: String)
    ensures
        r@ == response_text(rejection_of(reason)),
{
    rejection(reason).encode()
}

} // verus!
