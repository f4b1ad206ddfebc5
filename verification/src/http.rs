//! Reading one HTTP/1.1 request well enough to route it.

use crate::decimal::{parse_unsigned, parsed_unsigned};
use crate::json::{opt_str, opt_text};
use crate::text::{
    chars_of, find_char, first_index_in, lowered, piece, range_is, range_is_ignoring_case,
    same_text, skip_spaces, skip_spaces_in, skip_word, skip_word_in, starts_with_ignoring_case,
    trim_end_in, trimmed,
};
use vstd::prelude::*;
use vstd::utf8::{decode_utf8, valid_utf8};

verus! {

/// The largest request body that is read, in bytes.
pub const MAX_BODY_BYTES: usize = 32768;

/// The three words of a request line.
#[derive(Debug, Clone, PartialEq, Eq)]
pub struct RequestLine {
    pub method: String,
    pub target: String,
    /// Empty where the line names no version.
    pub version: String,
}

pub ghost struct RequestLineView {
    pub method: Seq<char>,
    pub target: Seq<char>,
    pub version: Seq<char>,
}

impl View for RequestLine {
    type V = RequestLineView;

    open spec fn view(&self) -> RequestLineView {
        RequestLineView { method: self.method@, target: self.target@, version: self.version@ }
    }
}

pub open spec fn opt_line(r: Option<RequestLine>) -> Option<RequestLineView> {
    match r {
        Some(x) => Some(x@),
        None => None,
    }
}

/// The words of a request line: runs of characters other than white space.
/// A line with fewer than two words is no request line.
pub open spec fn request_line_of(s: Seq<char>) -> Option<RequestLineView> {
    let n = s.len() as int;
    let a0 = skip_spaces(s, 0, n);
    let b0 = skip_word(s, a0, n);
    let a1 = skip_spaces(s, b0, n);
    let b1 = skip_word(s, a1, n);
    let a2 = skip_spaces(s, b1, n);
    let b2 = skip_word(s, a2, n);
    if a1 >= n {
        None
    } else {
        Some(
            RequestLineView {
                method: s.subrange(a0, b0),
                target: s.subrange(a1, b1),
                version: s.subrange(a2, b2),
            },
        )
    }
}

/// Splits a request line into method, target and version.
pub fn parse_request_line(line: &str) -> (r: Option<RequestLine>)
    ensures
        opt_line(r) == request_line_of(line@),
{
    let v = chars_of(line);
    let n: usize = v.len();
    let a0: usize = skip_spaces_in(&v, 0, n);
    let b0: usize = skip_word_in(&v, a0, n);
    let a1: usize = skip_spaces_in(&v, b0, n);
    if a1 >= n {
        return None;
    }
    let b1: usize = skip_word_in(&v, a1, n);
    let a2: usize = skip_spaces_in(&v, b1, n);
    let b2: usize = skip_word_in(&v, a2, n);
    Some(
        RequestLine {
            method: piece(line, a0, b0),
            target: piece(line, a1, b1),
            version: piece(line, a2, b2),
        },
    )
}

/// The path of a request target: what stands before the first `?`.
pub open spec fn path_of(target: Seq<char>) -> Seq<char> {
    target.subrange(0, first_index_in(target, '?', 0, target.len() as int))
}

pub fn request_path(target: &str) -> (r: String)
    ensures
        r@ == path_of(target@),
{
    let v = chars_of(target);
    let q: usize = find_char(&v, '?', 0, v.len());
    piece(target, 0, q)
}

/// Among the `&`-separated pairs of `s[from..to)`, the value of the first
/// pair whose key is `key` and whose value is not empty. A pair's key ends
/// at its first `=`.
pub open spec fn pair_value_in(s: Seq<char>, key: Seq<char>, from: int, to: int) -> Option<
    Seq<char>,
>
    decreases to - from,
{
    if from < 0 || from > to || to > s.len() {
        None
    } else {
        let end = first_index_in(s, '&', from, to);
        let eq = first_index_in(s, '=', from, end);
        if s.subrange(from, eq) == key && eq + 1 < end {
            Some(s.subrange(eq + 1, end))
        } else if end >= to || end < from {
            None
        } else {
            pair_value_in(s, key, end + 1, to)
        }
    }
}

/// The value of the query parameter `key` in `path`. The query is what
/// stands between the first `?` and the next one, or the end.
pub open spec fn query_value(path: Seq<char>, key: Seq<char>) -> Option<Seq<char>> {
    let n = path.len() as int;
    let q = first_index_in(path, '?', 0, n);
    if q >= n {
        None
    } else {
        pair_value_in(path, key, q + 1, first_index_in(path, '?', q + 1, n))
    }
}

/// Reads one query parameter of a request target. A parameter without a
/// value counts as absent.
pub fn query_param(path: &str, key: &str) -> (r: Option<String>)
    ensures
        opt_text(r) == query_value(path@, key@),
{
    let v = chars_of(path);
    let k = chars_of(key);
    let n: usize = v.len();
    let q: usize = find_char(&v, '?', 0, n);
    if q >= n {
        return None;
    }
    let to: usize = find_char(&v, '?', q + 1, n);
    let mut from: usize = q + 1;
    loop
        invariant
            from <= to <= n,
            n == v.len(),
            v@ == path@,
            k@ == key@,
            query_value(path@, key@) == pair_value_in(v@, k@, from as int, to as int),
        decreases to - from,
    {
        let end: usize = find_char(&v, '&', from, to);
        let eq: usize = find_char(&v, '=', from, end);
        if range_is(&v, from, eq, &k) && eq < end && end - eq > 1 {
            return Some(piece(path, eq + 1, end));
        }
        if end >= to {
            return None;
        }
        from = end + 1;
    }
}

/// Whether a request is the callback of an identity flow: a `POST` to
/// exactly `/auth-callback`.
pub fn is_auth_callback_request(method: &str, request_path: &str) -> (r: bool)
    ensures
        r == (method@ == "POST"@ && request_path@ == "/auth-callback"@),
{
    same_text(method, "POST") && same_text(request_path, "/auth-callback")
}

/// A line that ends the header block: an empty line, with or without its
/// line ending.
pub open spec fn is_blank_line(line: Seq<char>) -> bool {
    line == "\r\n"@ || line == "\n"@ || line.len() == 0
}

pub fn blank_line(line: &str) -> (r: bool)
    ensures
        r == is_blank_line(line@),
{
    proof {
        reveal_strlit("");
        if line@.len() == 0 {
            assert(line@ =~= ""@);
        }
    }
    same_text(line, "\r\n") || same_text(line, "\n") || same_text(line, "")
}

/// The length that a header line declares, where it is a `Content-Length`
/// line: the number between its first and its second colon, 0 where none
/// can be read there.
pub open spec fn content_length_in(line: Seq<char>) -> Option<usize> {
    let n = line.len() as int;
    let c1 = first_index_in(line, ':', 0, n);
    let c2 = first_index_in(line, ':', c1 + 1, n);
    if "content-length:"@.is_prefix_of(lowered(line)) {
        Some(
            match parsed_unsigned(trimmed(line, c1 + 1, c2), usize::MAX as nat) {
                Some(x) => x as usize,
                None => 0,
            },
        )
    } else {
        None
    }
}

pub fn content_length_field(line: &str) -> (r: Option<usize>)
    ensures
        r == content_length_in(line@),
{
    let v = chars_of(line);
    let n: usize = v.len();
    let name = chars_of("content-length:");
    assert(v@.subrange(0, n as int) =~= v@);
    if !starts_with_ignoring_case(&v, 0, n, &name) {
        return None;
    }
    let c1: usize = find_char(&v, ':', 0, n);
    if c1 >= n {
        return Some(0);
    }
    let c2: usize = find_char(&v, ':', c1 + 1, n);
    let a: usize = skip_spaces_in(&v, c1 + 1, c2);
    let b: usize = trim_end_in(&v, a, c2);
    match parse_unsigned(&v, a, b, usize::MAX as u64) {
        Some(x) => Some(x as usize),
        None => Some(0),
    }
}

/// The value of a header line, where it is a `Content-Type` line: what
/// follows its first colon, without surrounding white space.
pub open spec fn content_type_in(line: Seq<char>) -> Option<Seq<char>> {
    let n = line.len() as int;
    let c1 = first_index_in(line, ':', 0, n);
    if "content-type:"@.is_prefix_of(lowered(line)) {
        Some(trimmed(line, c1 + 1, n))
    } else {
        None
    }
}

pub fn content_type_field(line: &str) -> (r: Option<String>)
    ensures
        opt_text(r) == content_type_in(line@),
{
    let v = chars_of(line);
    let n: usize = v.len();
    let name = chars_of("content-type:");
    assert(v@.subrange(0, n as int) =~= v@);
    if !starts_with_ignoring_case(&v, 0, n, &name) {
        return None;
    }
    let c1: usize = find_char(&v, ':', 0, n);
    if c1 >= n {
        return Some(piece(line, n, n));
    }
    let a: usize = skip_spaces_in(&v, c1 + 1, n);
    let b: usize = trim_end_in(&v, a, n);
    Some(piece(line, a, b))
}

pub open spec fn lines_view(lines: Seq<String>) -> Seq<Seq<char>> {
    Seq::new(lines.len(), |i: int| lines[i]@)
}

/// The declared content length of a header block: that of the last
/// `Content-Length` line before the blank line, `acc` where there is none.
pub open spec fn content_length_from(lines: Seq<Seq<char>>, i: int, acc: usize) -> usize
    decreases lines.len() - i,
{
    if i < 0 || i >= lines.len() || is_blank_line(lines[i]) {
        acc
    } else {
        content_length_from(
            lines,
            i + 1,
            match content_length_in(lines[i]) {
                Some(x) => x,
                None => acc,
            },
        )
    }
}

/// The content length that the header lines declare; 0 where they declare
/// none. Lines after the first blank line are not looked at.
pub fn read_content_length(lines: &Vec<String>) -> (r: usize)
    ensures
        r == content_length_from(lines_view(lines@), 0, 0),
{
    let ghost all = lines_view(lines@);
    let mut acc: usize = 0;
    let mut i: usize = 0;
    while i < lines.len()
        invariant
            i <= lines.len(),
            all == lines_view(lines@),
            content_length_from(all, 0, 0) == content_length_from(all, i as int, acc),
        decreases lines.len() - i,
    {
        assert(all[i as int] == lines@[i as int]@);
        if blank_line(lines[i].as_str()) {
            return acc;
        }
        match content_length_field(lines[i].as_str()) {
            Some(x) => {
                acc = x;
            },
            None => {},
        }
        i = i + 1;
    }
    acc
}

/// The content type of a header block: that of the last `Content-Type` line
/// before the blank line.
pub open spec fn content_type_from(lines: Seq<Seq<char>>, i: int, acc: Option<Seq<char>>) -> Option<
    Seq<char>,
>
    decreases lines.len() - i,
{
    if i < 0 || i >= lines.len() || is_blank_line(lines[i]) {
        acc
    } else {
        content_type_from(
            lines,
            i + 1,
            match content_type_in(lines[i]) {
                Some(x) => Some(x),
                None => acc,
            },
        )
    }
}

pub fn read_content_type(lines: &Vec<String>) -> (r: Option<String>)
    ensures
        opt_text(r) == content_type_from(lines_view(lines@), 0, None),
{
    let ghost all = lines_view(lines@);
    let mut acc: Option<String> = None;
    let mut i: usize = 0;
    while i < lines.len()
        invariant
            i <= lines.len(),
            all == lines_view(lines@),
            content_type_from(all, 0, None) == content_type_from(all, i as int, opt_text(acc)),
        decreases lines.len() - i,
    {
        assert(all[i as int] == lines@[i as int]@);
        if blank_line(lines[i].as_str()) {
            return acc;
        }
        match content_type_field(lines[i].as_str()) {
            Some(x) => {
                acc = Some(x);
            },
            None => {},
        }
        i = i + 1;
    }
    acc
}

/// Whether a content type names JSON: its media type, which ends at the
/// first `;`, is `application/json` in any case.
pub open spec fn is_json_content_type(value: Option<Seq<char>>) -> bool {
    match value {
        Some(v) => lowered(trimmed(v, 0, first_index_in(v, ';', 0, v.len() as int)))
            == "application/json"@,
        None => false,
    }
}

pub fn json_content_type(value: Option<&str>) -> (r: bool)
    ensures
        r == is_json_content_type(
            opt_str(value),
        ),
{
    match value {
        Some(s) => {
            let v = chars_of(s);
            let semi: usize = find_char(&v, ';', 0, v.len());
            let a: usize = skip_spaces_in(&v, 0, semi);
            let b: usize = trim_end_in(&v, a, semi);
            let lit = chars_of("application/json");
            range_is_ignoring_case(&v, a, b, &lit)
        },
        None => false,
    }
}

/// Calls `String::from_utf8`. Trusted: it succeeds exactly on valid UTF-8,
/// and the string then holds the characters that the bytes encode.
#[verifier::external_body]
pub(crate) fn text_from_utf8(bytes: Vec<u8>) -> (r: Option<String>)
    ensures
        r is Some <==> valid_utf8(bytes@),
        r matches Some(s) ==> s@ == decode_utf8(bytes@),
{
    String::from_utf8(bytes).ok()
}

/// The text of a byte sequence that is valid UTF-8.
pub open spec fn utf8_text(bytes: Seq<u8>) -> Option<Seq<char>> {
    if valid_utf8(bytes) {
        Some(decode_utf8(bytes))
    } else {
        None
    }
}

/// Decodes bytes as UTF-8.
pub fn decode_text(bytes: &[u8]) -> (r: Option<String>)
    ensures
        opt_text(r) == utf8_text(bytes@),
{
    let mut copy: Vec<u8> = Vec::new();
    copy.extend_from_slice(bytes);
    assert(copy@ =~= bytes@);
    text_from_utf8(copy)
}

/// The body of a request as text: the first `content_length` of the bytes
/// that arrived. None for a declared length of 0, for a body that is
/// shorter than declared, and for bytes that are not UTF-8.
pub open spec fn body_text(available: Seq<u8>, content_length: usize) -> Option<Seq<char>> {
    if content_length == 0 || available.len() < content_length {
        None
    } else {
        utf8_text(available.subrange(0, content_length as int))
    }
}

pub fn read_utf8_body(available: &[u8], content_length: usize) -> (r: Option<String>)
    ensures
        opt_text(r) == body_text(available@, content_length),
{
    if content_length == 0 || available.len() < content_length {
        return None;
    }
    let mut body: Vec<u8> = Vec::new();
    let mut i: usize = 0;
    while i < content_length
        invariant
            i <= content_length <= available.len(),
            body@ == available@.subrange(0, i as int),
        decreases content_length - i,
    {
        body.push(available[i]);
        i = i + 1;
    }
    text_from_utf8(body)
}

} // verus!
