//! Downloads of exported archives: what the downloaded file is called and
//! what is done with it.

use crate::decimal::{decimal_digits, push_decimal};
use crate::json::opt_str;
use crate::text::{
    after_last, after_last_in, chars_of, contains_text, find_char, find_text, first_index_in,
    first_occurrence, lowered, piece, range_is_ignoring_case, skip_run, skip_run_in, text_contains,
    trim_run, trim_run_in,
};
use vstd::prelude::*;
use vstd::string::StringExecFns;

verus! {

/// What a finished download left behind: whose export it is, where it was
/// unpacked, and how many bytes it takes.
#[derive(Debug, Clone, PartialEq, Eq)]
pub struct ExportComplete {
    pub company: String,
    pub name: String,
    pub run_id: String,
    pub export_path: String,
    pub export_size: u64,
}

/// The name that a `Content-Disposition` header gives the file: what
/// follows `filename=`, without the double and then the single quotes
/// around it. None where the header names no file.
pub open spec fn disposition_name(header: Seq<char>) -> Option<Seq<char>> {
    let n = header.len() as int;
    match first_occurrence(header, "filename="@, 0) {
        Some(i) => {
            let a0 = skip_run(header, '"', i + 9, n);
            let b0 = trim_run(header, '"', a0, n);
            let a1 = skip_run(header, '\'', a0, b0);
            let b1 = trim_run(header, '\'', a1, b0);
            if a1 < b1 {
                Some(header.subrange(a1, b1))
            } else {
                None
            }
        },
        None => None,
    }
}

/// The name that an address gives the file: what follows its last `/`, up
/// to the query.
pub open spec fn url_name(url: Seq<char>) -> Seq<char> {
    let n = url.len() as int;
    let a = after_last(url, '/', n);
    url.subrange(a, first_index_in(url, '?', a, n))
}

/// The name of a downloaded file: that of the header where it gives one,
/// else that of the address.
pub open spec fn download_name(header: Option<Seq<char>>, url: Seq<char>) -> Seq<char> {
    match header {
        Some(h) => match disposition_name(h) {
            Some(name) => name,
            None => url_name(url),
        },
        None => url_name(url),
    }
}

fn name_from_header(header: &str) -> (r: Option<String>)
    ensures
        crate::json::opt_text(r) == disposition_name(header@),
{
    proof {
        reveal_strlit("filename=");
    }
    let v = chars_of(header);
    let n: usize = v.len();
    let key = chars_of("filename=");
    match find_text(&v, &key) {
        Some(i) => {
            let a0: usize = skip_run_in(&v, '"', i + 9, n);
            let b0: usize = trim_run_in(&v, '"', a0, n);
            let a1: usize = skip_run_in(&v, '\'', a0, b0);
            let b1: usize = trim_run_in(&v, '\'', a1, b0);
            if a1 < b1 {
                Some(piece(header, a1, b1))
            } else {
                None
            }
        },
        None => None,
    }
}

fn name_from_url(url: &str) -> (r: String)
    ensures
        r@ == url_name(url@),
{
    let v = chars_of(url);
    let n: usize = v.len();
    let a: usize = after_last_in(&v, '/');
    let b: usize = find_char(&v, '?', a, n);
    piece(url, a, b)
}

/// The name under which a download is stored. `content_disposition` is the
/// value of that header of the answer, if it has one.
pub fn get_filename_from_response(content_disposition: Option<&str>, url: &str) -> (r: String)
    ensures
        r@ == download_name(
            opt_str(content_disposition),
            url@,
        ),
{
    match content_disposition {
        Some(h) => match name_from_header(h) {
            Some(name) => name,
            None => name_from_url(url),
        },
        None => name_from_url(url),
    }
}

/// Whether a file is an archive by its name: the name ends in `.zip`, in
/// any case.
pub open spec fn is_zip_name(name: Seq<char>) -> bool {
    name.len() >= 4 && lowered(name.subrange(name.len() - 4, name.len() as int)) == ".zip"@
}

pub fn zip_name(name: &str) -> (r: bool)
    ensures
        r == is_zip_name(name@),
{
    let v = chars_of(name);
    let n: usize = v.len();
    if n < 4 {
        return false;
    }
    range_is_ignoring_case(&v, n - 4, n, &chars_of(".zip"))
}

/// Whether an address is that of a conversation export, whose archive
/// holds conversations to be reshaped.
pub open spec fn is_conversation_export(url: Seq<char>) -> bool {
    contains_text(url, "proddatamgmtqueue.blob.core.windows.net"@) || contains_text(
        url,
        "chatgpt.com/backend-api/content"@,
    )
}

pub fn conversation_export(url: &str) -> (r: bool)
    ensures
        r == is_conversation_export(url@),
{
    text_contains(url, "proddatamgmtqueue.blob.core.windows.net") || text_contains(
        url,
        "chatgpt.com/backend-api/content",
    )
}

/// The name of the directory that a download is stored in.
pub fn export_dir_name(platform_id: &str, timestamp_ms: u64) -> (r: String)
    ensures
        r@ == platform_id@ + "-"@ + decimal_digits(timestamp_ms as nat),
{
    let mut out = String::new();
    out.append(platform_id);
    out.append("-");
    push_decimal(&mut out, timestamp_ms);
    assert(out@ =~= platform_id@ + "-"@ + decimal_digits(timestamp_ms as nat));
    out
}

} // verus!
