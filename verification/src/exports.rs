//! Exported data on disk: which of a run's files is the latest, and the
//! preview of a file that is shown before it is opened in full.

use crate::decimal::{parse_unsigned, parsed_unsigned};
use crate::http::{decode_text, utf8_text};
use crate::json::{
    find_member, json_of, json_text, member, object_members, opt_members, opt_text, parse_object,
    JsonMemberView,
};
use crate::text::{after_last, after_last_in, chars_of, owned};
use vstd::prelude::*;
use vstd::string::StringSliceAdditionalSpecFns;
use vstd::utf8::{
    decode_utf8, encode_utf8, encode_utf8_decode_utf8, encode_utf8_valid_utf8, is_char_boundary,
    is_char_boundary_start_end_of_seq, valid_utf8,
};

verus! {

/// The bytes of a preview where the caller names no limit.
pub const DEFAULT_PREVIEW_BYTES: usize = 262144;

/// The time that the name of an export file carries: the number after its
/// last `_`, in seconds. `stem` is the file's name without its extension.
pub open spec fn export_timestamp(stem: Seq<char>) -> Option<u64> {
    let n = stem.len() as int;
    match parsed_unsigned(stem.subrange(after_last(stem, '_', n), n), u64::MAX as nat) {
        Some(t) => Some(t as u64),
        None => None,
    }
}

pub fn parse_export_timestamp(stem: &str) -> (r: Option<u64>)
    ensures
        r == export_timestamp(stem@),
{
    let v = chars_of(stem);
    let n: usize = v.len();
    let start: usize = after_last_in(&v, '_');
    parse_unsigned(&v, start, n, u64::MAX)
}

pub open spec fn stems_view(stems: Seq<String>) -> Seq<Seq<char>> {
    Seq::new(stems.len(), |i: int| stems[i]@)
}

/// Whether the file at `i` is the latest export among `stems`: it carries
/// a time, no file carries a later one, and none before it the same.
pub open spec fn is_latest(stems: Seq<Seq<char>>, i: int) -> bool {
    &&& 0 <= i < stems.len()
    &&& export_timestamp(stems[i]) is Some
    &&& forall|j: int|
        0 <= j < stems.len() && export_timestamp(#[trigger] stems[j]) is Some ==> export_timestamp(
            stems[j],
        )->0 <= export_timestamp(stems[i])->0
    &&& forall|j: int|
        0 <= j < i && export_timestamp(#[trigger] stems[j]) is Some ==> export_timestamp(
            stems[j],
        )->0 < export_timestamp(stems[i])->0
}

/// Whether any of the files carries a time.
pub open spec fn any_timed(stems: Seq<Seq<char>>) -> bool {
    exists|j: int| 0 <= j < stems.len() && export_timestamp(#[trigger] stems[j]) is Some
}

pub open spec fn best_place(best: Option<(usize, u64)>) -> int {
    match best {
        Some((i, _)) => i as int,
        None => 0,
    }
}

proof fn lemma_keeps_latest(seen: Seq<Seq<char>>, next: Seq<Seq<char>>, i: int)
    requires
        is_latest(seen, i),
        next.len() == seen.len() + 1,
        forall|j: int| 0 <= j < seen.len() ==> next[j] == seen[j],
        export_timestamp(next[seen.len() as int]) is Some ==> export_timestamp(
            next[seen.len() as int],
        )->0 <= export_timestamp(seen[i])->0,
    ensures
        is_latest(next, i),
{
    assert(seen[i] == next[i]);
    assert forall|j: int|
        0 <= j < next.len() && export_timestamp(#[trigger] next[j]) is Some implies export_timestamp(
        next[j],
    )->0 <= export_timestamp(next[i])->0 by {
        if j < seen.len() {
            assert(seen[j] == next[j]);
        }
    }
    assert forall|j: int|
        0 <= j < i && export_timestamp(#[trigger] next[j]) is Some implies export_timestamp(
        next[j],
    )->0 < export_timestamp(next[i])->0 by {
        assert(seen[j] == next[j]);
    }
}

/// The latest export among files given by their stems: its place and its
/// time. None where no file's name carries a time.
pub fn find_latest_export(stems: &Vec<String>) -> (r: Option<(usize, u64)>)
    ensures
        match r {
            Some((i, t)) => is_latest(stems_view(stems@), i as int) && export_timestamp(
                stems@[i as int]@,
            ) == Some(t),
            None => !any_timed(stems_view(stems@)),
        },
{
    let ghost all = stems_view(stems@);
    let mut best: Option<(usize, u64)> = None;
    let mut k: usize = 0;
    while k < stems.len()
        invariant
            k <= stems.len(),
            all == stems_view(stems@),
            match best {
                Some((i, t)) => is_latest(all.subrange(0, k as int), i as int) && export_timestamp(
                    all[i as int],
                ) == Some(t),
                None => forall|j: int| 0 <= j < k ==> export_timestamp(#[trigger] all[j]) is None,
            },
        decreases stems.len() - k,
    {
        let ghost seen = all.subrange(0, k as int);
        let ghost next = all.subrange(0, k + 1);
        assert(all[k as int] == stems@[k as int]@);
        let found = parse_export_timestamp(stems[k].as_str());
        proof {
            assert forall|j: int| 0 <= j < k implies next[j] == seen[j] by {}
            assert(next[k as int] == all[k as int]);
        }
        match found {
            Some(t) => {
                let better = match best {
                    Some((_, prev)) => t > prev,
                    None => true,
                };
                if better {
                    best = Some((k, t));
                    proof {
                        assert(is_latest(next, k as int)) by {
                            assert forall|j: int|
                                0 <= j < next.len() && export_timestamp(
                                    #[trigger] next[j],
                                ) is Some implies export_timestamp(next[j])->0 <= t by {
                                if j < k {
                                    assert(seen[j] == next[j]);
                                }
                            }
                            assert forall|j: int|
                                0 <= j < k && export_timestamp(
                                    #[trigger] next[j],
                                ) is Some implies export_timestamp(next[j])->0 < t by {
                                assert(seen[j] == next[j]);
                            }
                        }
                    }
                } else {
                    proof {
                        lemma_keeps_latest(seen, next, best_place(best));
                    }
                }
            },
            None => {
                proof {
                    if best is Some {
                        lemma_keeps_latest(seen, next, best_place(best));
                    }
                }
            },
        }
        k = k + 1;
    }
    assert(all.subrange(0, all.len() as int) =~= all);
    best
}

/// The greatest character boundary of `bytes` that is no greater than
/// `max`.
pub open spec fn floor_boundary(bytes: Seq<u8>, max: int) -> int
    decreases max,
{
    if max <= 0 {
        0
    } else if is_char_boundary(bytes, max) {
        max
    } else {
        floor_boundary(bytes, max - 1)
    }
}

/// The longest prefix of `text` that ends between two characters and takes
/// no more than `max_bytes` bytes in UTF-8; the whole of a text that is no
/// longer than that.
pub open spec fn truncated_text(text: Seq<char>, max_bytes: usize) -> Seq<char> {
    let bytes = encode_utf8(text);
    if bytes.len() <= max_bytes {
        text
    } else {
        decode_utf8(bytes.subrange(0, floor_boundary(bytes, max_bytes as int)))
    }
}

/// Cuts a text to at most `max_bytes` bytes of UTF-8 without splitting a
/// character, and tells whether anything was cut off.
pub fn truncate_utf8_by_bytes(input: &str, max_bytes: usize) -> (r: (String, bool))
    ensures
        r.0@ == truncated_text(input@, max_bytes),
        r.1 == (input.spec_bytes().len() > max_bytes),
        encode_utf8(r.0@).len() <= max_bytes || !r.1,
{
    let ghost bytes = input.spec_bytes();
    if input.as_bytes().len() <= max_bytes {
        return (owned(input), false);
    }
    proof {
        encode_utf8_valid_utf8(input@);
        is_char_boundary_start_end_of_seq(bytes);
    }
    let mut end: usize = max_bytes;
    while end > 0 && !input.is_char_boundary(end)
        invariant
            end <= max_bytes < bytes.len(),
            bytes == input.spec_bytes(),
            floor_boundary(bytes, max_bytes as int) == floor_boundary(bytes, end as int),
        decreases end,
    {
        end = end - 1;
    }
    assert(is_char_boundary(bytes, end as int));
    assert(floor_boundary(bytes, max_bytes as int) == end);
    let (head, _) = input.split_at(end);
    proof {
        encode_utf8_decode_utf8(head@);
        assert(head.spec_bytes() == bytes.subrange(0, end as int));
    }
    (owned(head), true)
}

/// The length of the longest prefix of `bytes`, of at most `max` bytes,
/// that is valid UTF-8.
pub open spec fn valid_prefix_len(bytes: Seq<u8>, max: int) -> int
    decreases max,
{
    if max <= 0 || max > bytes.len() {
        0
    } else if valid_utf8(bytes.subrange(0, max)) {
        max
    } else {
        valid_prefix_len(bytes, max - 1)
    }
}

pub open spec fn min_int(a: int, b: int) -> int {
    if a <= b {
        a
    } else {
        b
    }
}

/// The preview of a file that is shown without parsing it: the longest
/// valid text among its first `max_bytes` bytes.
pub open spec fn raw_preview_text(bytes: Seq<u8>, max_bytes: usize) -> Seq<char> {
    decode_utf8(
        bytes.subrange(0, valid_prefix_len(bytes, min_int(bytes.len() as int, max_bytes as int))),
    )
}

/// The preview of a file from its first bytes, with whether the file holds
/// more than the preview may.
pub fn read_raw_export_preview(bytes: &[u8], max_bytes: usize) -> (r: (String, bool))
    ensures
        r.0@ == raw_preview_text(bytes@, max_bytes),
        r.1 == (bytes@.len() > max_bytes),
{
    let limit: usize = if bytes.len() < max_bytes {
        bytes.len()
    } else {
        max_bytes
    };
    let mut end: usize = limit;
    loop
        invariant
            end <= limit <= bytes.len(),
            limit == min_int(bytes@.len() as int, max_bytes as int),
            valid_prefix_len(bytes@, limit as int) == valid_prefix_len(bytes@, end as int),
        decreases end,
    {
        let mut prefix: Vec<u8> = Vec::new();
        let mut i: usize = 0;
        while i < end
            invariant
                i <= end <= bytes.len(),
                prefix@ == bytes@.subrange(0, i as int),
            decreases end - i,
        {
            prefix.push(bytes[i]);
            i = i + 1;
        }
        match decode_text(prefix.as_slice()) {
            Some(text) => {
                proof {
                    if end == 0 {
                        assert(bytes@.subrange(0, 0) =~= Seq::<u8>::empty());
                    }
                }
                return (text, bytes.len() > max_bytes);
            },
            None => {
                proof {
                    if end == 0 {
                        assert(prefix@ =~= Seq::<u8>::empty());
                    }
                }
                end = end - 1;
            },
        }
    }
}

/// How the preview of a file is made.
#[derive(Debug, Clone, Copy, PartialEq, Eq, Structural)]
pub enum PreviewSource {
    /// From the first bytes of the file as they are.
    Raw,
    /// From the file's content, parsed and printed anew.
    Parsed,
}

/// A file of more than four times the preview's limit is shown raw.
pub open spec fn preview_source_of(byte_limit: usize, file_size_bytes: u64) -> PreviewSource {
    if file_size_bytes > byte_limit * 4 {
        PreviewSource::Raw
    } else {
        PreviewSource::Parsed
    }
}

pub fn preview_source(byte_limit: usize, file_size_bytes: u64) -> (r: PreviewSource)
    ensures
        r == preview_source_of(byte_limit, file_size_bytes),
{
    let limit: u64 = byte_limit as u64;
    let threshold: u64 = if limit > u64::MAX / 4 {
        u64::MAX
    } else {
        limit * 4
    };
    if file_size_bytes > threshold {
        PreviewSource::Raw
    } else {
        PreviewSource::Parsed
    }
}

/// One file of an export, as the user interface is handed it.
#[derive(Debug, Clone, PartialEq, Eq)]
pub struct FileInfo {
    pub name: String,
    pub content: String,
}

/// Whether a file is a JSON file by its name: `json` follows the last dot
/// of the name, and the dot is not the first character.
pub open spec fn is_json_name(name: Seq<char>) -> bool {
    let n = name.len() as int;
    let i = after_last(name, '.', n);
    i >= 2 && name.subrange(i, n) == "json"@
}

pub fn json_name(name: &str) -> (r: bool)
    ensures
        r == is_json_name(name@),
{
    let v = chars_of(name);
    let n: usize = v.len();
    let i: usize = after_last_in(&v, '.');
    i >= 2 && crate::text::range_is(&v, i, n, &chars_of("json"))
}

pub open spec fn opt_file(f: Option<FileInfo>) -> Option<(Seq<char>, Seq<char>)> {
    match f {
        Some(x) => Some((x.name@, x.content@)),
        None => None,
    }
}

/// A file of an export, if it is a JSON file.
pub fn export_file(name: &str, content: String) -> (r: Option<FileInfo>)
    ensures
        opt_file(r) == if is_json_name(name@) {
            Some((name@, content@))
        } else {
            None
        },
{
    if json_name(name) {
        Some(FileInfo { name: owned(name), content })
    } else {
        None
    }
}

/// The JSON text `text` printed anew with line breaks and indentation; none
/// where `text` is not JSON.
pub uninterp spec fn pretty_printed(text: Seq<char>) -> Option<Seq<char>>;

/// Calls `serde_json::from_str` for a `serde_json::Value` and prints what
/// it gives with `serde_json::to_string_pretty`. Trusted: the result is a
/// function of `text` alone.
#[verifier::external_body]
pub(crate) fn pretty_json(text: &str) -> (r: Option<String>)
    ensures
        opt_text(r) == pretty_printed(text@),
{
    let value = serde_json::from_str::<serde_json::Value>(text).ok()?;
    serde_json::to_string_pretty(&value).ok()
}

/// Why no preview could be made of a file.
#[derive(Debug, Clone, Copy, PartialEq, Eq, Structural)]
pub enum PreviewError {
    /// The file is not text.
    Unreadable,
    /// The file is not JSON.
    Unparsable,
}

impl PreviewError {
    pub open spec fn message_text(self) -> Seq<char> {
        match self {
            PreviewError::Unreadable => "Failed to read export file"@,
            PreviewError::Unparsable => "Failed to parse export file"@,
        }
    }

    pub fn message(&self) -> (r: &'static str)
        ensures
            r@ == self.message_text(),
    {
        match self {
            PreviewError::Unreadable => "Failed to read export file",
            PreviewError::Unparsable => "Failed to parse export file",
        }
    }
}

/// The data of an export file: what its member `content` holds, and the
/// whole file where it is no object or has no such member. `parsed` holds
/// the members of the file.
pub open spec fn export_content(text: Seq<char>, parsed: Option<Seq<JsonMemberView>>) -> Seq<char> {
    match parsed {
        Some(m) => match member(m, "content"@) {
            Some(item) => json_of(Some(item)),
            None => text,
        },
        None => text,
    }
}

/// Picks the data out of an export file that was parsed already.
pub fn select_export_content(text: &str, parsed: Option<&Vec<crate::json::JsonMember>>) -> (r:
    String)
    ensures
        r@ == export_content(text@, opt_members(parsed)),
{
    match parsed {
        Some(m) => match find_member(m, "content") {
            Some(item) => json_text(Some(item)),
            None => owned(text),
        },
        None => owned(text),
    }
}

/// The data of an export file, printed for reading; none where the file is
/// not JSON.
pub fn read_export_content(text: &str) -> (r: Option<String>)
    ensures
        opt_text(r) == pretty_printed(export_content(text@, object_members(text@))),
{
    let parsed = parse_object(text);
    let content = select_export_content(text, parsed.as_ref());
    pretty_json(content.as_str())
}

pub open spec fn preview_view(r: Result<(String, bool), PreviewError>) -> Result<
    (Seq<char>, bool),
    PreviewError,
> {
    match r {
        Ok((text, cut)) => Ok((text@, cut)),
        Err(e) => Err(e),
    }
}

/// The preview of an export file whose data was printed already: the
/// printed data, cut to the limit.
pub open spec fn parsed_preview(printed: Option<Seq<char>>, byte_limit: usize) -> Result<
    (Seq<char>, bool),
    PreviewError,
> {
    match printed {
        Some(full) => Ok((truncated_text(full, byte_limit), encode_utf8(full).len() > byte_limit)),
        None => Err(PreviewError::Unparsable),
    }
}

pub fn preview_of_printed(printed: Option<String>, byte_limit: usize) -> (r: Result<
    (String, bool),
    PreviewError,
>)
    ensures
        preview_view(r) == parsed_preview(opt_text(printed), byte_limit),
{
    match printed {
        Some(full) => Ok(truncate_utf8_by_bytes(full.as_str(), byte_limit)),
        None => Err(PreviewError::Unparsable),
    }
}

/// The preview of an export file. A file of more than four times the limit
/// is shown as it is, from its first bytes; a smaller one is parsed, and its
/// data is printed and cut to the limit. `content` holds the file, or at
/// least its first `byte_limit + 1` bytes where the file is shown as it is.
pub open spec fn source_preview(
    content: Seq<u8>,
    byte_limit: usize,
    file_size_bytes: u64,
) -> Result<(Seq<char>, bool), PreviewError> {
    if preview_source_of(byte_limit, file_size_bytes) == PreviewSource::Raw {
        Ok((raw_preview_text(content, byte_limit), content.len() > byte_limit))
    } else {
        match utf8_text(content) {
            Some(text) => parsed_preview(
                pretty_printed(export_content(text, object_members(text))),
                byte_limit,
            ),
            None => Err(PreviewError::Unreadable),
        }
    }
}

pub fn build_source_export_preview(content: &[u8], byte_limit: usize, file_size_bytes: u64) -> (r:
    Result<(String, bool), PreviewError>)
    ensures
        preview_view(r) == source_preview(content@, byte_limit, file_size_bytes),
{
    match preview_source(byte_limit, file_size_bytes) {
        PreviewSource::Raw => Ok(read_raw_export_preview(content, byte_limit)),
        PreviewSource::Parsed => match decode_text(content) {
            Some(text) => preview_of_printed(read_export_content(text.as_str()), byte_limit),
            None => Err(PreviewError::Unreadable),
        },
    }
}

/// The preview of the latest export of a source, with where it came from.
#[derive(Debug, Clone, PartialEq, Eq)]
pub struct SourceExportPreview {
    pub preview_json: String,
    pub is_truncated: bool,
    pub file_path: String,
    pub file_size_bytes: u64,
    pub exported_at: String,
}

/// The date of an export: that of the time its file's name carries, and
/// the given present date where the calendar cannot hold that time.
pub open spec fn exported_at_of(timestamp: u64, now: Seq<char>) -> Seq<char> {
    match crate::clock::date_of(timestamp) {
        Some(date) => date,
        None => now,
    }
}

/// Puts a preview together with where it came from.
pub fn source_export_preview(
    preview: (String, bool),
    file_path: String,
    file_size_bytes: u64,
    timestamp: u64,
    now: &str,
) -> (r: SourceExportPreview)
    ensures
        r.preview_json@ == preview.0@,
        r.is_truncated == preview.1,
        r.file_path@ == file_path@,
        r.file_size_bytes == file_size_bytes,
        r.exported_at@ == exported_at_of(timestamp, now@),
{
    let exported_at = match crate::clock::date_text(timestamp) {
        Some(date) => date,
        None => owned(now),
    };
    SourceExportPreview {
        preview_json: preview.0,
        is_truncated: preview.1,
        file_path,
        file_size_bytes,
        exported_at,
    }
}

} // verus!
