//! The runs of the past, as they are found on disk: what each exported and
//! when.

use crate::decimal::{decimal_digits, push_decimal};
use crate::events::push_json_text;
use crate::json::{
    find_member, json_quoted, member, members_view, object_members, opt_text, parse_object,
    parsed_view, signed_member, signed_of, text_member, text_of, JsonItem, JsonItemView, JsonMember,
    JsonMemberView,
};
use crate::text::owned;
use vstd::prelude::*;
use vstd::string::StringExecFns;

verus! {

/// One run of the past.
#[derive(Debug, Clone, PartialEq, Eq)]
pub struct SavedRun {
    pub id: String,
    pub platform_id: String,
    pub filename: String,
    pub company: String,
    pub name: String,
    pub start_date: String,
    pub end_date: Option<String>,
    pub status: String,
    pub export_path: Option<String>,
    pub items_exported: Option<i64>,
    pub item_label: Option<String>,
}

/// How many members the JSON array has that `text` denotes; none where
/// `text` denotes no array.
pub uninterp spec fn array_len_of(text: Seq<char>) -> Option<usize>;

/// Calls `serde_json::from_str` for a vector of `serde_json::Value` and
/// takes its length. Trusted: the result is a function of `text` alone.
#[verifier::external_body]
pub(crate) fn array_length(text: &str) -> (r: Option<usize>)
    ensures
        r == array_len_of(text@),
{
    serde_json::from_str::<Vec<serde_json::Value>>(text).ok().map(|list| list.len())
}

/// The moment `secs` seconds after the Unix epoch in UTC, written with
/// milliseconds and `Z`; none for a moment that the calendar cannot hold.
pub uninterp spec fn iso_millis_of(secs: i64) -> Option<Seq<char>>;

/// Calls `chrono::DateTime::from_timestamp` and writes what it gives with
/// `format` and the pattern `%Y-%m-%dT%H:%M:%S%.3fZ`. Trusted: the result is
/// a function of `secs` alone.
#[verifier::external_body]
pub(crate) fn iso_millis_utc(secs: i64) -> (r: Option<String>)
    ensures
        opt_text(r) == iso_millis_of(secs),
{
    chrono::DateTime::from_timestamp(secs, 0).map(
        |moment| moment.format("%Y-%m-%dT%H:%M:%S%.3fZ").to_string(),
    )
}

/// The date of a run that started at `timestamp`, and the given present
/// date where the calendar cannot hold that time.
pub open spec fn start_date_of(timestamp: u64, now: Seq<char>) -> Seq<char> {
    if timestamp > i64::MAX {
        now
    } else {
        match iso_millis_of(timestamp as i64) {
            Some(date) => date,
            None => now,
        }
    }
}

pub fn start_date(timestamp: u64, now: &str) -> (r: String)
    ensures
        r@ == start_date_of(timestamp, now@),
{
    if timestamp > i64::MAX as u64 {
        owned(now)
    } else {
        match iso_millis_utc(timestamp as i64) {
            Some(date) => date,
            None => owned(now),
        }
    }
}

/// The lengths of the arrays that tell how much a run exported.
#[derive(Debug, Clone, Copy, PartialEq, Eq, Structural)]
pub struct ArrayLengths {
    pub conversations: Option<usize>,
    pub posts: Option<usize>,
    pub memories: Option<usize>,
}

/// The length of a member that is an array.
pub open spec fn length_of(item: Option<JsonItemView>) -> Option<usize> {
    match item {
        Some(JsonItemView::Array(raw)) => array_len_of(raw),
        _ => None,
    }
}

pub open spec fn lengths_of(members: Seq<JsonMemberView>) -> ArrayLengths {
    ArrayLengths {
        conversations: length_of(member(members, "conversations"@)),
        posts: length_of(member(members, "posts"@)),
        memories: length_of(member(members, "memories"@)),
    }
}

fn member_length(members: &Vec<JsonMember>, key: &str) -> (r: Option<usize>)
    ensures
        r == length_of(member(members_view(members@), key@)),
{
    match find_member(members, key) {
        Some(JsonItem::Array(raw)) => array_length(raw.as_str()),
        _ => None,
    }
}

/// Measures the arrays of an export.
pub fn measure(members: &Vec<JsonMember>) -> (r: ArrayLengths)
    ensures
        r == lengths_of(members_view(members@)),
{
    ArrayLengths {
        conversations: member_length(members, "conversations"),
        posts: member_length(members, "posts"),
        memories: member_length(members, "memories"),
    }
}

pub open spec fn count_of_length(length: Option<usize>) -> Option<i64> {
    match length {
        Some(n) => if n <= i64::MAX {
            Some(n as i64)
        } else {
            None
        },
        None => None,
    }
}

pub open spec fn first_of(a: Option<i64>, b: Option<i64>) -> Option<i64> {
    match a {
        Some(x) => Some(x),
        None => b,
    }
}

/// How much an export holds, by its own account: the count of
/// conversations or of posts it states, else the length of its
/// conversations, its posts or its memories, else the count of media.
pub open spec fn count_in(members: Seq<JsonMemberView>, lengths: ArrayLengths) -> Option<i64> {
    first_of(
        signed_of(member(members, "totalConversations"@)),
        first_of(
            signed_of(member(members, "totalPosts"@)),
            first_of(
                count_of_length(lengths.conversations),
                first_of(
                    count_of_length(lengths.posts),
                    first_of(
                        count_of_length(lengths.memories),
                        signed_of(member(members, "media_count"@)),
                    ),
                ),
            ),
        ),
    )
}

fn count_length(length: Option<usize>) -> (r: Option<i64>)
    ensures
        r == count_of_length(length),
{
    match length {
        Some(n) => if (n as u64) <= 0x7fff_ffff_ffff_ffff {
            Some(n as i64)
        } else {
            None
        },
        None => None,
    }
}

fn first(a: Option<i64>, b: Option<i64>) -> (r: Option<i64>)
    ensures
        r == first_of(a, b),
{
    match a {
        Some(x) => Some(x),
        None => b,
    }
}

/// Counts what an export holds, its arrays having been measured already.
pub fn count_items(members: &Vec<JsonMember>, lengths: ArrayLengths) -> (r: Option<i64>)
    ensures
        r == count_in(members_view(members@), lengths),
{
    first(
        signed_member(members, "totalConversations"),
        first(
            signed_member(members, "totalPosts"),
            first(
                count_length(lengths.conversations),
                first(
                    count_length(lengths.posts),
                    first(count_length(lengths.memories), signed_member(members, "media_count")),
                ),
            ),
        ),
    )
}

/// What an export holds, by the members it has: posts where it has posts
/// or a count of media, else conversations, else memories.
pub open spec fn label_in(members: Seq<JsonMemberView>) -> Option<Seq<char>> {
    if member(members, "posts"@) is Some || member(members, "media_count"@) is Some {
        Some("posts"@)
    } else if member(members, "conversations"@) is Some {
        Some("conversations"@)
    } else if member(members, "memories"@) is Some {
        Some("memories"@)
    } else {
        None
    }
}

pub fn label_items(members: &Vec<JsonMember>) -> (r: Option<String>)
    ensures
        opt_text(r) == label_in(members_view(members@)),
{
    if find_member(members, "posts").is_some() || find_member(members, "media_count").is_some() {
        Some(owned("posts"))
    } else if find_member(members, "conversations").is_some() {
        Some(owned("conversations"))
    } else if find_member(members, "memories").is_some() {
        Some(owned("memories"))
    } else {
        None
    }
}

/// What is known of an export's content: the members of the content, of
/// its `data` and of its summary, each where it is an object, with the
/// arrays of the first two measured.
pub struct ExportParts {
    pub content: Option<Vec<JsonMember>>,
    pub content_lengths: ArrayLengths,
    pub data: Option<Vec<JsonMember>>,
    pub data_lengths: ArrayLengths,
    pub summary: Option<Vec<JsonMember>>,
}

pub ghost struct ExportPartsView {
    pub content: Option<Seq<JsonMemberView>>,
    pub content_lengths: ArrayLengths,
    pub data: Option<Seq<JsonMemberView>>,
    pub data_lengths: ArrayLengths,
    pub summary: Option<Seq<JsonMemberView>>,
}

impl View for ExportParts {
    type V = ExportPartsView;

    open spec fn view(&self) -> ExportPartsView {
        ExportPartsView {
            content: parsed_view(self.content),
            content_lengths: self.content_lengths,
            data: parsed_view(self.data),
            data_lengths: self.data_lengths,
            summary: parsed_view(self.summary),
        }
    }
}

/// How many items a run exported: the count of its summary, else what its
/// content holds, else what the content's `data` holds.
pub open spec fn items_exported_of(parts: ExportPartsView) -> Option<i64> {
    let summarised = match parts.summary {
        Some(s) => signed_of(member(s, "count"@)),
        None => None,
    };
    let counted = match parts.content {
        Some(c) => count_in(c, parts.content_lengths),
        None => None,
    };
    let nested = match parts.data {
        Some(d) => count_in(d, parts.data_lengths),
        None => None,
    };
    first_of(summarised, first_of(counted, nested))
}

pub fn items_exported(parts: &ExportParts) -> (r: Option<i64>)
    ensures
        r == items_exported_of(parts@),
{
    let summarised = match &parts.summary {
        Some(s) => signed_member(s, "count"),
        None => None,
    };
    let counted = match &parts.content {
        Some(c) => count_items(c, parts.content_lengths),
        None => None,
    };
    let nested = match &parts.data {
        Some(d) => count_items(d, parts.data_lengths),
        None => None,
    };
    first(summarised, first(counted, nested))
}

/// What the items of a run are called: as its summary says, else by what
/// its content holds, else by what the content's `data` holds.
pub open spec fn item_label_of(parts: ExportPartsView) -> Option<Seq<char>> {
    let summarised = match parts.summary {
        Some(s) => text_of(member(s, "label"@)),
        None => None,
    };
    let named = match parts.content {
        Some(c) => label_in(c),
        None => None,
    };
    let nested = match parts.data {
        Some(d) => label_in(d),
        None => None,
    };
    match summarised {
        Some(l) => Some(l),
        None => match named {
            Some(l) => Some(l),
            None => nested,
        },
    }
}

pub fn item_label(parts: &ExportParts) -> (r: Option<String>)
    ensures
        opt_text(r) == item_label_of(parts@),
{
    let summarised = match &parts.summary {
        Some(s) => text_member(s, "label"),
        None => None,
    };
    match summarised {
        Some(l) => Some(l),
        None => {
            let named = match &parts.content {
                Some(c) => label_items(c),
                None => None,
            };
            match named {
                Some(l) => Some(l),
                None => match &parts.data {
                    Some(d) => label_items(d),
                    None => None,
                },
            }
        },
    }
}

/// The members of the object stored under `key`, where one is stored
/// there.
pub open spec fn object_under(
    members: Option<Seq<JsonMemberView>>,
    key: Seq<char>,
) -> Option<Seq<JsonMemberView>> {
    match members {
        Some(m) => match member(m, key) {
            Some(JsonItemView::Object(raw)) => object_members(raw),
            _ => None,
        },
        None => None,
    }
}

fn parse_under(members: &Option<Vec<JsonMember>>, key: &str) -> (r: Option<Vec<JsonMember>>)
    ensures
        parsed_view(r) == object_under(parsed_view(*members), key@),
{
    match members {
        Some(m) => match find_member(m, key) {
            Some(JsonItem::Object(raw)) => parse_object(raw.as_str()),
            _ => None,
        },
        None => None,
    }
}

pub open spec fn has_member(members: Option<Seq<JsonMemberView>>, key: Seq<char>) -> bool {
    match members {
        Some(m) => member(m, key) is Some,
        None => false,
    }
}

pub open spec fn measured(members: Option<Seq<JsonMemberView>>) -> ArrayLengths {
    match members {
        Some(m) => lengths_of(m),
        None => ArrayLengths { conversations: None, posts: None, memories: None },
    }
}

/// The parts of an export file's content. The summary is that of the
/// content where the content has one, else that of the content's `data`.
pub open spec fn parts_of(file: Option<Seq<JsonMemberView>>) -> ExportPartsView {
    let content = object_under(file, "content"@);
    let data = object_under(content, "data"@);
    ExportPartsView {
        content,
        content_lengths: measured(content),
        data,
        data_lengths: measured(data),
        summary: if has_member(content, "exportSummary"@) {
            object_under(content, "exportSummary"@)
        } else {
            object_under(data, "exportSummary"@)
        },
    }
}

/// Takes the content of an export file apart.
pub fn export_parts(file: &Option<Vec<JsonMember>>) -> (r: ExportParts)
    ensures
        r@ == parts_of(parsed_view(*file)),
{
    let content = parse_under(file, "content");
    let data = parse_under(&content, "data");
    let in_content = match &content {
        Some(c) => find_member(c, "exportSummary").is_some(),
        None => false,
    };
    let summary = if in_content {
        parse_under(&content, "exportSummary")
    } else {
        parse_under(&data, "exportSummary")
    };
    let content_lengths = match &content {
        Some(c) => measure(c),
        None => ArrayLengths { conversations: None, posts: None, memories: None },
    };
    let data_lengths = match &data {
        Some(d) => measure(d),
        None => ArrayLengths { conversations: None, posts: None, memories: None },
    };
    ExportParts { content, content_lengths, data, data_lengths, summary }
}

/// The name under which a run is shown: that of its export file, else that
/// of its platform's directory.
pub open spec fn display_name_of(
    file: Option<Seq<JsonMemberView>>,
    platform_name: Seq<char>,
) -> Seq<char> {
    match file {
        Some(m) => match text_of(member(m, "name"@)) {
            Some(n) => n,
            None => platform_name,
        },
        None => platform_name,
    }
}

/// A run of the past from its latest export file. `file` holds the
/// members of the file; `started` the date of the run.
pub fn saved_run(
    run_id: &str,
    platform_name: &str,
    company: &str,
    export_path: &str,
    started: String,
    file: &Option<Vec<JsonMember>>,
) -> (r: SavedRun)
    ensures
        r.id@ == run_id@,
        r.platform_id@ == platform_name@,
        r.filename@ == platform_name@,
        r.company@ == company@,
        r.name@ == display_name_of(parsed_view(*file), platform_name@),
        r.start_date@ == started@,
        opt_text(r.end_date) == Some(started@),
        r.status@ == "success"@,
        opt_text(r.export_path) == Some(export_path@),
        r.items_exported == items_exported_of(parts_of(parsed_view(*file))),
        opt_text(r.item_label) == item_label_of(parts_of(parsed_view(*file))),
{
    let parts = export_parts(file);
    let name = match file {
        Some(m) => match text_member(m, "name") {
            Some(n) => n,
            None => owned(platform_name),
        },
        None => owned(platform_name),
    };
    SavedRun {
        id: owned(run_id),
        platform_id: owned(platform_name),
        filename: owned(platform_name),
        company: owned(company),
        name,
        start_date: started.clone(),
        end_date: Some(started),
        status: owned("success"),
        export_path: Some(owned(export_path)),
        items_exported: items_exported(&parts),
        item_label: item_label(&parts),
    }
}

/// The name of the file that an export is written to.
pub fn export_file_name(platform_id: &str, timestamp: u64) -> (r: String)
    ensures
        r@ == platform_id@ + "_"@ + decimal_digits(timestamp as nat) + ".json"@,
{
    let mut out = String::new();
    out.append(platform_id);
    out.append("_");
    push_decimal(&mut out, timestamp);
    out.append(".json");
    assert(out@ =~= platform_id@ + "_"@ + decimal_digits(timestamp as nat) + ".json"@);
    out
}

/// The name under which an export is stored: the one given, else the
/// platform that the export names, else the platform's identifier.
pub open spec fn export_name_of(
    given: Option<Seq<char>>,
    content: Option<Seq<JsonMemberView>>,
    platform_id: Seq<char>,
) -> Seq<char> {
    match given {
        Some(n) => n,
        None => match content {
            Some(m) => match text_of(member(m, "platform"@)) {
                Some(p) => p,
                None => platform_id,
            },
            None => platform_id,
        },
    }
}

pub fn export_name(given: Option<String>, content: &Option<Vec<JsonMember>>, platform_id: &str) -> (r:
    String)
    ensures
        r@ == export_name_of(opt_text(given), parsed_view(*content), platform_id@),
{
    match given {
        Some(n) => n,
        None => match content {
            Some(m) => match text_member(m, "platform") {
                Some(p) => p,
                None => owned(platform_id),
            },
            None => owned(platform_id),
        },
    }
}

/// An export as the JSON of its file. `content` is the exported data, as
/// JSON text.
pub open spec fn run_data_json(
    company: Seq<char>,
    name: Seq<char>,
    run_id: Seq<char>,
    timestamp: u64,
    content: Seq<char>,
) -> Seq<char> {
    "{\"company\":"@ + json_quoted(company) + ",\"name\":"@ + json_quoted(name) + ",\"runID\":"@
        + json_quoted(run_id) + ",\"timestamp\":"@ + decimal_digits(timestamp as nat)
        + ",\"content\":"@ + content + "}"@
}

pub fn encode_run_data(company: &str, name: &str, run_id: &str, timestamp: u64, content: &str) -> (r:
    String)
    ensures
        r@ == run_data_json(company@, name@, run_id@, timestamp, content@),
{
    let mut out = String::new();
    out.append("{\"company\":");
    push_json_text(&mut out, company);
    out.append(",\"name\":");
    push_json_text(&mut out, name);
    out.append(",\"runID\":");
    push_json_text(&mut out, run_id);
    out.append(",\"timestamp\":");
    push_decimal(&mut out, timestamp);
    out.append(",\"content\":");
    out.append(content);
    out.append("}");
    assert(out@ =~= run_data_json(company@, name@, run_id@, timestamp, content@));
    out
}

/// Whether `a`, from position `i` on, comes before `b` from that position
/// on, or is the same: the order of dictionaries, by the code of each
/// character.
pub open spec fn text_le_from(a: Seq<char>, b: Seq<char>, i: int) -> bool
    decreases a.len() - i,
{
    if i < 0 {
        false
    } else if i >= a.len() {
        true
    } else if i >= b.len() {
        false
    } else if a[i] != b[i] {
        a[i] < b[i]
    } else {
        text_le_from(a, b, i + 1)
    }
}

/// Whether `a` comes before `b`, or is the same.
pub open spec fn text_le(a: Seq<char>, b: Seq<char>) -> bool {
    text_le_from(a, b, 0)
}

proof fn lemma_le_transitive(a: Seq<char>, b: Seq<char>, c: Seq<char>, i: int)
    requires
        text_le_from(a, b, i),
        text_le_from(b, c, i),
    ensures
        text_le_from(a, c, i),
    decreases a.len() - i,
{
    if i < a.len() && a[i] == b[i] && b[i] == c[i] {
        lemma_le_transitive(a, b, c, i + 1);
    }
}

proof fn lemma_le_total(a: Seq<char>, b: Seq<char>, i: int)
    requires
        0 <= i,
    ensures
        text_le_from(a, b, i) || text_le_from(b, a, i),
    decreases a.len() - i,
{
    if i < a.len() && i < b.len() && a[i] == b[i] {
        lemma_le_total(a, b, i + 1);
    }
}

/// Whether one text comes before another, or is the same.
pub fn text_before_or_same(a: &str, b: &str) -> (r: bool)
    ensures
        r == text_le(a@, b@),
{
    let x = crate::text::chars_of(a);
    let y = crate::text::chars_of(b);
    let mut i: usize = 0;
    loop
        invariant
            i <= x.len(),
            i <= y.len(),
            x@ == a@,
            y@ == b@,
            text_le(a@, b@) == text_le_from(x@, y@, i as int),
        decreases x.len() - i,
    {
        if i >= x.len() {
            return true;
        }
        if i >= y.len() {
            return false;
        }
        if x[i] != y[i] {
            return x[i] < y[i];
        }
        i = i + 1;
    }
}

/// Whether runs stand latest first: no run stands before one of a later
/// date.
pub open spec fn latest_first(runs: Seq<SavedRun>) -> bool {
    forall|i: int, j: int|
        0 <= i < j < runs.len() ==> text_le(
            (#[trigger] runs[j]).start_date@,
            (#[trigger] runs[i]).start_date@,
        )
}

/// Whether `to` holds the runs of `from`, each once, with runs of the same
/// date in the order in which they stand in `from`; `origin` tells of each
/// place of `to` the place in `from` that its run comes from.
pub open spec fn arranged(from: Seq<SavedRun>, to: Seq<SavedRun>, origin: Seq<int>) -> bool {
    &&& origin.len() == to.len()
    &&& to.len() == from.len()
    &&& forall|k: int|
        0 <= k < to.len() ==> 0 <= #[trigger] origin[k] < from.len() && to[k] == from[origin[k]]
    &&& forall|k: int, l: int|
        0 <= k < l < to.len() ==> #[trigger] origin[k] != #[trigger] origin[l]
    &&& forall|k: int, l: int|
        0 <= k < l < to.len() && to[k].start_date@ == to[l].start_date@ ==> #[trigger] origin[k]
            < #[trigger] origin[l]
}

/// Whether `to` holds the runs of `from`, each once, with runs of the same
/// date in the order in which they stand in `from`.
pub open spec fn keeps_order(from: Seq<SavedRun>, to: Seq<SavedRun>) -> bool {
    exists|origin: Seq<int>| arranged(from, to, origin)
}

proof fn lemma_le_reflexive(a: Seq<char>, i: int)
    requires
        0 <= i,
    ensures
        text_le_from(a, a, i),
    decreases a.len() - i,
{
    if i < a.len() {
        lemma_le_reflexive(a, i + 1);
    }
}

/// Puts runs in the order of their dates, latest first. Runs of the same
/// date stay in the order in which they came.
pub fn sort_runs(runs: Vec<SavedRun>) -> (r: Vec<SavedRun>)
    ensures
        latest_first(r@),
        keeps_order(runs@, r@),
        r@.to_multiset() == runs@.to_multiset(),
{
    broadcast use vstd::seq_lib::group_to_multiset_ensures;

    let ghost all = runs@;
    let ghost mut origin: Seq<int> = Seq::<int>::empty();
    let mut out: Vec<SavedRun> = Vec::new();
    let mut k: usize = 0;
    let n: usize = runs.len();
    assert(all.subrange(0, 0) =~= Seq::<SavedRun>::empty());
    for run in it: runs
        invariant
            k == it.index(),
            n == all.len(),
            it.seq() == all,
            out@.len() == k,
            latest_first(out@),
            arranged(all.subrange(0, k as int), out@, origin),
            out@.to_multiset() == all.subrange(0, k as int).to_multiset(),
    {
        let mut p: usize = 0;
        while p < out.len() && text_before_or_same(
            run.start_date.as_str(),
            out[p].start_date.as_str(),
        )
            invariant
                p <= out.len(),
                forall|i: int| 0 <= i < p ==> text_le(run.start_date@, (#[trigger] out@[i]).start_date@),
            decreases out.len() - p,
        {
            p = p + 1;
        }
        let ghost before = out@;
        let ghost came = origin;
        let ghost date = run.start_date@;
        out.insert(p, run);
        proof {
            let after = out@;
            let seen = all.subrange(0, k as int);
            let next = all.subrange(0, k + 1);
            origin = came.insert(p as int, k as int);
            assert(after =~= before.insert(p as int, run));
            assert(next =~= seen.push(run));
            assert forall|i: int, j: int| 0 <= i < j < after.len() implies text_le(
                (#[trigger] after[j]).start_date@,
                (#[trigger] after[i]).start_date@,
            ) by {
                if j < p {
                    assert(after[i] == before[i] && after[j] == before[j]);
                } else if j == p {
                    assert(after[i] == before[i]);
                } else if i == p {
                    assert(after[j] == before[j - 1]);
                    lemma_le_total(date, before[p as int].start_date@, 0);
                    if j - 1 > p {
                        lemma_le_transitive(
                            before[j - 1].start_date@,
                            before[p as int].start_date@,
                            date,
                            0,
                        );
                    }
                } else if i < p {
                    assert(after[i] == before[i] && after[j] == before[j - 1]);
                } else {
                    assert(after[i] == before[i - 1] && after[j] == before[j - 1]);
                }
            }
            assert forall|m: int| 0 <= m < after.len() implies 0 <= #[trigger] origin[m]
                < next.len() && after[m] == next[origin[m]] by {
                if m < p {
                    assert(origin[m] == came[m]);
                    assert(after[m] == before[m]);
                    assert(seen[came[m]] == next[came[m]]);
                } else if m > p {
                    assert(origin[m] == came[m - 1]);
                    assert(after[m] == before[m - 1]);
                    assert(seen[came[m - 1]] == next[came[m - 1]]);
                }
            }
            assert forall|a: int, b: int| 0 <= a < b < after.len() implies #[trigger] origin[a]
                != #[trigger] origin[b] by {
                let a0 = if a < p { a } else { a - 1 };
                let b0 = if b < p { b } else { b - 1 };
                if a != p && b != p {
                    assert(origin[a] == came[a0] && origin[b] == came[b0]);
                } else if a == p {
                    assert(origin[b] == came[b0]);
                } else {
                    assert(origin[a] == came[a0]);
                }
            }
            assert forall|a: int, b: int|
                0 <= a < b < after.len() && after[a].start_date@
                    == after[b].start_date@ implies #[trigger] origin[a] < #[trigger] origin[b] by {
                let a0 = if a < p { a } else { a - 1 };
                let b0 = if b < p { b } else { b - 1 };
                if a != p && b != p {
                    assert(origin[a] == came[a0] && origin[b] == came[b0]);
                    assert(after[a] == before[a0] && after[b] == before[b0]);
                } else if b == p {
                    assert(origin[a] == came[a0]);
                } else {
                    assert(after[b] == before[b0]);
                    lemma_le_reflexive(date, 0);
                    if b0 > p {
                        lemma_le_transitive(
                            date,
                            before[b0].start_date@,
                            before[p as int].start_date@,
                            0,
                        );
                    }
                    assert(false);
                }
            }
            vstd::seq_lib::to_multiset_insert(before, p as int, run);
            vstd::seq_lib::to_multiset_build(seen, run);
        }
        k = k + 1;
    }
    assert(all.subrange(0, all.len() as int) =~= all);
    out
}

} // verus!
