//! JSON objects as the protocols of this crate read them: one level at a
//! time. A nested array or object is kept as its own JSON text and read by
//! parsing that text in turn.

use crate::decimal::{parsed_signed, parsed_unsigned, read_signed, read_unsigned};
use crate::text::{chars_of, has_prefix, owned, piece, same_text};
use serde_json::Value;
use vstd::prelude::*;
use vstd::string::StringExecFns;

verus! {

/// The value of one member of a JSON object.
#[derive(Debug, Clone, PartialEq, Eq)]
pub enum JsonItem {
    Null,
    Bool(bool),
    /// A number, as JSON text.
    Number(String),
    Text(String),
    /// An array, as JSON text.
    Array(String),
    /// An object, as JSON text.
    Object(String),
}

pub ghost enum JsonItemView {
    Null,
    Bool(bool),
    Number(Seq<char>),
    Text(Seq<char>),
    Array(Seq<char>),
    Object(Seq<char>),
}

impl View for JsonItem {
    type V = JsonItemView;

    open spec fn view(&self) -> JsonItemView {
        match *self {
            JsonItem::Null => JsonItemView::Null,
            JsonItem::Bool(b) => JsonItemView::Bool(b),
            JsonItem::Number(t) => JsonItemView::Number(t@),
            JsonItem::Text(t) => JsonItemView::Text(t@),
            JsonItem::Array(t) => JsonItemView::Array(t@),
            JsonItem::Object(t) => JsonItemView::Object(t@),
        }
    }
}

/// One member of a JSON object.
#[derive(Debug, Clone, PartialEq, Eq)]
pub struct JsonMember {
    pub key: String,
    pub value: JsonItem,
}

pub ghost struct JsonMemberView {
    pub key: Seq<char>,
    pub value: JsonItemView,
}

impl View for JsonMember {
    type V = JsonMemberView;

    open spec fn view(&self) -> JsonMemberView {
        JsonMemberView { key: self.key@, value: self.value@ }
    }
}

/// The members of a list, each by its view.
pub open spec fn members_view(members: Seq<JsonMember>) -> Seq<JsonMemberView> {
    Seq::new(members.len(), |i: int| members[i]@)
}

/// The members of a list that is handed in by reference, each by its view.
pub open spec fn opt_members(m: Option<&Vec<JsonMember>>) -> Option<Seq<JsonMemberView>> {
    match m {
        Some(v) => Some(members_view(v@)),
        None => None,
    }
}

/// A borrowed text that may be missing, as contracts see it.
pub open spec fn opt_str(s: Option<&str>) -> Option<Seq<char>> {
    match s {
        Some(x) => Some(x@),
        None => None,
    }
}

pub open spec fn parsed_view(parsed: Option<Vec<JsonMember>>) -> Option<Seq<JsonMemberView>> {
    match parsed {
        Some(members) => Some(members_view(members@)),
        None => None,
    }
}

/// The members of the JSON object that `text` denotes; none where `text` is
/// not JSON or denotes something else than an object.
pub uninterp spec fn object_members(text: Seq<char>) -> Option<Seq<JsonMemberView>>;

/// Calls `serde_json::from_str` for a `serde_json::Value` and hands out the
/// members of the object it found, scalars as they are, nested arrays and
/// objects printed back to JSON text by `Value::to_string`. Trusted: the
/// result is a function of `text` alone.
#[verifier::external_body]
pub(crate) fn parse_object(text: &str) -> (r: Option<Vec<JsonMember>>)
    ensures
        parsed_view(r) == object_members(text@),
{
    let Ok(Value::Object(map)) = serde_json::from_str::<Value>(text) else { return None; };
    let mut out = Vec::new();
    for (key, v) in map {
        let value = match v {
            Value::Null => JsonItem::Null,
            Value::Bool(b) => JsonItem::Bool(b),
            Value::Number(n) => JsonItem::Number(n.to_string()),
            Value::String(s) => JsonItem::Text(s),
            Value::Array(_) => JsonItem::Array(v.to_string()),
            Value::Object(_) => JsonItem::Object(v.to_string()),
        };
        out.push(JsonMember { key, value });
    }
    Some(out)
}

/// The digit of a number below sixteen, in lower case.
pub open spec fn hex_digit(d: int) -> char {
    if d == 0 {
        '0'
    } else if d == 1 {
        '1'
    } else if d == 2 {
        '2'
    } else if d == 3 {
        '3'
    } else if d == 4 {
        '4'
    } else if d == 5 {
        '5'
    } else if d == 6 {
        '6'
    } else if d == 7 {
        '7'
    } else if d == 8 {
        '8'
    } else if d == 9 {
        '9'
    } else if d == 10 {
        'a'
    } else if d == 11 {
        'b'
    } else if d == 12 {
        'c'
    } else if d == 13 {
        'd'
    } else if d == 14 {
        'e'
    } else {
        'f'
    }
}

/// Whether a character cannot stand as it is in a JSON string: the quote,
/// the backslash and the control characters below the space.
pub open spec fn needs_escape(c: char) -> bool {
    c == '"' || c == '\\' || (c as u32) < 0x20
}

/// A character as it stands in a JSON string: the quote and the backslash
/// after a backslash; backspace, tab, line feed, form feed and carriage
/// return by their letters; the other control characters below the space by
/// their code in four hexadecimal digits; every other character as it is.
pub open spec fn escaped_char(c: char) -> Seq<char> {
    if c == '"' {
        seq!['\\', '"']
    } else if c == '\\' {
        seq!['\\', '\\']
    } else if c == '\u{8}' {
        seq!['\\', 'b']
    } else if c == '\t' {
        seq!['\\', 't']
    } else if c == '\n' {
        seq!['\\', 'n']
    } else if c == '\u{c}' {
        seq!['\\', 'f']
    } else if c == '\r' {
        seq!['\\', 'r']
    } else if (c as u32) < 0x20 {
        seq![
            '\\',
            'u',
            '0',
            '0',
            hex_digit((c as u32) as int / 16),
            hex_digit((c as u32) as int % 16),
        ]
    } else {
        seq![c]
    }
}

/// The characters of `s` from `from` on, as they stand in a JSON string.
pub open spec fn escaped(s: Seq<char>, from: int) -> Seq<char>
    decreases s.len() - from,
{
    if from < 0 || from >= s.len() {
        Seq::<char>::empty()
    } else {
        escaped_char(s[from]) + escaped(s, from + 1)
    }
}

/// `text` as a JSON string: escaped, between quotes.
pub open spec fn json_quoted(text: Seq<char>) -> Seq<char> {
    seq!['"'] + escaped(text, 0) + seq!['"']
}

fn hex_text(d: u32) -> (r: &'static str)
    requires
        d < 16,
    ensures
        r@ == seq![hex_digit(d as int)],
{
    proof {
        reveal_strlit("0");
        reveal_strlit("1");
        reveal_strlit("2");
        reveal_strlit("3");
        reveal_strlit("4");
        reveal_strlit("5");
        reveal_strlit("6");
        reveal_strlit("7");
        reveal_strlit("8");
        reveal_strlit("9");
        reveal_strlit("a");
        reveal_strlit("b");
        reveal_strlit("c");
        reveal_strlit("d");
        reveal_strlit("e");
        reveal_strlit("f");
    }
    let r = if d == 0 {
        "0"
    } else if d == 1 {
        "1"
    } else if d == 2 {
        "2"
    } else if d == 3 {
        "3"
    } else if d == 4 {
        "4"
    } else if d == 5 {
        "5"
    } else if d == 6 {
        "6"
    } else if d == 7 {
        "7"
    } else if d == 8 {
        "8"
    } else if d == 9 {
        "9"
    } else if d == 10 {
        "a"
    } else if d == 11 {
        "b"
    } else if d == 12 {
        "c"
    } else if d == 13 {
        "d"
    } else if d == 14 {
        "e"
    } else {
        "f"
    };
    assert(r@ =~= seq![hex_digit(d as int)]);
    r
}

/// Appends the escape of a character that needs one.
fn push_escape(out: &mut String, c: char)
    requires
        needs_escape(c),
    ensures
        final(out)@ == old(out)@ + escaped_char(c),
{
    proof {
        reveal_strlit("\\\"");
        reveal_strlit("\\\\");
        reveal_strlit("\\b");
        reveal_strlit("\\t");
        reveal_strlit("\\n");
        reveal_strlit("\\f");
        reveal_strlit("\\r");
        reveal_strlit("\\u00");
    }
    if c == '"' {
        out.append("\\\"");
        assert(out@ =~= old(out)@ + escaped_char(c));
    } else if c == '\\' {
        out.append("\\\\");
        assert(out@ =~= old(out)@ + escaped_char(c));
    } else if c == '\u{8}' {
        out.append("\\b");
        assert(out@ =~= old(out)@ + escaped_char(c));
    } else if c == '\t' {
        out.append("\\t");
        assert(out@ =~= old(out)@ + escaped_char(c));
    } else if c == '\n' {
        out.append("\\n");
        assert(out@ =~= old(out)@ + escaped_char(c));
    } else if c == '\u{c}' {
        out.append("\\f");
        assert(out@ =~= old(out)@ + escaped_char(c));
    } else if c == '\r' {
        out.append("\\r");
        assert(out@ =~= old(out)@ + escaped_char(c));
    } else {
        let code: u32 = c as u32;
        out.append("\\u00");
        out.append(hex_text(code / 16));
        out.append(hex_text(code % 16));
        assert(out@ =~= old(out)@ + escaped_char(c));
    }
}

/// Writes `text` as a JSON string.
pub fn json_quote(text: &str) -> (r: String)
    ensures
        r@ == json_quoted(text@),
{
    proof {
        reveal_strlit("\"");
    }
    let v = chars_of(text);
    let n: usize = v.len();
    let mut out = String::new();
    out.append("\"");
    let mut start: usize = 0;
    let mut i: usize = 0;
    assert(v@.subrange(0, 0) =~= Seq::<char>::empty());
    assert(out@ =~= seq!['"']);
    while i < n
        invariant
            start <= i <= n,
            n == v.len(),
            v@ == text@,
            out@ + v@.subrange(start as int, i as int) + escaped(v@, i as int) == seq!['"']
                + escaped(v@, 0),
        decreases n - i,
    {
        let c: char = v[i];
        if c == '"' || c == '\\' || (c as u32) < 0x20 {
            let ghost before = out@;
            let run = piece(text, start, i);
            out.append(run.as_str());
            push_escape(&mut out, c);
            proof {
                assert(v@.subrange(i + 1, i + 1) =~= Seq::<char>::empty());
                assert(out@ + v@.subrange(i + 1, i + 1) + escaped(v@, i + 1) =~= before
                    + v@.subrange(start as int, i as int) + escaped(v@, i as int));
            }
            i = i + 1;
            start = i;
        } else {
            proof {
                assert(escaped_char(c) =~= seq![c]);
                assert(v@.subrange(start as int, i + 1) =~= v@.subrange(start as int, i as int)
                    + seq![c]);
                assert(out@ + v@.subrange(start as int, i + 1) + escaped(v@, i + 1) =~= out@
                    + v@.subrange(start as int, i as int) + escaped(v@, i as int));
            }
            i = i + 1;
        }
    }
    let ghost before = out@;
    let run = piece(text, start, n);
    out.append(run.as_str());
    out.append("\"");
    assert(out@ =~= before + v@.subrange(start as int, n as int) + escaped(v@, n as int) + seq![
        '"',
    ]);
    out
}

/// The members of the JSON object that `text` holds; none where `text` is
/// not JSON or holds something else than an object.
pub fn read_object(text: &str) -> (r: Option<Vec<JsonMember>>)
    ensures
        parsed_view(r) == object_members(text@),
{
    parse_object(text)
}

/// The value stored under `key`: that of the first member with this key.
pub open spec fn member(members: Seq<JsonMemberView>, key: Seq<char>) -> Option<JsonItemView>
    decreases members.len(),
{
    if members.len() == 0 {
        None
    } else if members[0].key == key {
        Some(members[0].value)
    } else {
        member(members.subrange(1, members.len() as int), key)
    }
}

pub open spec fn item_view(item: Option<&JsonItem>) -> Option<JsonItemView> {
    match item {
        Some(i) => Some(i@),
        None => None,
    }
}

/// Looks `key` up among `members`.
pub fn find_member<'a>(members: &'a Vec<JsonMember>, key: &str) -> (r: Option<&'a JsonItem>)
    ensures
        item_view(r) == member(members_view(members@), key@),
{
    let ghost all = members_view(members@);
    let mut i: usize = 0;
    assert(all.subrange(0, all.len() as int) =~= all);
    while i < members.len()
        invariant
            i <= members.len(),
            all == members_view(members@),
            member(all, key@) == member(all.subrange(i as int, all.len() as int), key@),
        decreases members.len() - i,
    {
        let ghost rest = all.subrange(i as int, all.len() as int);
        assert(rest[0] == members@[i as int]@);
        if same_text(members[i].key.as_str(), key) {
            return Some(&members[i].value);
        }
        assert(rest.subrange(1, rest.len() as int) =~= all.subrange(i + 1, all.len() as int));
        i = i + 1;
    }
    None
}

/// The text of a member that is a string.
pub open spec fn text_of(item: Option<JsonItemView>) -> Option<Seq<char>> {
    match item {
        Some(JsonItemView::Text(t)) => Some(t),
        _ => None,
    }
}

/// The number of a member that is an unsigned integer of up to 64 bits,
/// written in plain decimal digits.
pub open spec fn unsigned_of(item: Option<JsonItemView>) -> Option<u64> {
    match item {
        Some(JsonItemView::Number(t)) => match parsed_unsigned(t, u64::MAX as nat) {
            Some(n) if t.len() > 0 && t[0] != '+' => Some(n as u64),
            _ => None,
        },
        _ => None,
    }
}

/// The number of a member that is a signed integer of 64 bits, written in
/// plain decimal digits after an optional `-`.
pub open spec fn signed_of(item: Option<JsonItemView>) -> Option<i64> {
    match item {
        Some(JsonItemView::Number(t)) => match parsed_signed(t) {
            Some(n) if t.len() > 0 && t[0] != '+' => Some(n as i64),
            _ => None,
        },
        _ => None,
    }
}

/// The signed integer stored under `key`, if one is stored there.
pub fn signed_member(members: &Vec<JsonMember>, key: &str) -> (r: Option<i64>)
    ensures
        r == signed_of(member(members_view(members@), key@)),
{
    match find_member(members, key) {
        Some(JsonItem::Number(t)) => {
            if has_prefix(&chars_of(t.as_str()), &chars_of("+")) {
                proof {
                    reveal_strlit("+");
                    assert(t@.subrange(0, 1)[0] == "+"@[0]);
                }
                return None;
            }
            proof {
                reveal_strlit("+");
                if t@.len() > 0 && t@[0] == '+' {
                    assert(t@.subrange(0, 1) =~= "+"@);
                }
            }
            read_signed(t.as_str())
        },
        _ => None,
    }
}

/// An optional string member: absent or `null` is none; a string is itself;
/// anything else is malformed, for which the outer result is none.
pub open spec fn optional_text_of(item: Option<JsonItemView>) -> Option<Option<Seq<char>>> {
    match item {
        None => Some(None),
        Some(JsonItemView::Null) => Some(None),
        Some(JsonItemView::Text(t)) => Some(Some(t)),
        _ => None,
    }
}

pub open spec fn opt_text(o: Option<String>) -> Option<Seq<char>> {
    match o {
        Some(s) => Some(s@),
        None => None,
    }
}

pub open spec fn opt_opt_text(o: Option<Option<String>>) -> Option<Option<Seq<char>>> {
    match o {
        Some(inner) => Some(opt_text(inner)),
        None => None,
    }
}

/// The string stored under `key`, if a string is stored there.
pub fn text_member(members: &Vec<JsonMember>, key: &str) -> (r: Option<String>)
    ensures
        opt_text(r) == text_of(member(members_view(members@), key@)),
{
    match find_member(members, key) {
        Some(JsonItem::Text(t)) => Some(t.clone()),
        _ => None,
    }
}

pub open spec fn text_or_empty(t: Option<Seq<char>>) -> Seq<char> {
    match t {
        Some(x) => x,
        None => Seq::<char>::empty(),
    }
}

/// The string stored under `key`, or the empty string.
pub fn text_member_or_empty(members: &Vec<JsonMember>, key: &str) -> (r: String)
    ensures
        r@ == text_or_empty(text_of(member(members_view(members@), key@))),
{
    match text_member(members, key) {
        Some(t) => t,
        None => String::new(),
    }
}

/// The unsigned integer stored under `key`, if one is stored there.
pub fn unsigned_member(members: &Vec<JsonMember>, key: &str) -> (r: Option<u64>)
    ensures
        r == unsigned_of(member(members_view(members@), key@)),
{
    match find_member(members, key) {
        Some(JsonItem::Number(t)) => {
            if has_prefix(&chars_of(t.as_str()), &chars_of("+")) {
                proof {
                    reveal_strlit("+");
                    assert(t@.subrange(0, 1)[0] == "+"@[0]);
                }
                return None;
            }
            proof {
                reveal_strlit("+");
                if t@.len() > 0 && t@[0] == '+' {
                    assert(t@.subrange(0, 1) =~= "+"@);
                }
            }
            read_unsigned(t.as_str(), u64::MAX)
        },
        _ => None,
    }
}

/// The optional string stored under `key`.
pub fn optional_text_member(members: &Vec<JsonMember>, key: &str) -> (r: Option<Option<String>>)
    ensures
        opt_opt_text(r) == optional_text_of(member(members_view(members@), key@)),
{
    match find_member(members, key) {
        None => Some(None),
        Some(JsonItem::Null) => Some(None),
        Some(JsonItem::Text(t)) => Some(Some(t.clone())),
        _ => None,
    }
}

/// The JSON text of a member; `null` for an absent one.
pub open spec fn json_of(item: Option<JsonItemView>) -> Seq<char> {
    match item {
        None => "null"@,
        Some(JsonItemView::Null) => "null"@,
        Some(JsonItemView::Bool(b)) => if b {
            "true"@
        } else {
            "false"@
        },
        Some(JsonItemView::Number(t)) => t,
        Some(JsonItemView::Text(t)) => json_quoted(t),
        Some(JsonItemView::Array(t)) => t,
        Some(JsonItemView::Object(t)) => t,
    }
}

/// Writes a member back as JSON text.
pub fn json_text(item: Option<&JsonItem>) -> (r: String)
    ensures
        r@ == json_of(item_view(item)),
{
    match item {
        None => owned("null"),
        Some(JsonItem::Null) => owned("null"),
        Some(JsonItem::Bool(b)) => if *b {
            owned("true")
        } else {
            owned("false")
        },
        Some(JsonItem::Number(t)) => t.clone(),
        Some(JsonItem::Text(t)) => json_quote(t.as_str()),
        Some(JsonItem::Array(t)) => t.clone(),
        Some(JsonItem::Object(t)) => t.clone(),
    }
}

} // verus!
