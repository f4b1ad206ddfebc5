//! Character-level helpers shared by the parsers of this crate.
//!
//! Text is modelled as `Seq<char>`; positions are character positions.

use vstd::prelude::*;
use vstd::string::{StrSliceExecFns, StringExecFns, StringSliceAdditionalSpecFns};
use vstd::utf8::encode_utf8_decode_utf8;

verus! {

/// The characters of `s`, in order.
pub fn chars_of(s: &str) -> (r: Vec<char>)
    ensures
        r@ == s@,
{
    let mut v: Vec<char> = Vec::new();
    for c in it: s.chars()
        invariant
            v@ == it.seq().take(it.index() as int),
    {
        v.push(c);
    }
    v
}

fn same_bytes(a: &[u8], b: &[u8]) -> (r: bool)
    ensures
        r == (a@ == b@),
{
    if a.len() != b.len() {
        return false;
    }
    let mut i: usize = 0;
    while i < a.len()
        invariant
            i <= a.len(),
            a.len() == b.len(),
            forall|j: int| 0 <= j < i ==> a@[j] == b@[j],
        decreases a.len() - i,
    {
        if a[i] != b[i] {
            return false;
        }
        i = i + 1;
    }
    assert(a@ =~= b@);
    true
}

/// Whether two strings hold the same characters.
pub fn same_text(a: &str, b: &str) -> (r: bool)
    ensures
        r == (a@ == b@),
{
    proof {
        encode_utf8_decode_utf8(a@);
        encode_utf8_decode_utf8(b@);
    }
    same_bytes(a.as_bytes(), b.as_bytes())
}

/// Whether the characters `v[from..to)` are exactly those of `lit`.
pub(crate) fn range_is(v: &Vec<char>, from: usize, to: usize, lit: &Vec<char>) -> (r: bool)
    requires
        from <= to <= v.len(),
    ensures
        r == (v@.subrange(from as int, to as int) == lit@),
{
    if to - from != lit.len() {
        return false;
    }
    let mut i: usize = 0;
    while i < lit.len()
        invariant
            i <= lit.len(),
            from <= to <= v.len(),
            to - from == lit.len(),
            forall|j: int| 0 <= j < i ==> v@[from + j] == lit@[j],
        decreases lit.len() - i,
    {
        if v[from + i] != lit[i] {
            assert(v@.subrange(from as int, to as int)[i as int] != lit@[i as int]);
            return false;
        }
        i = i + 1;
    }
    assert(v@.subrange(from as int, to as int) =~= lit@);
    true
}

/// Whether `v` begins with `prefix`.
pub fn has_prefix(v: &Vec<char>, prefix: &Vec<char>) -> (r: bool)
    ensures
        r == prefix@.is_prefix_of(v@),
{
    if v.len() < prefix.len() {
        return false;
    }
    let r = range_is(v, 0, prefix.len(), prefix);
    r
}

/// The part of `s` from character `from` up to, not including, `to`.
pub(crate) fn piece(s: &str, from: usize, to: usize) -> (r: String)
    requires
        from <= to <= s@.len(),
    ensures
        r@ == s@.subrange(from as int, to as int),
{
    s.substring_char(from, to).to_owned()
}

/// A copy of `s`.
pub fn owned(s: &str) -> (r: String)
    ensures
        r@ == s@,
{
    s.to_owned()
}

/// Length of the UTF-8 encoding of `s`, in bytes.
pub fn byte_len(s: &str) -> (r: usize)
    ensures
        r == s.spec_bytes().len(),
{
    s.as_bytes().len()
}

/// ASCII upper-case letters map to lower case, everything else to itself.
pub open spec fn ascii_lower(c: char) -> char {
    if 'A' <= c <= 'Z' {
        ((c as u8) + 32) as u8 as char
    } else {
        c
    }
}

pub(crate) fn lower_char(c: char) -> (r: char)
    ensures
        r == ascii_lower(c),
{
    if 'A' <= c && c <= 'Z' {
        let b: u8 = c as u8;
        (b + 32) as char
    } else {
        c
    }
}

/// `s` with every ASCII letter in lower case.
pub open spec fn lowered(s: Seq<char>) -> Seq<char> {
    Seq::new(s.len(), |i: int| ascii_lower(s[i]))
}

/// Whether `v[from..to)` begins with `prefix` when ASCII case is ignored.
/// `prefix` is expected in lower case.
pub(crate) fn starts_with_ignoring_case(v: &Vec<char>, from: usize, to: usize, prefix: &Vec<char>) -> (r:
    bool)
    requires
        from <= to <= v.len(),
    ensures
        r == prefix@.is_prefix_of(lowered(v@.subrange(from as int, to as int))),
{
    let ghost tail = lowered(v@.subrange(from as int, to as int));
    if to - from < prefix.len() {
        return false;
    }
    let mut i: usize = 0;
    while i < prefix.len()
        invariant
            i <= prefix.len(),
            from <= to <= v.len(),
            prefix.len() <= to - from,
            tail == lowered(v@.subrange(from as int, to as int)),
            forall|j: int| 0 <= j < i ==> tail[j] == prefix@[j],
        decreases prefix.len() - i,
    {
        if lower_char(v[from + i]) != prefix[i] {
            assert(tail[i as int] != prefix@[i as int]);
            assert(tail.subrange(0, prefix@.len() as int)[i as int] != prefix@[i as int]);
            return false;
        }
        i = i + 1;
    }
    assert(tail.subrange(0, prefix@.len() as int) =~= prefix@);
    true
}

/// Whether `v[from..to)` is `lit` when ASCII case is ignored. `lit` is
/// expected in lower case.
pub(crate) fn range_is_ignoring_case(v: &Vec<char>, from: usize, to: usize, lit: &Vec<char>) -> (r: bool)
    requires
        from <= to <= v.len(),
    ensures
        r == (lowered(v@.subrange(from as int, to as int)) == lit@),
{
    if to - from != lit.len() {
        return false;
    }
    let r = starts_with_ignoring_case(v, from, to, lit);
    proof {
        let tail = lowered(v@.subrange(from as int, to as int));
        assert(tail.subrange(0, tail.len() as int) =~= tail);
    }
    r
}

/// The first position in `[from, to)` where `s` holds `c`; `to` where there
/// is none.
pub open spec fn first_index_in(s: Seq<char>, c: char, from: int, to: int) -> int
    decreases to - from,
{
    if from >= to || from < 0 || to > s.len() {
        to
    } else if s[from] == c {
        from
    } else {
        first_index_in(s, c, from + 1, to)
    }
}

proof fn lemma_first_index_in(s: Seq<char>, c: char, from: int, to: int)
    requires
        0 <= from <= to <= s.len(),
    ensures
        from <= first_index_in(s, c, from, to) <= to,
        first_index_in(s, c, from, to) < to ==> s[first_index_in(s, c, from, to)] == c,
        forall|j: int| from <= j < first_index_in(s, c, from, to) ==> s[j] != c,
    decreases to - from,
{
    if from < to && s[from] != c {
        lemma_first_index_in(s, c, from + 1, to);
    }
}

/// Position of the first `c` in `v[from..to)`, or `to`.
pub(crate) fn find_char(v: &Vec<char>, c: char, from: usize, to: usize) -> (r: usize)
    requires
        from <= to <= v.len(),
    ensures
        r == first_index_in(v@, c, from as int, to as int),
        from <= r <= to,
        r < to ==> v@[r as int] == c,
        forall|j: int| from <= j < r ==> v@[j] != c,
{
    let mut i: usize = from;
    while i < to && v[i] != c
        invariant
            from <= i <= to <= v.len(),
            first_index_in(v@, c, from as int, to as int) == first_index_in(
                v@,
                c,
                i as int,
                to as int,
            ),
        decreases to - i,
    {
        i = i + 1;
    }
    proof {
        lemma_first_index_in(v@, c, from as int, to as int);
    }
    i
}

/// The characters that `char::is_whitespace` accepts: the code points with
/// the Unicode property White_Space.
pub open spec fn is_space(c: char) -> bool {
    let u = c as u32;
    ||| 0x09 <= u <= 0x0d
    ||| u == 0x20
    ||| u == 0x85
    ||| u == 0xa0
    ||| u == 0x1680
    ||| 0x2000 <= u <= 0x200a
    ||| u == 0x2028
    ||| u == 0x2029
    ||| u == 0x202f
    ||| u == 0x205f
    ||| u == 0x3000
}

pub(crate) fn space_char(c: char) -> (r: bool)
    ensures
        r == is_space(c),
{
    let u: u32 = c as u32;
    (0x09 <= u && u <= 0x0d) || u == 0x20 || u == 0x85 || u == 0xa0 || u == 0x1680 || (0x2000 <= u
        && u <= 0x200a) || u == 0x2028 || u == 0x2029 || u == 0x202f || u == 0x205f || u == 0x3000
}

/// The first position in `[from, to)` that holds no white space; `to` where
/// all of it is white space.
pub open spec fn skip_spaces(s: Seq<char>, from: int, to: int) -> int
    decreases to - from,
{
    if from >= to || from < 0 || to > s.len() {
        to
    } else if is_space(s[from]) {
        skip_spaces(s, from + 1, to)
    } else {
        from
    }
}

/// The first position in `[from, to)` that holds white space; `to` where
/// there is none.
pub open spec fn skip_word(s: Seq<char>, from: int, to: int) -> int
    decreases to - from,
{
    if from >= to || from < 0 || to > s.len() {
        to
    } else if is_space(s[from]) {
        from
    } else {
        skip_word(s, from + 1, to)
    }
}

/// The end of `[from, to)` once trailing white space is cut off.
pub open spec fn trim_end(s: Seq<char>, from: int, to: int) -> int
    decreases to - from,
{
    if from >= to || from < 0 || to > s.len() {
        from
    } else if is_space(s[to - 1]) {
        trim_end(s, from, to - 1)
    } else {
        to
    }
}

/// `s[from..to)` without leading and trailing white space.
pub open spec fn trimmed(s: Seq<char>, from: int, to: int) -> Seq<char> {
    let a = skip_spaces(s, from, to);
    s.subrange(a, trim_end(s, a, to))
}

pub(crate) fn skip_spaces_in(v: &Vec<char>, from: usize, to: usize) -> (r: usize)
    requires
        from <= to <= v.len(),
    ensures
        r == skip_spaces(v@, from as int, to as int),
        from <= r <= to,
{
    let mut i: usize = from;
    while i < to && space_char(v[i])
        invariant
            from <= i <= to <= v.len(),
            skip_spaces(v@, from as int, to as int) == skip_spaces(v@, i as int, to as int),
        decreases to - i,
    {
        i = i + 1;
    }
    i
}

pub(crate) fn skip_word_in(v: &Vec<char>, from: usize, to: usize) -> (r: usize)
    requires
        from <= to <= v.len(),
    ensures
        r == skip_word(v@, from as int, to as int),
        from <= r <= to,
{
    let mut i: usize = from;
    while i < to && !space_char(v[i])
        invariant
            from <= i <= to <= v.len(),
            skip_word(v@, from as int, to as int) == skip_word(v@, i as int, to as int),
        decreases to - i,
    {
        i = i + 1;
    }
    i
}

pub(crate) fn trim_end_in(v: &Vec<char>, from: usize, to: usize) -> (r: usize)
    requires
        from <= to <= v.len(),
    ensures
        r == trim_end(v@, from as int, to as int),
        from <= r <= to,
{
    let mut j: usize = to;
    while from < j && space_char(v[j - 1])
        invariant
            from <= j <= to <= v.len(),
            trim_end(v@, from as int, to as int) == trim_end(v@, from as int, j as int),
        decreases j - from,
    {
        j = j - 1;
    }
    j
}

/// The position after the last `c` among the first `end` characters of `s`;
/// 0 where there is none.
pub open spec fn after_last(s: Seq<char>, c: char, end: int) -> int
    decreases end,
{
    if end <= 0 || end > s.len() {
        0
    } else if s[end - 1] == c {
        end
    } else {
        after_last(s, c, end - 1)
    }
}

pub(crate) fn after_last_in(v: &Vec<char>, c: char) -> (r: usize)
    ensures
        r == after_last(v@, c, v@.len() as int),
        r <= v.len(),
{
    let n: usize = v.len();
    let mut start: usize = n;
    while start > 0 && v[start - 1] != c
        invariant
            start <= n,
            n == v.len(),
            after_last(v@, c, n as int) == after_last(v@, c, start as int),
        decreases start,
    {
        start = start - 1;
    }
    start
}

/// The first position in `[from, to)` that does not hold `c`.
pub open spec fn skip_run(s: Seq<char>, c: char, from: int, to: int) -> int
    decreases to - from,
{
    if from >= to || from < 0 || to > s.len() {
        to
    } else if s[from] == c {
        skip_run(s, c, from + 1, to)
    } else {
        from
    }
}

/// The end of `[from, to)` once every `c` at its end is cut off.
pub open spec fn trim_run(s: Seq<char>, c: char, from: int, to: int) -> int
    decreases to - from,
{
    if from >= to || from < 0 || to > s.len() {
        from
    } else if s[to - 1] == c {
        trim_run(s, c, from, to - 1)
    } else {
        to
    }
}

pub(crate) fn skip_run_in(v: &Vec<char>, c: char, from: usize, to: usize) -> (r: usize)
    requires
        from <= to <= v.len(),
    ensures
        r == skip_run(v@, c, from as int, to as int),
        from <= r <= to,
{
    let mut i: usize = from;
    while i < to && v[i] == c
        invariant
            from <= i <= to <= v.len(),
            skip_run(v@, c, from as int, to as int) == skip_run(v@, c, i as int, to as int),
        decreases to - i,
    {
        i = i + 1;
    }
    i
}

pub(crate) fn trim_run_in(v: &Vec<char>, c: char, from: usize, to: usize) -> (r: usize)
    requires
        from <= to <= v.len(),
    ensures
        r == trim_run(v@, c, from as int, to as int),
        from <= r <= to,
{
    let mut j: usize = to;
    while from < j && v[j - 1] == c
        invariant
            from <= j <= to <= v.len(),
            trim_run(v@, c, from as int, to as int) == trim_run(v@, c, from as int, j as int),
        decreases j - from,
    {
        j = j - 1;
    }
    j
}

/// Whether `needle` stands in `s` at position `i`.
pub open spec fn occurs_at(s: Seq<char>, needle: Seq<char>, i: int) -> bool {
    0 <= i && i + needle.len() <= s.len() && s.subrange(i, i + needle.len()) == needle
}

/// The first position at or after `from` at which `needle` stands in `s`.
pub open spec fn first_occurrence(s: Seq<char>, needle: Seq<char>, from: int) -> Option<int>
    decreases s.len() as int - from,
{
    if from < 0 || from >= s.len() as int || from + needle.len() as int > s.len() as int {
        if from == s.len() as int && needle.len() == 0 {
            Some(from)
        } else {
            None
        }
    } else if occurs_at(s, needle, from) {
        Some(from)
    } else {
        first_occurrence(s, needle, from + 1)
    }
}

/// Where `needle` first stands in `v`.
pub(crate) fn find_text(v: &Vec<char>, needle: &Vec<char>) -> (r: Option<usize>)
    ensures
        first_occurrence(v@, needle@, 0) == match r {
            Some(i) => Some(i as int),
            None => None,
        },
        r matches Some(i) ==> i + needle.len() <= v.len(),
{
    if needle.len() > v.len() {
        return None;
    }
    let last: usize = v.len() - needle.len();
    let mut i: usize = 0;
    loop
        invariant
            i <= last,
            last + needle.len() == v.len(),
            first_occurrence(v@, needle@, 0) == first_occurrence(v@, needle@, i as int),
        decreases last - i,
    {
        if range_is(v, i, i + needle.len(), needle) {
            return Some(i);
        }
        if i == last {
            assert(needle@.len() > 0) by {
                if needle@.len() == 0 {
                    assert(v@.subrange(i as int, i as int) =~= needle@);
                }
            }
            assert(first_occurrence(v@, needle@, last + 1) is None);
            return None;
        }
        i = i + 1;
    }
}

/// Whether `needle` stands somewhere in `s`.
pub open spec fn contains_text(s: Seq<char>, needle: Seq<char>) -> bool {
    first_occurrence(s, needle, 0) is Some
}

pub fn text_contains(s: &str, needle: &str) -> (r: bool)
    ensures
        r == contains_text(s@, needle@),
{
    let v = chars_of(s);
    let n = chars_of(needle);
    find_text(&v, &n).is_some()
}

/// `s` from `from` on, with `with` in place of every occurrence of
/// `pattern`, found from left to right, none overlapping another. An empty
/// pattern occurs nowhere.
pub open spec fn replaced(s: Seq<char>, pattern: Seq<char>, with: Seq<char>, from: int) -> Seq<
    char,
>
    decreases s.len() - from,
{
    if from < 0 || from >= s.len() {
        Seq::<char>::empty()
    } else if pattern.len() > 0 && occurs_at(s, pattern, from) {
        with + replaced(s, pattern, with, from + pattern.len())
    } else {
        seq![s[from]] + replaced(s, pattern, with, from + 1)
    }
}

/// `text` with `with` in place of every occurrence of `pattern`.
pub fn replace_all(text: &str, pattern: &str, with: &str) -> (r: String)
    ensures
        r@ == replaced(text@, pattern@, with@, 0),
{
    let v = chars_of(text);
    let p = chars_of(pattern);
    let n: usize = v.len();
    let m: usize = p.len();
    let mut out = String::new();
    let mut start: usize = 0;
    let mut i: usize = 0;
    assert(v@.subrange(0, 0) =~= Seq::<char>::empty());
    while i < n
        invariant
            start <= i <= n,
            n == v.len(),
            m == p.len(),
            v@ == text@,
            p@ == pattern@,
            out@ + v@.subrange(start as int, i as int) + replaced(v@, p@, with@, i as int)
                == replaced(v@, p@, with@, 0),
        decreases n - i,
    {
        if m > 0 && n - i >= m && range_is(&v, i, i + m, &p) {
            let ghost before = out@;
            let segment = piece(text, start, i);
            out.append(segment.as_str());
            out.append(with);
            proof {
                assert(occurs_at(v@, p@, i as int));
                assert(out@ =~= before + v@.subrange(start as int, i as int) + with@);
                assert(v@.subrange(i + m, i + m) =~= Seq::<char>::empty());
                assert(out@ + v@.subrange(i + m, i + m) + replaced(v@, p@, with@, i + m) =~= before
                    + v@.subrange(start as int, i as int) + replaced(v@, p@, with@, i as int));
            }
            i = i + m;
            start = i;
        } else {
            proof {
                assert(!(p@.len() > 0 && occurs_at(v@, p@, i as int)));
                assert(v@.subrange(start as int, i + 1) =~= v@.subrange(start as int, i as int)
                    + seq![v@[i as int]]);
                assert(out@ + v@.subrange(start as int, i + 1) + replaced(v@, p@, with@, i + 1)
                    =~= out@ + v@.subrange(start as int, i as int) + replaced(
                    v@,
                    p@,
                    with@,
                    i as int,
                ));
            }
            i = i + 1;
        }
    }
    let ghost before = out@;
    let tail = piece(text, start, n);
    out.append(tail.as_str());
    assert(out@ =~= before + v@.subrange(start as int, n as int) + replaced(
        v@,
        p@,
        with@,
        n as int,
    ));
    out
}

} // verus!
