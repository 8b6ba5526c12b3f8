//! JSON values as the data checks and CSV writers read them, and their
//! compact text: serde_json's compact layout (no white space, members in
//! their order) with string literals written by serde_json itself.
use vstd::prelude::*;
use crate::text::{push_char, str_equal};

verus! {

/// A JSON number: its text and, where it is an integer that fits, its value.
pub struct JsonNumber {
    /// The number as JSON writes it.
    pub text: String,
    /// The value when it is an integer within `i64`.
    pub as_i64: Option<i64>,
    /// The value when it is a non-negative integer within `u64`.
    pub as_u64: Option<u64>,
}

/// A JSON value.  Object members keep their order; in a well-formed value
/// (see [`json_wf`]) a key occurs at most once.
pub enum Json {
    Null,
    Bool(bool),
    Number(JsonNumber),
    String(String),
    Array(Vec<Json>),
    Object(Vec<(String, Json)>),
}

/// The member `key` of an object's members (the first with that key).
pub open spec fn member(entries: Seq<(String, Json)>, key: Seq<char>) -> Option<Json>
    decreases entries.len(),
{
    if entries.len() == 0 {
        None
    } else if entries[0].0@ == key {
        Some(entries[0].1)
    } else {
        member(entries.drop_first(), key)
    }
}

/// Member `key` of an object value; `None` for other values or a missing key.
pub open spec fn get_key(v: Json, key: Seq<char>) -> Option<Json> {
    match v {
        Json::Object(entries) => member(entries@, key),
        _ => None,
    }
}

/// Element `idx` of an array value; `None` for other values or out of range.
pub open spec fn get_index(v: Json, idx: int) -> Option<Json> {
    match v {
        Json::Array(items) => if 0 <= idx < items@.len() { Some(items@[idx]) } else { None },
        _ => None,
    }
}

/// A well-formed number: its integer values agree with each other and with
/// its text, as serde_json's number gives them.
pub open spec fn number_wf(n: JsonNumber) -> bool {
    &&& match n.as_i64 {
        Some(i) => n.text@ == crate::text::int_text(i as int) && (i >= 0 ==> n.as_u64 == Some(i as u64)),
        None => true,
    }
    &&& match n.as_u64 {
        Some(u) => n.text@ == crate::text::digits(u as nat) && (u <= i64::MAX ==> n.as_i64 == Some(u as i64)),
        None => true,
    }
}

/// The keys of object members are distinct.
pub open spec fn keys_distinct(entries: Seq<(String, Json)>) -> bool {
    forall|i: int, j: int| 0 <= i < j < entries.len() ==> #[trigger] entries[i].0@ != #[trigger] entries[j].0@
}

/// A well-formed value: every number is well-formed and no object repeats a
/// key, at every depth.
pub open spec fn json_wf(v: Json) -> bool
    decreases v,
{
    match v {
        Json::Number(n) => number_wf(n),
        Json::Array(items) => forall|i: int| 0 <= i < items@.len() ==> json_wf(#[trigger] items@[i]),
        Json::Object(entries) => keys_distinct(entries@) && forall|i: int|
            0 <= i < entries@.len() ==> json_wf(#[trigger] entries@[i].1),
        _ => true,
    }
}

/// In an object whose keys are distinct, looking a key up finds the one
/// member that has it.
pub proof fn lemma_member_of_distinct_keys(entries: Seq<(String, Json)>, i: int)
    requires
        keys_distinct(entries),
        0 <= i < entries.len(),
    ensures
        member(entries, entries[i].0@) == Some(entries[i].1),
    decreases entries.len(),
{
    if i > 0 {
        let rest = entries.drop_first();
        assert(entries[0].0@ != entries[i].0@);
        assert(rest[i - 1] == entries[i]);
        assert forall|p: int, q: int| 0 <= p < q < rest.len() implies #[trigger] rest[p].0@ != #[trigger] rest[q].0@ by {
            assert(rest[p] == entries[p + 1]);
            assert(rest[q] == entries[q + 1]);
        }
        lemma_member_of_distinct_keys(rest, i - 1);
    }
}

impl Json {
    /// Member `key` when this is an object that has it.
    pub fn get(&self, key: &str) -> (r: Option<&Json>)
        ensures
            match r {
                Some(x) => get_key(*self, key@) == Some(*x),
                None => get_key(*self, key@) is None,
            },
            json_wf(*self) ==> match r {
                Some(x) => json_wf(*x),
                None => true,
            },
    {
        match self {
            Json::Object(entries) => {
                let mut i: usize = 0;
                assert(entries@.skip(0) =~= entries@);
                while i < entries.len()
                    invariant
                        i <= entries.len(),
                        *self == Json::Object(*entries),
                        member(entries@, key@) == member(entries@.skip(i as int), key@),
                    decreases entries.len() - i,
                {
                    assert(entries@.skip(i as int).drop_first() =~= entries@.skip(i + 1));
                    assert(entries@.skip(i as int)[0] == entries@[i as int]);
                    if str_equal(entries[i].0.as_str(), key) {
                        assert(entries@.skip(i as int).len() > 0);
                        assert(member(entries@.skip(i as int), key@) == Some(entries@[i as int].1));
                        return Some(&entries[i].1);
                    }
                    i = i + 1;
                }
                None
            },
            _ => None,
        }
    }

    /// Element `idx` when this is an array that long.
    pub fn at(&self, idx: usize) -> (r: Option<&Json>)
        ensures
            match r {
                Some(x) => get_index(*self, idx as int) == Some(*x),
                None => get_index(*self, idx as int) is None,
            },
            json_wf(*self) ==> match r {
                Some(x) => json_wf(*x),
                None => true,
            },
    {
        match self {
            Json::Array(items) => if idx < items.len() { Some(&items[idx]) } else { None },
            _ => None,
        }
    }

    /// The text when this is a string.
    pub fn as_str(&self) -> (r: Option<&str>)
        ensures
            match r {
                Some(s) => *self matches Json::String(t) && t@ == s@,
                None => !(*self is String),
            },
    {
        match self {
            Json::String(s) => Some(s.as_str()),
            _ => None,
        }
    }

    /// The value when this is an integer number within `u64`.
    pub fn as_u64(&self) -> (r: Option<u64>)
        ensures
            r == match *self {
                Json::Number(n) => n.as_u64,
                _ => None,
            },
            json_wf(*self) ==> match r {
                Some(u) => *self matches Json::Number(n) && n.text@ == crate::text::digits(u as nat),
                None => true,
            },
    {
        match self {
            Json::Number(n) => n.as_u64,
            _ => None,
        }
    }

    /// The value when this is an integer number within `i64`.
    pub fn as_i64(&self) -> (r: Option<i64>)
        ensures
            r == match *self {
                Json::Number(n) => n.as_i64,
                _ => None,
            },
            json_wf(*self) ==> match r {
                Some(i) => *self matches Json::Number(n) && n.text@ == crate::text::int_text(i as int),
                None => true,
            },
    {
        match self {
            Json::Number(n) => n.as_i64,
            _ => None,
        }
    }
}

/// A hexadecimal digit in lower case.
pub open spec fn hex_digit(d: nat) -> char {
    let r = d % 16;
    if r < 10 {
        crate::text::digit_char(r)
    } else if r == 10 {
        'a'
    } else if r == 11 {
        'b'
    } else if r == 12 {
        'c'
    } else if r == 13 {
        'd'
    } else if r == 14 {
        'e'
    } else {
        'f'
    }
}

/// How one character appears inside a JSON string: quote, backslash and
/// control characters escaped, everything else as is.
pub open spec fn char_escape(c: char) -> Seq<char> {
    if c == '"' {
        seq!['\\', '"']
    } else if c == '\\' {
        seq!['\\', '\\']
    } else if c == '\u{8}' {
        seq!['\\', 'b']
    } else if c == '\t' {
        seq!['\\', 't']
    } else if c == '\n' {
        seq!['\\', 'n']
    } else if c == '\u{c}' {
        seq!['\\', 'f']
    } else if c == '\r' {
        seq!['\\', 'r']
    } else if (c as u32) < 0x20 {
        seq!['\\', 'u', '0', '0', hex_digit((c as u32 / 16) as nat), hex_digit((c as u32 % 16) as nat)]
    } else {
        seq![c]
    }
}

/// The escaped characters of a JSON string.
pub open spec fn escaped(s: Seq<char>) -> Seq<char>
    decreases s.len(),
{
    if s.len() == 0 {
        seq![]
    } else {
        escaped(s.drop_last()) + char_escape(s.last())
    }
}

/// A JSON string literal: quotes around the escaped characters.
pub open spec fn quoted(s: Seq<char>) -> Seq<char> {
    seq!['"'] + escaped(s) + seq!['"']
}

/// Compact JSON text of a value: no whitespace, members in their order.
pub open spec fn json_text(v: Json) -> Seq<char>
    decreases v, 1int,
{
    match v {
        Json::Null => "null"@,
        Json::Bool(b) => if b { "true"@ } else { "false"@ },
        Json::Number(n) => n.text@,
        Json::String(s) => quoted(s@),
        Json::Array(items) => seq!['['] + list_text(items@) + seq![']'],
        Json::Object(entries) => seq!['{'] + members_text(entries@) + seq!['}'],
    }
}

/// Compact text of array elements, comma separated.
pub open spec fn list_text(items: Seq<Json>) -> Seq<char>
    decreases items, 0int,
{
    if items.len() == 0 {
        seq![]
    } else if items.len() == 1 {
        json_text(items[0])
    } else {
        list_text(items.drop_last()) + seq![','] + json_text(items.last())
    }
}

/// Compact text of object members, comma separated.
pub open spec fn members_text(entries: Seq<(String, Json)>) -> Seq<char>
    decreases entries, 0int,
{
    if entries.len() == 0 {
        seq![]
    } else if entries.len() == 1 {
        quoted(entries[0].0@) + seq![':'] + json_text(entries[0].1)
    } else {
        members_text(entries.drop_last()) + seq![','] + quoted(entries.last().0@) + seq![':'] + json_text(entries.last().1)
    }
}

/// The JSON string literal of `s`.
///
/// Calls `serde_json::to_string` on the string.  Serialising a `str` into
/// the vector that this function gives it cannot fail.  Its source writes a
/// quote, then each character as it is except for the escape table: `\"`,
/// `\\`, `\b`, `\t`, `\n`, `\f`, `\r`, and `\u00` with two lower-case hex
/// digits for the other characters below U+0020, then a closing quote.
#[verifier::external_body]
fn string_literal(s: &str) -> (r: String)
    ensures
        r@ == quoted(s@),
{
    match serde_json::to_string(s) {
        Ok(t) => t,
        Err(_) => String::new(),
    }
}

/// Appends a JSON string literal of `s`.
pub fn push_quoted(out: &mut String, s: &str)
    ensures
        final(out)@ == old(out)@ + quoted(s@),
{
    let t = string_literal(s);
    out.append(t.as_str());
}

/// Appends the compact JSON text of `v`.
pub fn push_json(out: &mut String, v: &Json)
    ensures
        final(out)@ == old(out)@ + json_text(*v),
    decreases v,
{
    let ghost o = out@;
    match v {
        Json::Null => {
            out.append("null");
        },
        Json::Bool(b) => {
            if *b {
                out.append("true");
            } else {
                out.append("false");
            }
        },
        Json::Number(n) => {
            out.append(n.text.as_str());
        },
        Json::String(s) => {
            push_quoted(out, s.as_str());
        },
        Json::Array(items) => {
            push_char(out, '[');
            let mut i: usize = 0;
            while i < items.len()
                invariant
                    i <= items.len(),
                    *v == Json::Array(*items),
                    out@ == o + seq!['['] + list_text(items@.take(i as int)),
                decreases items.len() - i,
            {
                assert(items@.take(i + 1).drop_last() =~= items@.take(i as int));
                if i > 0 {
                    push_char(out, ',');
                }
                proof {
                    let vi = (*v)->Array_0;
                    assert(decreases_to!(*v => vi));
                    assert(decreases_to!(vi => vi@));
                    assert(decreases_to!(vi@ => vi@[i as int]));
                }
                push_json(out, &items[i]);
                i = i + 1;
            }
            push_char(out, ']');
            assert(items@.take(items.len() as int) =~= items@);
        },
        Json::Object(entries) => {
            push_char(out, '{');
            let mut i: usize = 0;
            while i < entries.len()
                invariant
                    i <= entries.len(),
                    *v == Json::Object(*entries),
                    out@ == o + seq!['{'] + members_text(entries@.take(i as int)),
                decreases entries.len() - i,
            {
                assert(entries@.take(i + 1).drop_last() =~= entries@.take(i as int));
                if i > 0 {
                    push_char(out, ',');
                }
                push_quoted(out, entries[i].0.as_str());
                push_char(out, ':');
                proof {
                    let ve = (*v)->Object_0;
                    assert(decreases_to!(*v => ve));
                    assert(decreases_to!(ve => ve@));
                    assert(decreases_to!(ve@ => ve@[i as int]));
                    assert(decreases_to!(ve@[i as int] => ve@[i as int].1));
                }
                push_json(out, &entries[i].1);
                i = i + 1;
            }
            push_char(out, '}');
            assert(entries@.take(entries.len() as int) =~= entries@);
        },
    }
    assert(out@ =~= o + json_text(*v));
}

/// Compact JSON text of `v`.
pub fn to_json_text(v: &Json) -> (r: String)
    ensures
        r@ == json_text(*v),
{
    let mut s = String::new();
    push_json(&mut s, v);
    assert(s@ =~= json_text(*v));
    s
}

} // verus!
