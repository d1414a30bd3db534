//! A plain JSON document model and its compact text form.
//!
//! Parsing is delegated to `serde_json`; the document it yields is held
//! here as plain values so that the artifact logic can read it. Writing is
//! done in verified code, byte-compatible with `serde_json::to_string`.

use vstd::prelude::*;

use crate::text::{push_char, push_str};

verus! {

/// A JSON number: its canonical text and, when it is a non-negative
/// integer that fits, its `u64` value.
#[derive(Debug, Clone)]
pub struct JsonNumber {
    pub text: String,
    pub as_u64: Option<u64>,
}

/// A JSON document.
///
/// Object members keep the order in which `serde_json` yields them, which
/// is sorted by key with no duplicates.
#[derive(Debug)]
pub enum Json {
    Null,
    Bool(bool),
    Number(JsonNumber),
    Str(String),
    Array(Vec<Json>),
    Object(Vec<(String, Json)>),
}

/// Why a text is not JSON, as `serde_json` reports it.
#[derive(Debug, Clone)]
pub struct JsonSyntaxError {
    /// 1-based line, or 0 when unknown.
    pub line: usize,
    /// 1-based column.
    pub column: usize,
    pub message: String,
}

// --- Specification of the compact text form ----------------------------------

/// The two hex digits `serde_json` uses, lowercase.
pub open spec fn hex_digit(n: u32) -> char {
    if n < 10 {
        (('0' as u32) + n) as char
    } else {
        (('a' as u32) + n - 10) as char
    }
}

/// How `serde_json` writes one character inside a string literal.
pub open spec fn escape_char(c: char) -> Seq<char> {
    if c == '"' {
        seq!['\\', '"']
    } else if c == '\\' {
        seq!['\\', '\\']
    } else if c == '\u{8}' {
        seq!['\\', 'b']
    } else if c == '\u{c}' {
        seq!['\\', 'f']
    } else if c == '\n' {
        seq!['\\', 'n']
    } else if c == '\r' {
        seq!['\\', 'r']
    } else if c == '\t' {
        seq!['\\', 't']
    } else if (c as u32) < 0x20 {
        seq!['\\', 'u', '0', '0', hex_digit((c as u32) / 16), hex_digit((c as u32) % 16)]
    } else {
        seq![c]
    }
}

/// The escaped body of a string literal.
pub open spec fn escape_text(s: Seq<char>) -> Seq<char>
    decreases s.len(),
{
    if s.len() == 0 {
        Seq::empty()
    } else {
        escape_text(s.drop_last()) + escape_char(s.last())
    }
}

/// A quoted string literal.
pub open spec fn quoted(s: Seq<char>) -> Seq<char> {
    seq!['"'] + escape_text(s) + seq!['"']
}

/// The compact text of a JSON value, as `serde_json::to_string` writes it.
pub open spec fn json_text(j: Json) -> Seq<char>
    decreases j,
{
    match j {
        Json::Null => seq!['n', 'u', 'l', 'l'],
        Json::Bool(b) => if b {
            seq!['t', 'r', 'u', 'e']
        } else {
            seq!['f', 'a', 'l', 's', 'e']
        },
        Json::Number(n) => n.text@,
        Json::Str(s) => quoted(s@),
        Json::Array(items) => seq!['['] + items_text(items@) + seq![']'],
        Json::Object(members) => seq!['{'] + members_text(members@) + seq!['}'],
    }
}

/// Array elements separated by commas.
pub open spec fn items_text(s: Seq<Json>) -> Seq<char>
    decreases s,
{
    if s.len() == 0 {
        Seq::empty()
    } else if s.len() == 1 {
        json_text(s[0])
    } else {
        items_text(s.drop_last()) + seq![','] + json_text(s.last())
    }
}

/// Object members `"key":value` separated by commas.
pub open spec fn members_text(s: Seq<(String, Json)>) -> Seq<char>
    decreases s,
{
    if s.len() == 0 {
        Seq::empty()
    } else if s.len() == 1 {
        quoted(s[0].0@) + seq![':'] + json_text(s[0].1)
    } else {
        members_text(s.drop_last()) + seq![','] + quoted(s.last().0@) + seq![':'] + json_text(
            s.last().1,
        )
    }
}

// --- Writing -----------------------------------------------------------------

fn hex_digit_char(n: u32) -> (c: char)
    requires
        n < 16,
    ensures
        c == hex_digit(n),
{
    if n < 10 {
        ((('0' as u32) + n) as u8) as char
    } else {
        ((('a' as u32) + n - 10) as u8) as char
    }
}

/// Append the escaped form of `c`.
fn write_escaped_char(out: &mut String, c: char)
    ensures
        final(out)@ == old(out)@ + escape_char(c),
{
    if c == '"' {
        push_char(out, '\\');
        push_char(out, '"');
    } else if c == '\\' {
        push_char(out, '\\');
        push_char(out, '\\');
    } else if c == '\u{8}' {
        push_char(out, '\\');
        push_char(out, 'b');
    } else if c == '\u{c}' {
        push_char(out, '\\');
        push_char(out, 'f');
    } else if c == '\n' {
        push_char(out, '\\');
        push_char(out, 'n');
    } else if c == '\r' {
        push_char(out, '\\');
        push_char(out, 'r');
    } else if c == '\t' {
        push_char(out, '\\');
        push_char(out, 't');
    } else if (c as u32) < 0x20 {
        push_char(out, '\\');
        push_char(out, 'u');
        push_char(out, '0');
        push_char(out, '0');
        push_char(out, hex_digit_char((c as u32) / 16));
        push_char(out, hex_digit_char((c as u32) % 16));
    } else {
        push_char(out, c);
    }
    assert(final(out)@ =~= old(out)@ + escape_char(c));
}

/// Append a quoted, escaped string literal.
pub fn write_quoted(out: &mut String, s: &str)
    ensures
        final(out)@ == old(out)@ + quoted(s@),
{
    let chars = crate::text::chars_of(s);
    let ghost start = out@;
    push_char(out, '"');
    let mut i: usize = 0;
    while i < chars.len()
        invariant
            chars@ == s@,
            i <= chars@.len(),
            out@ == start + seq!['"'] + escape_text(chars@.subrange(0, i as int)),
        decreases chars.len() - i,
    {
        assert(chars@.subrange(0, i + 1).drop_last() =~= chars@.subrange(0, i as int));
        write_escaped_char(out, chars[i]);
        i += 1;
    }
    assert(chars@.subrange(0, chars@.len() as int) =~= s@);
    push_char(out, '"');
    assert(out@ =~= start + quoted(s@));
}

/// Append the compact text of `j`.
pub fn write_json(out: &mut String, j: &Json)
    ensures
        final(out)@ == old(out)@ + json_text(*j),
    decreases j,
{
    let ghost start = out@;
    match j {
        Json::Null => {
            push_str(out, "null");
            proof { reveal_strlit("null"); }
        },
        Json::Bool(b) => {
            if *b {
                push_str(out, "true");
                proof { reveal_strlit("true"); }
            } else {
                push_str(out, "false");
                proof { reveal_strlit("false"); }
            }
        },
        Json::Number(n) => {
            push_str(out, n.text.as_str());
        },
        Json::Str(s) => {
            write_quoted(out, s.as_str());
        },
        Json::Array(items) => {
            push_char(out, '[');
            let mut i: usize = 0;
            while i < items.len()
                invariant
                    i <= items@.len(),
                    out@ == start + seq!['['] + items_text(items@.subrange(0, i as int)),
                    *j == Json::Array(*items),
                decreases items.len() - i,
            {
                let ghost before = out@;
                assert(items@.subrange(0, i + 1).drop_last() =~= items@.subrange(0, i as int));
                if i > 0 {
                    push_char(out, ',');
                }
                proof {
                    assert(*items == (*j)->Array_0);
                    assert(decreases_to!(*j => (*j)->Array_0));
                    assert(decreases_to!(*items => items@));
                    assert(decreases_to!(items@ => items@[i as int]));
                }
                write_json(out, &items[i]);
                i += 1;
            }
            assert(items@.subrange(0, items@.len() as int) =~= items@);
            push_char(out, ']');
        },
        Json::Object(members) => {
            push_char(out, '{');
            let mut i: usize = 0;
            while i < members.len()
                invariant
                    i <= members@.len(),
                    out@ == start + seq!['{'] + members_text(members@.subrange(0, i as int)),
                    *j == Json::Object(*members),
                decreases members.len() - i,
            {
                assert(members@.subrange(0, i + 1).drop_last() =~= members@.subrange(0, i as int));
                if i > 0 {
                    push_char(out, ',');
                }
                write_quoted(out, members[i].0.as_str());
                push_char(out, ':');
                proof {
                    assert(*members == (*j)->Object_0);
                    assert(decreases_to!(*j => (*j)->Object_0));
                    assert(decreases_to!(*members => members@));
                    assert(decreases_to!(members@ => members@[i as int]));
                    assert(decreases_to!(members@[i as int] => members@[i as int].1));
                }
                write_json(out, &members[i].1);
                i += 1;
            }
            assert(members@.subrange(0, members@.len() as int) =~= members@);
            push_char(out, '}');
        },
    }
    assert(out@ =~= start + json_text(*j));
}

/// The compact text of `j`.
pub fn to_json_text(j: &Json) -> (r: String)
    ensures
        r@ == json_text(*j),
{
    let mut out = String::new();
    write_json(&mut out, j);
    assert(out@ =~= json_text(*j));
    out
}

// --- Parsing -------------------------------------------------------------------

#[verifier::external_type_specification]
#[verifier::external_body]
pub struct ExJsonValue(serde_json::Value);

/// The document `serde_json::from_str` reads from `text`, or its error.
pub uninterp spec fn json_parsed(text: Seq<char>) -> Result<Json, JsonSyntaxError>;

/// A `serde_json::Value` held as a [`Json`]: member order is the map's
/// iteration order, numbers keep their canonical text.
#[verifier::external_body]
pub(crate) fn from_value(v: &serde_json::Value) -> Json {
    match v {
        serde_json::Value::Null => Json::Null,
        serde_json::Value::Bool(b) => Json::Bool(*b),
        serde_json::Value::Number(n) => Json::Number(JsonNumber { text: n.to_string(), as_u64: n.as_u64() }),
        serde_json::Value::String(s) => Json::Str(s.clone()),
        serde_json::Value::Array(a) => Json::Array(a.iter().map(from_value).collect()),
        serde_json::Value::Object(m) => Json::Object(m.iter().map(|(k, x)| (k.clone(), from_value(x))).collect()),
    }
}

/// A [`Json`] as the `serde_json::Value` it was read from.
#[verifier::external_body]
pub(crate) fn to_value(j: &Json) -> serde_json::Value {
    match j {
        Json::Null => serde_json::Value::Null,
        Json::Bool(b) => serde_json::Value::Bool(*b),
        Json::Number(n) => serde_json::from_str(&n.text).unwrap_or(serde_json::Value::Null),
        Json::Str(s) => serde_json::Value::String(s.clone()),
        Json::Array(a) => serde_json::Value::Array(a.iter().map(to_value).collect()),
        Json::Object(m) => serde_json::Value::Object(m.iter().map(|(k, x)| (k.clone(), to_value(x))).collect()),
    }
}

/// `serde_json::from_str::<serde_json::Value>(text)`: the document, or the
/// error's message and 1-based position.
#[verifier::external_body]
pub fn parse_json(text: &str) -> (r: Result<Json, JsonSyntaxError>)
    ensures
        r == json_parsed(text@),
{
    match serde_json::from_str::<serde_json::Value>(text) {
        Ok(v) => Ok(from_value(&v)),
        Err(e) => Err(JsonSyntaxError { line: e.line(), column: e.column(), message: e.to_string() }),
    }
}

} // verus!
