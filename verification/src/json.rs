//! JSON documents as the library reads and writes them: a parsed value
//! tree with field lookup, and compact rendering with serde_json's string
//! escaping.

use vstd::prelude::*;
use crate::text::{parse_u64_spec, push_str, string_from_chars};

verus! {

/// A parsed JSON value. Numbers keep their canonical text; object members
/// keep their order.
#[derive(Debug)]
pub enum Json {
    Null,
    Bool(bool),
    Number(String),
    Str(String),
    Array(Vec<Json>),
    Object(Vec<(String, Json)>),
}

#[verifier::external_type_specification]
#[verifier::external_body]
pub struct ExJsonValue(serde_json::Value);

/// What `serde_json` parses from bytes into its `Value`, as a tree (numbers
/// by serde_json's text for them, object members in the order of its map),
/// or the text of its error.
pub uninterp spec fn json_of_bytes(bytes: Seq<u8>) -> Result<Json, Seq<char>>;

/// What `serde_json` parses from a text into its `Value`, as a tree, or
/// the text of its error.
pub uninterp spec fn json_of_text(text: Seq<char>) -> Result<Json, Seq<char>>;

/// The document a parse gave, if it succeeded.
pub open spec fn parsed(r: Result<Json, Seq<char>>) -> Option<Json> {
    match r {
        Ok(j) => Some(j),
        Err(_) => None,
    }
}

/// Trusted: the tree of a `serde_json::Value`, variant by variant (a
/// number by its `to_string` text, members in the map's order). It only
/// converts; the parse wrappers below name what comes out.
#[verifier::external_body]
fn value_tree(v: &serde_json::Value) -> Json {
    match v {
        serde_json::Value::Null => Json::Null,
        serde_json::Value::Bool(b) => Json::Bool(*b),
        serde_json::Value::Number(n) => Json::Number(n.to_string()),
        serde_json::Value::String(t) => Json::Str(t.clone()),
        serde_json::Value::Array(items) => Json::Array(items.iter().map(value_tree).collect()),
        serde_json::Value::Object(ms) => Json::Object(ms.iter().map(|(k, x)| (k.clone(), value_tree(x))).collect()),
    }
}

/// Trusted: `serde_json::from_slice::<serde_json::Value>`, a function of
/// the bytes alone, converted to the library's tree; the error by its
/// `to_string` text.
#[verifier::external_body]
fn parse_json_bytes(bytes: &[u8]) -> (r: Result<Json, String>)
    ensures
        match r {
            Ok(j) => json_of_bytes(bytes@) == Ok::<Json, Seq<char>>(j),
            Err(e) => json_of_bytes(bytes@) == Err::<Json, Seq<char>>(e@),
        },
{
    serde_json::from_slice::<serde_json::Value>(bytes).map(|v| value_tree(&v)).map_err(|e| e.to_string())
}

/// Trusted: `serde_json::from_str::<serde_json::Value>`, a function of the
/// text alone, converted to the library's tree; the error by its
/// `to_string` text.
#[verifier::external_body]
fn parse_json_text(text: &str) -> (r: Result<Json, String>)
    ensures
        match r {
            Ok(j) => json_of_text(text@) == Ok::<Json, Seq<char>>(j),
            Err(e) => json_of_text(text@) == Err::<Json, Seq<char>>(e@),
        },
{
    serde_json::from_str::<serde_json::Value>(text).map(|v| value_tree(&v)).map_err(|e| e.to_string())
}

/// Parses a JSON document from bytes.
pub fn decode_json(bytes: &[u8]) -> (r: Result<Json, String>)
    ensures
        match r {
            Ok(j) => json_of_bytes(bytes@) == Ok::<Json, Seq<char>>(j),
            Err(e) => json_of_bytes(bytes@) == Err::<Json, Seq<char>>(e@),
        },
{
    parse_json_bytes(bytes)
}

/// Parses a JSON document from a text.
pub fn decode_json_text(text: &str) -> (r: Result<Json, String>)
    ensures
        match r {
            Ok(j) => json_of_text(text@) == Ok::<Json, Seq<char>>(j),
            Err(e) => json_of_text(text@) == Err::<Json, Seq<char>>(e@),
        },
{
    parse_json_text(text)
}

/// serde_json's escape of one character inside a string literal.
pub open spec fn escape_char(c: char) -> Seq<char> {
    if c == '"' {
        seq!['\\', '"']
    } else if c == '\\' {
        seq!['\\', '\\']
    } else if c == '\n' {
        seq!['\\', 'n']
    } else if c == '\r' {
        seq!['\\', 'r']
    } else if c == '\t' {
        seq!['\\', 't']
    } else if c == '\x08' {
        seq!['\\', 'b']
    } else if c == '\x0c' {
        seq!['\\', 'f']
    } else if (c as u32) < 0x20 {
        seq!['\\', 'u', '0', '0', crate::loader::hex_digit(((c as u32) / 16) as u8), crate::loader::hex_digit(((c as u32) % 16) as u8)]
    } else {
        seq![c]
    }
}

pub open spec fn escape_all(s: Seq<char>) -> Seq<char>
    decreases s.len(),
{
    if s.len() == 0 {
        Seq::empty()
    } else {
        escape_all(s.drop_last()) + escape_char(s.last())
    }
}

/// A JSON string literal: the escaped text between double quotes.
pub open spec fn quoted(s: Seq<char>) -> Seq<char> {
    seq!['"'] + escape_all(s) + seq!['"']
}

/// Trusted: `serde_json::to_string` of a `&str` writes the string literal
/// with serde_json's escapes (quote, backslash, `\n \r \t \b \f`, other
/// control characters as `\u00xx`, everything else verbatim); serialising a
/// string to memory cannot fail.
#[verifier::external_body]
pub fn json_quote(s: &str) -> (q: String)
    ensures
        q@ == quoted(s@),
{
    serde_json::to_string(s).unwrap_or_default()
}

/// The member `key` of an object (the first one with that name); `None`
/// for other values.
pub open spec fn field(j: Json, key: Seq<char>) -> Option<Json> {
    match j {
        Json::Object(ms) => member(ms@, key),
        _ => None,
    }
}

pub open spec fn member(ms: Seq<(String, Json)>, key: Seq<char>) -> Option<Json>
    decreases ms.len(),
{
    if ms.len() == 0 {
        None
    } else if ms[0].0@ == key {
        Some(ms[0].1)
    } else {
        member(ms.drop_first(), key)
    }
}

/// Looks up an object member.
pub fn get<'a>(j: &'a Json, key: &str) -> (r: Option<&'a Json>)
    ensures
        match r {
            Some(v) => field(*j, key@) == Some(*v),
            None => field(*j, key@) is None,
        },
{
    match j {
        Json::Object(ms) => {
            let mut i: usize = 0;
            assert(ms@.skip(0) == ms@);
            while i < ms.len()
                invariant
                    i <= ms@.len(),
                    field(*j, key@) == member(ms@, key@),
                    member(ms@, key@) == member(ms@.skip(i as int), key@),
                decreases ms.len() - i,
            {
                assert(ms@.skip(i as int)[0] == ms@[i as int]);
                assert(ms@.skip(i as int).drop_first() == ms@.skip(i + 1));
                if crate::text::str_eq(ms[i].0.as_str(), key) {
                    return Some(&ms[i].1);
                }
                i += 1;
            }
            None
        },
        _ => None,
    }
}

/// The string a value holds, if it is a string.
pub open spec fn str_of(j: Option<Json>) -> Option<Seq<char>> {
    match j {
        Some(Json::Str(s)) => Some(s@),
        _ => None,
    }
}

pub fn as_str(j: Option<&Json>) -> (r: Option<String>)
    ensures
        crate::agent_core::opt_str(r) == str_of(match j {
            Some(v) => Some(*v),
            None => None,
        }),
{
    match j {
        Some(Json::Str(s)) => Some(s.clone()),
        _ => None,
    }
}

/// The flag a value holds, if it is a boolean.
pub open spec fn bool_of(j: Option<Json>) -> Option<bool> {
    match j {
        Some(Json::Bool(b)) => Some(b),
        _ => None,
    }
}

pub fn as_bool(j: Option<&Json>) -> (r: Option<bool>)
    ensures
        r == bool_of(match j {
            Some(v) => Some(*v),
            None => None,
        }),
{
    match j {
        Some(Json::Bool(b)) => Some(*b),
        _ => None,
    }
}

/// An unsigned integer a value holds (a number written as plain digits
/// within range).
pub open spec fn u64_of(j: Option<Json>) -> Option<u64> {
    match j {
        Some(Json::Number(t)) => if t@.len() > 0 && t@[0] != '+' {
            parse_u64_spec(t@)
        } else {
            None
        },
        _ => None,
    }
}

pub fn as_u64(j: Option<&Json>) -> (r: Option<u64>)
    ensures
        r == u64_of(match j {
            Some(v) => Some(*v),
            None => None,
        }),
{
    match j {
        Some(Json::Number(t)) => {
            let cs = crate::text::chars_of(t.as_str());
            if cs.len() > 0 && cs[0] != '+' {
                crate::text::parse_u64(t.as_str())
            } else {
                None
            }
        },
        _ => None,
    }
}

/// A signed integer a value holds: plain digits, optionally after a minus
/// sign, within the 64-bit range.
pub open spec fn i64_of(j: Option<Json>) -> Option<i64> {
    match j {
        Some(Json::Number(t)) => signed_value(t@),
        _ => None,
    }
}

pub open spec fn signed_value(t: Seq<char>) -> Option<i64> {
    if t.len() > 0 && t[0] == '-' {
        let d = t.drop_first();
        if d.len() > 0 && d[0] != '+' {
            match parse_u64_spec(d) {
                Some(n) => if n <= 9_223_372_036_854_775_808u64 { Some((-(n as int)) as i64) } else { None },
                None => None,
            }
        } else {
            None
        }
    } else if t.len() > 0 && t[0] != '+' {
        match parse_u64_spec(t) {
            Some(n) => if n <= i64::MAX { Some(n as i64) } else { None },
            None => None,
        }
    } else {
        None
    }
}

pub fn as_i64(j: Option<&Json>) -> (r: Option<i64>)
    ensures
        r == i64_of(match j {
            Some(v) => Some(*v),
            None => None,
        }),
{
    match j {
        Some(Json::Number(t)) => {
            let cs = crate::text::chars_of(t.as_str());
            if cs.len() > 0 && cs[0] == '-' {
                if cs.len() > 1 && cs[1] != '+' {
                    let rest = crate::text::slice_from(cs.as_slice(), 1);
                    let rs = string_from_chars(rest.as_slice());
                    assert(rs@ == t@.drop_first());
                    match crate::text::parse_u64(rs.as_str()) {
                        Some(n) => if n <= 9_223_372_036_854_775_808u64 {
                            if n == 9_223_372_036_854_775_808u64 {
                                Some(i64::MIN)
                            } else {
                                Some(-(n as i64))
                            }
                        } else {
                            None
                        },
                        None => None,
                    }
                } else {
                    None
                }
            } else if cs.len() > 0 && cs[0] != '+' {
                match crate::text::parse_u64(t.as_str()) {
                    Some(n) => if n <= i64::MAX as u64 { Some(n as i64) } else { None },
                    None => None,
                }
            } else {
                None
            }
        },
        _ => None,
    }
}

/// Compact JSON text of a value, as serde_json renders it.
pub open spec fn text_of(j: Json) -> Seq<char>
    decreases j,
{
    match j {
        Json::Null => "null"@,
        Json::Bool(b) => if b { "true"@ } else { "false"@ },
        Json::Number(t) => t@,
        Json::Str(s) => quoted(s@),
        Json::Array(v) => seq!['['] + items_text(v@) + seq![']'],
        Json::Object(ms) => seq!['{'] + members_text(ms@) + seq!['}'],
    }
}

pub open spec fn items_text(s: Seq<Json>) -> Seq<char>
    decreases s,
{
    if s.len() == 0 {
        Seq::empty()
    } else if s.len() == 1 {
        text_of(s[0])
    } else {
        items_text(s.drop_last()) + seq![','] + text_of(s.last())
    }
}

pub open spec fn members_text(s: Seq<(String, Json)>) -> Seq<char>
    decreases s,
{
    if s.len() == 0 {
        Seq::empty()
    } else if s.len() == 1 {
        quoted(s[0].0@) + seq![':'] + text_of(s[0].1)
    } else {
        members_text(s.drop_last()) + seq![','] + quoted(s.last().0@) + seq![':'] + text_of(s.last().1)
    }
}

/// Appends the compact JSON text of `j`.
pub fn render(j: &Json, out: &mut Vec<char>)
    ensures
        final(out)@ == old(out)@ + text_of(*j),
    decreases j,
{
    match j {
        Json::Null => push_str(out, "null"),
        Json::Bool(b) => if *b {
            push_str(out, "true")
        } else {
            push_str(out, "false")
        },
        Json::Number(t) => push_str(out, t.as_str()),
        Json::Str(s) => {
            let q = json_quote(s.as_str());
            push_str(out, q.as_str());
        },
        Json::Array(v) => {
            let ghost start = out@;
            out.push('[');
            let mut i: usize = 0;
            while i < v.len()
                invariant
                    i <= v@.len(),
                    out@ == start + seq!['['] + items_text(v@.take(i as int)),
                    *j == Json::Array(*v),
                decreases v.len() - i,
            {
                assert(v@.take(i + 1).drop_last() == v@.take(i as int));
                assert(v@.take(i + 1).last() == v@[i as int]);
                if i > 0 {
                    out.push(',');
                } else {
                    assert(v@.take(1)[0] == v@[0]);
                }
                assert(decreases_to!(*j => (*j)->Array_0));
                assert(decreases_to!(*v => v@));
                assert(decreases_to!(v@ => v@[i as int]));
                render(&v[i], out);
                i += 1;
            }
            assert(v@.take(v.len() as int) == v@);
            out.push(']');
        },
        Json::Object(ms) => {
            let ghost start = out@;
            out.push('{');
            let mut i: usize = 0;
            while i < ms.len()
                invariant
                    i <= ms@.len(),
                    out@ == start + seq!['{'] + members_text(ms@.take(i as int)),
                    *j == Json::Object(*ms),
                decreases ms.len() - i,
            {
                assert(ms@.take(i + 1).drop_last() == ms@.take(i as int));
                assert(ms@.take(i + 1).last() == ms@[i as int]);
                if i > 0 {
                    out.push(',');
                } else {
                    assert(ms@.take(1)[0] == ms@[0]);
                }
                let q = json_quote(ms[i].0.as_str());
                push_str(out, q.as_str());
                out.push(':');
                assert(decreases_to!(*j => (*j)->Object_0));
                assert(decreases_to!(*ms => ms@));
                assert(decreases_to!(ms@ => ms@[i as int]));
                assert(decreases_to!(ms@[i as int] => ms@[i as int].1));
                render(&ms[i].1, out);
                i += 1;
            }
            assert(ms@.take(ms.len() as int) == ms@);
            out.push('}');
        },
    }
}

/// Compact JSON text of a value.
pub fn to_text(j: &Json) -> (s: String)
    ensures
        s@ == text_of(*j),
{
    let mut v: Vec<char> = Vec::new();
    render(j, &mut v);
    string_from_chars(v.as_slice())
}

} // verus!
