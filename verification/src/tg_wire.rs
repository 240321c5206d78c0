//! Telegram Bot API on the wire: the JSON bodies of the calls the bot
//! makes (members in serde_json's sorted order), the long-poll URL, and
//! how an answer's `{ok, result, description, error_code}` envelope is read.

use vstd::prelude::*;
use crate::json::{field, get, json_quote, quoted, Json};
use crate::telegram::{api_error, api_error_text, signed_decimal, signed_decimal_string};
use crate::text::{decimal, decimal_chars, push_all, push_str, string_from_chars};

verus! {

/// `sendMessage`: chat, optional Markdown parse mode, text.
pub open spec fn send_text(chat_id: Seq<char>, text: Seq<char>, markdown: bool) -> Seq<char> {
    "{\"chat_id\":"@ + quoted(chat_id) + if markdown {
        ",\"parse_mode\":\"Markdown\""@
    } else {
        Seq::empty()
    } + ",\"text\":"@ + quoted(text) + "}"@
}

pub fn send_body(chat_id: &str, text: &str, markdown: bool) -> (s: String)
    ensures
        s@ == send_text(chat_id@, text@, markdown),
{
    let mut v: Vec<char> = Vec::new();
    push_str(&mut v, "{\"chat_id\":");
    push_str(&mut v, json_quote(chat_id).as_str());
    let ghost head = v@;
    if markdown {
        push_str(&mut v, ",\"parse_mode\":\"Markdown\"");
    } else {
        assert(v@ =~= head + Seq::<char>::empty());
    }
    push_str(&mut v, ",\"text\":");
    push_str(&mut v, json_quote(text).as_str());
    push_str(&mut v, "}");
    string_from_chars(v.as_slice())
}

/// `editMessageText`: chat, message, Markdown, text.
pub open spec fn edit_text(chat_id: Seq<char>, message_id: i64, text: Seq<char>) -> Seq<char> {
    "{\"chat_id\":"@ + quoted(chat_id) + ",\"message_id\":"@ + signed_decimal(message_id as int)
        + ",\"parse_mode\":\"Markdown\",\"text\":"@ + quoted(text) + "}"@
}

pub fn edit_body(chat_id: &str, message_id: i64, text: &str) -> (s: String)
    ensures
        s@ == edit_text(chat_id@, message_id, text@),
{
    let mut v: Vec<char> = Vec::new();
    push_str(&mut v, "{\"chat_id\":");
    push_str(&mut v, json_quote(chat_id).as_str());
    push_str(&mut v, ",\"message_id\":");
    push_str(&mut v, signed_decimal_string(message_id).as_str());
    push_str(&mut v, ",\"parse_mode\":\"Markdown\",\"text\":");
    push_str(&mut v, json_quote(text).as_str());
    push_str(&mut v, "}");
    string_from_chars(v.as_slice())
}

/// `sendChatAction`: action, chat.
pub open spec fn action_text(chat_id: Seq<char>, action: Seq<char>) -> Seq<char> {
    "{\"action\":"@ + quoted(action) + ",\"chat_id\":"@ + quoted(chat_id) + "}"@
}

pub fn action_body(chat_id: &str, action: &str) -> (s: String)
    ensures
        s@ == action_text(chat_id@, action@),
{
    let mut v: Vec<char> = Vec::new();
    push_str(&mut v, "{\"action\":");
    push_str(&mut v, json_quote(action).as_str());
    push_str(&mut v, ",\"chat_id\":");
    push_str(&mut v, json_quote(chat_id).as_str());
    push_str(&mut v, "}");
    string_from_chars(v.as_slice())
}

/// `setMessageReaction`: one emoji reaction, not big.
pub open spec fn reaction_text(chat_id: i64, message_id: i64, emoji: Seq<char>) -> Seq<char> {
    "{\"chat_id\":"@ + signed_decimal(chat_id as int) + ",\"is_big\":false,\"message_id\":"@ + signed_decimal(
        message_id as int,
    ) + ",\"reaction\":[{\"emoji\":"@ + quoted(emoji) + ",\"type\":\"emoji\"}]}"@
}

pub fn reaction_body(chat_id: i64, message_id: i64, emoji: &str) -> (s: String)
    ensures
        s@ == reaction_text(chat_id, message_id, emoji@),
{
    let mut v: Vec<char> = Vec::new();
    push_str(&mut v, "{\"chat_id\":");
    push_str(&mut v, signed_decimal_string(chat_id).as_str());
    push_str(&mut v, ",\"is_big\":false,\"message_id\":");
    push_str(&mut v, signed_decimal_string(message_id).as_str());
    push_str(&mut v, ",\"reaction\":[{\"emoji\":");
    push_str(&mut v, json_quote(emoji).as_str());
    push_str(&mut v, ",\"type\":\"emoji\"}]}");
    string_from_chars(v.as_slice())
}

/// `setMyShortDescription`.
pub open spec fn short_description_text(description: Seq<char>) -> Seq<char> {
    "{\"short_description\":"@ + quoted(description) + "}"@
}

pub fn short_description_body(description: &str) -> (s: String)
    ensures
        s@ == short_description_text(description@),
{
    let mut v: Vec<char> = Vec::new();
    push_str(&mut v, "{\"short_description\":");
    push_str(&mut v, json_quote(description).as_str());
    push_str(&mut v, "}");
    string_from_chars(v.as_slice())
}

/// The long-poll URL: `getUpdates` with the offset and the timeout in
/// seconds as query parameters.
pub open spec fn updates_url(token: Seq<char>, offset: u64, timeout_s: u32) -> Seq<char> {
    "https://api.telegram.org/bot"@ + token + "/getUpdates?offset="@ + decimal(offset as nat) + "&timeout="@ + decimal(
        timeout_s as nat,
    )
}

pub fn get_updates_url(token: &str, offset: u64, timeout_s: u32) -> (u: String)
    ensures
        u@ == updates_url(token@, offset, timeout_s),
{
    let mut v: Vec<char> = Vec::new();
    push_str(&mut v, "https://api.telegram.org/bot");
    push_str(&mut v, token);
    push_str(&mut v, "/getUpdates?offset=");
    push_all(&mut v, decimal_chars(offset).as_slice());
    push_str(&mut v, "&timeout=");
    push_all(&mut v, decimal_chars(timeout_s as u64).as_slice());
    string_from_chars(v.as_slice())
}

/// How long the HTTP request of a long poll may take: the poll timeout
/// plus ten seconds.
pub fn poll_request_secs(timeout_s: u32) -> (t: u64)
    ensures
        t == timeout_s + 10,
{
    timeout_s as u64 + 10
}

/// An optional envelope member: absent and `null` both read as none.
pub open spec fn present(j: Option<Json>) -> Option<Json> {
    match j {
        Some(Json::Null) => None,
        other => other,
    }
}

/// The fields of an answer envelope, as its decoder reads them: `ok` must
/// be a boolean; `description`, when present, a string; `error_code`,
/// when present, a 64-bit integer. An object names them as members (others
/// are ignored); an array lists them in the order ok, result, description,
/// error_code, trailing ones omitted.
pub open spec fn envelope_fields(doc: Json) -> Option<(bool, Option<Json>, Option<Seq<char>>, Option<i64>)> {
    let parts: Option<(Option<Json>, Option<Json>, Option<Json>, Option<Json>)> = match doc {
        Json::Object(_) => Some(
            (
                field(doc, "ok"@),
                present(field(doc, "result"@)),
                present(field(doc, "description"@)),
                present(field(doc, "error_code"@)),
            ),
        ),
        Json::Array(v) => if 1 <= v@.len() <= 4 {
            Some(
                (
                    Some(v@[0]),
                    if v@.len() > 1 { present(Some(v@[1])) } else { None },
                    if v@.len() > 2 { present(Some(v@[2])) } else { None },
                    if v@.len() > 3 { present(Some(v@[3])) } else { None },
                ),
            )
        } else {
            None
        },
        _ => None,
    };
    match parts {
        None => None,
        Some((ok, result, desc, code)) => match crate::json::bool_of(ok) {
            None => None,
            Some(okv) => {
                let d: Option<Option<Seq<char>>> = match desc {
                    None => Some(None),
                    Some(x) => match crate::json::str_of(Some(x)) {
                        Some(s) => Some(Some(s)),
                        None => None,
                    },
                };
                let c: Option<Option<i64>> = match code {
                    None => Some(None),
                    Some(x) => match crate::json::i64_of(Some(x)) {
                        Some(n) => Some(Some(n)),
                        None => None,
                    },
                };
                if d is None || c is None {
                    None
                } else {
                    Some((okv, result, d->0, c->0))
                }
            },
        },
    }
}

/// What an answer says: it could not be read as an envelope, the call was
/// refused (with the error text), or it succeeded with the given result
/// (none when absent or `null`).
#[derive(Debug)]
pub enum Answer<'a> {
    Malformed,
    Refused(String),
    Succeeded(Option<&'a Json>),
}

fn present_ref<'a>(j: Option<&'a Json>) -> (r: Option<&'a Json>)
    ensures
        match r {
            Some(x) => present(match j {
                Some(y) => Some(*y),
                None => None,
            }) == Some(*x),
            None => present(match j {
                Some(y) => Some(*y),
                None => None,
            }) is None,
        },
{
    match j {
        Some(Json::Null) => None,
        other => other,
    }
}

/// Reads an answer of method `method` (`None` for the long poll, whose
/// error names no method).
pub fn read_answer<'a>(doc: &'a Json, method: Option<&str>) -> (r: Answer<'a>)
    ensures
        match envelope_fields(*doc) {
            None => r is Malformed,
            Some((ok, result, description, code)) => if ok {
                match r {
                    Answer::Succeeded(Some(x)) => result == Some(*x),
                    Answer::Succeeded(None) => result is None,
                    _ => false,
                }
            } else {
                r matches Answer::Refused(e) && e@ == api_error_text(
                    match method {
                        Some(m) => Some(m@),
                        None => None,
                    },
                    description,
                    code,
                )
            },
        },
{
    let (ok, result, desc, code): (Option<&Json>, Option<&Json>, Option<&Json>, Option<&Json>) = match doc {
        Json::Object(_) => (
            get(doc, "ok"),
            present_ref(get(doc, "result")),
            present_ref(get(doc, "description")),
            present_ref(get(doc, "error_code")),
        ),
        Json::Array(v) => {
            if 1 <= v.len() && v.len() <= 4 {
                (
                    Some(&v[0]),
                    if v.len() > 1 { present_ref(Some(&v[1])) } else { None },
                    if v.len() > 2 { present_ref(Some(&v[2])) } else { None },
                    if v.len() > 3 { present_ref(Some(&v[3])) } else { None },
                )
            } else {
                return Answer::Malformed;
            }
        },
        _ => return Answer::Malformed,
    };
    let okv = match crate::json::as_bool(ok) {
        Some(b) => b,
        None => return Answer::Malformed,
    };
    let description: Option<String> = match desc {
        None => None,
        Some(x) => match crate::json::as_str(Some(x)) {
            Some(s) => Some(s),
            None => return Answer::Malformed,
        },
    };
    let error_code: Option<i64> = match code {
        None => None,
        Some(x) => match crate::json::as_i64(Some(x)) {
            Some(n) => Some(n),
            None => return Answer::Malformed,
        },
    };
    if okv {
        Answer::Succeeded(result)
    } else {
        Answer::Refused(api_error(method, &description, error_code))
    }
}

/// The error of a call that succeeded without the result it was to return.
pub open spec fn missing_result_text(method: Seq<char>) -> Seq<char> {
    "telegram "@ + method + ": ok=true but no result"@
}

pub fn missing_result_error(method: &str) -> (s: String)
    ensures
        s@ == missing_result_text(method@),
{
    let mut v: Vec<char> = Vec::new();
    push_str(&mut v, "telegram ");
    push_str(&mut v, method);
    push_str(&mut v, ": ok=true but no result");
    string_from_chars(v.as_slice())
}

/// The error of a refused call as the wasm bot client reports it: the
/// answer's description, or a note that it said `ok=false`.
pub fn refusal_text(description: &Option<String>) -> (s: String)
    ensures
        s@ == match description {
            Some(d) => d@,
            None => "telegram returned ok=false"@,
        },
{
    match description {
        Some(d) => d.clone(),
        None => "telegram returned ok=false".to_string(),
    }
}

} // verus!
