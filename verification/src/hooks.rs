//! Firing a lifecycle hook: the event goes out as a request on
//! `mycelium.hook.<event>`; whatever fails, the payload passes through
//! unchanged and nothing is blocked.

use vstd::prelude::*;
use crate::text::{push_str, string_from_chars};

verus! {

/// What a hook made of an event.
#[derive(Clone, Debug)]
pub struct HookOutcome {
    /// The (possibly rewritten) payload, as JSON text.
    pub payload: String,
    /// Whether the hook asks to stop the action.
    pub block: bool,
    pub reason: Option<String>,
}

impl HookOutcome {
    /// The outcome when no hook answered: the payload unchanged, nothing
    /// blocked.
    pub fn passthrough(payload: String) -> (o: HookOutcome)
        ensures
            o.payload@ == payload@,
            !o.block,
            o.reason is None,
    {
        HookOutcome { payload, block: false, reason: None }
    }
}

/// Request subject of a hook event.
pub fn hook_subject(event: &str) -> (s: String)
    ensures
        s@ == "mycelium.hook."@ + event@,
{
    let mut v: Vec<char> = Vec::new();
    push_str(&mut v, "mycelium.hook.");
    push_str(&mut v, event);
    string_from_chars(v.as_slice())
}

/// The usable text of a reply body: UTF-8 and not empty.
pub fn reply_text(body: &[u8]) -> (r: Option<String>)
    ensures
        match r {
            Some(t) => vstd::utf8::valid_utf8(body@) && t@ == vstd::utf8::decode_utf8(body@) && t@.len() > 0,
            None => !vstd::utf8::valid_utf8(body@) || vstd::utf8::decode_utf8(body@).len() == 0,
        },
{
    match crate::text::utf8_text(body) {
        Some(t) => if t.as_str().is_empty() { None } else { Some(t) },
        None => None,
    }
}

/// A hook's reply as read off the wire.
#[derive(Debug)]
pub enum HookReply {
    /// Serialising, sending or waiting failed, or the reply was unusable.
    Unanswered,
    /// A reply that does not parse as JSON.
    NotJson,
    /// A JSON reply, with its `block` flag and `reason` where they hold a
    /// boolean and a string.
    Json { text: String, block: Option<bool>, reason: Option<String> },
}

/// The outcome of firing a hook: a JSON reply replaces the payload and may
/// block (a missing or non-boolean `block` does not); anything else passes
/// the payload through.
pub fn outcome_of(payload: String, reply: HookReply) -> (o: HookOutcome)
    ensures
        match reply {
            HookReply::Json { text, block, reason } => o.payload@ == text@
                && o.block == (block == Some(true)) && o.reason == reason,
            _ => o.payload@ == payload@ && !o.block && o.reason is None,
        },
{
    match reply {
        HookReply::Json { text, block, reason } => HookOutcome {
            payload: text,
            block: match block {
                Some(b) => b,
                None => false,
            },
            reason,
        },
        _ => HookOutcome::passthrough(payload),
    }
}

/// A parsed JSON reply as the hook's answer: its compact text as the new
/// payload, its boolean `block` and string `reason` where it has them.
pub fn json_reply(doc: &crate::json::Json) -> (r: HookReply)
    ensures
        r matches HookReply::Json { text, block, reason } && text@ == crate::json::text_of(*doc) && block
            == crate::json::bool_of(crate::json::field(*doc, "block"@)) && crate::agent_core::opt_str(reason)
            == crate::json::str_of(crate::json::field(*doc, "reason"@)),
{
    HookReply::Json {
        text: crate::json::to_text(doc),
        block: crate::json::as_bool(crate::json::get(doc, "block")),
        reason: crate::json::as_str(crate::json::get(doc, "reason")),
    }
}

/// What a hook's reply body says: unusable (not UTF-8, or empty) is no
/// answer; text that does not parse as JSON is `NotJson`; else the parsed
/// reply with its `block` flag and `reason`.
pub fn hook_reply_of(body: &[u8]) -> (r: HookReply)
    ensures
        !vstd::utf8::valid_utf8(body@) || vstd::utf8::decode_utf8(body@).len() == 0 ==> r is Unanswered,
        vstd::utf8::valid_utf8(body@) && vstd::utf8::decode_utf8(body@).len() > 0 ==> match crate::json::json_of_text(
            vstd::utf8::decode_utf8(body@),
        ) {
            Err(_) => r is NotJson,
            Ok(doc) => r matches HookReply::Json { text, block, reason } && text@ == crate::json::text_of(doc)
                && block == crate::json::bool_of(crate::json::field(doc, "block"@)) && crate::agent_core::opt_str(
                reason,
            ) == crate::json::str_of(crate::json::field(doc, "reason"@)),
        },
{
    match reply_text(body) {
        None => HookReply::Unanswered,
        Some(t) => match crate::json::decode_json_text(t.as_str()) {
            Err(_) => HookReply::NotJson,
            Ok(doc) => json_reply(&doc),
        },
    }
}

} // verus!
