//! Pairing a CLI session with a Telegram chat. The CLI asks for a code,
//! which is kept under `pair/code/<CODE>` until it expires; a chat that
//! sends the code completes the pairing, which is then filed under both
//! `pair/session/<session>` and `pair/chat/<chat>`, and the code is
//! dropped. Unpairing removes both entries.

use vstd::prelude::*;
use crate::json::{u64_of, Json};
use crate::records::{is_str, lemma_member_at, record_fields, req_str};
use crate::store::{join2, DomainError};
use crate::text::{decimal, push_str, string_from_chars};
use crate::types::{PairCode, PairInfo};

verus! {

/// A request for a pairing code: the CLI session, its agent, and how many
/// seconds the code stays valid.
#[derive(Debug)]
pub struct PairRequest {
    pub session_id: String,
    pub agent_id: String,
    pub expires_in: u32,
}

/// A code waiting for a chat: the session it pairs and when it lapses.
#[derive(Clone, Debug)]
pub struct PendingPair {
    pub session_id: String,
    pub agent_id: String,
    pub expires_at: u64,
}

/// Seconds a code is kept in the store (the bucket entry's time to live).
pub const PAIR_CODE_TTL_SECS: u64 = 300;

/// The code character of a random byte: one of the 36 upper-case letters
/// and digits.
pub open spec fn code_char(b: u8) -> char {
    let n = b % 36;
    if n < 26 {
        (65 + n) as char
    } else {
        (48 + n - 26) as char
    }
}

/// The code for five random bytes.
pub open spec fn code_text(r: Seq<u8>) -> Seq<char> {
    r.map_values(|b: u8| code_char(b))
}

/// A pairing code: five upper-case letters or digits.
pub open spec fn is_code(s: Seq<char>) -> bool {
    &&& s.len() == 5
    &&& forall|i: int| 0 <= i < 5 ==> ('A' <= #[trigger] s[i] && s[i] <= 'Z') || ('0' <= s[i] && s[i] <= '9')
}

/// When a code issued at `now` for `expires_in` seconds lapses (the end
/// of the 64-bit range at the latest).
pub open spec fn expiry(now: u64, expires_in: u32) -> u64 {
    if now + expires_in <= u64::MAX {
        (now + expires_in) as u64
    } else {
        u64::MAX
    }
}

fn code_char_of(b: u8) -> (c: char)
    ensures
        c == code_char(b),
        ('A' <= c && c <= 'Z') || ('0' <= c && c <= '9'),
{
    let n = b % 36;
    if n < 26 {
        (65 + n) as char
    } else {
        (48 + n - 26) as char
    }
}

/// The code for five random bytes.
pub fn code_from(random: &[u8; 5]) -> (s: String)
    ensures
        s@ == code_text(random@),
        is_code(s@),
{
    let mut v: Vec<char> = Vec::new();
    let mut i: usize = 0;
    while i < 5
        invariant
            i <= 5,
            random@.len() == 5,
            v@ == code_text(random@.take(i as int)),
        decreases 5 - i,
    {
        v.push(code_char_of(random[i]));
        assert(code_text(random@.take(i + 1)) =~= code_text(random@.take(i as int)).push(code_char(random@[i as int])));
        i += 1;
    }
    assert(random@.take(5) =~= random@);
    let s = string_from_chars(v.as_slice());
    assert forall|i: int| 0 <= i < 5 implies ('A' <= #[trigger] s@[i] && s@[i] <= 'Z') || ('0' <= s@[i] && s@[i]
        <= '9') by {
        assert(s@[i] == code_char(random@[i]));
        let n = random@[i] % 36;
        if n < 26 {
            assert(65 <= 65 + n <= 90);
        } else {
            assert(48 <= 48 + n - 26 <= 57);
        }
    }
    s
}

/// Issues a code for `req` at `now` from five random bytes: the code, and
/// the pending record to keep under it.
pub fn issue_code(req: &PairRequest, random: &[u8; 5], now: u64) -> (r: (PairCode, PendingPair))
    ensures
        r.0.code@ == code_text(random@),
        is_code(r.0.code@),
        r.0.expires_at == expiry(now, req.expires_in),
        r.1.session_id@ == req.session_id@,
        r.1.agent_id@ == req.agent_id@,
        r.1.expires_at == r.0.expires_at,
{
    let expires_at = match now.checked_add(req.expires_in as u64) {
        Some(t) => t,
        None => u64::MAX,
    };
    let code = code_from(random);
    (
        PairCode { code, expires_at },
        PendingPair { session_id: req.session_id.clone(), agent_id: req.agent_id.clone(), expires_at },
    )
}

/// Asks for a pairing code now: a fresh random code, valid for the
/// requested number of seconds from the current time, and the pending
/// record to keep under it.
pub fn request_code(req: &PairRequest) -> (r: Result<(PairCode, PendingPair), DomainError>)
    ensures
        r matches Ok((c, p)) && is_code(c.code@) && (exists|now: u64| c.expires_at == expiry(now, req.expires_in))
            && p.session_id@ == req.session_id@ && p.agent_id@ == req.agent_id@ && p.expires_at == c.expires_at,
{
    let b = crate::router::random_uuid_bytes();
    let random: [u8; 5] = [b[0], b[1], b[2], b[3], b[4]];
    let t = crate::session::now_unix_secs();
    let now: u64 = if t < 0 {
        0
    } else {
        t as u64
    };
    Ok(issue_code(req, &random, now))
}

/// Why a code is refused when a chat sends it.
pub open spec fn claim_refusal(code: Seq<char>, pending: Option<PendingPair>, now: u64) -> Option<Seq<char>> {
    match pending {
        None => Some("pairing code "@ + code + " not found"@),
        Some(p) => if now > p.expires_at {
            Some("pairing code "@ + code + " expired"@)
        } else {
            None
        },
    }
}

fn code_message(code: &str, tail: &str) -> (s: String)
    ensures
        s@ == "pairing code "@ + code@ + tail@,
{
    let mut v: Vec<char> = Vec::new();
    push_str(&mut v, "pairing code ");
    push_str(&mut v, code);
    push_str(&mut v, tail);
    string_from_chars(v.as_slice())
}

/// Checks a code a chat sent against what is kept under it at `now`: an
/// unknown or lapsed code is refused, a live one yields its pending record.
pub fn claim_code(code: &str, pending: Option<PendingPair>, now: u64) -> (r: Result<PendingPair, DomainError>)
    ensures
        match claim_refusal(code@, pending, now) {
            Some(m) => r matches Err(DomainError::NotFound(e)) && e@ == m,
            None => r matches Ok(p) && pending == Some(p),
        },
{
    match pending {
        None => Err(DomainError::NotFound(code_message(code, " not found"))),
        Some(p) => if now > p.expires_at {
            Err(DomainError::NotFound(code_message(code, " expired")))
        } else {
            Ok(p)
        },
    }
}

/// Completes a pairing: a live code pairs its session with `chat_id` in
/// the conversation opened for it, as of `now`.
pub fn complete(code: &str, chat_id: &str, pending: Option<PendingPair>, conversation_id: String, now: u64) -> (r:
    Result<PairInfo, DomainError>)
    ensures
        match claim_refusal(code@, pending, now) {
            Some(m) => r matches Err(DomainError::NotFound(e)) && e@ == m,
            None => r matches Ok(i) && pending matches Some(p) && i.session_id@ == p.session_id@ && i.chat_id@
                == chat_id@ && i.conversation_id == conversation_id && i.paired_at == now,
        },
{
    match claim_code(code, pending, now) {
        Err(e) => Err(e),
        Ok(p) => Ok(PairInfo { session_id: p.session_id, chat_id: chat_id.to_string(), conversation_id, paired_at: now }),
    }
}

/// Law: a code read back before it lapses completes the pairing of the
/// session it was issued for; once lapsed it is refused.
pub proof fn lemma_issued_code_claims(code: Seq<char>, p: PendingPair, now: u64)
    ensures
        now <= p.expires_at ==> claim_refusal(code, Some(p), now) is None,
        now > p.expires_at ==> claim_refusal(code, Some(p), now) == Some("pairing code "@ + code + " expired"@),
        claim_refusal(code, None, now) == Some("pairing code "@ + code + " not found"@),
{
}

/// Store key of a pending code.
pub fn code_key(code: &str) -> (k: String)
    ensures
        k@ == "pair/code/"@ + code@,
{
    join2("pair/code/", code)
}

/// Store key of a session's pairing.
pub fn session_pair_key(session_id: &str) -> (k: String)
    ensures
        k@ == "pair/session/"@ + session_id@,
{
    join2("pair/session/", session_id)
}

/// Store key of a chat's pairing.
pub fn chat_pair_key(chat_id: &str) -> (k: String)
    ensures
        k@ == "pair/chat/"@ + chat_id@,
{
    join2("pair/chat/", chat_id)
}

/// The keys a completed pairing is filed under: the session's and the
/// chat's.
pub fn pairing_keys(info: &PairInfo) -> (ks: (String, String))
    ensures
        ks.0@ == "pair/session/"@ + info.session_id@,
        ks.1@ == "pair/chat/"@ + info.chat_id@,
{
    (session_pair_key(info.session_id.as_str()), chat_pair_key(info.chat_id.as_str()))
}

/// Whether a value is the number `n` in decimal.
pub open spec fn is_u64(j: Json, n: u64) -> bool {
    j matches Json::Number(t) && t@ == decimal(n as nat)
}

proof fn lemma_u64_text(j: Json, n: u64)
    requires
        is_u64(j, n),
    ensures
        u64_of(Some(j)) == Some(n),
{
    crate::text::lemma_decimal_digits(n as nat);
    crate::text::lemma_parse_decimal(n);
}

/// The characters of a pending record.
pub open spec fn pending_view(p: PendingPair) -> (Seq<char>, Seq<char>, u64) {
    (p.session_id@, p.agent_id@, p.expires_at)
}

/// The stored tree of a pending code: `{session_id, agent_id,
/// expires_at}`.
pub open spec fn pending_tree(j: Json, p: PendingPair) -> bool {
    &&& j matches Json::Object(ms) && ms@.len() == 3 && ms@[0].0@ == "session_id"@ && is_str(ms@[0].1, p.session_id@)
        && ms@[1].0@ == "agent_id"@ && is_str(ms@[1].1, p.agent_id@) && ms@[2].0@ == "expires_at"@ && is_u64(
        ms@[2].1,
        p.expires_at,
    )
}

/// The pending record a stored tree decodes to: all three fields are
/// required.
pub open spec fn pending_of(j: Json) -> Option<(Seq<char>, Seq<char>, u64)> {
    match record_fields(j, seq!["session_id"@, "agent_id"@, "expires_at"@], 3) {
        None => None,
        Some(f) => match (req_str(f[0]), req_str(f[1]), u64_of(f[2])) {
            (Some(s), Some(a), Some(t)) => Some((s, a, t)),
            _ => None,
        },
    }
}

fn number(n: u64) -> (j: Json)
    ensures
        is_u64(j, n),
{
    Json::Number(crate::text::decimal_string(n))
}

/// The stored tree of a pending code.
pub fn pending_record(p: &PendingPair) -> (j: Json)
    ensures
        pending_tree(j, *p),
{
    let ms: Vec<(String, Json)> = vec![
        ("session_id".to_string(), Json::Str(p.session_id.clone())),
        ("agent_id".to_string(), Json::Str(p.agent_id.clone())),
        ("expires_at".to_string(), number(p.expires_at)),
    ];
    Json::Object(ms)
}

fn str_at(j: Option<&Json>) -> (r: Option<String>)
    ensures
        crate::agent_core::opt_str(r) == req_str(match j {
            Some(x) => Some(*x),
            None => None,
        }),
{
    match j {
        Some(Json::Str(s)) => Some(s.clone()),
        _ => None,
    }
}

/// Reads a stored pending code.
pub fn read_pending_pair(j: &Json) -> (r: Option<PendingPair>)
    ensures
        match pending_of(*j) {
            None => r is None,
            Some(v) => r matches Some(p) && pending_view(p) == v,
        },
{
    let names: [&str; 3] = ["session_id", "agent_id", "expires_at"];
    assert(names@.map_values(|n: &str| n@) =~= seq!["session_id"@, "agent_id"@, "expires_at"@]);
    let f = match crate::task_record::record_refs(j, names.as_slice(), 3) {
        Some(f) => f,
        None => return None,
    };
    let session_id = match str_at(f[0]) {
        Some(x) => x,
        None => return None,
    };
    let agent_id = match str_at(f[1]) {
        Some(x) => x,
        None => return None,
    };
    let expires_at = match crate::json::as_u64(f[2]) {
        Some(x) => x,
        None => return None,
    };
    Some(PendingPair { session_id, agent_id, expires_at })
}

/// Law: a pending code read back from the tree written for it is the same
/// record.
pub proof fn lemma_pending_round_trip(p: PendingPair, j: Json)
    requires
        pending_tree(j, p),
    ensures
        pending_of(j) == Some(pending_view(p)),
{
    reveal_strlit("session_id");
    reveal_strlit("agent_id");
    reveal_strlit("expires_at");
    let ms = j->Object_0@;
    assert("session_id"@.len() == 10);
    assert("agent_id"@.len() == 8);
    assert("expires_at"@.len() == 10);
    assert("session_id"@[0] != "expires_at"@[0]);
    assert("session_id"@ != "expires_at"@);
    assert("session_id"@ != "agent_id"@);
    assert("agent_id"@ != "expires_at"@);
    lemma_member_at(ms, "session_id"@, 0);
    lemma_member_at(ms, "agent_id"@, 1);
    lemma_member_at(ms, "expires_at"@, 2);
    lemma_u64_text(ms[2].1, p.expires_at);
    let f = record_fields(j, seq!["session_id"@, "agent_id"@, "expires_at"@], 3)->0;
    assert(f[0] == crate::json::field(j, "session_id"@));
    assert(f[1] == crate::json::field(j, "agent_id"@));
    assert(f[2] == crate::json::field(j, "expires_at"@));
}

/// The characters of a pairing.
pub open spec fn pair_view(i: PairInfo) -> (Seq<char>, Seq<char>, Seq<char>, u64) {
    (i.session_id@, i.chat_id@, i.conversation_id@, i.paired_at)
}

/// The stored tree of a pairing: `{session_id, chat_id, conversation_id,
/// paired_at}`.
pub open spec fn pair_tree(j: Json, i: PairInfo) -> bool {
    &&& j matches Json::Object(ms) && ms@.len() == 4 && ms@[0].0@ == "session_id"@ && is_str(ms@[0].1, i.session_id@)
        && ms@[1].0@ == "chat_id"@ && is_str(ms@[1].1, i.chat_id@) && ms@[2].0@ == "conversation_id"@ && is_str(
        ms@[2].1,
        i.conversation_id@,
    ) && ms@[3].0@ == "paired_at"@ && is_u64(ms@[3].1, i.paired_at)
}

/// The pairing a stored tree decodes to: all four fields are required.
pub open spec fn pair_of(j: Json) -> Option<(Seq<char>, Seq<char>, Seq<char>, u64)> {
    match record_fields(j, seq!["session_id"@, "chat_id"@, "conversation_id"@, "paired_at"@], 4) {
        None => None,
        Some(f) => match (req_str(f[0]), req_str(f[1]), req_str(f[2]), u64_of(f[3])) {
            (Some(s), Some(c), Some(v), Some(t)) => Some((s, c, v, t)),
            _ => None,
        },
    }
}

/// The stored tree of a pairing; it is also the answer to a lookup.
pub fn pair_record(i: &PairInfo) -> (j: Json)
    ensures
        pair_tree(j, *i),
{
    let ms: Vec<(String, Json)> = vec![
        ("session_id".to_string(), Json::Str(i.session_id.clone())),
        ("chat_id".to_string(), Json::Str(i.chat_id.clone())),
        ("conversation_id".to_string(), Json::Str(i.conversation_id.clone())),
        ("paired_at".to_string(), number(i.paired_at)),
    ];
    Json::Object(ms)
}

/// Reads a stored pairing.
pub fn read_pair(j: &Json) -> (r: Option<PairInfo>)
    ensures
        match pair_of(*j) {
            None => r is None,
            Some(v) => r matches Some(i) && pair_view(i) == v,
        },
{
    let names: [&str; 4] = ["session_id", "chat_id", "conversation_id", "paired_at"];
    assert(names@.map_values(|n: &str| n@) =~= seq!["session_id"@, "chat_id"@, "conversation_id"@, "paired_at"@]);
    let f = match crate::task_record::record_refs(j, names.as_slice(), 4) {
        Some(f) => f,
        None => return None,
    };
    let session_id = match str_at(f[0]) {
        Some(x) => x,
        None => return None,
    };
    let chat_id = match str_at(f[1]) {
        Some(x) => x,
        None => return None,
    };
    let conversation_id = match str_at(f[2]) {
        Some(x) => x,
        None => return None,
    };
    let paired_at = match crate::json::as_u64(f[3]) {
        Some(x) => x,
        None => return None,
    };
    Some(PairInfo { session_id, chat_id, conversation_id, paired_at })
}

/// Law: a pairing read back from the tree written for it is the same
/// pairing.
pub proof fn lemma_pair_round_trip(i: PairInfo, j: Json)
    requires
        pair_tree(j, i),
    ensures
        pair_of(j) == Some(pair_view(i)),
{
    reveal_strlit("session_id");
    reveal_strlit("chat_id");
    reveal_strlit("conversation_id");
    reveal_strlit("paired_at");
    let ms = j->Object_0@;
    assert("session_id"@.len() == 10);
    assert("chat_id"@.len() == 7);
    assert("conversation_id"@.len() == 15);
    assert("paired_at"@.len() == 9);
    assert("session_id"@ != "chat_id"@);
    assert("session_id"@ != "conversation_id"@);
    assert("session_id"@ != "paired_at"@);
    assert("chat_id"@ != "conversation_id"@);
    assert("chat_id"@ != "paired_at"@);
    assert("conversation_id"@ != "paired_at"@);
    lemma_member_at(ms, "session_id"@, 0);
    lemma_member_at(ms, "chat_id"@, 1);
    lemma_member_at(ms, "conversation_id"@, 2);
    lemma_member_at(ms, "paired_at"@, 3);
    lemma_u64_text(ms[3].1, i.paired_at);
    let f = record_fields(j, seq!["session_id"@, "chat_id"@, "conversation_id"@, "paired_at"@], 4)->0;
    assert(f[0] == crate::json::field(j, "session_id"@));
    assert(f[1] == crate::json::field(j, "chat_id"@));
    assert(f[2] == crate::json::field(j, "conversation_id"@));
    assert(f[3] == crate::json::field(j, "paired_at"@));
}

/// The answer to a code request: `{"code":..,"expires_at":..}`.
pub fn code_record(c: &PairCode) -> (j: Json)
    ensures
        j matches Json::Object(ms) && ms@.len() == 2 && ms@[0].0@ == "code"@ && is_str(ms@[0].1, c.code@)
            && ms@[1].0@ == "expires_at"@ && is_u64(ms@[1].1, c.expires_at),
{
    let ms: Vec<(String, Json)> = vec![
        ("code".to_string(), Json::Str(c.code.clone())),
        ("expires_at".to_string(), number(c.expires_at)),
    ];
    Json::Object(ms)
}

/// The code request a message carries: string `session_id` and
/// `agent_id`, and `expires_in` as a `u32` (an object, or an array in that
/// order).
pub open spec fn pair_request_of(j: Json) -> Option<(Seq<char>, Seq<char>, u32)> {
    match record_fields(j, seq!["session_id"@, "agent_id"@, "expires_in"@], 3) {
        None => None,
        Some(f) => match (req_str(f[0]), req_str(f[1]), f[2]) {
            (Some(s), Some(a), Some(x)) => match crate::gateway::u32_field(x) {
                Some(n) => Some((s, a, n)),
                None => None,
            },
            _ => None,
        },
    }
}

/// Reads a code request.
pub fn read_pair_request(j: &Json) -> (r: Option<PairRequest>)
    ensures
        match pair_request_of(*j) {
            None => r is None,
            Some(v) => r matches Some(q) && q.session_id@ == v.0 && q.agent_id@ == v.1 && q.expires_in == v.2,
        },
{
    let names: [&str; 3] = ["session_id", "agent_id", "expires_in"];
    assert(names@.map_values(|n: &str| n@) =~= seq!["session_id"@, "agent_id"@, "expires_in"@]);
    let f = match crate::task_record::record_refs(j, names.as_slice(), 3) {
        Some(f) => f,
        None => return None,
    };
    let session_id = match str_at(f[0]) {
        Some(x) => x,
        None => return None,
    };
    let agent_id = match str_at(f[1]) {
        Some(x) => x,
        None => return None,
    };
    let expires_in = match f[2] {
        Some(x) => match crate::json::as_u64(Some(x)) {
            Some(n) => if n <= u32::MAX as u64 {
                n as u32
            } else {
                return None;
            },
            None => return None,
        },
        None => return None,
    };
    Some(PairRequest { session_id, agent_id, expires_in })
}

/// The code and chat a completion message carries: string `code` and
/// `chat_id` (an object, or an array in that order).
pub open spec fn completion_of(j: Json) -> Option<(Seq<char>, Seq<char>)> {
    match record_fields(j, seq!["code"@, "chat_id"@], 2) {
        None => None,
        Some(f) => match (req_str(f[0]), req_str(f[1])) {
            (Some(c), Some(h)) => Some((c, h)),
            _ => None,
        },
    }
}

/// Reads a completion message.
pub fn read_completion(j: &Json) -> (r: Option<(String, String)>)
    ensures
        match completion_of(*j) {
            None => r is None,
            Some(v) => r matches Some(x) && x.0@ == v.0 && x.1@ == v.1,
        },
{
    let names: [&str; 2] = ["code", "chat_id"];
    assert(names@.map_values(|n: &str| n@) =~= seq!["code"@, "chat_id"@]);
    let f = match crate::task_record::record_refs(j, names.as_slice(), 2) {
        Some(f) => f,
        None => return None,
    };
    match (str_at(f[0]), str_at(f[1])) {
        (Some(c), Some(h)) => Some((c, h)),
        _ => None,
    }
}

} // verus!
