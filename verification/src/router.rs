//! Channel routing of inbound chat updates: store keys of the per-chat
//! state, task ids, and which path an incoming text takes.

use vstd::prelude::*;
use crate::text::{decimal, decimal_chars, push_all, push_str, string_from_chars, zero_pad, padded_decimal_chars};
use crate::loader::{hex_digit};

verus! {

/// Key marking a chat update as already handled.
pub fn seen_key(update_id: u64) -> (k: String)
    ensures
        k@ == "seen/"@ + decimal(update_id as nat),
{
    let mut v: Vec<char> = Vec::new();
    push_str(&mut v, "seen/");
    let d = decimal_chars(update_id);
    push_all(&mut v, d.as_slice());
    string_from_chars(v.as_slice())
}

/// Key of the conversation a chat is attached to.
pub fn conv_key(chat_id: &str) -> (k: String)
    ensures
        k@ == "conv/"@ + chat_id@,
{
    let mut v: Vec<char> = Vec::new();
    push_str(&mut v, "conv/");
    push_str(&mut v, chat_id);
    string_from_chars(v.as_slice())
}

/// Key of the agent a chat has switched to.
pub fn default_agent_key(chat_id: &str) -> (k: String)
    ensures
        k@ == "default-agent/"@ + chat_id@,
{
    let mut v: Vec<char> = Vec::new();
    push_str(&mut v, "default-agent/");
    push_str(&mut v, chat_id);
    string_from_chars(v.as_slice())
}

/// A lowercase hexadecimal digit.
pub open spec fn is_lower_hex(c: char) -> bool {
    ('0' <= c && c <= '9') || ('a' <= c && c <= 'f')
}

/// The hyphenated text of an RFC 4122 UUID of the given version: 36
/// characters, `-` at 8, 13, 18 and 23 and lowercase hex digits elsewhere,
/// the version digit at 14 and one of `8 9 a b` (the variant) at 19.
pub open spec fn uuid_form(s: Seq<char>, version: char) -> bool {
    &&& s.len() == 36
    &&& forall|i: int|
        0 <= i < 36 ==> (if i == 8 || i == 13 || i == 18 || i == 23 {
            #[trigger] s[i] == '-'
        } else {
            is_lower_hex(s[i])
        })
    &&& s[14] == version
    &&& (s[19] == '8' || s[19] == '9' || s[19] == 'a' || s[19] == 'b')
}

/// Trusted: the sixteen bytes of `uuid::Uuid::new_v4()` (`into_bytes`).
/// They come from the system's random source, so nothing is stated of
/// them.
#[verifier::external_body]
pub(crate) fn random_uuid_bytes() -> (b: [u8; 16]) {
    uuid::Uuid::new_v4().into_bytes()
}

/// A fresh random version-4 UUID in its hyphenated lowercase form.
pub fn new_task_id() -> (s: String)
    ensures
        uuid_form(s@, '4'),
{
    let b = random_uuid_bytes();
    proof {
        lemma_v4_form(b@);
    }
    uuid_v4_from(b)
}

/// Two lowercase hex digits of a byte.
pub open spec fn hex2(b: u8) -> Seq<char> {
    seq![hex_digit(b / 16), hex_digit(b % 16)]
}

/// Hex of bytes `lo..hi` of `b`.
pub open spec fn hex_run(b: Seq<u8>, lo: int, hi: int) -> Seq<char>
    decreases hi - lo,
{
    if hi <= lo {
        Seq::empty()
    } else {
        hex_run(b, lo, hi - 1) + hex2(b[hi - 1])
    }
}

/// The 8-4-4-4-12 hyphenated hex form of 16 bytes.
pub open spec fn uuid_text(b: Seq<u8>) -> Seq<char> {
    hex_run(b, 0, 4) + "-"@ + hex_run(b, 4, 6) + "-"@ + hex_run(b, 6, 8) + "-"@ + hex_run(b, 8, 10)
        + "-"@ + hex_run(b, 10, 16)
}

fn hex_char(n: u8) -> (c: char)
    requires
        n < 16,
    ensures
        c == hex_digit(n),
{
    if n < 10 {
        (n + 48) as char
    } else {
        (n - 10 + 97) as char
    }
}

fn push_hex_run(v: &mut Vec<char>, b: &[u8; 16], lo: usize, hi: usize)
    requires
        lo <= hi <= 16,
    ensures
        final(v)@ == old(v)@ + hex_run(b@, lo as int, hi as int),
{
    let mut i: usize = lo;
    while i < hi
        invariant
            lo <= i <= hi <= 16,
            v@ == old(v)@ + hex_run(b@, lo as int, i as int),
        decreases hi - i,
    {
        let x = b[i];
        v.push(hex_char(x / 16));
        v.push(hex_char(x % 16));
        assert(hex_run(b@, lo as int, i + 1) == hex_run(b@, lo as int, i as int) + hex2(b@[i as int]));
        i += 1;
    }
}

/// Formats 16 bytes as a hyphenated UUID.
pub fn format_uuid(b: &[u8; 16]) -> (s: String)
    ensures
        s@ == uuid_text(b@),
{
    let mut v: Vec<char> = Vec::new();
    push_hex_run(&mut v, b, 0, 4);
    v.push('-');
    push_hex_run(&mut v, b, 4, 6);
    v.push('-');
    push_hex_run(&mut v, b, 6, 8);
    v.push('-');
    push_hex_run(&mut v, b, 8, 10);
    v.push('-');
    push_hex_run(&mut v, b, 10, 16);
    proof {
        reveal_strlit("-");
    }
    string_from_chars(v.as_slice())
}

/// Random bytes stamped as an RFC 4122 version-4 UUID: version nibble 4
/// in byte 6, variant bits `10` in byte 8.
pub open spec fn v4_bytes(b: Seq<u8>) -> Seq<u8> {
    b.update(6, (b[6] & 0x0f) | 0x40).update(8, (b[8] & 0x3f) | 0x80)
}

/// A version-4 UUID from 16 random bytes.
pub fn uuid_v4_from(random: [u8; 16]) -> (s: String)
    ensures
        s@ == uuid_text(v4_bytes(random@)),
{
    let mut b = random;
    b.set(6, (b[6] & 0x0f) | 0x40);
    b.set(8, (b[8] & 0x3f) | 0x80);
    assert(b@ == v4_bytes(random@));
    format_uuid(&b)
}

proof fn lemma_hex_digit(n: u8)
    requires
        n < 16,
    ensures
        is_lower_hex(hex_digit(n)),
{
}

proof fn lemma_hex_run(b: Seq<u8>, lo: int, hi: int)
    requires
        0 <= lo <= hi <= b.len(),
    ensures
        hex_run(b, lo, hi).len() == 2 * (hi - lo),
        forall|k: int| 0 <= k < 2 * (hi - lo) ==> is_lower_hex(#[trigger] hex_run(b, lo, hi)[k]),
        hi > lo ==> hex_run(b, lo, hi)[0] == hex_digit(b[lo] / 16),
    decreases hi - lo,
{
    if hi > lo {
        lemma_hex_run(b, lo, hi - 1);
        lemma_hex_digit(b[hi - 1] / 16);
        lemma_hex_digit(b[hi - 1] % 16);
        let p = hex_run(b, lo, hi - 1);
        let q = hex2(b[hi - 1]);
        assert(hex_run(b, lo, hi) == p + q);
        assert forall|k: int| 0 <= k < 2 * (hi - lo) implies is_lower_hex(#[trigger] hex_run(b, lo, hi)[k]) by {
            if k < p.len() {
                assert(hex_run(b, lo, hi)[k] == p[k]);
            } else {
                assert(hex_run(b, lo, hi)[k] == q[k - p.len()]);
            }
        }
        if hi - 1 > lo {
            assert(hex_run(b, lo, hi)[0] == p[0]);
        } else {
            lemma_hex_run(b, lo, lo);
            assert(p.len() == 0);
            assert(hex_run(b, lo, hi)[0] == q[0]);
        }
    }
}

/// The hyphenated text of sixteen bytes has the UUID layout, with the
/// high nibbles of bytes 6 and 8 at positions 14 and 19.
proof fn lemma_uuid_text_layout(b: Seq<u8>)
    requires
        b.len() == 16,
    ensures
        uuid_text(b).len() == 36,
        forall|i: int|
            0 <= i < 36 ==> (if i == 8 || i == 13 || i == 18 || i == 23 {
                #[trigger] uuid_text(b)[i] == '-'
            } else {
                is_lower_hex(uuid_text(b)[i])
            }),
        uuid_text(b)[14] == hex_digit(b[6] / 16),
        uuid_text(b)[19] == hex_digit(b[8] / 16),
{
    reveal_strlit("-");
    lemma_hex_run(b, 0, 4);
    lemma_hex_run(b, 4, 6);
    lemma_hex_run(b, 6, 8);
    lemma_hex_run(b, 8, 10);
    lemma_hex_run(b, 10, 16);
    let a = hex_run(b, 0, 4);
    let c = hex_run(b, 4, 6);
    let d = hex_run(b, 6, 8);
    let e = hex_run(b, 8, 10);
    let f = hex_run(b, 10, 16);
    let h = "-"@;
    let t = uuid_text(b);
    assert(t == a + h + c + h + d + h + e + h + f);
    assert forall|i: int|
        0 <= i < 36 implies (if i == 8 || i == 13 || i == 18 || i == 23 {
            #[trigger] t[i] == '-'
        } else {
            is_lower_hex(t[i])
        }) by {
        if i < 8 {
            assert(t[i] == a[i]);
        } else if i == 8 {
            assert(t[i] == h[0]);
        } else if i < 13 {
            assert(t[i] == c[i - 9]);
        } else if i == 13 {
            assert(t[i] == h[0]);
        } else if i < 18 {
            assert(t[i] == d[i - 14]);
        } else if i == 18 {
            assert(t[i] == h[0]);
        } else if i < 23 {
            assert(t[i] == e[i - 19]);
        } else if i == 23 {
            assert(t[i] == h[0]);
        } else {
            assert(t[i] == f[i - 24]);
        }
    }
    assert(t[14] == d[0]);
    assert(t[19] == e[0]);
}

/// Stamping sixteen bytes as version 4 gives the version-4 UUID form.
proof fn lemma_v4_form(b: Seq<u8>)
    requires
        b.len() == 16,
    ensures
        uuid_form(uuid_text(v4_bytes(b)), '4'),
{
    let v = v4_bytes(b);
    lemma_uuid_text_layout(v);
    let x = b[6];
    let y = b[8];
    assert(((x & 0x0f) | 0x40) / 16 == 4) by (bit_vector);
    assert(8 <= ((y & 0x3f) | 0x80) / 16 <= 11) by (bit_vector);
    assert(v[6] == (x & 0x0f) | 0x40);
    assert(v[8] == (y & 0x3f) | 0x80);
}

/// Big-endian byte `k` (0 = most significant) of a 64-bit value.
pub open spec fn be_byte(x: u64, k: int) -> u8 {
    ((x >> ((7 - k) * 8) as u64) & 0xff) as u8
}

/// A version-7 UUID: 48-bit millisecond timestamp, version 7 with 12
/// random bits, variant `10` with 62 random bits.
pub open spec fn v7_bytes(ms: u64, r1: u64, r2: u64) -> Seq<u8> {
    seq![
        be_byte(ms, 2), be_byte(ms, 3), be_byte(ms, 4), be_byte(ms, 5), be_byte(ms, 6), be_byte(ms, 7),
        (0x70u8 | (((r1 >> 8u64) as u8) & 0x0f)),
        (r1 as u8),
        (0x80u8 | (((r2 >> 56u64) as u8) & 0x3f)),
        be_byte(r2, 1), be_byte(r2, 2), be_byte(r2, 3), be_byte(r2, 4), be_byte(r2, 5), be_byte(r2, 6), be_byte(r2, 7)
    ]
}

fn byte_of(x: u64, k: u64) -> (b: u8)
    requires
        k < 8,
    ensures
        b == be_byte(x, k as int),
{
    ((x >> ((7 - k) * 8)) & 0xff) as u8
}

/// A version-7 UUID from a millisecond timestamp and two random words.
pub fn uuid_v7_from(ms: u64, r1: u64, r2: u64) -> (s: String)
    ensures
        s@ == uuid_text(v7_bytes(ms, r1, r2)),
{
    let b: [u8; 16] = [
        byte_of(ms, 2), byte_of(ms, 3), byte_of(ms, 4), byte_of(ms, 5), byte_of(ms, 6), byte_of(ms, 7),
        0x70u8 | (((r1 >> 8u64) as u8) & 0x0f),
        r1 as u8,
        0x80u8 | (((r2 >> 56u64) as u8) & 0x3f),
        byte_of(r2, 1), byte_of(r2, 2), byte_of(r2, 3), byte_of(r2, 4), byte_of(r2, 5), byte_of(r2, 6), byte_of(r2, 7),
    ];
    assert(b@ =~= v7_bytes(ms, r1, r2));
    format_uuid(&b)
}

/// The coarse timestamp the wasm channel router writes on tasks: years of
/// 365 days and months of 30 days counted from 1970, then the time of day.
pub open spec fn coarse_iso(secs: int) -> Seq<char> {
    let days = secs / 86_400;
    let rem = secs % 86_400;
    zero_pad(decimal((1970 + days / 365) as nat), 4) + "-"@ + zero_pad(decimal((((days % 365) / 30) + 1) as nat), 2)
        + "-"@ + zero_pad(decimal((((days % 365) % 30) + 1) as nat), 2) + "T"@ + zero_pad(
        decimal((rem / 3600) as nat),
        2,
    ) + ":"@ + zero_pad(decimal(((rem / 60) % 60) as nat), 2) + ":"@ + zero_pad(decimal((rem % 60) as nat), 2)
        + "Z"@
}

/// Coarse timestamp of `secs` seconds after the epoch (not before it).
pub fn coarse_iso_from_secs(secs: u64) -> (s: String)
    ensures
        s@ == coarse_iso(secs as int),
{
    let days = secs / 86_400;
    let rem = secs % 86_400;
    let mut v: Vec<char> = Vec::new();
    let y = padded_decimal_chars(1970 + days / 365, 4);
    push_all(&mut v, y.as_slice());
    push_str(&mut v, "-");
    let mo = padded_decimal_chars(((days % 365) / 30) + 1, 2);
    push_all(&mut v, mo.as_slice());
    push_str(&mut v, "-");
    let d = padded_decimal_chars(((days % 365) % 30) + 1, 2);
    push_all(&mut v, d.as_slice());
    push_str(&mut v, "T");
    let h = padded_decimal_chars(rem / 3600, 2);
    push_all(&mut v, h.as_slice());
    push_str(&mut v, ":");
    let m = padded_decimal_chars((rem / 60) % 60, 2);
    push_all(&mut v, m.as_slice());
    push_str(&mut v, ":");
    let sec = padded_decimal_chars(rem % 60, 2);
    push_all(&mut v, sec.as_slice());
    push_str(&mut v, "Z");
    string_from_chars(v.as_slice())
}

/// Where an inbound chat text goes.
#[derive(Debug)]
pub enum TextRoute {
    /// A slash command, handled in the chat.
    Command(crate::channel::SlashCommand),
    /// `/agent create ...`: registers an agent.
    CreateAgent(crate::types::AgentConfig),
    /// No text: only the canonical message is emitted.
    Empty,
    /// A chat message for the agent.
    Chat,
}

/// Routes an inbound text: recognised slash commands first (only where a
/// chat client is configured to answer them), then agent creation, then
/// empty texts, else the agent.
pub fn route_text(text: &str, can_reply: bool) -> (r: TextRoute)
    ensures
        can_reply && crate::channel::slash_of(text@) is Some ==> (r matches TextRoute::Command(c)
            && crate::channel::slash_of(text@) == Some(crate::channel::ssv(c))),
        !(can_reply && crate::channel::slash_of(text@) is Some) && crate::channel::agent_create_fields(text@) is Some
            ==> (r matches TextRoute::CreateAgent(c) && crate::channel::registers(
            c,
            crate::channel::agent_create_fields(text@)->0,
        )),
        !(can_reply && crate::channel::slash_of(text@) is Some) && crate::channel::agent_create_fields(text@) is None
            ==> (if text@.len() == 0 { r is Empty } else { r is Chat }),
{
    if can_reply {
        if let Some(c) = crate::channel::parse_slash_command(text) {
            return TextRoute::Command(c);
        }
    }
    match crate::channel::parse_agent_create(text) {
        Some(cfg) => TextRoute::CreateAgent(cfg),
        None => if text.is_empty() {
            TextRoute::Empty
        } else {
            TextRoute::Chat
        },
    }
}

/// The fields of an inbound Telegram update the router uses.
#[derive(Debug)]
pub struct Inbound {
    /// `message.chat.id` in decimal; empty when absent.
    pub chat_id: String,
    /// `message.message_id` in decimal; empty when absent.
    pub message_id: String,
    /// `message.text`; empty when absent.
    pub text: String,
}

/// A 64-bit integer as decimal text, empty when absent.
pub open spec fn id_text(n: Option<i64>) -> Seq<char> {
    match n {
        Some(v) => crate::telegram::signed_decimal(v as int),
        None => Seq::empty(),
    }
}

/// `chat.id` of a message as an integer.
pub open spec fn chat_id_of(m: crate::json::Json) -> Option<i64> {
    match crate::json::field(m, "chat"@) {
        Some(c) => crate::json::i64_of(crate::json::field(c, "id"@)),
        None => None,
    }
}

/// What an update says to the router: nothing without a `message`
/// member; else the chat id, message id and text of the message.
pub open spec fn inbound_matches(doc: crate::json::Json, r: Option<Inbound>) -> bool {
    match crate::json::field(doc, "message"@) {
        None => r is None,
        Some(m) => r matches Some(i) && i.chat_id@ == id_text(chat_id_of(m)) && i.message_id@ == id_text(
            crate::json::i64_of(crate::json::field(m, "message_id"@)),
        ) && i.text@ == match crate::json::str_of(crate::json::field(m, "text"@)) {
            Some(t) => t,
            None => Seq::empty(),
        },
    }
}

/// Reads an update: `None` when it has no `message` member.
pub fn read_update(doc: &crate::json::Json) -> (r: Option<Inbound>)
    ensures
        inbound_matches(*doc, r),
{
    let m = match crate::json::get(doc, "message") {
        Some(m) => m,
        None => return None,
    };
    let chat = match crate::json::get(m, "chat") {
        Some(c) => crate::json::as_i64(crate::json::get(c, "id")),
        None => None,
    };
    let chat_id = match chat {
        Some(n) => crate::telegram::signed_decimal_string(n),
        None => String::new(),
    };
    let message_id = match crate::json::as_i64(crate::json::get(m, "message_id")) {
        Some(n) => crate::telegram::signed_decimal_string(n),
        None => String::new(),
    };
    let text = match crate::json::as_str(crate::json::get(m, "text")) {
        Some(t) => t,
        None => String::new(),
    };
    Some(Inbound { chat_id, message_id, text })
}

/// Reads a raw update as it arrives on the bus: bytes that do not parse as
/// JSON are refused with `decode telegram update: <parse error>`; else the
/// parsed document and what it says to the router.
pub fn read_update_body(body: &[u8]) -> (r: Result<(crate::json::Json, Option<Inbound>), String>)
    ensures
        match crate::json::json_of_bytes(body@) {
            Err(e) => r matches Err(m) && m@ == "decode telegram update: "@ + e,
            Ok(doc) => r matches Ok((d, i)) && d == doc && inbound_matches(doc, i),
        },
{
    match crate::json::decode_json(body) {
        Err(e) => Err(crate::store::join2("decode telegram update: ", e.as_str())),
        Ok(doc) => {
            let i = read_update(&doc);
            Ok((doc, i))
        },
    }
}

/// The canonical inbound message every channel adapter emits: fields in
/// declaration order (channel, message id, sender, text, raw JSON, and the
/// session id where the adapter tracks sessions).
pub open spec fn canonical_text(
    channel: Seq<char>,
    channel_msg_id: Seq<char>,
    sender_id: Seq<char>,
    text: Seq<char>,
    raw_json: Seq<char>,
    session_id: Option<Seq<char>>,
) -> Seq<char> {
    "{\"channel\":"@ + crate::json::quoted(channel) + ",\"channel_msg_id\":"@ + crate::json::quoted(channel_msg_id)
        + ",\"sender_id\":"@ + crate::json::quoted(sender_id) + ",\"text\":"@ + crate::json::quoted(text)
        + ",\"raw_json\":"@ + crate::json::quoted(raw_json) + match session_id {
        Some(sid) => ",\"session_id\":"@ + crate::json::quoted(sid),
        None => Seq::empty(),
    } + "}"@
}

pub fn canonical_body(
    channel: &str,
    channel_msg_id: &str,
    sender_id: &str,
    text: &str,
    raw_json: &str,
    session_id: Option<&str>,
) -> (s: String)
    ensures
        s@ == canonical_text(channel@, channel_msg_id@, sender_id@, text@, raw_json@, match session_id {
            Some(x) => Some(x@),
            None => None,
        }),
{
    let mut v: Vec<char> = Vec::new();
    push_str(&mut v, "{\"channel\":");
    push_str(&mut v, crate::json::json_quote(channel).as_str());
    push_str(&mut v, ",\"channel_msg_id\":");
    push_str(&mut v, crate::json::json_quote(channel_msg_id).as_str());
    push_str(&mut v, ",\"sender_id\":");
    push_str(&mut v, crate::json::json_quote(sender_id).as_str());
    push_str(&mut v, ",\"text\":");
    push_str(&mut v, crate::json::json_quote(text).as_str());
    push_str(&mut v, ",\"raw_json\":");
    push_str(&mut v, crate::json::json_quote(raw_json).as_str());
    let ghost head = v@;
    match session_id {
        Some(sid) => {
            push_str(&mut v, ",\"session_id\":");
            push_str(&mut v, crate::json::json_quote(sid).as_str());
        },
        None => {
            assert(v@ =~= head + Seq::<char>::empty());
        },
    }
    push_str(&mut v, "}");
    string_from_chars(v.as_slice())
}

/// The task a chat message submits, members in sorted order.
pub open spec fn chat_task_text(
    task_id: Seq<char>,
    conversation_id: Seq<char>,
    agent_id: Seq<char>,
    input: Seq<char>,
    created_at: Seq<char>,
    session_id: Option<Seq<char>>,
) -> Seq<char> {
    "{\"agent_id\":"@ + crate::json::quoted(agent_id) + ",\"conversation_id\":"@ + crate::json::quoted(conversation_id)
        + ",\"created_at\":"@ + crate::json::quoted(created_at) + ",\"id\":"@ + crate::json::quoted(task_id)
        + ",\"input\":"@ + crate::json::quoted(input) + match session_id {
        Some(sid) => ",\"session_id\":"@ + crate::json::quoted(sid),
        None => Seq::empty(),
    } + "}"@
}

pub fn chat_task_body(
    task_id: &str,
    conversation_id: &str,
    agent_id: &str,
    input: &str,
    created_at: &str,
    session_id: Option<&str>,
) -> (s: String)
    ensures
        s@ == chat_task_text(task_id@, conversation_id@, agent_id@, input@, created_at@, match session_id {
            Some(x) => Some(x@),
            None => None,
        }),
{
    let mut v: Vec<char> = Vec::new();
    push_str(&mut v, "{\"agent_id\":");
    push_str(&mut v, crate::json::json_quote(agent_id).as_str());
    push_str(&mut v, ",\"conversation_id\":");
    push_str(&mut v, crate::json::json_quote(conversation_id).as_str());
    push_str(&mut v, ",\"created_at\":");
    push_str(&mut v, crate::json::json_quote(created_at).as_str());
    push_str(&mut v, ",\"id\":");
    push_str(&mut v, crate::json::json_quote(task_id).as_str());
    push_str(&mut v, ",\"input\":");
    push_str(&mut v, crate::json::json_quote(input).as_str());
    let ghost head = v@;
    match session_id {
        Some(sid) => {
            push_str(&mut v, ",\"session_id\":");
            push_str(&mut v, crate::json::json_quote(sid).as_str());
        },
        None => {
            assert(v@ =~= head + Seq::<char>::empty());
        },
    }
    push_str(&mut v, "}");
    string_from_chars(v.as_slice())
}

/// A new chat task for the executor: a fresh version-4 id, the current
/// time as its creation stamp, and the task body that names both. Returns
/// the id, the stamp and the body.
pub fn new_chat_task(conversation_id: &str, agent_id: &str, input: &str, session_id: Option<&str>) -> (r: (String, String, String))
    ensures
        uuid_form(r.0@, '4'),
        r.2@ == chat_task_text(r.0@, conversation_id@, agent_id@, input@, r.1@, match session_id {
            Some(x) => Some(x@),
            None => None,
        }),
{
    let task_id = new_task_id();
    let created_at = crate::session::now_iso();
    let body = chat_task_body(task_id.as_str(), conversation_id, agent_id, input, created_at.as_str(), session_id);
    (task_id, created_at, body)
}

/// Where a task's answer goes, kept under the task id until it is
/// delivered, members in sorted order (the chat message it answers where
/// the adapter records it).
pub open spec fn pending_text(channel: Seq<char>, chat_id: Seq<char>, conversation_id: Seq<char>, channel_msg_id: Option<Seq<char>>) -> Seq<char> {
    "{\"channel\":"@ + crate::json::quoted(channel) + match channel_msg_id {
        Some(m) => ",\"channel_msg_id\":"@ + crate::json::quoted(m),
        None => Seq::empty(),
    } + ",\"chat_id\":"@ + crate::json::quoted(chat_id) + ",\"conversation_id\":"@ + crate::json::quoted(
        conversation_id,
    ) + "}"@
}

pub fn pending_body(channel: &str, chat_id: &str, conversation_id: &str, channel_msg_id: Option<&str>) -> (s: String)
    ensures
        s@ == pending_text(channel@, chat_id@, conversation_id@, match channel_msg_id {
            Some(x) => Some(x@),
            None => None,
        }),
{
    let mut v: Vec<char> = Vec::new();
    push_str(&mut v, "{\"channel\":");
    push_str(&mut v, crate::json::json_quote(channel).as_str());
    let ghost head = v@;
    match channel_msg_id {
        Some(m) => {
            push_str(&mut v, ",\"channel_msg_id\":");
            push_str(&mut v, crate::json::json_quote(m).as_str());
        },
        None => {
            assert(v@ =~= head + Seq::<char>::empty());
        },
    }
    push_str(&mut v, ",\"chat_id\":");
    push_str(&mut v, crate::json::json_quote(chat_id).as_str());
    push_str(&mut v, ",\"conversation_id\":");
    push_str(&mut v, crate::json::json_quote(conversation_id).as_str());
    push_str(&mut v, "}");
    string_from_chars(v.as_slice())
}

/// Where a task's answer is to be delivered.
#[derive(Debug)]
pub struct PendingRoute {
    pub channel: String,
    pub chat_id: String,
    /// Empty when the record names none.
    pub conversation_id: String,
}

/// The delivery record a stored value decodes to: an object with string
/// `channel` and `chat_id` and, optionally, a string `conversation_id`
/// (other members are ignored); or the same fields as an array of two or
/// three strings, in that order.
pub open spec fn pending_of(j: crate::json::Json) -> Option<(Seq<char>, Seq<char>, Seq<char>)> {
    match j {
        crate::json::Json::Object(_) => {
            let ch = crate::json::str_of(crate::json::field(j, "channel"@));
            let chat = crate::json::str_of(crate::json::field(j, "chat_id"@));
            let conv = crate::json::field(j, "conversation_id"@);
            if ch is None || chat is None {
                None
            } else {
                match conv {
                    None => Some((ch->0, chat->0, Seq::empty())),
                    Some(c) => match crate::json::str_of(Some(c)) {
                        Some(cv) => Some((ch->0, chat->0, cv)),
                        None => None,
                    },
                }
            }
        },
        crate::json::Json::Array(v) => {
            if v@.len() == 2 || v@.len() == 3 {
                let ch = crate::json::str_of(Some(v@[0]));
                let chat = crate::json::str_of(Some(v@[1]));
                let conv = if v@.len() == 3 {
                    crate::json::str_of(Some(v@[2]))
                } else {
                    Some(Seq::empty())
                };
                if ch is None || chat is None || conv is None {
                    None
                } else {
                    Some((ch->0, chat->0, conv->0))
                }
            } else {
                None
            }
        },
        _ => None,
    }
}

fn str_value(j: &crate::json::Json) -> (r: Option<String>)
    ensures
        crate::agent_core::opt_str(r) == crate::json::str_of(Some(*j)),
{
    crate::json::as_str(Some(j))
}

/// Decodes a stored delivery record.
pub fn read_pending(j: &crate::json::Json) -> (r: Option<PendingRoute>)
    ensures
        match pending_of(*j) {
            None => r is None,
            Some(p) => r matches Some(x) && x.channel@ == p.0 && x.chat_id@ == p.1 && x.conversation_id@ == p.2,
        },
{
    match j {
        crate::json::Json::Object(_) => {
            let ch = crate::json::as_str(crate::json::get(j, "channel"));
            let chat = crate::json::as_str(crate::json::get(j, "chat_id"));
            match (ch, chat) {
                (Some(channel), Some(chat_id)) => match crate::json::get(j, "conversation_id") {
                    None => Some(PendingRoute { channel, chat_id, conversation_id: String::new() }),
                    Some(c) => match str_value(c) {
                        Some(conversation_id) => Some(PendingRoute { channel, chat_id, conversation_id }),
                        None => None,
                    },
                },
                _ => None,
            }
        },
        crate::json::Json::Array(v) => {
            if v.len() == 2 || v.len() == 3 {
                let ch = str_value(&v[0]);
                let chat = str_value(&v[1]);
                let conv = if v.len() == 3 {
                    str_value(&v[2])
                } else {
                    Some(String::new())
                };
                match (ch, chat, conv) {
                    (Some(channel), Some(chat_id), Some(conversation_id)) => Some(
                        PendingRoute { channel, chat_id, conversation_id },
                    ),
                    _ => None,
                }
            } else {
                None
            }
        },
        _ => None,
    }
}

/// The update id of a raw update, when it is an unsigned integer.
pub fn update_id_of(doc: &crate::json::Json) -> (r: Option<u64>)
    ensures
        r == crate::json::u64_of(crate::json::field(*doc, "update_id"@)),
{
    crate::json::as_u64(crate::json::get(doc, "update_id"))
}

} // verus!
