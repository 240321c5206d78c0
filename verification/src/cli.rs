//! The interactive command-line client's decisions: what a typed line
//! does, the messages it sends, and how replies are shown.

use vstd::prelude::*;
use crate::json::{field, get, json_quote, quoted, str_of, Json};
use crate::text::{decimal, decimal_chars, push_all, push_str, string_from_chars, trim_chars, trimmed};
use crate::types::ChannelMessage;

verus! {

/// What a typed line does.
#[derive(Debug)]
pub enum LineAction {
    /// Blank: nothing.
    Skip,
    /// `/quit` or `/exit`.
    Quit,
    /// `/unpair`: drop the pairing, then leave.
    Unpair,
    /// Anything else is sent to the agent (trimmed).
    Send(String),
}

/// Interprets one line typed at the prompt.
pub fn line_action(line: &str) -> (a: LineAction)
    ensures
        trimmed(line@).len() == 0 ==> a is Skip,
        trimmed(line@).len() > 0 && (trimmed(line@) == "/quit"@ || trimmed(line@) == "/exit"@) ==> a is Quit,
        trimmed(line@) == "/unpair"@ ==> a is Unpair,
        trimmed(line@).len() > 0 && trimmed(line@) != "/quit"@ && trimmed(line@) != "/exit"@ && trimmed(line@)
            != "/unpair"@ ==> (a matches LineAction::Send(t) && t@ == trimmed(line@)),
{
    proof {
        reveal_strlit("/unpair");
        reveal_strlit("/quit");
        reveal_strlit("/exit");
    }
    let c = crate::text::chars_of(line);
    let t = trim_chars(c.as_slice());
    if t.len() == 0 {
        return LineAction::Skip;
    }
    let s = string_from_chars(t.as_slice());
    if crate::text::str_eq(s.as_str(), "/quit") || crate::text::str_eq(s.as_str(), "/exit") {
        LineAction::Quit
    } else if crate::text::str_eq(s.as_str(), "/unpair") {
        LineAction::Unpair
    } else {
        LineAction::Send(s)
    }
}

/// The session id of a client started without one.
pub fn default_session_id(uuid: &str) -> (s: String)
    ensures
        s@ == "cli-"@ + uuid@,
{
    let mut v: Vec<char> = Vec::new();
    push_str(&mut v, "cli-");
    push_str(&mut v, uuid);
    string_from_chars(v.as_slice())
}

/// Subject the client's replies arrive on.
pub fn reply_subject(session_id: &str) -> (s: String)
    ensures
        s@ == "mycelium.channel.cli.out."@ + session_id@,
{
    let mut v: Vec<char> = Vec::new();
    push_str(&mut v, "mycelium.channel.cli.out.");
    push_str(&mut v, session_id);
    string_from_chars(v.as_slice())
}

/// Bytes a character takes in UTF-8.
pub open spec fn utf8_width(c: char) -> int {
    if (c as u32) < 0x80 {
        1
    } else if (c as u32) < 0x800 {
        2
    } else if (c as u32) < 0x10000 {
        3
    } else {
        4
    }
}

/// Walking `s` from character `i` with `room` bytes left: the character
/// index where the walk stops (the room is spent, the text ends, or the
/// next character does not fit).
pub open spec fn head_end(s: Seq<char>, i: int, room: int) -> int
    decreases s.len() - i,
{
    if room <= 0 || i >= s.len() || i < 0 {
        i
    } else if utf8_width(s[i]) <= room {
        head_end(s, i + 1, room - utf8_width(s[i]))
    } else {
        i
    }
}

/// The bytes left when that walk stops.
pub open spec fn head_room(s: Seq<char>, i: int, room: int) -> int
    decreases s.len() - i,
{
    if room <= 0 || i >= s.len() || i < 0 {
        room
    } else if utf8_width(s[i]) <= room {
        head_room(s, i + 1, room - utf8_width(s[i]))
    } else {
        room
    }
}

fn width_of(c: char) -> (w: u32)
    ensures
        w == utf8_width(c),
{
    let n = c as u32;
    if n < 0x80 {
        1
    } else if n < 0x800 {
        2
    } else if n < 0x10000 {
        3
    } else {
        4
    }
}

/// The prompt: the first eight bytes of the paired conversation id, or
/// `[unpaired]`. The id must have at least eight bytes, with a character
/// ending exactly at byte eight.
pub fn prompt(conversation_id: &Option<String>) -> (s: String)
    requires
        conversation_id matches Some(c) ==> head_room(c@, 0, 8) == 0,
    ensures
        s@ == match conversation_id {
            Some(c) => "["@ + c@.take(head_end(c@, 0, 8)) + "]> "@,
            None => "[unpaired]> "@,
        },
{
    match conversation_id {
        Some(c) => {
            let cs = crate::text::chars_of(c.as_str());
            let mut v: Vec<char> = Vec::new();
            push_str(&mut v, "[");
            let ghost start = v@;
            let mut i: usize = 0;
            let mut room: u32 = 8;
            while room > 0 && i < cs.len() && width_of(cs[i]) <= room
                invariant
                    i <= cs@.len(),
                    cs@ == c@,
                    room <= 8,
                    head_end(c@, 0, 8) == head_end(c@, i as int, room as int),
                    v@ == start + c@.take(i as int),
                decreases cs.len() - i,
            {
                assert(c@.take(i + 1) =~= c@.take(i as int).push(c@[i as int]));
                room = room - width_of(cs[i]);
                v.push(cs[i]);
                i += 1;
            }
            assert(head_end(c@, i as int, room as int) == i);
            push_str(&mut v, "]> ");
            string_from_chars(v.as_slice())
        },
        None => "[unpaired]> ".to_string(),
    }
}

/// The message sent for the `seq`-th line of a session.
pub fn outgoing_message(session_id: &str, seq: u64, conversation_id: &Option<String>, agent_id: &str, text: String) -> (m: ChannelMessage)
    ensures
        m.channel_msg_id@ == session_id@ + "-"@ + decimal(seq as nat),
        m.sender_id@ == session_id@,
        crate::agent_core::opt_str(m.conversation_id) == crate::agent_core::opt_str(*conversation_id),
        crate::agent_core::opt_str(m.agent_id) == Some(agent_id@),
        m.text@ == text@,
        m.raw_json@ == "{}"@,
{
    let mut v: Vec<char> = Vec::new();
    push_str(&mut v, session_id);
    push_str(&mut v, "-");
    push_all(&mut v, decimal_chars(seq).as_slice());
    ChannelMessage {
        channel_msg_id: string_from_chars(v.as_slice()),
        sender_id: session_id.to_string(),
        conversation_id: crate::agent_core::clone_opt(conversation_id),
        agent_id: Some(agent_id.to_string()),
        text,
        raw_json: "{}".to_string(),
    }
}

/// The pairing request: `{"agent_id":..,"expires_in":300,"session_id":..}`.
pub fn pair_request(session_id: &str, agent_id: &str) -> (s: String)
    ensures
        s@ == "{\"agent_id\":"@ + quoted(agent_id@) + ",\"expires_in\":300,\"session_id\":"@ + quoted(session_id@)
            + "}"@,
{
    let mut v: Vec<char> = Vec::new();
    push_str(&mut v, "{\"agent_id\":");
    push_str(&mut v, json_quote(agent_id).as_str());
    push_str(&mut v, ",\"expires_in\":300,\"session_id\":");
    push_str(&mut v, json_quote(session_id).as_str());
    push_str(&mut v, "}");
    string_from_chars(v.as_slice())
}

/// What is shown of a reply: its `text` member when it is JSON with one,
/// else the raw text.
pub fn reply_display(raw: &str, parsed: &Option<Json>) -> (s: String)
    ensures
        s@ == match parsed {
            Some(j) => match str_of(field(*j, "text"@)) {
                Some(t) => t,
                None => raw@,
            },
            None => raw@,
        },
{
    match parsed {
        Some(j) => match crate::json::as_str(get(j, "text")) {
            Some(t) => t,
            None => raw.to_string(),
        },
        None => raw.to_string(),
    }
}

/// Whether a pairing poll answered with a pairing (it names a
/// conversation).
pub fn pairing_done(answer: &Json) -> (r: bool)
    ensures
        r == (field(*answer, "conversation_id"@) is Some),
{
    get(answer, "conversation_id").is_some()
}

/// An optional string as JSON: the literal or `null`.
pub open spec fn opt_quoted(o: Option<Seq<char>>) -> Seq<char> {
    match o {
        Some(x) => quoted(x),
        None => "null"@,
    }
}

/// A channel message on the bus: its fields in declaration order, absent
/// ones as `null`.
pub open spec fn channel_message_text(m: ChannelMessage) -> Seq<char> {
    "{\"channel_msg_id\":"@ + quoted(m.channel_msg_id@) + ",\"sender_id\":"@ + quoted(m.sender_id@)
        + ",\"conversation_id\":"@ + opt_quoted(crate::agent_core::opt_str(m.conversation_id)) + ",\"agent_id\":"@
        + opt_quoted(crate::agent_core::opt_str(m.agent_id)) + ",\"text\":"@ + quoted(m.text@) + ",\"raw_json\":"@
        + quoted(m.raw_json@) + "}"@
}

fn push_opt_quoted(v: &mut Vec<char>, o: &Option<String>)
    ensures
        final(v)@ == old(v)@ + opt_quoted(crate::agent_core::opt_str(*o)),
{
    match o {
        Some(x) => push_str(v, json_quote(x.as_str()).as_str()),
        None => push_str(v, "null"),
    }
}

pub fn channel_message_body(m: &ChannelMessage) -> (s: String)
    ensures
        s@ == channel_message_text(*m),
{
    let mut v: Vec<char> = Vec::new();
    push_str(&mut v, "{\"channel_msg_id\":");
    push_str(&mut v, json_quote(m.channel_msg_id.as_str()).as_str());
    push_str(&mut v, ",\"sender_id\":");
    push_str(&mut v, json_quote(m.sender_id.as_str()).as_str());
    push_str(&mut v, ",\"conversation_id\":");
    push_opt_quoted(&mut v, &m.conversation_id);
    push_str(&mut v, ",\"agent_id\":");
    push_opt_quoted(&mut v, &m.agent_id);
    push_str(&mut v, ",\"text\":");
    push_str(&mut v, json_quote(m.text.as_str()).as_str());
    push_str(&mut v, ",\"raw_json\":");
    push_str(&mut v, json_quote(m.raw_json.as_str()).as_str());
    push_str(&mut v, "}");
    string_from_chars(v.as_slice())
}

/// Whether waiting for a pairing has run out: never with a zero timeout,
/// else once more than the timeout has passed.
pub fn pairing_expired(elapsed_ms: u64, timeout_secs: u64) -> (r: bool)
    ensures
        r == (timeout_secs > 0 && elapsed_ms > timeout_secs * 1000),
{
    if timeout_secs == 0 {
        false
    } else if timeout_secs > u64::MAX / 1000 {
        false
    } else {
        elapsed_ms > timeout_secs * 1000
    }
}

/// The error when no pairing arrived in time.
pub fn pairing_timeout_error(timeout_secs: u64) -> (s: String)
    ensures
        s@ == "pairing timed out after "@ + decimal(timeout_secs as nat) + "s"@,
{
    let mut v: Vec<char> = Vec::new();
    push_str(&mut v, "pairing timed out after ");
    push_all(&mut v, decimal_chars(timeout_secs).as_slice());
    push_str(&mut v, "s");
    string_from_chars(v.as_slice())
}

/// The instructions shown while waiting for a pairing, line by line.
pub open spec fn pair_banner_lines(code: Seq<char>) -> Seq<Seq<char>> {
    seq![
        Seq::empty(),
        "  ╔══════════════════════════════════════════╗"@,
        "  │  Open Telegram and message @Mycelium  │"@,
        "  │  Send:  /pair "@ + code + "                    │"@,
        "  ╚══════════════════════════════════════════╝"@,
        "  Waiting for pairing (Ctrl-C to skip)…"@,
        Seq::empty(),
    ]
}

pub fn pair_banner(code: &str) -> (lines: Vec<String>)
    ensures
        lines@.map_values(|l: String| l@) == pair_banner_lines(code@),
{
    let mut lines: Vec<String> = Vec::new();
    lines.push(String::new());
    lines.push("  ╔══════════════════════════════════════════╗".to_string());
    lines.push("  │  Open Telegram and message @Mycelium  │".to_string());
    lines.push(crate::store::join2(crate::store::join2("  │  Send:  /pair ", code).as_str(), "                    │"));
    lines.push("  ╚══════════════════════════════════════════╝".to_string());
    lines.push("  Waiting for pairing (Ctrl-C to skip)…".to_string());
    lines.push(String::new());
    assert(lines@.map_values(|l: String| l@) =~= pair_banner_lines(code@));
    lines
}

} // verus!
