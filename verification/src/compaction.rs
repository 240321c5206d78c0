//! History compaction: once a conversation grows past a message or
//! character threshold, everything but the most recent messages is
//! replaced by one system message holding an LLM-written summary.

use vstd::prelude::*;
use crate::text::{chars_of, push_str, string_from_chars, trim_chars, trimmed};
use crate::types::{Message, MessageRole, role_name, role_to_str};
use crate::store::clone_message;

verus! {

pub const DEFAULT_MSG_THRESHOLD: usize = 40;
pub const DEFAULT_CHAR_THRESHOLD: usize = 8_000;
/// Messages kept verbatim at the end of a compacted history.
pub const RESERVE_RECENT: usize = 10;

/// Total characters of the messages' contents.
pub open spec fn char_total(h: Seq<Message>) -> nat
    decreases h.len(),
{
    if h.len() == 0 {
        0
    } else {
        char_total(h.drop_last()) + h.last().content@.len()
    }
}

proof fn lemma_char_total_prefix(h: Seq<Message>, i: int)
    requires
        0 <= i <= h.len(),
    ensures
        char_total(h.take(i)) <= char_total(h),
    decreases h.len() - i,
{
    if i < h.len() {
        lemma_char_total_prefix(h, i + 1);
        assert(h.take(i + 1).drop_last() == h.take(i));
    } else {
        assert(h.take(i) == h);
    }
}

pub fn total_chars(history: &Vec<Message>) -> (n: usize)
    requires
        char_total(history@) <= usize::MAX,
    ensures
        n as nat == char_total(history@),
{
    let mut n: usize = 0;
    let mut i: usize = 0;
    while i < history.len()
        invariant
            i <= history.len(),
            char_total(history@) <= usize::MAX,
            n as nat == char_total(history@.take(i as int)),
        decreases history.len() - i,
    {
        assert(history@.take(i + 1).drop_last() == history@.take(i as int));
        assert(history@.take(i + 1).last() == history@[i as int]);
        proof {
            lemma_char_total_prefix(history@, i + 1);
        }
        let c = chars_of(history[i].content.as_str());
        n = n + c.len();
        i += 1;
    }
    assert(history@.take(history.len() as int) == history@);
    n
}

/// What to do with a history before a step.
#[derive(Clone, Copy, Debug, PartialEq, Eq, Structural)]
pub enum CompactionPlan {
    /// Under both thresholds.
    Keep,
    /// Over a threshold but nothing older than the reserved tail.
    TooShort,
    /// Summarise the first `split` messages, keep the rest.
    Compact { split: usize },
}

/// Compaction starts once the history exceeds `msg_threshold` messages or
/// 8000 characters, and only when there is something older than the last
/// ten messages.
pub fn plan_compaction(len: usize, chars: usize, msg_threshold: usize) -> (p: CompactionPlan)
    ensures
        len <= msg_threshold && chars <= DEFAULT_CHAR_THRESHOLD ==> p == CompactionPlan::Keep,
        !(len <= msg_threshold && chars <= DEFAULT_CHAR_THRESHOLD) && len <= RESERVE_RECENT ==> p
            == CompactionPlan::TooShort,
        !(len <= msg_threshold && chars <= DEFAULT_CHAR_THRESHOLD) && len > RESERVE_RECENT ==> p
            == (CompactionPlan::Compact { split: (len - RESERVE_RECENT) as usize }),
{
    if len <= msg_threshold && chars <= DEFAULT_CHAR_THRESHOLD {
        CompactionPlan::Keep
    } else if len <= RESERVE_RECENT {
        CompactionPlan::TooShort
    } else {
        CompactionPlan::Compact { split: len - RESERVE_RECENT }
    }
}

/// The message threshold of an agent: its own when set and non-zero, else
/// the default.
pub open spec fn threshold_of(t: Option<u32>) -> nat {
    match t {
        Some(n) if n > 0 => n as nat,
        _ => DEFAULT_MSG_THRESHOLD as nat,
    }
}

/// The compaction settings of a stored agent: its message threshold (zero
/// or unset falls back to the default) and the summariser model (its
/// compaction model when set, else its main model).
pub fn compaction_settings(a: &crate::store::StoredAgentConfig) -> (r: (usize, String))
    ensures
        r.0 as nat == threshold_of(a.compaction_threshold),
        r.1@ == match a.compaction_model {
            Some(m) => m@,
            None => a.model@,
        },
{
    let threshold: usize = match a.compaction_threshold {
        Some(n) => if n > 0 {
            n as usize
        } else {
            DEFAULT_MSG_THRESHOLD
        },
        None => DEFAULT_MSG_THRESHOLD,
    };
    let model = match &a.compaction_model {
        Some(m) => m.clone(),
        None => a.model.clone(),
    };
    (threshold, model)
}

/// One `role: content` line per message.
pub open spec fn transcript_of(h: Seq<Message>) -> Seq<char>
    decreases h.len(),
{
    if h.len() == 0 {
        Seq::empty()
    } else {
        transcript_of(h.drop_last()) + role_name(h.last().role) + ": "@ + h.last().content@ + "\n"@
    }
}

/// The transcript handed to the summariser.
pub fn transcript(head: &[Message]) -> (s: String)
    ensures
        s@ == transcript_of(head@),
{
    let mut v: Vec<char> = Vec::new();
    let mut i: usize = 0;
    while i < head.len()
        invariant
            i <= head.len(),
            v@ == transcript_of(head@.take(i as int)),
        decreases head.len() - i,
    {
        assert(head@.take(i + 1).drop_last() == head@.take(i as int));
        assert(head@.take(i + 1).last() == head@[i as int]);
        push_str(&mut v, role_to_str(head[i].role));
        push_str(&mut v, ": ");
        push_str(&mut v, head[i].content.as_str());
        push_str(&mut v, "\n");
        i += 1;
    }
    assert(head@.take(head.len() as int) == head@);
    string_from_chars(v.as_slice())
}

/// The user turn asking for the summary.
pub fn summary_request(transcript: &str) -> (s: String)
    ensures
        s@ == "Compress this transcript:\n\n"@ + transcript@,
{
    let mut v: Vec<char> = Vec::new();
    push_str(&mut v, "Compress this transcript:\n\n");
    push_str(&mut v, transcript);
    string_from_chars(v.as_slice())
}

/// The summariser's instructions.
pub fn summary_instructions() -> (s: &'static str)
    ensures
        s@ == "You compress prior chat history. Reply with ONE paragraph capturing every concrete fact, identity, decision, open question, and personal preference. Be terse. Do not invent."@,
{
    "You compress prior chat history. Reply with ONE paragraph capturing every concrete fact, identity, decision, open question, and personal preference. Be terse. Do not invent."
}

/// A summary is used only when it has non-whitespace content.
pub fn usable_summary(s: &str) -> (r: bool)
    ensures
        r == (trimmed(s@).len() > 0),
{
    let c = chars_of(s);
    let t = trim_chars(c.as_slice());
    t.len() > 0
}

/// Trusted: the current UTC time from `chrono::Utc::now()` in RFC 3339
/// with nanoseconds and a `Z` suffix; nothing is stated of it.
#[verifier::external_body]
pub fn now_iso_nanos() -> (s: String) {
    chrono::Utc::now().to_rfc3339_opts(chrono::SecondsFormat::Nanos, true)
}

/// The compacted history: a system message with the summary, then the
/// messages from `split` on, unchanged.
pub fn rewrite_history(history: &Vec<Message>, split: usize, summary: &str, summary_id: String, now: String) -> (out: Vec<Message>)
    requires
        split <= history@.len(),
    ensures
        out@.len() == history@.len() - split + 1,
        out@[0].role == MessageRole::System,
        out@[0].content@ == "context summary: "@ + summary@,
        out@[0].id@ == summary_id@,
        out@[0].tool_use_id is None,
        out@[0].created_at@ == now@,
        forall|i: int| 1 <= i < out@.len() ==> (#[trigger] out@[i])@ == history@[split + i - 1]@,
{
    let mut v: Vec<char> = Vec::new();
    push_str(&mut v, "context summary: ");
    push_str(&mut v, summary);
    let mut out: Vec<Message> = Vec::new();
    out.push(Message {
        id: summary_id,
        role: MessageRole::System,
        content: string_from_chars(v.as_slice()),
        tool_use_id: None,
        created_at: now,
    });
    let mut i: usize = split;
    while i < history.len()
        invariant
            split <= i <= history.len(),
            out@.len() == i - split + 1,
            out@[0].role == MessageRole::System,
            out@[0].content@ == "context summary: "@ + summary@,
            out@[0].id@ == summary_id@,
            out@[0].tool_use_id is None,
            out@[0].created_at@ == now@,
            forall|j: int| 1 <= j < out@.len() ==> (#[trigger] out@[j])@ == history@[split + j - 1]@,
        decreases history.len() - i,
    {
        out.push(clone_message(&history[i]));
        i += 1;
    }
    out
}

/// The history after a summary came back: a system message with a fresh
/// time-ordered id, stamped now, holding the summary, then the messages
/// from `split` on, unchanged.
pub fn compacted_history(history: &Vec<Message>, split: usize, summary: &str) -> (out: Vec<Message>)
    requires
        split <= history@.len(),
    ensures
        out@.len() == history@.len() - split + 1,
        out@[0].role == MessageRole::System,
        out@[0].content@ == "context summary: "@ + summary@,
        crate::router::uuid_form(out@[0].id@, '7'),
        out@[0].tool_use_id is None,
        forall|i: int| 1 <= i < out@.len() ==> (#[trigger] out@[i])@ == history@[split + i - 1]@,
{
    let id = crate::session::new_uuid_v7();
    let now = now_iso_nanos();
    rewrite_history(history, split, summary, id, now)
}

/// Compacting keeps the most recent messages verbatim: after a rewrite at
/// the planned split, the last `RESERVE_RECENT` messages are those of the
/// original history, and only the summary precedes them.
pub proof fn lemma_compaction_keeps_recent(history: Seq<Message>, out: Seq<Message>)
    requires
        history.len() > RESERVE_RECENT,
        out.len() == history.len() - (history.len() - RESERVE_RECENT) + 1,
        forall|i: int| 1 <= i < out.len() ==> (#[trigger] out[i])@ == history[(history.len() - RESERVE_RECENT) + i - 1]@,
    ensures
        out.len() == RESERVE_RECENT + 1,
        forall|k: int| 0 <= k < RESERVE_RECENT ==> (#[trigger] out[out.len() - RESERVE_RECENT + k])@ == history[history.len()
            - RESERVE_RECENT + k]@,
{
    assert forall|k: int| 0 <= k < RESERVE_RECENT implies (#[trigger] out[out.len() - RESERVE_RECENT + k])@
        == history[history.len() - RESERVE_RECENT + k]@ by {
        let i = out.len() - RESERVE_RECENT + k;
        assert(1 <= i < out.len());
        assert(out[i]@ == history[(history.len() - RESERVE_RECENT) + i - 1]@);
    }
}

/// The summariser's instructions, as text.
pub open spec fn summary_instructions_text() -> Seq<char> {
    "You compress prior chat history. Reply with ONE paragraph capturing every concrete fact, identity, decision, open question, and personal preference. Be terse. Do not invent."@
}

/// Body of the summariser call: the instructions as the system turn and
/// the transcript request as the user turn, to `model`, without streaming
/// and without tools.
pub fn summary_body(model: &str, transcript: &str) -> (s: String)
    ensures
        s@ == crate::step_wire::request_text(
            model@,
            seq![
                ("system"@, summary_instructions_text(), None::<Seq<char>>),
                ("user"@, "Compress this transcript:\n\n"@ + transcript@, None::<Seq<char>>),
            ],
            Seq::empty(),
        ),
{
    let mut ms: Vec<crate::agent_core::ChatMessage> = Vec::new();
    ms.push(crate::agent_core::ChatMessage { role: "system".to_string(), content: summary_instructions().to_string(), tool_call_id: None });
    ms.push(crate::agent_core::ChatMessage { role: "user".to_string(), content: summary_request(transcript), tool_call_id: None });
    let tools: Vec<String> = Vec::new();
    let s = crate::step_wire::request_body(model, &ms, &tools);
    assert(crate::step_wire::chat_views(ms@) =~= seq![
        ("system"@, summary_instructions_text(), None::<Seq<char>>),
        ("user"@, "Compress this transcript:\n\n"@ + transcript@, None::<Seq<char>>),
    ]);
    assert(tools@.map_values(|t: String| t@) =~= Seq::<Seq<char>>::empty());
    s
}

/// Payload of the `before-compaction` hook, members in sorted order.
pub open spec fn before_payload_text(conversation_id: Seq<char>, agent_id: Seq<char>, message_count: nat, char_count: nat) -> Seq<char> {
    "{\"agent_id\":"@ + crate::json::quoted(agent_id) + ",\"char_count\":"@ + crate::text::decimal(char_count)
        + ",\"conversation_id\":"@ + crate::json::quoted(conversation_id) + ",\"message_count\":"@
        + crate::text::decimal(message_count) + "}"@
}

pub fn before_compaction_payload(conversation_id: &str, agent_id: &str, message_count: usize, char_count: usize) -> (s: String)
    ensures
        s@ == before_payload_text(conversation_id@, agent_id@, message_count as nat, char_count as nat),
{
    let mut v: Vec<char> = Vec::new();
    push_str(&mut v, "{\"agent_id\":");
    push_str(&mut v, crate::json::json_quote(agent_id).as_str());
    push_str(&mut v, ",\"char_count\":");
    crate::text::push_all(&mut v, crate::text::decimal_chars(char_count as u64).as_slice());
    push_str(&mut v, ",\"conversation_id\":");
    push_str(&mut v, crate::json::json_quote(conversation_id).as_str());
    push_str(&mut v, ",\"message_count\":");
    crate::text::push_all(&mut v, crate::text::decimal_chars(message_count as u64).as_slice());
    push_str(&mut v, "}");
    string_from_chars(v.as_slice())
}

/// Payload of the `after-compaction` hook, members in sorted order.
pub open spec fn after_payload_text(conversation_id: Seq<char>, agent_id: Seq<char>, old_count: nat, new_count: nat, summary_chars: nat) -> Seq<char> {
    "{\"agent_id\":"@ + crate::json::quoted(agent_id) + ",\"conversation_id\":"@ + crate::json::quoted(conversation_id)
        + ",\"new_count\":"@ + crate::text::decimal(new_count) + ",\"old_count\":"@ + crate::text::decimal(old_count)
        + ",\"summary_chars\":"@ + crate::text::decimal(summary_chars) + "}"@
}

pub fn after_compaction_payload(conversation_id: &str, agent_id: &str, old_count: usize, new_count: usize, summary_chars: usize) -> (s: String)
    ensures
        s@ == after_payload_text(conversation_id@, agent_id@, old_count as nat, new_count as nat, summary_chars as nat),
{
    let mut v: Vec<char> = Vec::new();
    push_str(&mut v, "{\"agent_id\":");
    push_str(&mut v, crate::json::json_quote(agent_id).as_str());
    push_str(&mut v, ",\"conversation_id\":");
    push_str(&mut v, crate::json::json_quote(conversation_id).as_str());
    push_str(&mut v, ",\"new_count\":");
    crate::text::push_all(&mut v, crate::text::decimal_chars(new_count as u64).as_slice());
    push_str(&mut v, ",\"old_count\":");
    crate::text::push_all(&mut v, crate::text::decimal_chars(old_count as u64).as_slice());
    push_str(&mut v, ",\"summary_chars\":");
    crate::text::push_all(&mut v, crate::text::decimal_chars(summary_chars as u64).as_slice());
    push_str(&mut v, "}");
    string_from_chars(v.as_slice())
}

} // verus!
