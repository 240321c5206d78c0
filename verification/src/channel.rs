//! Inbound channel handling: admin slash commands, `/agent create`, which
//! agent serves a chat, and the chat-facing listings.

use vstd::prelude::*;
use crate::config::strings_view;
use crate::executor::DEFAULT_MAX_STEPS;
use crate::text::{chars_eq, chars_of, push_all, push_str, starts_with_chars, string_from_chars, take_chars, take_upto, trim_chars, trimmed};
use crate::types::{AgentConfig, Message, MessageRole};

verus! {

/// `s` cut at its first `c`: the part before it and, when `c` occurs, the
/// part after it (what `splitn(2, c)` yields).
pub open spec fn cut(s: Seq<char>, c: char) -> (Seq<char>, Option<Seq<char>>)
    decreases s.len(),
{
    if s.len() == 0 {
        (Seq::empty(), None)
    } else if s[0] == c {
        (Seq::empty(), Some(s.drop_first()))
    } else {
        let r = cut(s.drop_first(), c);
        (seq![s[0]] + r.0, r.1)
    }
}

/// Cuts `s` at its first `c`.
pub fn cut_at(s: &[char], c: char) -> (r: (Vec<char>, Option<Vec<char>>))
    ensures
        r.0@ == cut(s@, c).0,
        match r.1 {
            Some(t) => cut(s@, c).1 == Some(t@),
            None => cut(s@, c).1.is_none(),
        },
{
    let mut i: usize = 0;
    while i < s.len() && s[i] != c
        invariant
            i <= s.len(),
            forall|j: int| 0 <= j < i ==> s@[j] != c,
        decreases s.len() - i,
    {
        i += 1;
    }
    proof {
        lemma_cut(s@, c, i as int);
    }
    let mut head: Vec<char> = Vec::new();
    let mut j: usize = 0;
    while j < i
        invariant
            j <= i <= s.len(),
            head@ == s@.take(j as int),
        decreases i - j,
    {
        head.push(s[j]);
        assert(s@.take(j + 1) == s@.take(j as int).push(s@[j as int]));
        j += 1;
    }
    if i == s.len() {
        return (head, None);
    }
    let mut tail: Vec<char> = Vec::new();
    let mut k: usize = i + 1;
    while k < s.len()
        invariant
            i + 1 <= k <= s.len(),
            tail@ == s@.subrange(i + 1, k as int),
        decreases s.len() - k,
    {
        tail.push(s[k]);
        k += 1;
    }
    (head, Some(tail))
}

proof fn lemma_cut(s: Seq<char>, c: char, i: int)
    requires
        0 <= i <= s.len(),
        forall|j: int| 0 <= j < i ==> s[j] != c,
        i < s.len() ==> s[i] == c,
    ensures
        cut(s, c).0 == s.take(i),
        i == s.len() ==> cut(s, c).1.is_none(),
        i < s.len() ==> cut(s, c).1 == Some(s.skip(i + 1)),
    decreases s.len(),
{
    if s.len() > 0 && i > 0 {
        lemma_cut(s.drop_first(), c, i - 1);
        assert(seq![s[0]] + s.drop_first().take(i - 1) =~= s.take(i));
        if i < s.len() {
            assert(s.drop_first().skip(i) =~= s.skip(i + 1));
        }
    } else if s.len() > 0 {
        assert(s.take(0) =~= Seq::<char>::empty());
        assert(s.drop_first() =~= s.skip(1));
    } else {
        assert(s.take(0) =~= Seq::<char>::empty());
    }
}

/// The agent a `/agent create <id> <model> <prompt>` message registers:
/// id and model must be non-empty; the prompt is the rest (possibly empty).
pub open spec fn agent_create_fields(text: Seq<char>) -> Option<(Seq<char>, Seq<char>, Seq<char>)> {
    let p = "/agent create "@;
    if !p.is_prefix_of(text) {
        None
    } else {
        let rest = text.skip(p.len() as int);
        let a = cut(rest, ' ');
        match a.1 {
            None => None,
            Some(after) => {
                let b = cut(after, ' ');
                let prompt = match b.1 {
                    Some(t) => t,
                    None => Seq::empty(),
                };
                if a.0.len() == 0 || b.0.len() == 0 {
                    None
                } else {
                    Some((a.0, b.0, prompt))
                }
            },
        }
    }
}

/// The agent registered from the fields of `/agent create`: named after
/// its id, with no tools and the default step budget.
pub open spec fn registers(c: AgentConfig, f: (Seq<char>, Seq<char>, Seq<char>)) -> bool {
    &&& c.id@ == f.0
    &&& c.name@ == f.0
    &&& c.model@ == f.1
    &&& c.system_prompt@ == f.2
    &&& c.tools@.len() == 0
    &&& c.max_steps == DEFAULT_MAX_STEPS
}

/// Parses an `/agent create <id> <model> <prompt>` admin command into the
/// agent to register (named after its id, no tools, the default step
/// budget); `None` when the text is not such a command.
pub fn parse_agent_create(text: &str) -> (r: Option<AgentConfig>)
    ensures
        match agent_create_fields(text@) {
            None => r.is_none(),
            Some(f) => r matches Some(c) && registers(c, f),
        },
{
    let t = chars_of(text);
    let p = chars_of("/agent create ");
    if !starts_with_chars(t.as_slice(), p.as_slice()) {
        return None;
    }
    let mut rest: Vec<char> = Vec::new();
    let mut i = p.len();
    while i < t.len()
        invariant
            p.len() <= i <= t.len(),
            rest@ == t@.subrange(p.len() as int, i as int),
        decreases t.len() - i,
    {
        rest.push(t[i]);
        i += 1;
    }
    assert(rest@ =~= text@.skip(p@.len() as int));
    let (id, after) = cut_at(rest.as_slice(), ' ');
    let after = match after {
        None => return None,
        Some(a) => a,
    };
    let (model, prompt) = cut_at(after.as_slice(), ' ');
    if id.len() == 0 || model.len() == 0 {
        return None;
    }
    let prompt = match prompt {
        Some(p) => p,
        None => Vec::new(),
    };
    Some(
        AgentConfig {
            id: string_from_chars(id.as_slice()),
            name: string_from_chars(id.as_slice()),
            system_prompt: string_from_chars(prompt.as_slice()),
            model: string_from_chars(model.as_slice()),
            tools: Vec::new(),
            max_steps: DEFAULT_MAX_STEPS,
        },
    )
}

/// An admin command typed in chat.
#[derive(Debug)]
pub enum SlashCommand {
    /// `/help`, `/start`.
    Help,
    /// `/agents`.
    Agents,
    /// `/agent set <id>`.
    AgentSet(String),
    /// `/agent set` without an id.
    AgentSetUsage,
    /// `/agent` with anything but `set` or `create`.
    AgentUsage,
    /// `/reset`.
    Reset,
    /// `/memory`.
    Memory,
    /// `/tools`.
    Tools,
    /// `/quota`, `/budget`.
    Quota,
}

pub open spec fn ssv(c: SlashCommand) -> (int, Seq<char>) {
    match c {
        SlashCommand::Help => (0, Seq::empty()),
        SlashCommand::Agents => (1, Seq::empty()),
        SlashCommand::AgentSet(id) => (2, id@),
        SlashCommand::AgentSetUsage => (3, Seq::empty()),
        SlashCommand::AgentUsage => (4, Seq::empty()),
        SlashCommand::Reset => (5, Seq::empty()),
        SlashCommand::Memory => (6, Seq::empty()),
        SlashCommand::Tools => (7, Seq::empty()),
        SlashCommand::Quota => (8, Seq::empty()),
    }
}

/// The command a chat message stands for (as a tag and the `/agent set`
/// id), or `None` when the message is not an admin command handled here.
pub open spec fn slash_of(text: Seq<char>) -> Option<(int, Seq<char>)> {
    if text.len() == 0 || text[0] != '/' {
        None
    } else {
        let c = cut(text, ' ');
        let cmd = c.0;
        let rest = trimmed(
            match c.1 {
                Some(r) => r,
                None => Seq::empty(),
            },
        );
        if cmd == "/help"@ || cmd == "/start"@ {
            Some((0, Seq::empty()))
        } else if cmd == "/agents"@ {
            Some((1, Seq::empty()))
        } else if cmd == "/agent"@ {
            let s = cut(rest, ' ');
            if s.0 == "set"@ {
                let id = trimmed(
                    match s.1 {
                        Some(r) => r,
                        None => Seq::empty(),
                    },
                );
                if id.len() == 0 {
                    Some((3, Seq::empty()))
                } else {
                    Some((2, id))
                }
            } else if s.0 == "create"@ {
                None
            } else {
                Some((4, Seq::empty()))
            }
        } else if cmd == "/reset"@ {
            Some((5, Seq::empty()))
        } else if cmd == "/memory"@ {
            Some((6, Seq::empty()))
        } else if cmd == "/tools"@ {
            Some((7, Seq::empty()))
        } else if cmd == "/quota"@ || cmd == "/budget"@ {
            Some((8, Seq::empty()))
        } else {
            None
        }
    }
}

fn is_word(v: &Vec<char>, w: &str) -> (r: bool)
    ensures
        r == (v@ == w@),
{
    let wc = chars_of(w);
    chars_eq(v.as_slice(), wc.as_slice())
}

/// Parses an admin slash command. `/agent create ...` is left to
/// `parse_agent_create`.
pub fn parse_slash_command(text: &str) -> (r: Option<SlashCommand>)
    ensures
        match slash_of(text@) {
            None => r.is_none(),
            Some(v) => r matches Some(c) && ssv(c) == v,
        },
{
    let t = chars_of(text);
    if t.len() == 0 || t[0] != '/' {
        return None;
    }
    let (cmd, rest) = cut_at(t.as_slice(), ' ');
    let rest = match rest {
        Some(r) => r,
        None => Vec::new(),
    };
    let rest = trim_chars(rest.as_slice());
    if is_word(&cmd, "/help") || is_word(&cmd, "/start") {
        Some(SlashCommand::Help)
    } else if is_word(&cmd, "/agents") {
        Some(SlashCommand::Agents)
    } else if is_word(&cmd, "/agent") {
        let (sub, arg) = cut_at(rest.as_slice(), ' ');
        if is_word(&sub, "set") {
            let arg = match arg {
                Some(a) => a,
                None => Vec::new(),
            };
            let id = trim_chars(arg.as_slice());
            if id.len() == 0 {
                Some(SlashCommand::AgentSetUsage)
            } else {
                Some(SlashCommand::AgentSet(string_from_chars(id.as_slice())))
            }
        } else if is_word(&sub, "create") {
            None
        } else {
            Some(SlashCommand::AgentUsage)
        }
    } else if is_word(&cmd, "/reset") {
        Some(SlashCommand::Reset)
    } else if is_word(&cmd, "/memory") {
        Some(SlashCommand::Memory)
    } else if is_word(&cmd, "/tools") {
        Some(SlashCommand::Tools)
    } else if is_word(&cmd, "/quota") || is_word(&cmd, "/budget") {
        Some(SlashCommand::Quota)
    } else {
        None
    }
}

/// Which agent serves a chat, as far as it can be decided without the
/// registry.
#[derive(Debug)]
pub enum AgentChoice {
    /// This agent.
    Use(String),
    /// The first agent in the registry, if any.
    FirstRegistered,
}

/// Picks the agent for a chat: the chat's own choice when set and non-empty,
/// else the configured default unless it is empty or `auto`, else the
/// first registered agent.
pub fn choose_agent(chat_agent: &Option<String>, config_default: &str) -> (r: AgentChoice)
    ensures
        match chat_agent {
            Some(a) if a@.len() > 0 => r matches AgentChoice::Use(x) && x@ == a@,
            _ => if config_default@.len() > 0 && config_default@ != "auto"@ {
                r matches AgentChoice::Use(x) && x@ == config_default@
            } else {
                r is FirstRegistered
            },
        },
{
    match chat_agent {
        Some(a) => {
            if !a.as_str().is_empty() {
                return AgentChoice::Use(a.clone());
            }
        },
        None => {},
    }
    if !config_default.is_empty() && !crate::text::str_eq(config_default, "auto") {
        AgentChoice::Use(config_default.to_string())
    } else {
        AgentChoice::FirstRegistered
    }
}

/// Short speaker label used in `/memory`.
pub open spec fn speaker(r: MessageRole) -> Seq<char> {
    match r {
        MessageRole::User => "you"@,
        MessageRole::Assistant => "bot"@,
        MessageRole::System => "sys"@,
        MessageRole::Tool => "tool"@,
    }
}

fn speaker_of(r: MessageRole) -> (s: &'static str)
    ensures
        s@ == speaker(r),
{
    match r {
        MessageRole::User => "you",
        MessageRole::Assistant => "bot",
        MessageRole::System => "sys",
        MessageRole::Tool => "tool",
    }
}

/// Lines joined with `\n`.
pub open spec fn joined_lines(lines: Seq<Seq<char>>) -> Seq<char>
    decreases lines.len(),
{
    if lines.len() == 0 {
        Seq::empty()
    } else if lines.len() == 1 {
        lines[0]
    } else {
        joined_lines(lines.drop_last()) + "\n"@ + lines.last()
    }
}

/// One `/memory` line: speaker and the first 120 characters.
pub open spec fn memory_line(m: Message) -> Seq<char> {
    speaker(m.role) + ": "@ + take_upto(m.content@, 120)
}

/// The `/memory` reply for a conversation history: the last ten messages,
/// oldest first, one per line, or `(empty)`.
pub open spec fn memory_text(msgs: Seq<Message>) -> Seq<char> {
    let start = if msgs.len() > 10 {
        msgs.len() - 10
    } else {
        0
    };
    let tail = msgs.skip(start);
    if tail.len() == 0 {
        "(empty)"@
    } else {
        joined_lines(tail.map_values(|m: Message| memory_line(m)))
    }
}

/// The `/memory` reply.
pub fn memory_listing(msgs: &Vec<Message>) -> (s: String)
    ensures
        s@ == memory_text(msgs@),
{
    if msgs.len() == 0 {
        return "(empty)".to_string();
    }
    let start: usize = if msgs.len() > 10 {
        msgs.len() - 10
    } else {
        0
    };
    let ghost tail = msgs@.skip(start as int);
    let ghost lines = tail.map_values(|m: Message| memory_line(m));
    let mut v: Vec<char> = Vec::new();
    let mut i = start;
    while i < msgs.len()
        invariant
            start <= i <= msgs.len(),
            start < msgs.len(),
            tail == msgs@.skip(start as int),
            lines == tail.map_values(|m: Message| memory_line(m)),
            v@ == joined_lines(lines.take(i - start)),
        decreases msgs.len() - i,
    {
        let m = &msgs[i];
        assert(lines.take(i - start + 1).drop_last() =~= lines.take(i - start));
        assert(lines.take(i - start + 1).last() == memory_line(*m));
        if i > start {
            push_str(&mut v, "\n");
        }
        push_str(&mut v, speaker_of(m.role));
        push_str(&mut v, ": ");
        let c = chars_of(m.content.as_str());
        let snip = take_chars(c.as_slice(), 120);
        push_all(&mut v, snip.as_slice());
        i += 1;
    }
    assert(lines.take(msgs.len() - start) =~= lines);
    string_from_chars(v.as_slice())
}

/// One `/agents` line: `* ` for the chat's active agent, else two spaces,
/// then `<id> (<model>)`.
pub open spec fn agent_line(a: AgentConfig, active: Seq<char>) -> Seq<char> {
    (if a.id@ == active {
        "* "@
    } else {
        "  "@
    }) + a.id@ + " ("@ + a.model@ + ")"@
}

/// The `/agents` reply.
pub open spec fn agents_text(agents: Seq<AgentConfig>, active: Seq<char>) -> Seq<char> {
    if agents.len() == 0 {
        "no agents yet — use /agent create <id> <model> <prompt>"@
    } else {
        joined_lines(agents.map_values(|a: AgentConfig| agent_line(a, active)))
    }
}

/// The `/agents` reply; `active` is the chat's agent (`(none)` when unset).
pub fn agents_listing(agents: &Vec<AgentConfig>, active: &str) -> (s: String)
    ensures
        s@ == agents_text(agents@, active@),
{
    if agents.len() == 0 {
        return "no agents yet — use /agent create <id> <model> <prompt>".to_string();
    }
    let ghost lines = agents@.map_values(|a: AgentConfig| agent_line(a, active@));
    let mut v: Vec<char> = Vec::new();
    let mut i: usize = 0;
    while i < agents.len()
        invariant
            i <= agents.len(),
            agents.len() > 0,
            lines == agents@.map_values(|a: AgentConfig| agent_line(a, active@)),
            v@ == joined_lines(lines.take(i as int)),
        decreases agents.len() - i,
    {
        let a = &agents[i];
        assert(lines.take(i + 1).drop_last() =~= lines.take(i as int));
        assert(lines.take(i + 1).last() == agent_line(*a, active@));
        if i > 0 {
            push_str(&mut v, "\n");
        }
        if crate::text::str_eq(a.id.as_str(), active) {
            push_str(&mut v, "* ");
        } else {
            push_str(&mut v, "  ");
        }
        push_str(&mut v, a.id.as_str());
        push_str(&mut v, " (");
        push_str(&mut v, a.model.as_str());
        push_str(&mut v, ")");
        i += 1;
    }
    assert(lines.take(agents.len() as int) =~= lines);
    string_from_chars(v.as_slice())
}

/// The `/help` reply.
pub fn help_text() -> (s: &'static str)
    ensures
        s@ == "commands:\n/help — this menu\n/agents — list agents\n/agent set <id> — switch active agent for this chat\n/agent create <id> <model> <prompt> — register a new agent\n/reset — clear conversation history\n/memory — show last 10 messages\n/tools — list registered skills\n/quota — current LLM RPM / RPD"@,
{
    "commands:\n/help — this menu\n/agents — list agents\n/agent set <id> — switch active agent for this chat\n/agent create <id> <model> <prompt> — register a new agent\n/reset — clear conversation history\n/memory — show last 10 messages\n/tools — list registered skills\n/quota — current LLM RPM / RPD"
}

/// Confirmation after `/agent set <id>`.
pub fn agent_set_reply(id: &str) -> (s: String)
    ensures
        s@ == "default agent for this chat → "@ + id@,
{
    crate::store::join2("default agent for this chat → ", id)
}

/// The reply to `/agent` with anything but `set` or `create`.
pub fn agent_usage_text() -> (s: &'static str)
    ensures
        s@ == "usage: /agent set <id> | /agent create <id> <model> <prompt>"@,
{
    "usage: /agent set <id> | /agent create <id> <model> <prompt>"
}

/// The reply to `/agent set` without an id.
pub fn agent_set_usage_text() -> (s: &'static str)
    ensures
        s@ == "usage: /agent set <id>"@,
{
    "usage: /agent set <id>"
}

/// The reply to `/reset`: whether the chat had a conversation to clear.
pub fn reset_reply(had_conversation: bool) -> (s: &'static str)
    ensures
        s@ == if had_conversation {
            "conversation cleared."@
        } else {
            "nothing to reset."@
        },
{
    if had_conversation {
        "conversation cleared."
    } else {
        "nothing to reset."
    }
}

/// The `/memory` reply: none when the chat has no conversation, the
/// failure when the history could not be read, else the listing.
pub open spec fn memory_reply_of(history: Option<Result<Seq<Message>, Seq<char>>>) -> Seq<char> {
    match history {
        None => "no conversation yet."@,
        Some(Err(e)) => "get_messages failed: "@ + e,
        Some(Ok(msgs)) => memory_text(msgs),
    }
}

pub fn memory_reply(history: &Option<Result<Vec<Message>, String>>) -> (s: String)
    ensures
        s@ == memory_reply_of(match history {
            None => None,
            Some(Err(e)) => Some(Err(e@)),
            Some(Ok(m)) => Some(Ok(m@)),
        }),
{
    match history {
        None => "no conversation yet.".to_string(),
        Some(Err(e)) => crate::store::join2("get_messages failed: ", e.as_str()),
        Some(Ok(msgs)) => memory_listing(msgs),
    }
}

/// The `/agents` reply: the chat's agent is marked (`(none)` when the chat
/// has chosen none); a failed registry read is reported.
pub open spec fn agents_reply_of(active: Option<Seq<char>>, listed: Result<Seq<AgentConfig>, Seq<char>>) -> Seq<char> {
    match listed {
        Err(e) => "list_agents failed: "@ + e,
        Ok(agents) => agents_text(
            agents,
            match active {
                Some(a) => a,
                None => "(none)"@,
            },
        ),
    }
}

pub fn agents_reply(active: &Option<String>, listed: &Result<Vec<AgentConfig>, String>) -> (s: String)
    ensures
        s@ == agents_reply_of(
            crate::agent_core::opt_str(*active),
            match listed {
                Err(e) => Err(e@),
                Ok(v) => Ok(v@),
            },
        ),
{
    match listed {
        Err(e) => crate::store::join2("list_agents failed: ", e.as_str()),
        Ok(agents) => match active {
            Some(a) => agents_listing(agents, a.as_str()),
            None => agents_listing(agents, "(none)"),
        },
    }
}

} // verus!
