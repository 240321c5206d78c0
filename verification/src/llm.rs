//! The agent's LLM step: which settings apply, admission through the circuit
//! breaker and the rate caps, the retry policy of one LLM call, and how a
//! completion becomes a reply.

use vstd::prelude::*;
use crate::agent_core::{opt_str, ChatMessage};
use crate::config::{strings_view, Config};
use crate::executor::{calls_view, kept_calls, normalize_calls, RawCall, ToolCallSpec};
use crate::store::{clone_strings, StoredAgentConfig};
use crate::text::{chars_of, decimal, decimal_chars, parse_u64, parse_u64_spec, push_all, push_str, starts_with_chars, string_from_chars, take_chars, take_upto};
use crate::types::{role_name, role_to_str, Message, MessageRole};

verus! {

/// One tool call of an LLM turn.
#[derive(Debug)]
pub struct ToolCall {
    pub id: String,
    pub name: String,
    /// Raw JSON string as the LLM emits it.
    pub arguments: String,
}

impl View for ToolCall {
    type V = (Seq<char>, Seq<char>, Seq<char>);

    open spec fn view(&self) -> Self::V {
        (self.id@, self.name@, self.arguments@)
    }
}

/// One assistant turn from the LLM: a plain text reply or tool calls.
#[derive(Debug)]
pub enum LlmReply {
    Text(String),
    Tools(Vec<ToolCall>),
}

/// The reply a completion stands for: its named tool calls when there are
/// any, else its text content (empty when absent).
pub open spec fn reply_of(calls: Option<Seq<RawCall>>, content: Option<Seq<char>>) -> Result<
    Seq<(Seq<char>, Seq<char>, Seq<char>)>,
    Seq<char>,
> {
    match calls {
        Some(c) if kept_calls(c).len() > 0 => Ok(kept_calls(c)),
        _ => Err(
            match content {
                Some(t) => t,
                None => Seq::empty(),
            },
        ),
    }
}

pub open spec fn reply_view(r: LlmReply) -> Result<Seq<(Seq<char>, Seq<char>, Seq<char>)>, Seq<char>> {
    match r {
        LlmReply::Tools(v) => Ok(v@.map_values(|c: ToolCall| c@)),
        LlmReply::Text(t) => Err(t@),
    }
}

fn to_tool_calls(v: Vec<ToolCallSpec>) -> (out: Vec<ToolCall>)
    ensures
        out@.map_values(|c: ToolCall| c@) == calls_view(v@),
{
    let ghost src = v@;
    let mut out: Vec<ToolCall> = Vec::new();
    for c in it: v
        invariant
            it.seq() == src,
            out@.map_values(|c: ToolCall| c@) == calls_view(src.take(it.index() as int)),
    {
        let ghost n = it.index();
        let ghost prev = out@;
        let t = ToolCall { id: c.id, name: c.name, arguments: c.arguments };
        out.push(t);
        assert(calls_view(src.take(n + 1)) =~= calls_view(src.take(n as int)).push(src[n as int]@));
        assert(out@.map_values(|c: ToolCall| c@) =~= prev.map_values(|c: ToolCall| c@).push(t@));
    }
    assert(src.take(src.len() as int) =~= src);
    out
}

/// Interprets a completion: `calls` are the entries of
/// `choices[0].message.tool_calls` (when it is an array) and `content` is
/// `choices[0].message.content` (when it is a string).
pub fn reply_from_completion(calls: Option<Vec<RawCall>>, content: Option<String>) -> (r: LlmReply)
    ensures
        reply_view(r) == reply_of(
            match calls {
                Some(c) => Some(c@),
                None => None,
            },
            opt_str(content),
        ),
{
    match calls {
        Some(c) => {
            let kept = normalize_calls(c.as_slice());
            if kept.len() > 0 {
                return LlmReply::Tools(to_tool_calls(kept));
            }
        },
        None => {},
    }
    match content {
        Some(t) => LlmReply::Text(t),
        None => LlmReply::Text(String::new()),
    }
}

/// The verdict of a rate cap on a counter: the budget left, or how far over
/// it the counter is. A zero cap disables the check.
pub open spec fn rate_verdict_of(cap: u64, count: u64) -> Result<u64, u64> {
    if cap == 0 {
        Ok(u64::MAX)
    } else if count <= cap {
        Ok((cap - count) as u64)
    } else {
        Err((count - cap) as u64)
    }
}

/// Checks a rate counter (already bumped for this call) against its cap.
pub fn rate_verdict(cap: u64, count: u64) -> (r: Result<u64, u64>)
    ensures
        r == rate_verdict_of(cap, count),
{
    if cap == 0 {
        Ok(u64::MAX)
    } else if count <= cap {
        Ok(cap - count)
    } else {
        Err(count - cap)
    }
}

/// The counter value after one more request: the stored number (0 when
/// missing or unreadable) plus one.
pub open spec fn bumped(stored: Option<Seq<char>>) -> nat {
    match stored {
        Some(s) => match parse_u64_spec(s) {
            Some(n) => (n + 1) as nat,
            None => 1,
        },
        None => 1,
    }
}

/// Next value of a request counter.
pub fn next_count(stored: &Option<String>) -> (n: u64)
    requires
        bumped(opt_str(*stored)) <= u64::MAX,
    ensures
        n == bumped(opt_str(*stored)),
{
    match stored {
        Some(s) => match parse_u64(s.as_str()) {
            Some(n) => n + 1,
            None => 1,
        },
        None => 1,
    }
}

/// Rate window of a counter.
#[derive(Clone, Copy, Debug, PartialEq, Eq, Structural)]
pub enum RateWindow {
    Minute,
    Day,
}

pub open spec fn window_name(w: RateWindow) -> Seq<char> {
    match w {
        RateWindow::Minute => "min"@,
        RateWindow::Day => "day"@,
    }
}

/// Index of the window that contains `now` (seconds since the epoch).
pub open spec fn window_index(w: RateWindow, now: u64) -> nat {
    match w {
        RateWindow::Minute => (now / 60) as nat,
        RateWindow::Day => (now / 86400) as nat,
    }
}

/// KV key of an agent's request counter for the window holding `now`:
/// `rate/<agent>/<min|day>/<window index>`.
pub fn rate_key(agent_id: &str, w: RateWindow, now: u64) -> (s: String)
    ensures
        s@ == "rate/"@ + agent_id@ + "/"@ + window_name(w) + "/"@ + decimal(window_index(w, now)),
{
    let mut v: Vec<char> = Vec::new();
    push_str(&mut v, "rate/");
    push_str(&mut v, agent_id);
    push_str(&mut v, "/");
    let idx = match w {
        RateWindow::Minute => {
            push_str(&mut v, "min");
            now / 60
        },
        RateWindow::Day => {
            push_str(&mut v, "day");
            now / 86400
        },
    };
    push_str(&mut v, "/");
    let d = decimal_chars(idx);
    push_all(&mut v, d.as_slice());
    string_from_chars(v.as_slice())
}

/// Consecutive failures that open the circuit breaker.
pub const CIRCUIT_FAIL_THRESHOLD: u64 = 5;

/// How long the breaker stays open, in seconds.
pub const CIRCUIT_COOLDOWN_S: u64 = 60;

/// Seconds left until the breaker closes, when it is open at `now`.
pub fn circuit_remaining(open_until: Option<u64>, now: u64) -> (r: Option<u64>)
    ensures
        match open_until {
            Some(u) if u > now => r == Some((u - now) as u64),
            _ => r.is_none(),
        },
{
    match open_until {
        Some(u) => {
            if u > now {
                Some(u - now)
            } else {
                None
            }
        },
        None => None,
    }
}

/// After a failed call brings the failure counter to `fails`: the time the
/// breaker opens until, or `None` when it stays closed.
pub fn circuit_after_failure(fails: u64, now: u64) -> (r: Option<u64>)
    requires
        now <= u64::MAX - CIRCUIT_COOLDOWN_S,
    ensures
        fails >= CIRCUIT_FAIL_THRESHOLD ==> r == Some((now + CIRCUIT_COOLDOWN_S) as u64),
        fails < CIRCUIT_FAIL_THRESHOLD ==> r.is_none(),
{
    if fails >= CIRCUIT_FAIL_THRESHOLD {
        Some(now + CIRCUIT_COOLDOWN_S)
    } else {
        None
    }
}

/// The next thing the agent does before calling the LLM.
#[derive(Debug)]
pub enum Gate {
    /// Bump and check the per-day counter.
    CheckDay,
    /// Bump and check the per-minute counter.
    CheckMinute,
    /// Call the LLM.
    Proceed,
    /// Answer the task with this error instead.
    Refuse(String),
}

pub open spec fn circuit_msg(cooldown: u64) -> Seq<char> {
    "circuit open; retry in "@ + decimal(cooldown as nat) + "s after repeated LLM failures"@
}

pub open spec fn day_msg(over: u64) -> Seq<char> {
    "daily LLM budget exceeded ("@ + decimal(over as nat) + " over cap); resets at UTC midnight"@
}

pub open spec fn minute_msg(over: u64) -> Seq<char> {
    "rate limit hit ("@ + decimal(over as nat) + " over budget this minute); try again shortly"@
}

fn message3(a: &str, n: u64, b: &str) -> (s: String)
    ensures
        s@ == a@ + decimal(n as nat) + b@,
{
    let mut v: Vec<char> = Vec::new();
    push_str(&mut v, a);
    let d = decimal_chars(n);
    push_all(&mut v, d.as_slice());
    push_str(&mut v, b);
    string_from_chars(v.as_slice())
}

/// First gate: an open breaker refuses at once; otherwise the day cap is
/// checked next.
pub fn gate_circuit(cooldown: Option<u64>) -> (g: Gate)
    ensures
        match cooldown {
            Some(c) => g matches Gate::Refuse(m) && m@ == circuit_msg(c),
            None => g is CheckDay,
        },
{
    match cooldown {
        Some(c) => Gate::Refuse(message3("circuit open; retry in ", c, "s after repeated LLM failures")),
        None => Gate::CheckDay,
    }
}

/// Second gate: over the day cap refuses; otherwise the minute cap is next.
pub fn gate_day(verdict: Result<u64, u64>) -> (g: Gate)
    ensures
        match verdict {
            Err(over) => g matches Gate::Refuse(m) && m@ == day_msg(over),
            Ok(_) => g is CheckMinute,
        },
{
    match verdict {
        Err(over) => Gate::Refuse(message3("daily LLM budget exceeded (", over, " over cap); resets at UTC midnight")),
        Ok(_) => Gate::CheckMinute,
    }
}

/// Third gate: over the minute cap refuses; otherwise the LLM is called.
pub fn gate_minute(verdict: Result<u64, u64>) -> (g: Gate)
    ensures
        match verdict {
            Err(over) => g matches Gate::Refuse(m) && m@ == minute_msg(over),
            Ok(_) => g is Proceed,
        },
{
    match verdict {
        Err(over) => Gate::Refuse(message3("rate limit hit (", over, " over budget this minute); try again shortly")),
        Ok(_) => Gate::Proceed,
    }
}

/// Attempts per LLM call.
pub const MAX_ATTEMPTS: u32 = 4;

/// Longest wait between attempts, in seconds.
pub const MAX_DELAY_S: u64 = 60;

/// What follows one HTTP answer from the LLM endpoint.
#[derive(Debug, PartialEq, Eq, Structural)]
pub enum Attempt {
    /// 2xx: parse the completion.
    Success,
    /// Wait this many seconds, then try again.
    Retry(u64),
    /// Report the HTTP error.
    GiveUp,
}

/// Rate limiting (429) and server errors (5xx) are worth retrying.
pub open spec fn retryable(status: u16) -> bool {
    status == 429 || (500 <= status && status <= 599)
}

/// Seconds to wait before attempt `attempt + 1`: the server's hint, else
/// exponential backoff from one second, capped at a minute.
pub open spec fn backoff(hint: Option<u64>, attempt: u32) -> u64 {
    let d = match hint {
        Some(h) => h,
        None => vstd::arithmetic::power2::pow2((attempt - 1) as nat) as u64,
    };
    if d < MAX_DELAY_S {
        d
    } else {
        MAX_DELAY_S
    }
}

/// Retry policy of one LLM call after attempt number `attempt` (from 1).
pub fn attempt_outcome(status: u16, attempt: u32, hint: Option<u64>) -> (r: Attempt)
    requires
        1 <= attempt <= MAX_ATTEMPTS,
    ensures
        200 <= status <= 299 ==> r == Attempt::Success,
        !(200 <= status <= 299) && retryable(status) && attempt < MAX_ATTEMPTS ==> r == Attempt::Retry(
            backoff(hint, attempt),
        ),
        !(200 <= status <= 299) && !(retryable(status) && attempt < MAX_ATTEMPTS) ==> r
            == Attempt::GiveUp,
{
    if 200 <= status && status <= 299 {
        return Attempt::Success;
    }
    let is_retryable = status == 429 || (500 <= status && status <= 599);
    if is_retryable && attempt < MAX_ATTEMPTS {
        let d: u64 = match hint {
            Some(h) => h,
            None => {
                let sh: u64 = (attempt - 1) as u64;
                proof {
                    vstd::arithmetic::power2::lemma2_to64();
                    assert(sh <= 2);
                }
                let p = 1u64 << sh;
                proof {
                    assert(p == vstd::arithmetic::power2::pow2(sh as nat)) by {
                        vstd::bits::lemma_u64_shl_is_mul(1, sh);
                        vstd::arithmetic::power2::lemma_pow2(sh as nat);
                        vstd::arithmetic::power::lemma_pow1(2);
                    }
                }
                p
            },
        };
        let delay = if d < MAX_DELAY_S {
            d
        } else {
            MAX_DELAY_S
        };
        return Attempt::Retry(delay);
    }
    Attempt::GiveUp
}

/// Error text of a failed LLM call: the status and the first 400 characters
/// of the body.
pub fn http_error_text(status: u16, body: &str) -> (s: String)
    ensures
        s@ == "HTTP "@ + decimal(status as nat) + ": "@ + take_upto(body@, 400),
{
    let mut v: Vec<char> = Vec::new();
    push_str(&mut v, "HTTP ");
    let d = decimal_chars(status as u64);
    push_all(&mut v, d.as_slice());
    push_str(&mut v, ": ");
    let b = chars_of(body);
    let t = take_chars(b.as_slice(), 400);
    push_all(&mut v, t.as_slice());
    string_from_chars(v.as_slice())
}

/// URL scheme of an LLM endpoint.
#[derive(Clone, Copy, Debug, PartialEq, Eq, Structural)]
pub enum Scheme {
    Http,
    Https,
}

/// An endpoint URL split for an outgoing request.
#[derive(Debug)]
pub struct ParsedUrl {
    pub scheme: Scheme,
    pub authority: String,
    pub path_and_query: String,
}

/// The parts of `http://` or `https://` URLs: authority up to the first `/`,
/// path from it on (`/` when absent).
pub open spec fn url_parts(s: Seq<char>) -> Option<(Scheme, Seq<char>, Seq<char>)> {
    let (scheme, rest) = if "http://"@.is_prefix_of(s) {
        (Some(Scheme::Http), s.skip(7))
    } else if "https://"@.is_prefix_of(s) {
        (Some(Scheme::Https), s.skip(8))
    } else {
        (None, s)
    };
    match scheme {
        None => None,
        Some(sc) => {
            let c = crate::channel::cut(rest, '/');
            match c.1 {
                Some(p) => Some((sc, c.0, "/"@ + p)),
                None => Some((sc, rest, "/"@)),
            }
        },
    }
}

/// Splits an endpoint URL; other schemes are refused with
/// `unknown scheme: <url>`.
pub fn parse_url(s: &str) -> (r: Result<ParsedUrl, String>)
    ensures
        match url_parts(s@) {
            None => r matches Err(e) && e@ == "unknown scheme: "@ + s@,
            Some(p) => r matches Ok(u) && u.scheme == p.0 && u.authority@ == p.1
                && u.path_and_query@ == p.2,
        },
{
    proof {
        reveal_strlit("http://");
        reveal_strlit("https://");
    }
    let cs = chars_of(s);
    let http = chars_of("http://");
    let https = chars_of("https://");
    let (scheme, skip) = if starts_with_chars(cs.as_slice(), http.as_slice()) {
        (Scheme::Http, 7usize)
    } else if starts_with_chars(cs.as_slice(), https.as_slice()) {
        (Scheme::Https, 8usize)
    } else {
        return Err(crate::store::join2("unknown scheme: ", s));
    };
    let mut rest: Vec<char> = Vec::new();
    let mut i = skip;
    while i < cs.len()
        invariant
            skip <= i <= cs.len(),
            skip <= cs@.len(),
            rest@ == cs@.subrange(skip as int, i as int),
        decreases cs.len() - i,
    {
        rest.push(cs[i]);
        i += 1;
    }
    assert(rest@ =~= s@.skip(skip as int));
    let (auth, path) = crate::channel::cut_at(rest.as_slice(), '/');
    match path {
        Some(p) => {
            let mut pv: Vec<char> = Vec::new();
            push_str(&mut pv, "/");
            push_all(&mut pv, p.as_slice());
            Ok(
                ParsedUrl {
                    scheme,
                    authority: string_from_chars(auth.as_slice()),
                    path_and_query: string_from_chars(pv.as_slice()),
                },
            )
        },
        None => Ok(
            ParsedUrl {
                scheme,
                authority: string_from_chars(rest.as_slice()),
                path_and_query: "/".to_string(),
            },
        ),
    }
}

/// Settings of one agent step.
#[derive(Debug)]
pub struct StepSettings {
    pub system_prompt: String,
    pub model: String,
    pub endpoint: String,
    pub api_key: String,
    pub tools: Vec<String>,
}

/// A non-empty optional override, else the fallback.
pub open spec fn pick(o: Option<Seq<char>>, fallback: Seq<char>) -> Seq<char> {
    match o {
        Some(v) if v.len() > 0 => v,
        _ => fallback,
    }
}

fn pick_string(o: &Option<String>, fallback: &String) -> (s: String)
    ensures
        s@ == pick(opt_str(*o), fallback@),
{
    match o {
        Some(v) => {
            if !v.as_str().is_empty() {
                return v.clone();
            }
        },
        None => {},
    }
    fallback.clone()
}

/// The settings of a step for `agent_id`: the stored agent's prompt, and its
/// model, endpoint and key when set and non-empty, else the process config;
/// an unknown agent gets a generic prompt and no tools.
pub fn step_settings(stored: Option<&StoredAgentConfig>, config: &Config, agent_id: &str) -> (r:
    StepSettings)
    ensures
        match stored {
            Some(s) => r.system_prompt@ == s.system_prompt@ && r.model@ == pick(
                Some(s.model@),
                config.llm_model@,
            ) && r.endpoint@ == pick(opt_str(s.endpoint), config.llm_endpoint@) && r.api_key@
                == pick(opt_str(s.api_key), config.llm_api_key@) && strings_view(r.tools@)
                == strings_view(s.tools@),
            None => r.system_prompt@ == "You are mycelium agent "@ + agent_id@ + "."@ && r.model@
                == config.llm_model@ && r.endpoint@ == config.llm_endpoint@ && r.api_key@
                == config.llm_api_key@ && r.tools@.len() == 0,
        },
{
    match stored {
        Some(s) => {
            let m = Some(s.model.clone());
            StepSettings {
                system_prompt: s.system_prompt.clone(),
                model: pick_string(&m, &config.llm_model),
                endpoint: pick_string(&s.endpoint, &config.llm_endpoint),
                api_key: pick_string(&s.api_key, &config.llm_api_key),
                tools: clone_strings(&s.tools),
            }
        },
        None => {
            let mut v: Vec<char> = Vec::new();
            push_str(&mut v, "You are mycelium agent ");
            push_str(&mut v, agent_id);
            push_str(&mut v, ".");
            StepSettings {
                system_prompt: string_from_chars(v.as_slice()),
                model: config.llm_model.clone(),
                endpoint: config.llm_endpoint.clone(),
                api_key: config.llm_api_key.clone(),
                tools: Vec::new(),
            }
        },
    }
}

/// The messages of a step: the system prompt, then the history by role and
/// content.
pub open spec fn step_messages_of(system_prompt: Seq<char>, history: Seq<Message>) -> Seq<
    (Seq<char>, Seq<char>, Option<Seq<char>>),
> {
    seq![("system"@, system_prompt, None::<Seq<char>>)] + history.map_values(
        |m: Message| (role_name(m.role), m.content@, None::<Seq<char>>),
    )
}

/// Law: a step's messages are the system prompt, then one message per
/// history message, in order, with that message's content and the wire
/// name of its own role (an assistant's reply goes out as `assistant`, a
/// user's message as `user`, and so on).
pub proof fn lemma_step_messages_keep_roles(system_prompt: Seq<char>, history: Seq<Message>)
    ensures
        step_messages_of(system_prompt, history).len() == history.len() + 1,
        step_messages_of(system_prompt, history)[0] == ("system"@, system_prompt, None::<Seq<char>>),
        forall|i: int|
            0 <= i < history.len() ==> {
                let out = #[trigger] step_messages_of(system_prompt, history)[i + 1];
                &&& out.1 == history[i].content@
                &&& out.2 is None
                &&& history[i].role == MessageRole::User ==> out.0 == "user"@
                &&& history[i].role == MessageRole::Assistant ==> out.0 == "assistant"@
                &&& history[i].role == MessageRole::System ==> out.0 == "system"@
                &&& history[i].role == MessageRole::Tool ==> out.0 == "tool"@
            },
{
    let out = step_messages_of(system_prompt, history);
    assert forall|i: int| 0 <= i < history.len() implies ({
        let o = #[trigger] step_messages_of(system_prompt, history)[i + 1];
        &&& o.1 == history[i].content@
        &&& o.2 is None
        &&& history[i].role == MessageRole::User ==> o.0 == "user"@
        &&& history[i].role == MessageRole::Assistant ==> o.0 == "assistant"@
        &&& history[i].role == MessageRole::System ==> o.0 == "system"@
        &&& history[i].role == MessageRole::Tool ==> o.0 == "tool"@
    }) by {
        assert(out[i + 1] == (role_name(history[i].role), history[i].content@, None::<Seq<char>>));
    }
}

/// Messages sent to the LLM for one step.
pub fn step_messages(system_prompt: &String, history: &[Message]) -> (out: Vec<ChatMessage>)
    ensures
        out@.map_values(|c: ChatMessage| c@) == step_messages_of(system_prompt@, history@),
{
    let mut out: Vec<ChatMessage> = Vec::new();
    out.push(
        ChatMessage {
            role: "system".to_string(),
            content: system_prompt.clone(),
            tool_call_id: None,
        },
    );
    let ghost tail = history@.map_values(
        |m: Message| (role_name(m.role), m.content@, None::<Seq<char>>),
    );
    let mut i: usize = 0;
    while i < history.len()
        invariant
            i <= history.len(),
            tail == history@.map_values(
                |m: Message| (role_name(m.role), m.content@, None::<Seq<char>>),
            ),
            out@.map_values(|c: ChatMessage| c@) == seq![
                ("system"@, system_prompt@, None::<Seq<char>>),
            ] + tail.take(i as int),
        decreases history.len() - i,
    {
        let m = &history[i];
        let cm = ChatMessage {
            role: role_to_str(m.role).to_string(),
            content: m.content.clone(),
            tool_call_id: None,
        };
        assert(cm@ == tail[i as int]);
        let ghost prev = out@;
        out.push(cm);
        assert(out@.map_values(|c: ChatMessage| c@) =~= prev.map_values(|c: ChatMessage| c@).push(
            cm@,
        ));
        assert(tail.take(i + 1) == tail.take(i as int).push(tail[i as int]));
        i += 1;
    }
    assert(tail.take(history.len() as int) == tail);
    out
}

/// Settings of one step in the wasm agent, where the endpoint and model
/// come from component config with built-in fallbacks.
#[derive(Debug)]
pub struct ComponentStepSettings {
    pub endpoint: String,
    pub model: String,
    pub api_key: Option<String>,
    pub system_prompt: String,
    pub tools: Vec<String>,
}

/// The wasm agent's step settings: the stored agent's endpoint, model, key,
/// prompt and tools where it has them (the model even when empty); the
/// configured endpoint (a local default), model (a small default) and key
/// otherwise; a generic prompt for an unknown agent.
pub fn component_step_settings(
    stored: Option<&StoredAgentConfig>,
    endpoint_cfg: &Option<String>,
    model_cfg: &Option<String>,
    api_key_cfg: &Option<String>,
    agent_id: &str,
) -> (r: ComponentStepSettings)
    ensures
        r.endpoint@ == match stored {
            Some(s) if s.endpoint is Some => s.endpoint->0@,
            _ => match endpoint_cfg {
                Some(e) => e@,
                None => "http://host.docker.internal:11434/v1/chat/completions"@,
            },
        },
        r.model@ == match stored {
            Some(s) => s.model@,
            None => match model_cfg {
                Some(m) => m@,
                None => "qwen2.5:0.5b"@,
            },
        },
        opt_str(r.api_key) == match stored {
            Some(s) if s.api_key is Some => opt_str(s.api_key),
            _ => opt_str(*api_key_cfg),
        },
        r.system_prompt@ == match stored {
            Some(s) => s.system_prompt@,
            None => "You are mycelium agent "@ + agent_id@ + "."@,
        },
        strings_view(r.tools@) == match stored {
            Some(s) => strings_view(s.tools@),
            None => Seq::<Seq<char>>::empty(),
        },
{
    let endpoint = match stored {
        Some(s) if s.endpoint.is_some() => crate::agent_core::clone_opt(&s.endpoint).unwrap(),
        _ => match endpoint_cfg {
            Some(e) => e.clone(),
            None => "http://host.docker.internal:11434/v1/chat/completions".to_string(),
        },
    };
    let model = match stored {
        Some(s) => s.model.clone(),
        None => match model_cfg {
            Some(m) => m.clone(),
            None => "qwen2.5:0.5b".to_string(),
        },
    };
    let api_key = match stored {
        Some(s) if s.api_key.is_some() => crate::agent_core::clone_opt(&s.api_key),
        _ => crate::agent_core::clone_opt(api_key_cfg),
    };
    let system_prompt = match stored {
        Some(s) => s.system_prompt.clone(),
        None => {
            let mut v: Vec<char> = Vec::new();
            push_str(&mut v, "You are mycelium agent ");
            push_str(&mut v, agent_id);
            push_str(&mut v, ".");
            string_from_chars(v.as_slice())
        },
    };
    let tools = match stored {
        Some(s) => clone_strings(&s.tools),
        None => {
            let t: Vec<String> = Vec::new();
            assert(strings_view(t@) =~= Seq::<Seq<char>>::empty());
            t
        },
    };
    ComponentStepSettings { endpoint, model, api_key, system_prompt, tools }
}

/// Whether this runner is the first to claim a step (the claim counter
/// reads 1 after its increment); later claimers drop the step.
pub fn claim_won(count_after_increment: u64) -> (r: bool)
    ensures
        r == (count_after_increment == 1),
{
    count_after_increment == 1
}

} // verus!
