//! Key schemes and record logic of the KV-backed stores: agent registry,
//! conversations and messages, agent memory.

use vstd::prelude::*;
use crate::agent_core::{clone_opt, opt_str};
use crate::config::strings_view;
use crate::text::{all_digits, chars_of, decimal, digit_char, digits_value, is_digit, padded_decimal_chars, push_all, push_str, starts_with_chars, string_from_chars, trim_chars, trimmed, zero_pad};
use crate::types::{AgentConfig, Conversation, Message, MessageRole};

verus! {

/// Errors of the stores, mirroring the domain error of the component API.
#[derive(Debug)]
pub enum DomainError {
    NotFound(String),
    Validation(String),
    Conflict(String),
    Backend(String),
    Internal(String),
}

/// Agent config as stored: the public config plus KV-side extension fields.
#[derive(Debug)]
pub struct StoredAgentConfig {
    pub id: String,
    pub name: String,
    pub system_prompt: String,
    pub model: String,
    pub tools: Vec<String>,
    pub max_steps: u32,
    pub endpoint: Option<String>,
    pub api_key: Option<String>,
    /// Compaction trigger (message count); zero or `None` means the default.
    pub compaction_threshold: Option<u32>,
    /// Cheaper model for summarisation; `None` means the agent's model.
    pub compaction_model: Option<String>,
}

/// The public fields of a config, as characters.
pub open spec fn agent_fields(
    id: String,
    name: String,
    system_prompt: String,
    model: String,
    tools: Seq<String>,
    max_steps: u32,
) -> (Seq<char>, Seq<char>, Seq<char>, Seq<char>, Seq<Seq<char>>, u32) {
    (id@, name@, system_prompt@, model@, strings_view(tools), max_steps)
}

pub open spec fn config_fields(c: AgentConfig) -> (
    Seq<char>,
    Seq<char>,
    Seq<char>,
    Seq<char>,
    Seq<Seq<char>>,
    u32,
) {
    agent_fields(c.id, c.name, c.system_prompt, c.model, c.tools@, c.max_steps)
}

pub open spec fn stored_fields(s: StoredAgentConfig) -> (
    Seq<char>,
    Seq<char>,
    Seq<char>,
    Seq<char>,
    Seq<Seq<char>>,
    u32,
) {
    agent_fields(s.id, s.name, s.system_prompt, s.model, s.tools@, s.max_steps)
}

/// Copy of a list of strings.
pub fn clone_strings(v: &Vec<String>) -> (r: Vec<String>)
    ensures
        strings_view(r@) == strings_view(v@),
{
    let mut r: Vec<String> = Vec::new();
    let mut i: usize = 0;
    while i < v.len()
        invariant
            i <= v.len(),
            strings_view(r@) == strings_view(v@).take(i as int),
        decreases v.len() - i,
    {
        let ghost prev = r@;
        r.push(v[i].clone());
        assert(strings_view(r@) =~= strings_view(prev).push(v@[i as int]@));
        assert(strings_view(v@).take(i + 1) =~= strings_view(v@).take(i as int).push(v@[i as int]@));
        i += 1;
    }
    assert(strings_view(v@).take(v.len() as int) =~= strings_view(v@));
    r
}

impl StoredAgentConfig {
    /// Stored form of a public config; extension fields unset.
    pub fn from_config(c: &AgentConfig) -> (s: StoredAgentConfig)
        ensures
            stored_fields(s) == config_fields(*c),
            s.endpoint.is_none(),
            s.api_key.is_none(),
            s.compaction_threshold.is_none(),
            s.compaction_model.is_none(),
    {
        StoredAgentConfig {
            id: c.id.clone(),
            name: c.name.clone(),
            system_prompt: c.system_prompt.clone(),
            model: c.model.clone(),
            tools: clone_strings(&c.tools),
            max_steps: c.max_steps,
            endpoint: None,
            api_key: None,
            compaction_threshold: None,
            compaction_model: None,
        }
    }

    /// The public config carried by a stored record.
    pub fn to_config(&self) -> (c: AgentConfig)
        ensures
            config_fields(c) == stored_fields(*self),
    {
        AgentConfig {
            id: self.id.clone(),
            name: self.name.clone(),
            system_prompt: self.system_prompt.clone(),
            model: self.model.clone(),
            tools: clone_strings(&self.tools),
            max_steps: self.max_steps,
        }
    }
}

/// `"<prefix><a>"`.
pub fn join2(prefix: &str, a: &str) -> (s: String)
    ensures
        s@ == prefix@ + a@,
{
    let mut v: Vec<char> = Vec::new();
    push_str(&mut v, prefix);
    push_str(&mut v, a);
    string_from_chars(v.as_slice())
}

/// KV key of an agent record.
pub fn agent_key(id: &str) -> (s: String)
    ensures
        s@ == "agent/"@ + id@,
{
    join2("agent/", id)
}

/// KV key of one memory entry of an agent.
pub fn memory_key(agent_id: &str, key: &str) -> (s: String)
    ensures
        s@ == "memory/"@ + agent_id@ + "/"@ + key@,
{
    let mut v: Vec<char> = Vec::new();
    push_str(&mut v, "memory/");
    push_str(&mut v, agent_id);
    push_str(&mut v, "/");
    push_str(&mut v, key);
    string_from_chars(v.as_slice())
}

/// Prefix of all memory keys of an agent.
pub fn memory_prefix(agent_id: &str) -> (s: String)
    ensures
        s@ == "memory/"@ + agent_id@ + "/"@,
{
    let mut v: Vec<char> = Vec::new();
    push_str(&mut v, "memory/");
    push_str(&mut v, agent_id);
    push_str(&mut v, "/");
    string_from_chars(v.as_slice())
}

/// KV key of a conversation record.
pub fn conversation_key(id: &str) -> (s: String)
    ensures
        s@ == "conv/"@ + id@,
{
    join2("conv/", id)
}

/// Prefix of all message keys of a conversation.
pub fn message_prefix(conversation_id: &str) -> (s: String)
    ensures
        s@ == "msg/"@ + conversation_id@ + "/"@,
{
    let mut v: Vec<char> = Vec::new();
    push_str(&mut v, "msg/");
    push_str(&mut v, conversation_id);
    push_str(&mut v, "/");
    string_from_chars(v.as_slice())
}

/// Message key: the conversation prefix, the nanosecond stamp zero-padded to
/// 20 digits (so keys sort by time), `_`, and the message id.
pub open spec fn message_key_of(conversation_id: Seq<char>, stamp: u64, msg_id: Seq<char>) -> Seq<
    char,
> {
    "msg/"@ + conversation_id + "/"@ + zero_pad(decimal(stamp as nat), 20) + "_"@ + msg_id
}

/// KV key of a message.
pub fn message_key(conversation_id: &str, stamp: u64, msg_id: &str) -> (s: String)
    ensures
        s@ == message_key_of(conversation_id@, stamp, msg_id@),
{
    let mut v: Vec<char> = Vec::new();
    push_str(&mut v, "msg/");
    push_str(&mut v, conversation_id);
    push_str(&mut v, "/");
    let d = padded_decimal_chars(stamp, 20);
    push_all(&mut v, d.as_slice());
    push_str(&mut v, "_");
    push_str(&mut v, msg_id);
    string_from_chars(v.as_slice())
}

/// Why a registry operation was refused.
pub open spec fn create_refusal(id: Seq<char>, exists: bool) -> Option<Seq<char>> {
    if trimmed(id).len() == 0 {
        Some("agent id required"@)
    } else if exists {
        Some("agent "@ + id + " already exists"@)
    } else {
        None
    }
}

/// Registering an agent: the id must be non-blank and not taken. On success
/// the record to store (extension fields unset) is returned.
pub fn create_agent(config: &AgentConfig, exists: bool) -> (r: Result<StoredAgentConfig, DomainError>)
    ensures
        create_refusal(config.id@, exists) is None <==> r is Ok,
        r matches Ok(s) ==> stored_fields(s) == config_fields(*config) && s.endpoint.is_none()
            && s.api_key.is_none() && s.compaction_threshold.is_none() && s.compaction_model.is_none(),
        r matches Err(DomainError::Validation(m)) ==> trimmed(config.id@).len() == 0 && Some(m@)
            == create_refusal(config.id@, exists),
        r matches Err(DomainError::Conflict(m)) ==> trimmed(config.id@).len() > 0 && Some(m@)
            == create_refusal(config.id@, exists),
        r matches Err(e) ==> (e is Validation || e is Conflict),
{
    let idc = chars_of(config.id.as_str());
    let t = trim_chars(idc.as_slice());
    if t.len() == 0 {
        return Err(DomainError::Validation("agent id required".to_string()));
    }
    if exists {
        let mut v: Vec<char> = Vec::new();
        push_str(&mut v, "agent ");
        push_str(&mut v, config.id.as_str());
        push_str(&mut v, " already exists");
        return Err(DomainError::Conflict(string_from_chars(v.as_slice())));
    }
    Ok(StoredAgentConfig::from_config(config))
}

/// `"agent <id> not found"`.
pub fn agent_not_found(id: &str) -> (e: DomainError)
    ensures
        e matches DomainError::NotFound(m) && m@ == "agent "@ + id@ + " not found"@,
{
    let mut v: Vec<char> = Vec::new();
    push_str(&mut v, "agent ");
    push_str(&mut v, id);
    push_str(&mut v, " not found");
    DomainError::NotFound(string_from_chars(v.as_slice()))
}

/// Updating an agent: the record must exist; the new public fields replace
/// the old ones, the endpoint and API key are kept, the compaction settings
/// are reset.
pub fn update_agent(config: &AgentConfig, existing: Option<&StoredAgentConfig>) -> (r: Result<
    StoredAgentConfig,
    DomainError,
>)
    ensures
        existing is None ==> (r matches Err(DomainError::NotFound(m)) && m@ == "agent "@
            + config.id@ + " not found"@),
        existing matches Some(e) ==> (r matches Ok(s) && stored_fields(s) == config_fields(*config)
            && opt_str(s.endpoint) == opt_str(e.endpoint) && opt_str(s.api_key) == opt_str(e.api_key)
            && s.compaction_threshold.is_none() && s.compaction_model.is_none()),
{
    match existing {
        None => Err(agent_not_found(config.id.as_str())),
        Some(e) => {
            let mut s = StoredAgentConfig::from_config(config);
            s.endpoint = clone_opt(&e.endpoint);
            s.api_key = clone_opt(&e.api_key);
            Ok(s)
        },
    }
}

impl StoredAgentConfig {
    /// Points the agent at its own LLM endpoint and key (`None` falls back
    /// to the global ones); everything else is kept.
    pub fn set_endpoint_and_key(&mut self, endpoint: Option<String>, api_key: Option<String>)
        ensures
            final(self).endpoint == endpoint,
            final(self).api_key == api_key,
            stored_fields(*final(self)) == stored_fields(*old(self)),
            final(self).compaction_threshold == old(self).compaction_threshold,
            final(self).compaction_model == old(self).compaction_model,
    {
        self.endpoint = endpoint;
        self.api_key = api_key;
    }

    /// Replaces the agent's tool list; everything else is kept.
    pub fn set_tools(&mut self, tools: Vec<String>)
        ensures
            final(self).tools == tools,
            final(self).id == old(self).id,
            final(self).name == old(self).name,
            final(self).system_prompt == old(self).system_prompt,
            final(self).model == old(self).model,
            final(self).max_steps == old(self).max_steps,
            final(self).endpoint == old(self).endpoint,
            final(self).api_key == old(self).api_key,
    {
        self.tools = tools;
    }

    /// Replaces the agent's step budget; everything else is kept.
    pub fn set_max_steps(&mut self, max_steps: u32)
        ensures
            final(self).max_steps == max_steps,
            final(self).id == old(self).id,
            final(self).name == old(self).name,
            final(self).system_prompt == old(self).system_prompt,
            final(self).model == old(self).model,
            final(self).tools == old(self).tools,
            final(self).endpoint == old(self).endpoint,
            final(self).api_key == old(self).api_key,
    {
        self.max_steps = max_steps;
    }
}

/// The id of the first listed agent, if any.
pub fn first_agent_id(agents: &Vec<AgentConfig>) -> (r: Option<String>)
    ensures
        match r {
            Some(id) => agents@.len() > 0 && id@ == agents@[0].id@,
            None => agents@.len() == 0,
        },
{
    if agents.len() == 0 {
        None
    } else {
        Some(agents[0].id.clone())
    }
}

/// `s` with every leading repetition of `p` removed (nothing is removed
/// for an empty `p`).
pub open spec fn strip_all(s: Seq<char>, p: Seq<char>) -> Seq<char>
    decreases s.len(),
{
    if p.len() > 0 && p.is_prefix_of(s) {
        strip_all(s.skip(p.len() as int), p)
    } else {
        s
    }
}

fn strip_all_chars(s: &[char], p: &[char]) -> (v: Vec<char>)
    ensures
        v@ == strip_all(s@, p@),
{
    let mut i: usize = 0;
    if p.len() == 0 {
        return crate::text::slice_from(s, 0);
    }
    assert(s@.skip(0) == s@);
    while p.len() <= s.len() - i && starts_with_chars(crate::text::slice_from(s, i).as_slice(), p)
        invariant
            i <= s@.len(),
            p@.len() > 0,
            strip_all(s@, p@) == strip_all(s@.skip(i as int), p@),
        decreases s.len() - i,
    {
        assert(s@.skip(i as int).skip(p@.len() as int) == s@.skip(i + p@.len()));
        i = i + p.len();
    }
    crate::text::slice_from(s, i)
}

/// Memory keys of an agent as the wasm memory store lists them: the keys
/// under `memory/<agent>/` with every leading repetition of that prefix
/// trimmed.
pub open spec fn trimmed_suffixes(keys: Seq<Seq<char>>, prefix: Seq<char>) -> Seq<Seq<char>>
    decreases keys.len(),
{
    if keys.len() == 0 {
        Seq::empty()
    } else {
        let prev = trimmed_suffixes(keys.drop_last(), prefix);
        if prefix.is_prefix_of(keys.last()) {
            prev.push(strip_all(keys.last(), prefix))
        } else {
            prev
        }
    }
}

pub fn memory_keys_trimmed(all_keys: &Vec<String>, agent_id: &str) -> (out: Vec<String>)
    ensures
        strings_view(out@) == trimmed_suffixes(strings_view(all_keys@), "memory/"@ + agent_id@ + "/"@),
{
    let prefix = memory_prefix(agent_id);
    let p = chars_of(prefix.as_str());
    let mut out: Vec<String> = Vec::new();
    let mut i: usize = 0;
    while i < all_keys.len()
        invariant
            i <= all_keys@.len(),
            p@ == "memory/"@ + agent_id@ + "/"@,
            strings_view(out@) == trimmed_suffixes(strings_view(all_keys@).take(i as int), p@),
        decreases all_keys.len() - i,
    {
        let ghost kv = strings_view(all_keys@);
        assert(kv.take(i + 1).drop_last() == kv.take(i as int));
        assert(kv.take(i + 1).last() == all_keys@[i as int]@);
        let k = chars_of(all_keys[i].as_str());
        if starts_with_chars(k.as_slice(), p.as_slice()) {
            let t = strip_all_chars(k.as_slice(), p.as_slice());
            let ghost prev = out@;
            out.push(string_from_chars(t.as_slice()));
            assert(strings_view(out@) =~= strings_view(prev).push(t@));
        }
        i += 1;
    }
    assert(strings_view(all_keys@).take(all_keys@.len() as int) == strings_view(all_keys@));
    out
}

/// The acknowledgement of a memory write: `{"ok":true,"error":null}`, or
/// `ok` false with the error's text.
pub fn memory_ack(err: &Option<String>) -> (s: String)
    ensures
        s@ == match err {
            None => "{\"ok\":true,\"error\":null}"@,
            Some(e) => "{\"ok\":false,\"error\":"@ + crate::json::quoted(e@) + "}"@,
        },
{
    match err {
        None => "{\"ok\":true,\"error\":null}".to_string(),
        Some(e) => {
            let mut v: Vec<char> = Vec::new();
            push_str(&mut v, "{\"ok\":false,\"error\":");
            push_str(&mut v, crate::json::json_quote(e.as_str()).as_str());
            push_str(&mut v, "}");
            string_from_chars(v.as_slice())
        },
    }
}

/// Keys that begin with `prefix`, in order.
pub open spec fn keys_with_prefix(keys: Seq<Seq<char>>, prefix: Seq<char>) -> Seq<Seq<char>>
    decreases keys.len(),
{
    if keys.len() == 0 {
        Seq::empty()
    } else {
        let prev = keys_with_prefix(keys.drop_last(), prefix);
        if prefix.is_prefix_of(keys.last()) {
            prev.push(keys.last())
        } else {
            prev
        }
    }
}

/// Remainders after `prefix` of the keys that begin with it, in order.
pub open spec fn suffixes_after(keys: Seq<Seq<char>>, prefix: Seq<char>) -> Seq<Seq<char>>
    decreases keys.len(),
{
    if keys.len() == 0 {
        Seq::empty()
    } else {
        let prev = suffixes_after(keys.drop_last(), prefix);
        if prefix.is_prefix_of(keys.last()) {
            prev.push(keys.last().skip(prefix.len() as int))
        } else {
            prev
        }
    }
}

/// The keys that begin with `prefix` (optionally with the prefix removed).
fn select_keys(keys: &Vec<String>, prefix: &str, strip: bool) -> (out: Vec<String>)
    ensures
        strip ==> strings_view(out@) == suffixes_after(strings_view(keys@), prefix@),
        !strip ==> strings_view(out@) == keys_with_prefix(strings_view(keys@), prefix@),
{
    let p = chars_of(prefix);
    let ghost kv = strings_view(keys@);
    let mut out: Vec<String> = Vec::new();
    let mut i: usize = 0;
    while i < keys.len()
        invariant
            i <= keys.len(),
            p@ == prefix@,
            kv == strings_view(keys@),
            strip ==> strings_view(out@) == suffixes_after(kv.take(i as int), prefix@),
            !strip ==> strings_view(out@) == keys_with_prefix(kv.take(i as int), prefix@),
        decreases keys.len() - i,
    {
        assert(kv.take(i + 1).drop_last() == kv.take(i as int));
        assert(kv.take(i + 1).last() == keys@[i as int]@);
        let k = chars_of(keys[i].as_str());
        if starts_with_chars(k.as_slice(), p.as_slice()) {
            let ghost prev = out@;
            if strip {
                let mut rest: Vec<char> = Vec::new();
                let mut j = p.len();
                while j < k.len()
                    invariant
                        p.len() <= j <= k.len(),
                        rest@ == k@.subrange(p.len() as int, j as int),
                    decreases k.len() - j,
                {
                    rest.push(k[j]);
                    j += 1;
                }
                assert(rest@ =~= k@.skip(p.len() as int));
                out.push(string_from_chars(rest.as_slice()));
                assert(strings_view(out@) =~= strings_view(prev).push(rest@));
            } else {
                out.push(keys[i].clone());
                assert(strings_view(out@) =~= strings_view(prev).push(keys@[i as int]@));
            }
        }
        i += 1;
    }
    assert(kv.take(keys.len() as int) == kv);
    out
}

/// Law: once an entry is written under an agent's key, listing that
/// agent's memory gives the key back, after what was listed before.
pub proof fn lemma_memory_key_listed(keys: Seq<Seq<char>>, agent_id: Seq<char>, key: Seq<char>)
    ensures
        suffixes_after(keys.push("memory/"@ + agent_id + "/"@ + key), "memory/"@ + agent_id + "/"@)
            == suffixes_after(keys, "memory/"@ + agent_id + "/"@).push(key),
{
    let p = "memory/"@ + agent_id + "/"@;
    let full = "memory/"@ + agent_id + "/"@ + key;
    assert(full =~= p + key);
    assert(keys.push(full).drop_last() =~= keys);
    assert(p.is_prefix_of(full)) by {
        assert(full.subrange(0, p.len() as int) =~= p);
    }
    assert(full.skip(p.len() as int) =~= key);
}

/// The keys of `keys` that begin with `prefix`.
pub fn filter_prefix(keys: &Vec<String>, prefix: &str) -> (out: Vec<String>)
    ensures
        strings_view(out@) == keys_with_prefix(strings_view(keys@), prefix@),
{
    select_keys(keys, prefix, false)
}

/// Memory keys of an agent: the bucket keys under `memory/<agent>/`, with
/// that prefix removed.
pub fn memory_keys(all_keys: &Vec<String>, agent_id: &str) -> (out: Vec<String>)
    ensures
        strings_view(out@) == suffixes_after(
            strings_view(all_keys@),
            "memory/"@ + agent_id@ + "/"@,
        ),
{
    let prefix = memory_prefix(agent_id);
    select_keys(all_keys, prefix.as_str(), true)
}

impl View for Message {
    type V = (Seq<char>, MessageRole, Seq<char>, Option<Seq<char>>, Seq<char>);

    open spec fn view(&self) -> Self::V {
        (self.id@, self.role, self.content@, opt_str(self.tool_use_id), self.created_at@)
    }
}

/// Copy of a message.
pub fn clone_message(m: &Message) -> (r: Message)
    ensures
        r@ == m@,
{
    Message {
        id: m.id.clone(),
        role: m.role,
        content: m.content.clone(),
        tool_use_id: clone_opt(&m.tool_use_id),
        created_at: m.created_at.clone(),
    }
}

/// The messages after the first one whose id is `after_id` (all later
/// messages, in order); empty when no message has that id.
pub fn messages_after(all: &Vec<Message>, after_id: &str) -> (out: Vec<Message>)
    ensures
        (forall|j: int| 0 <= j < all@.len() ==> all@[j]@.0 != after_id@) ==> out@.len() == 0,
        forall|k: int|
            0 <= k < all@.len() && all@[k]@.0 == after_id@ && (forall|j: int| 0 <= j < k ==> all@[j]@.0 != after_id@)
                ==> out@.len() == all@.len() - k - 1 && forall|i: int|
                0 <= i < out@.len() ==> (#[trigger] out@[i])@ == all@[k + 1 + i]@,
{
    let mut found = false;
    let mut out: Vec<Message> = Vec::new();
    let mut i: usize = 0;
    let ghost mut k: int = -1;
    while i < all.len()
        invariant
            i <= all.len(),
            found <==> (0 <= k < i),
            !found ==> k == -1,
            !found ==> out@.len() == 0,
            !found ==> forall|j: int| 0 <= j < i ==> all@[j]@.0 != after_id@,
            found ==> all@[k]@.0 == after_id@ && (forall|j: int| 0 <= j < k ==> all@[j]@.0 != after_id@),
            found ==> out@.len() == i - k - 1 && forall|t: int|
                0 <= t < out@.len() ==> (#[trigger] out@[t])@ == all@[k + 1 + t]@,
        decreases all.len() - i,
    {
        if found {
            out.push(clone_message(&all[i]));
        } else if crate::text::str_eq(all[i].id.as_str(), after_id) {
            found = true;
            proof {
                k = i as int;
            }
        }
        i += 1;
    }
    out
}

/// A new conversation record: created and updated at `now`.
pub fn new_conversation(id: String, agent_id: String, title: Option<String>, now: String) -> (c:
    Conversation)
    ensures
        c.id == id,
        c.agent_id == agent_id,
        c.title == title,
        c.created_at@ == now@,
        c.updated_at@ == now@,
{
    Conversation { id, agent_id, title, created_at: now.clone(), updated_at: now }
}

/// A conversation opened now for `agent_id`: a fresh time-ordered id, and
/// the current time as both its creation and update stamp.
pub fn open_conversation(agent_id: String, title: Option<String>) -> (c: Conversation)
    ensures
        crate::router::uuid_form(c.id@, '7'),
        c.agent_id == agent_id,
        c.title == title,
        c.created_at@ == c.updated_at@,
{
    let id = crate::session::new_uuid_v7();
    let now = crate::compaction::now_iso_nanos();
    new_conversation(id, agent_id, title, now)
}

/// The conversations whose agent is `agent_id`, in order.
pub open spec fn of_agent(all: Seq<Conversation>, agent_id: Seq<char>) -> Seq<Conversation>
    decreases all.len(),
{
    if all.len() == 0 {
        Seq::empty()
    } else {
        let prev = of_agent(all.drop_last(), agent_id);
        if all.last().agent_id@ == agent_id {
            prev.push(all.last())
        } else {
            prev
        }
    }
}

/// Law: the conversations listed for an agent are exactly those of the
/// input whose agent id equals it, in input order: every listed one has
/// that agent id, and every input conversation with that agent id is
/// listed (an agent whose id merely starts the same is not).
pub proof fn lemma_conversations_of_exact_agent(all: Seq<Conversation>, agent_id: Seq<char>)
    ensures
        of_agent(all, agent_id) == all.filter(|c: Conversation| c.agent_id@ == agent_id),
        forall|i: int|
            0 <= i < of_agent(all, agent_id).len() ==> (#[trigger] of_agent(all, agent_id)[i]).agent_id@ == agent_id,
        forall|j: int|
            0 <= j < all.len() && all[j].agent_id@ == agent_id ==> #[trigger] of_agent(all, agent_id).contains(all[j]),
    decreases all.len(),
{
    let pred = |c: Conversation| c.agent_id@ == agent_id;
    reveal(Seq::filter);
    if all.len() > 0 {
        lemma_conversations_of_exact_agent(all.drop_last(), agent_id);
    }
    assert(of_agent(all, agent_id) == all.filter(pred));
    assert forall|i: int| 0 <= i < of_agent(all, agent_id).len() implies (#[trigger] of_agent(
        all,
        agent_id,
    )[i]).agent_id@ == agent_id by {
        all.lemma_filter_pred(pred, i);
    }
    assert forall|j: int| 0 <= j < all.len() && all[j].agent_id@ == agent_id implies #[trigger] of_agent(
        all,
        agent_id,
    ).contains(all[j]) by {
        all.lemma_filter_contains(pred, j);
    }
}

/// The conversations that belong to `agent_id`, in order.
pub fn conversations_of(all: Vec<Conversation>, agent_id: &str) -> (out: Vec<Conversation>)
    ensures
        out@ == of_agent(all@, agent_id@),
{
    let ghost src = all@;
    let mut out: Vec<Conversation> = Vec::new();
    for c in it: all
        invariant
            it.seq() == src,
            out@ == of_agent(src.take(it.index() as int), agent_id@),
    {
        let ghost n = it.index();
        assert(src.take(n + 1).drop_last() =~= src.take(n as int));
        assert(src.take(n + 1).last() == c);
        if crate::text::str_eq(c.agent_id.as_str(), agent_id) {
            out.push(c);
        }
    }
    assert(src.take(src.len() as int) =~= src);
    out
}

/// A new message record.
pub fn new_message(
    id: String,
    role: MessageRole,
    content: String,
    tool_use_id: Option<String>,
    now: String,
) -> (m: Message)
    ensures
        m.id == id,
        m.role == role,
        m.content == content,
        m.tool_use_id == tool_use_id,
        m.created_at == now,
{
    Message { id, role, content, tool_use_id, created_at: now }
}

/// A message written now: a fresh time-ordered id and the current time as
/// its stamp, together with the store key that files it under
/// `conversation_id` at the current nanosecond.
pub fn fresh_message(conversation_id: &str, role: MessageRole, content: String, tool_use_id: Option<String>) -> (r: (
    Message,
    String,
))
    ensures
        crate::router::uuid_form(r.0.id@, '7'),
        r.0.role == role,
        r.0.content == content,
        r.0.tool_use_id == tool_use_id,
        exists|stamp: u64| r.1@ == message_key_of(conversation_id@, stamp, r.0.id@),
{
    let id = crate::session::new_uuid_v7();
    let now = crate::compaction::now_iso_nanos();
    let stamp = crate::events::event_stamp(crate::events::now_nanos(), crate::session::now_unix_secs());
    let key = message_key(conversation_id, stamp, id.as_str());
    (new_message(id, role, content, tool_use_id, now), key)
}

/// `x` sorts before `y` character by character: they agree up to some
/// position where `x` has the smaller character.
pub open spec fn lex_lt(x: Seq<char>, y: Seq<char>) -> bool {
    exists|i: int| 0 <= i < x.len() && i < y.len() && x.take(i) == y.take(i) && #[trigger] x[i] < y[i]
}

pub open spec fn p10(k: nat) -> nat
    decreases k,
{
    if k == 0 {
        1
    } else {
        10 * p10((k - 1) as nat)
    }
}

proof fn lemma_decimal_digits(n: nat)
    ensures
        all_digits(decimal(n)),
        digits_value(decimal(n)) == n,
        decimal(n).len() >= 1,
    decreases n,
{
    if n < 10 {
        let c = digit_char(n);
        assert(decimal(n).drop_last() =~= Seq::<char>::empty());
        assert(decimal(n).last() == c);
        assert(c as nat == n + 48);
        assert(digits_value(decimal(n)) == digits_value(decimal(n).drop_last()) * 10 + ((c as nat) - 48) as nat);
    } else {
        lemma_decimal_digits(n / 10);
        vstd::arithmetic::div_mod::lemma_fundamental_div_mod(n as int, 10);
        let d = decimal(n);
        let c = digit_char(n % 10);
        assert(d.drop_last() == decimal(n / 10));
        assert(d.last() == c);
        assert(c as nat == n % 10 + 48);
        assert(digits_value(d) == digits_value(d.drop_last()) * 10 + ((c as nat) - 48) as nat);
        assert forall|i: int| 0 <= i < d.len() implies is_digit(#[trigger] d[i]) by {
            if i < d.len() - 1 {
                assert(d[i] == decimal(n / 10)[i]);
            }
        }
    }
}

proof fn lemma_decimal_len(n: nat, k: nat)
    requires
        k >= 1,
        n < p10(k),
    ensures
        decimal(n).len() <= k,
    decreases n,
{
    if n >= 10 {
        assert(k >= 2) by {
            if k == 1 {
                assert(p10(1) == 10 * p10(0));
            }
        }
        assert(n / 10 < p10((k - 1) as nat));
        lemma_decimal_len(n / 10, (k - 1) as nat);
    }
}

proof fn lemma_zeros_value(w: nat)
    ensures
        digits_value(Seq::new(w, |i: int| '0')) == 0,
        all_digits(Seq::new(w, |i: int| '0')),
    decreases w,
{
    if w > 0 {
        lemma_zeros_value((w - 1) as nat);
        assert(Seq::new(w, |i: int| '0').drop_last() =~= Seq::new((w - 1) as nat, |i: int| '0'));
    }
}

proof fn lemma_prefix_zeros_value(z: nat, s: Seq<char>)
    requires
        all_digits(s),
    ensures
        digits_value(Seq::new(z, |i: int| '0') + s) == digits_value(s),
        all_digits(Seq::new(z, |i: int| '0') + s),
    decreases s.len(),
{
    let zs = Seq::new(z, |i: int| '0');
    if s.len() == 0 {
        assert(zs + s =~= zs);
        lemma_zeros_value(z);
    } else {
        assert(all_digits(s.drop_last()));
        lemma_prefix_zeros_value(z, s.drop_last());
        assert((zs + s).drop_last() =~= zs + s.drop_last());
        assert((zs + s).last() == s.last());
    }
}

proof fn lemma_value_injective(x: Seq<char>, y: Seq<char>)
    requires
        x.len() == y.len(),
        all_digits(x),
        all_digits(y),
        digits_value(x) == digits_value(y),
    ensures
        x == y,
    decreases x.len(),
{
    if x.len() > 0 {
        assert(all_digits(x.drop_last()) && all_digits(y.drop_last()));
        assert(is_digit(x.last()) && is_digit(y.last()));
        lemma_value_injective(x.drop_last(), y.drop_last());
        assert(x =~= x.drop_last().push(x.last()));
        assert(y =~= y.drop_last().push(y.last()));
    } else {
        assert(x =~= y);
    }
}

proof fn lemma_value_order(x: Seq<char>, y: Seq<char>)
    requires
        x.len() == y.len(),
        all_digits(x),
        all_digits(y),
        digits_value(x) < digits_value(y),
    ensures
        lex_lt(x, y),
    decreases x.len(),
{
    let n = x.len();
    assert(n > 0);
    let xp = x.drop_last();
    let yp = y.drop_last();
    assert(all_digits(xp) && all_digits(yp));
    assert(is_digit(x.last()) && is_digit(y.last()));
    if digits_value(xp) == digits_value(yp) {
        lemma_value_injective(xp, yp);
        assert(x.take(n - 1) =~= xp);
        assert(y.take(n - 1) =~= yp);
        assert(x[n - 1] < y[n - 1]);
    } else {
        assert(digits_value(xp) < digits_value(yp));
        lemma_value_order(xp, yp);
        let i = choose|i: int| 0 <= i < xp.len() && i < yp.len() && xp.take(i) == yp.take(i) && #[trigger] xp[i] < yp[i];
        assert(x.take(i) =~= xp.take(i));
        assert(y.take(i) =~= yp.take(i));
        assert(x[i] == xp[i] && y[i] == yp[i]);
    }
}

/// The 20-digit stamp field of a message key: its digits and value.
proof fn lemma_stamp_field(stamp: u64)
    ensures
        zero_pad(decimal(stamp as nat), 20).len() == 20,
        all_digits(zero_pad(decimal(stamp as nat), 20)),
        digits_value(zero_pad(decimal(stamp as nat), 20)) == stamp,
{
    let d = decimal(stamp as nat);
    lemma_decimal_digits(stamp as nat);
    assert(p10(20) == 100000000000000000000nat) by {
        reveal_with_fuel(p10, 21);
    }
    lemma_decimal_len(stamp as nat, 20);
    if d.len() < 20 {
        lemma_prefix_zeros_value((20 - d.len()) as nat, d);
    }
}

/// Law: within one conversation, a message written at an earlier stamp has
/// a key that sorts before that of a later one, whatever the message ids;
/// so listing the keys in sorted order lists the messages in time order.
pub proof fn lemma_message_keys_in_time_order(
    conversation_id: Seq<char>,
    a: u64,
    id_a: Seq<char>,
    b: u64,
    id_b: Seq<char>,
)
    requires
        a < b,
    ensures
        lex_lt(message_key_of(conversation_id, a, id_a), message_key_of(conversation_id, b, id_b)),
{
    lemma_stamp_field(a);
    lemma_stamp_field(b);
    let pa = zero_pad(decimal(a as nat), 20);
    let pb = zero_pad(decimal(b as nat), 20);
    lemma_value_order(pa, pb);
    let i = choose|i: int| 0 <= i < pa.len() && i < pb.len() && pa.take(i) == pb.take(i) && #[trigger] pa[i] < pb[i];
    let pre = "msg/"@ + conversation_id + "/"@;
    let ka = message_key_of(conversation_id, a, id_a);
    let kb = message_key_of(conversation_id, b, id_b);
    assert(ka =~= pre + pa + ("_"@ + id_a));
    assert(kb =~= pre + pb + ("_"@ + id_b));
    let j = pre.len() + i;
    assert(ka.take(j) =~= pre + pa.take(i));
    assert(kb.take(j) =~= pre + pb.take(i));
    assert(ka[j] == pa[i]);
    assert(kb[j] == pb[i]);
}

} // verus!
