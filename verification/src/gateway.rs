//! The HTTP gateway's request mapping and JSON bodies. The server itself
//! runs outside; handlers get plain request values and hand back a status
//! and a JSON text.

use vstd::prelude::*;
use crate::json::{json_quote, quoted};
use crate::text::{decimal, decimal_chars, push_all, push_str, string_from_chars};
use crate::types::{AgentConfig, Conversation, Message, MessageRole, role_name, role_to_str};
use crate::executor::DEFAULT_MAX_STEPS;

verus! {

/// An agent as posted to the gateway.
#[derive(Debug)]
pub struct AgentReq {
    pub id: String,
    pub name: Option<String>,
    pub system_prompt: Option<String>,
    pub model: String,
    pub tools: Vec<String>,
    pub max_steps: u32,
}

/// The step budget of an agent posted without one.
pub fn default_max_steps() -> (n: u32)
    ensures
        n == DEFAULT_MAX_STEPS,
{
    4
}

/// The agent a request describes: named after its id unless a name is
/// given, with an empty prompt unless one is given.
pub fn agent_from_req(r: AgentReq) -> (c: AgentConfig)
    ensures
        c.id@ == r.id@,
        c.name@ == match r.name {
            Some(n) => n@,
            None => r.id@,
        },
        c.system_prompt@ == match r.system_prompt {
            Some(p) => p@,
            None => Seq::empty(),
        },
        c.model@ == r.model@,
        c.tools@ == r.tools@,
        c.max_steps == r.max_steps,
{
    let id = r.id.clone();
    AgentConfig {
        id,
        name: match r.name {
            Some(n) => n,
            None => r.id,
        },
        system_prompt: match r.system_prompt {
            Some(p) => p,
            None => String::new(),
        },
        model: r.model,
        tools: r.tools,
        max_steps: r.max_steps,
    }
}

/// Wire name of a role.
pub fn role_str(r: &MessageRole) -> (s: &'static str)
    ensures
        s@ == role_name(*r),
{
    role_to_str(*r)
}

/// A JSON array of strings.
pub open spec fn string_items(v: Seq<String>) -> Seq<char>
    decreases v.len(),
{
    if v.len() == 0 {
        Seq::empty()
    } else if v.len() == 1 {
        quoted(v[0]@)
    } else {
        string_items(v.drop_last()) + ","@ + quoted(v.last()@)
    }
}

fn push_string_array(out: &mut Vec<char>, v: &Vec<String>)
    ensures
        final(out)@ == old(out)@ + "["@ + string_items(v@) + "]"@,
{
    let ghost start = out@;
    push_str(out, "[");
    let mut i: usize = 0;
    while i < v.len()
        invariant
            i <= v@.len(),
            out@ == start + "["@ + string_items(v@.take(i as int)),
        decreases v.len() - i,
    {
        assert(v@.take(i + 1).drop_last() == v@.take(i as int));
        assert(v@.take(i + 1).last() == v@[i as int]);
        if i > 0 {
            push_str(out, ",");
        } else {
            assert(v@.take(1)[0] == v@[0]);
        }
        push_str(out, json_quote(v[i].as_str()).as_str());
        i += 1;
    }
    assert(v@.take(v@.len() as int) == v@);
    push_str(out, "]");
}

/// JSON of an agent, members in serde_json's (sorted) order.
pub open spec fn agent_json(c: AgentConfig) -> Seq<char> {
    "{\"id\":"@ + quoted(c.id@) + ",\"max_steps\":"@ + decimal(c.max_steps as nat) + ",\"model\":"@ + quoted(c.model@)
        + ",\"name\":"@ + quoted(c.name@) + ",\"system_prompt\":"@ + quoted(c.system_prompt@) + ",\"tools\":"@ + "["@
        + string_items(c.tools@) + "]"@ + "}"@
}

#[verifier::rlimit(40)]
fn push_agent(out: &mut Vec<char>, c: &AgentConfig)
    ensures
        final(out)@ == old(out)@ + agent_json(*c),
{
    let ghost start = out@;
    push_str(out, "{\"id\":");
    push_str(out, json_quote(c.id.as_str()).as_str());
    push_str(out, ",\"max_steps\":");
    push_all(out, decimal_chars(c.max_steps as u64).as_slice());
    push_str(out, ",\"model\":");
    push_str(out, json_quote(c.model.as_str()).as_str());
    push_str(out, ",\"name\":");
    push_str(out, json_quote(c.name.as_str()).as_str());
    push_str(out, ",\"system_prompt\":");
    push_str(out, json_quote(c.system_prompt.as_str()).as_str());
    push_str(out, ",\"tools\":");
    push_string_array(out, &c.tools);
    push_str(out, "}");
    assert(out@ =~= start + agent_json(*c));
}

/// The JSON body of one agent.
pub fn agent_to_json(c: &AgentConfig) -> (s: String)
    ensures
        s@ == agent_json(*c),
{
    let mut v: Vec<char> = Vec::new();
    push_agent(&mut v, c);
    string_from_chars(v.as_slice())
}

pub open spec fn agents_items(v: Seq<AgentConfig>) -> Seq<char>
    decreases v.len(),
{
    if v.len() == 0 {
        Seq::empty()
    } else if v.len() == 1 {
        agent_json(v[0])
    } else {
        agents_items(v.drop_last()) + ","@ + agent_json(v.last())
    }
}

/// The JSON body listing agents: `{"agents":[...]}`.
#[verifier::rlimit(40)]
pub fn agents_json(agents: &Vec<AgentConfig>) -> (s: String)
    ensures
        s@ == "{\"agents\":["@ + agents_items(agents@) + "]}"@,
{
    let mut v: Vec<char> = Vec::new();
    push_str(&mut v, "{\"agents\":[");
    let mut i: usize = 0;
    while i < agents.len()
        invariant
            i <= agents@.len(),
            v@ == "{\"agents\":["@ + agents_items(agents@.take(i as int)),
        decreases agents.len() - i,
    {
        assert(agents@.take(i + 1).drop_last() == agents@.take(i as int));
        assert(agents@.take(i + 1).last() == agents@[i as int]);
        if i > 0 {
            push_str(&mut v, ",");
        } else {
            assert(agents@.take(1)[0] == agents@[0]);
        }
        push_agent(&mut v, &agents[i]);
        i += 1;
    }
    assert(agents@.take(agents@.len() as int) == agents@);
    push_str(&mut v, "]}");
    string_from_chars(v.as_slice())
}

/// An optional string as JSON: the literal or `null`.
pub open spec fn opt_json(o: Option<String>) -> Seq<char> {
    match o {
        Some(s) => quoted(s@),
        None => "null"@,
    }
}

fn push_opt(out: &mut Vec<char>, o: &Option<String>)
    ensures
        final(out)@ == old(out)@ + opt_json(*o),
{
    match o {
        Some(s) => push_str(out, json_quote(s.as_str()).as_str()),
        None => push_str(out, "null"),
    }
}

/// JSON of a conversation, members in sorted order.
pub open spec fn conversation_json(c: Conversation) -> Seq<char> {
    "{\"agent_id\":"@ + quoted(c.agent_id@) + ",\"created_at\":"@ + quoted(c.created_at@) + ",\"id\":"@ + quoted(c.id@)
        + ",\"title\":"@ + opt_json(c.title) + ",\"updated_at\":"@ + quoted(c.updated_at@) + "}"@
}

#[verifier::rlimit(40)]
fn push_conversation(out: &mut Vec<char>, c: &Conversation)
    ensures
        final(out)@ == old(out)@ + conversation_json(*c),
{
    let ghost start = out@;
    push_str(out, "{\"agent_id\":");
    push_str(out, json_quote(c.agent_id.as_str()).as_str());
    push_str(out, ",\"created_at\":");
    push_str(out, json_quote(c.created_at.as_str()).as_str());
    push_str(out, ",\"id\":");
    push_str(out, json_quote(c.id.as_str()).as_str());
    push_str(out, ",\"title\":");
    push_opt(out, &c.title);
    push_str(out, ",\"updated_at\":");
    push_str(out, json_quote(c.updated_at.as_str()).as_str());
    push_str(out, "}");
    assert(out@ =~= start + conversation_json(*c));
}

/// The JSON body of one conversation.
pub fn conversation_to_json(c: &Conversation) -> (s: String)
    ensures
        s@ == conversation_json(*c),
{
    let mut v: Vec<char> = Vec::new();
    push_conversation(&mut v, c);
    string_from_chars(v.as_slice())
}

pub open spec fn conversations_items(v: Seq<Conversation>) -> Seq<char>
    decreases v.len(),
{
    if v.len() == 0 {
        Seq::empty()
    } else if v.len() == 1 {
        conversation_json(v[0])
    } else {
        conversations_items(v.drop_last()) + ","@ + conversation_json(v.last())
    }
}

/// The JSON body listing conversations.
#[verifier::rlimit(40)]
pub fn conversations_json(cs: &Vec<Conversation>) -> (s: String)
    ensures
        s@ == "{\"conversations\":["@ + conversations_items(cs@) + "]}"@,
{
    let mut v: Vec<char> = Vec::new();
    push_str(&mut v, "{\"conversations\":[");
    let mut i: usize = 0;
    while i < cs.len()
        invariant
            i <= cs@.len(),
            v@ == "{\"conversations\":["@ + conversations_items(cs@.take(i as int)),
        decreases cs.len() - i,
    {
        assert(cs@.take(i + 1).drop_last() == cs@.take(i as int));
        assert(cs@.take(i + 1).last() == cs@[i as int]);
        if i > 0 {
            push_str(&mut v, ",");
        } else {
            assert(cs@.take(1)[0] == cs@[0]);
        }
        push_conversation(&mut v, &cs[i]);
        i += 1;
    }
    assert(cs@.take(cs@.len() as int) == cs@);
    push_str(&mut v, "]}");
    string_from_chars(v.as_slice())
}

/// JSON of a message, members in sorted order.
pub open spec fn message_json(m: Message) -> Seq<char> {
    "{\"content\":"@ + quoted(m.content@) + ",\"created_at\":"@ + quoted(m.created_at@) + ",\"id\":"@ + quoted(m.id@)
        + ",\"role\":"@ + quoted(role_name(m.role)) + ",\"tool_use_id\":"@ + opt_json(m.tool_use_id) + "}"@
}

#[verifier::rlimit(40)]
fn push_message(out: &mut Vec<char>, m: &Message)
    ensures
        final(out)@ == old(out)@ + message_json(*m),
{
    let ghost start = out@;
    push_str(out, "{\"content\":");
    push_str(out, json_quote(m.content.as_str()).as_str());
    push_str(out, ",\"created_at\":");
    push_str(out, json_quote(m.created_at.as_str()).as_str());
    push_str(out, ",\"id\":");
    push_str(out, json_quote(m.id.as_str()).as_str());
    push_str(out, ",\"role\":");
    push_str(out, json_quote(role_str(&m.role)).as_str());
    push_str(out, ",\"tool_use_id\":");
    push_opt(out, &m.tool_use_id);
    push_str(out, "}");
    assert(out@ =~= start + message_json(*m));
}

/// The JSON body of one message.
pub fn message_to_json(m: &Message) -> (s: String)
    ensures
        s@ == message_json(*m),
{
    let mut v: Vec<char> = Vec::new();
    push_message(&mut v, m);
    string_from_chars(v.as_slice())
}

pub open spec fn messages_items(v: Seq<Message>) -> Seq<char>
    decreases v.len(),
{
    if v.len() == 0 {
        Seq::empty()
    } else if v.len() == 1 {
        message_json(v[0])
    } else {
        messages_items(v.drop_last()) + ","@ + message_json(v.last())
    }
}

/// The JSON body listing messages.
#[verifier::rlimit(40)]
pub fn messages_json(ms: &Vec<Message>) -> (s: String)
    ensures
        s@ == "{\"messages\":["@ + messages_items(ms@) + "]}"@,
{
    let mut v: Vec<char> = Vec::new();
    push_str(&mut v, "{\"messages\":[");
    let mut i: usize = 0;
    while i < ms.len()
        invariant
            i <= ms@.len(),
            v@ == "{\"messages\":["@ + messages_items(ms@.take(i as int)),
        decreases ms.len() - i,
    {
        assert(ms@.take(i + 1).drop_last() == ms@.take(i as int));
        assert(ms@.take(i + 1).last() == ms@[i as int]);
        if i > 0 {
            push_str(&mut v, ",");
        } else {
            assert(ms@.take(1)[0] == ms@[0]);
        }
        push_message(&mut v, &ms[i]);
        i += 1;
    }
    assert(ms@.take(ms@.len() as int) == ms@);
    push_str(&mut v, "]}");
    string_from_chars(v.as_slice())
}

/// An HTTP answer: status code and JSON body.
#[derive(Debug)]
pub struct Reply {
    pub status: u16,
    pub body: String,
}

/// A failed request: the status and `{"error":"<message>"}`.
pub fn error_reply(status: u16, message: &str) -> (r: Reply)
    ensures
        r.status == status,
        r.body@ == crate::tools::error_json(message@),
{
    let mut v: Vec<char> = Vec::new();
    push_str(&mut v, "{\"error\":");
    push_str(&mut v, json_quote(message).as_str());
    push_str(&mut v, "}");
    Reply { status, body: string_from_chars(v.as_slice()) }
}

/// The answer to `GET /agents/:id`: the agent, a 404 naming the id when
/// there is none, a 500 with the store's error otherwise.
pub fn get_agent_reply(id: &str, found: Result<Option<AgentConfig>, String>) -> (r: Reply)
    ensures
        match found {
            Ok(Some(c)) => r.status == 200 && r.body@ == agent_json(c),
            Ok(None) => r.status == 404 && r.body@ == crate::tools::error_json("agent "@ + id@ + " not found"@),
            Err(e) => r.status == 500 && r.body@ == crate::tools::error_json(e@),
        },
{
    match found {
        Ok(Some(c)) => Reply { status: 200, body: agent_to_json(&c) },
        Ok(None) => {
            let mut v: Vec<char> = Vec::new();
            push_str(&mut v, "agent ");
            push_str(&mut v, id);
            push_str(&mut v, " not found");
            let m = string_from_chars(v.as_slice());
            error_reply(404, m.as_str())
        },
        Err(e) => error_reply(500, e.as_str()),
    }
}

/// The answer to a write that returns the stored agent: `created` picks
/// 201 over 200.
pub fn agent_write_reply(created: bool, res: Result<AgentConfig, String>) -> (r: Reply)
    ensures
        match res {
            Ok(c) => r.status == (if created { 201u16 } else { 200u16 }) && r.body@ == agent_json(c),
            Err(e) => r.status == 500 && r.body@ == crate::tools::error_json(e@),
        },
{
    match res {
        Ok(c) => Reply { status: if created { 201 } else { 200 }, body: agent_to_json(&c) },
        Err(e) => error_reply(500, e.as_str()),
    }
}

/// The answer to a delete: 204 with `{}`.
pub fn delete_reply(res: Result<(), String>) -> (r: Reply)
    ensures
        match res {
            Ok(()) => r.status == 204 && r.body@ == "{}"@,
            Err(e) => r.status == 500 && r.body@ == crate::tools::error_json(e@),
        },
{
    match res {
        Ok(()) => Reply { status: 204, body: "{}".to_string() },
        Err(e) => error_reply(500, e.as_str()),
    }
}

/// The answer to `GET /conversations/:id`.
pub fn get_conversation_reply(found: Result<Option<Conversation>, String>) -> (r: Reply)
    ensures
        match found {
            Ok(Some(c)) => r.status == 200 && r.body@ == conversation_json(c),
            Ok(None) => r.status == 404 && r.body@ == crate::tools::error_json("not found"@),
            Err(e) => r.status == 500 && r.body@ == crate::tools::error_json(e@),
        },
{
    match found {
        Ok(Some(c)) => Reply { status: 200, body: conversation_to_json(&c) },
        Ok(None) => error_reply(404, "not found"),
        Err(e) => error_reply(500, e.as_str()),
    }
}

/// The health check body.
pub fn health_json() -> (s: String)
    ensures
        s@ == "{\"status\":\"ok\"}"@,
{
    "{\"status\":\"ok\"}".to_string()
}

/// The answer to `GET /agents`.
pub fn list_agents_reply(res: Result<Vec<AgentConfig>, String>) -> (r: Reply)
    ensures
        match res {
            Ok(v) => r.status == 200 && r.body@ == "{\"agents\":["@ + agents_items(v@) + "]}"@,
            Err(e) => r.status == 500 && r.body@ == crate::tools::error_json(e@),
        },
{
    match res {
        Ok(v) => Reply { status: 200, body: agents_json(&v) },
        Err(e) => error_reply(500, e.as_str()),
    }
}

/// The answer to `GET /conversations?agent_id=..`.
pub fn list_conversations_reply(res: Result<Vec<Conversation>, String>) -> (r: Reply)
    ensures
        match res {
            Ok(v) => r.status == 200 && r.body@ == "{\"conversations\":["@ + conversations_items(v@) + "]}"@,
            Err(e) => r.status == 500 && r.body@ == crate::tools::error_json(e@),
        },
{
    match res {
        Ok(v) => Reply { status: 200, body: conversations_json(&v) },
        Err(e) => error_reply(500, e.as_str()),
    }
}

/// The answer to `POST /conversations`: 201 with the new conversation.
pub fn create_conversation_reply(res: Result<Conversation, String>) -> (r: Reply)
    ensures
        match res {
            Ok(c) => r.status == 201 && r.body@ == conversation_json(c),
            Err(e) => r.status == 500 && r.body@ == crate::tools::error_json(e@),
        },
{
    match res {
        Ok(c) => Reply { status: 201, body: conversation_to_json(&c) },
        Err(e) => error_reply(500, e.as_str()),
    }
}

/// The answer to `GET /conversations/:id/messages`.
pub fn get_messages_reply(res: Result<Vec<Message>, String>) -> (r: Reply)
    ensures
        match res {
            Ok(v) => r.status == 200 && r.body@ == "{\"messages\":["@ + messages_items(v@) + "]}"@,
            Err(e) => r.status == 500 && r.body@ == crate::tools::error_json(e@),
        },
{
    match res {
        Ok(v) => Reply { status: 200, body: messages_json(&v) },
        Err(e) => error_reply(500, e.as_str()),
    }
}

/// The answer to `POST /conversations/:id/messages`: 201 with the stored
/// message.
pub fn append_message_reply(res: Result<Message, String>) -> (r: Reply)
    ensures
        match res {
            Ok(m) => r.status == 201 && r.body@ == message_json(m),
            Err(e) => r.status == 500 && r.body@ == crate::tools::error_json(e@),
        },
{
    match res {
        Ok(m) => Reply { status: 201, body: message_to_json(&m) },
        Err(e) => error_reply(500, e.as_str()),
    }
}

/// A request field with a default, as the body decoder reads it: absent is
/// the default (`null` too, for optional fields), otherwise the value must
/// have the field's type.
pub open spec fn opt_str_field(j: Option<crate::json::Json>) -> Option<Option<Seq<char>>> {
    match j {
        None => Some(None),
        Some(crate::json::Json::Null) => Some(None),
        Some(crate::json::Json::Str(s)) => Some(Some(s@)),
        _ => None,
    }
}

/// A `u32` field: plain digits within range.
pub open spec fn u32_field(j: crate::json::Json) -> Option<u32> {
    match crate::json::u64_of(Some(j)) {
        Some(n) => if n <= u32::MAX {
            Some(n as u32)
        } else {
            None
        },
        None => None,
    }
}

/// The member names of an agent request body, in declaration order.
pub open spec fn agent_req_names() -> Seq<Seq<char>> {
    seq!["id"@, "name"@, "system_prompt"@, "model"@, "tools"@, "max_steps"@]
}

/// The agent a request body describes: an object with string `id` and
/// `model`, optional string `name` and `system_prompt`, `tools` (an array
/// of strings, empty when absent) and `max_steps` (a `u32`, the default
/// budget when absent), other members ignored; or the same fields as an
/// array in that order, of which the first four must be there.
pub open spec fn agent_req_of(j: crate::json::Json) -> Option<(Seq<char>, Option<Seq<char>>, Option<Seq<char>>, Seq<char>, Seq<Seq<char>>, u32)> {
    match crate::records::record_fields(j, agent_req_names(), 4) {
        None => None,
        Some(f) => {
            let id = crate::json::str_of(f[0]);
            let name = opt_str_field(f[1]);
            let prompt = opt_str_field(f[2]);
            let model = crate::json::str_of(f[3]);
            let tools: Option<Seq<Seq<char>>> = match f[4] {
                None => Some(Seq::empty()),
                Some(t) => crate::events::string_list(t),
            };
            let steps: Option<u32> = match f[5] {
                None => Some(DEFAULT_MAX_STEPS),
                Some(x) => u32_field(x),
            };
            if id is None || name is None || prompt is None || model is None || tools is None || steps is None {
                None
            } else {
                Some((id->0, name->0, prompt->0, model->0, tools->0, steps->0))
            }
        },
    }
}

fn read_opt_str_field(j: Option<&crate::json::Json>) -> (r: Option<Option<String>>)
    ensures
        match opt_str_field(match j {
            Some(x) => Some(*x),
            None => None,
        }) {
            None => r is None,
            Some(o) => r matches Some(x) && crate::agent_core::opt_str(x) == o,
        },
{
    match j {
        None => Some(None),
        Some(crate::json::Json::Null) => Some(None),
        Some(crate::json::Json::Str(s)) => Some(Some(s.clone())),
        _ => None,
    }
}

fn read_string_list(j: &crate::json::Json) -> (r: Option<Vec<String>>)
    ensures
        match crate::events::string_list(*j) {
            None => r is None,
            Some(t) => r matches Some(v) && crate::config::strings_view(v@) == t,
        },
{
    match j {
        crate::json::Json::Array(items) => {
            let mut out: Vec<String> = Vec::new();
            let mut i: usize = 0;
            while i < items.len()
                invariant
                    i <= items@.len(),
                    *j == crate::json::Json::Array(*items),
                    crate::events::all_strings(items@.take(i as int)),
                    crate::config::strings_view(out@) == crate::events::str_items(items@.take(i as int)),
                decreases items.len() - i,
            {
                assert(items@.take(i + 1).drop_last() =~= items@.take(i as int));
                match &items[i] {
                    crate::json::Json::Str(s) => {
                        let ghost prev = out@;
                        out.push(s.clone());
                        assert(crate::config::strings_view(out@) =~= crate::config::strings_view(prev).push(s@));
                        assert(crate::events::str_items(items@.take(i + 1)) =~= crate::events::str_items(
                            items@.take(i as int),
                        ).push(s@));
                    },
                    _ => {
                        assert(!crate::events::all_strings(items@));
                        return None;
                    },
                }
                i += 1;
            }
            assert(items@.take(items@.len() as int) =~= items@);
            Some(out)
        },
        _ => None,
    }
}

/// Decodes the body of an agent create or update.
pub fn read_agent_req(j: &crate::json::Json) -> (r: Option<AgentReq>)
    ensures
        match agent_req_of(*j) {
            None => r is None,
            Some(x) => r matches Some(a) && a.id@ == x.0 && crate::agent_core::opt_str(a.name) == x.1
                && crate::agent_core::opt_str(a.system_prompt) == x.2 && a.model@ == x.3
                && crate::config::strings_view(a.tools@) == x.4 && a.max_steps == x.5,
        },
{
    let names: [&str; 6] = ["id", "name", "system_prompt", "model", "tools", "max_steps"];
    assert(names@.map_values(|n: &str| n@) =~= agent_req_names());
    let f = match crate::task_record::record_refs(j, names.as_slice(), 4) {
        Some(f) => f,
        None => return None,
    };
    let id = match crate::json::as_str(f[0]) {
        Some(x) => x,
        None => return None,
    };
    let name = match read_opt_str_field(f[1]) {
        Some(x) => x,
        None => return None,
    };
    let system_prompt = match read_opt_str_field(f[2]) {
        Some(x) => x,
        None => return None,
    };
    let model = match crate::json::as_str(f[3]) {
        Some(x) => x,
        None => return None,
    };
    let tools = match f[4] {
        None => Vec::new(),
        Some(t) => match read_string_list(t) {
            Some(v) => v,
            None => return None,
        },
    };
    let max_steps = match f[5] {
        None => default_max_steps(),
        Some(x) => match crate::json::as_u64(Some(x)) {
            Some(n) => if n <= u32::MAX as u64 {
                n as u32
            } else {
                return None;
            },
            None => return None,
        },
    };
    Some(AgentReq { id, name, system_prompt, model, tools, max_steps })
}

/// The conversation a `POST /conversations` body asks for: a string
/// `agent_id` and an optional string `title`, as an object or as an array
/// in that order.
pub open spec fn create_conv_of(j: crate::json::Json) -> Option<(Seq<char>, Option<Seq<char>>)> {
    match crate::records::record_fields(j, seq!["agent_id"@, "title"@], 1) {
        None => None,
        Some(f) => match (crate::json::str_of(f[0]), opt_str_field(f[1])) {
            (Some(a), Some(t)) => Some((a, t)),
            _ => None,
        },
    }
}

pub fn read_create_conv(j: &crate::json::Json) -> (r: Option<(String, Option<String>)>)
    ensures
        match create_conv_of(*j) {
            None => r is None,
            Some(x) => r matches Some(v) && v.0@ == x.0 && crate::agent_core::opt_str(v.1) == x.1,
        },
{
    let names: [&str; 2] = ["agent_id", "title"];
    assert(names@.map_values(|n: &str| n@) =~= seq!["agent_id"@, "title"@]);
    let f = match crate::task_record::record_refs(j, names.as_slice(), 1) {
        Some(f) => f,
        None => return None,
    };
    match (crate::json::as_str(f[0]), read_opt_str_field(f[1])) {
        (Some(a), Some(t)) => Some((a, t)),
        _ => None,
    }
}

/// The message a `POST /conversations/:id/messages` body appends: string
/// `role` and `content`, optional string `tool_use_id`, as an object or as
/// an array in that order.
pub open spec fn append_of(j: crate::json::Json) -> Option<(Seq<char>, Seq<char>, Option<Seq<char>>)> {
    match crate::records::record_fields(j, seq!["role"@, "content"@, "tool_use_id"@], 2) {
        None => None,
        Some(f) => match (crate::json::str_of(f[0]), crate::json::str_of(f[1]), opt_str_field(f[2])) {
            (Some(r), Some(c), Some(t)) => Some((r, c, t)),
            _ => None,
        },
    }
}

pub fn read_append(j: &crate::json::Json) -> (r: Option<(String, String, Option<String>)>)
    ensures
        match append_of(*j) {
            None => r is None,
            Some(x) => r matches Some(v) && v.0@ == x.0 && v.1@ == x.1 && crate::agent_core::opt_str(v.2) == x.2,
        },
{
    let names: [&str; 3] = ["role", "content", "tool_use_id"];
    assert(names@.map_values(|n: &str| n@) =~= seq!["role"@, "content"@, "tool_use_id"@]);
    let f = match crate::task_record::record_refs(j, names.as_slice(), 2) {
        Some(f) => f,
        None => return None,
    };
    match (crate::json::as_str(f[0]), crate::json::as_str(f[1]), read_opt_str_field(f[2])) {
        (Some(r), Some(c), Some(t)) => Some((r, c, t)),
        _ => None,
    }
}

} // verus!
