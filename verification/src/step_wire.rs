//! The agent step on the wire: the chat-completions request it sends, the
//! tool declarations it offers, how it reads a completion, and the bodies
//! it publishes (tool calls to dispatch, or the step's result). Objects are
//! written with their members in serde_json's sorted order.

use vstd::prelude::*;
use crate::agent_core::ChatMessage;
use crate::json::{as_str, field, get, json_quote, quoted, render, str_of, text_of, Json};
use crate::llm::{reply_view, LlmReply, ToolCall};
use crate::text::{push_str, string_from_chars};

verus! {

/// One chat message: content and role, and the tool-call id when there is one.
pub open spec fn chat_message_text(m: (Seq<char>, Seq<char>, Option<Seq<char>>)) -> Seq<char> {
    "{\"content\":"@ + quoted(m.1) + ",\"role\":"@ + quoted(m.0) + match m.2 {
        Some(id) => ",\"tool_call_id\":"@ + quoted(id),
        None => Seq::empty(),
    } + "}"@
}

/// Comma-separated chat messages (role, content, tool-call id).
pub open spec fn chat_items(v: Seq<(Seq<char>, Seq<char>, Option<Seq<char>>)>) -> Seq<char>
    decreases v.len(),
{
    if v.len() == 0 {
        Seq::empty()
    } else if v.len() == 1 {
        chat_message_text(v[0])
    } else {
        chat_items(v.drop_last()) + ","@ + chat_message_text(v.last())
    }
}

pub open spec fn chat_views(v: Seq<ChatMessage>) -> Seq<(Seq<char>, Seq<char>, Option<Seq<char>>)> {
    v.map_values(|m: ChatMessage| m@)
}

/// Comma-separated JSON texts.
pub open spec fn joined(v: Seq<Seq<char>>) -> Seq<char>
    decreases v.len(),
{
    if v.len() == 0 {
        Seq::empty()
    } else if v.len() == 1 {
        v[0]
    } else {
        joined(v.drop_last()) + ","@ + v.last()
    }
}

fn push_chat_message(out: &mut Vec<char>, m: &ChatMessage)
    ensures
        final(out)@ == old(out)@ + chat_message_text(m@),
{
    push_str(out, "{\"content\":");
    push_str(out, json_quote(m.content.as_str()).as_str());
    push_str(out, ",\"role\":");
    push_str(out, json_quote(m.role.as_str()).as_str());
    match &m.tool_call_id {
        Some(id) => {
            push_str(out, ",\"tool_call_id\":");
            push_str(out, json_quote(id.as_str()).as_str());
        },
        None => {},
    }
    push_str(out, "}");
}

/// JSON of one chat message.
pub fn chat_message_json(m: &ChatMessage) -> (s: String)
    ensures
        s@ == chat_message_text(m@),
{
    let mut v: Vec<char> = Vec::new();
    push_chat_message(&mut v, m);
    string_from_chars(v.as_slice())
}

fn push_chat_array(out: &mut Vec<char>, ms: &Vec<ChatMessage>)
    ensures
        final(out)@ == old(out)@ + "["@ + chat_items(chat_views(ms@)) + "]"@,
{
    let ghost start = out@;
    let ghost vs = chat_views(ms@);
    push_str(out, "[");
    let mut i: usize = 0;
    while i < ms.len()
        invariant
            i <= ms@.len(),
            vs == chat_views(ms@),
            out@ == start + "["@ + chat_items(vs.take(i as int)),
        decreases ms.len() - i,
    {
        assert(vs.take(i + 1).drop_last() == vs.take(i as int));
        assert(vs.take(i + 1).last() == ms@[i as int]@);
        if i > 0 {
            push_str(out, ",");
        } else {
            assert(vs.take(1)[0] == ms@[0]@);
        }
        push_chat_message(out, &ms[i]);
        i += 1;
    }
    assert(vs.take(ms@.len() as int) == vs);
    push_str(out, "]");
}

fn push_joined(out: &mut Vec<char>, v: &Vec<String>)
    ensures
        final(out)@ == old(out)@ + joined(v@.map_values(|s: String| s@)),
{
    let ghost start = out@;
    let ghost texts = v@.map_values(|s: String| s@);
    let mut i: usize = 0;
    while i < v.len()
        invariant
            i <= v@.len(),
            texts == v@.map_values(|s: String| s@),
            out@ == start + joined(texts.take(i as int)),
        decreases v.len() - i,
    {
        assert(texts.take(i + 1).drop_last() == texts.take(i as int));
        assert(texts.take(i + 1).last() == texts[i as int]);
        if i > 0 {
            push_str(out, ",");
        } else {
            assert(texts.take(1)[0] == texts[0]);
        }
        push_str(out, v[i].as_str());
        i += 1;
    }
    assert(texts.take(v@.len() as int) == texts);
}

/// The chat-completions request: the messages, the model, no streaming,
/// and, when any tools are offered, the tool declarations with
/// `tool_choice` `auto`.
pub open spec fn request_text(model: Seq<char>, messages: Seq<(Seq<char>, Seq<char>, Option<Seq<char>>)>, tools: Seq<Seq<char>>) -> Seq<char> {
    "{\"messages\":"@ + "["@ + chat_items(messages) + "]"@ + ",\"model\":"@ + quoted(model) + ",\"stream\":false"@ + if tools.len() > 0 {
        ",\"tool_choice\":\"auto\",\"tools\":["@ + joined(tools) + "]"@
    } else {
        Seq::empty()
    } + "}"@
}

/// Body of one LLM request; `tools` are tool declarations as JSON text.
pub fn request_body(model: &str, messages: &Vec<ChatMessage>, tools: &Vec<String>) -> (s: String)
    ensures
        s@ == request_text(model@, chat_views(messages@), tools@.map_values(|t: String| t@)),
{
    let mut v: Vec<char> = Vec::new();
    push_str(&mut v, "{\"messages\":");
    push_chat_array(&mut v, messages);
    push_str(&mut v, ",\"model\":");
    push_str(&mut v, json_quote(model).as_str());
    push_str(&mut v, ",\"stream\":false");
    let ghost head = v@;
    let ghost texts = tools@.map_values(|t: String| t@);
    assert(texts.len() == tools@.len());
    if tools.len() > 0 {
        push_str(&mut v, ",\"tool_choice\":\"auto\",\"tools\":[");
        push_joined(&mut v, tools);
        push_str(&mut v, "]");
        assert(v@ =~= head + (",\"tool_choice\":\"auto\",\"tools\":["@ + joined(texts) + "]"@));
    } else {
        assert(v@ =~= head + Seq::<char>::empty());
    }
    push_str(&mut v, "}");
    string_from_chars(v.as_slice())
}

/// The declaration of tool `name` offered to the model, from its stored
/// spec: the spec's `description` (an empty string when absent) and
/// `parameters` (a bare object schema when absent).
pub open spec fn tool_decl_text(name: Seq<char>, spec: Json) -> Seq<char> {
    "{\"function\":{\"description\":"@ + match field(spec, "description"@) {
        Some(d) => text_of(d),
        None => "\"\""@,
    } + ",\"name\":"@ + quoted(name) + ",\"parameters\":"@ + match field(spec, "parameters"@) {
        Some(p) => text_of(p),
        None => "{\"type\":\"object\"}"@,
    } + "},\"type\":\"function\"}"@
}

pub fn tool_decl(name: &str, spec: &Json) -> (s: String)
    ensures
        s@ == tool_decl_text(name@, *spec),
{
    let mut v: Vec<char> = Vec::new();
    push_str(&mut v, "{\"function\":{\"description\":");
    match get(spec, "description") {
        Some(d) => render(d, &mut v),
        None => push_str(&mut v, "\"\""),
    }
    push_str(&mut v, ",\"name\":");
    push_str(&mut v, json_quote(name).as_str());
    push_str(&mut v, ",\"parameters\":");
    match get(spec, "parameters") {
        Some(p) => render(p, &mut v),
        None => push_str(&mut v, "{\"type\":\"object\"}"),
    }
    push_str(&mut v, "},\"type\":\"function\"}");
    string_from_chars(v.as_slice())
}

/// The declarations for the wanted tools whose spec was stored and parsed,
/// in the order wanted.
pub open spec fn decls_of(wanted: Seq<String>, specs: Seq<Option<Json>>) -> Seq<Seq<char>>
    decreases wanted.len(),
{
    if wanted.len() == 0 || specs.len() == 0 {
        Seq::empty()
    } else {
        let prev = decls_of(wanted.drop_last(), specs.drop_last());
        match specs.last() {
            Some(j) => prev.push(tool_decl_text(wanted.last()@, j)),
            None => prev,
        }
    }
}

/// The stored spec of a tool: its bytes parsed as JSON, `None` when they
/// do not parse.
pub fn tool_spec_of(bytes: &[u8]) -> (r: Option<Json>)
    ensures
        r == crate::json::parsed(crate::json::json_of_bytes(bytes@)),
{
    match crate::json::decode_json(bytes) {
        Ok(j) => Some(j),
        Err(_) => None,
    }
}

/// Tool declarations for an agent's tools; `specs[i]` is the parsed stored
/// spec of `wanted[i]` (`None` when missing or not JSON).
pub fn tool_decls(wanted: &Vec<String>, specs: &Vec<Option<Json>>) -> (out: Vec<String>)
    requires
        wanted@.len() == specs@.len(),
    ensures
        out@.map_values(|s: String| s@) == decls_of(wanted@, specs@),
{
    let mut out: Vec<String> = Vec::new();
    let mut i: usize = 0;
    while i < wanted.len()
        invariant
            i <= wanted@.len(),
            wanted@.len() == specs@.len(),
            out@.map_values(|s: String| s@) == decls_of(wanted@.take(i as int), specs@.take(i as int)),
        decreases wanted.len() - i,
    {
        assert(wanted@.take(i + 1).drop_last() == wanted@.take(i as int));
        assert(specs@.take(i + 1).drop_last() == specs@.take(i as int));
        assert(wanted@.take(i + 1).last() == wanted@[i as int]);
        assert(specs@.take(i + 1).last() == specs@[i as int]);
        match &specs[i] {
            Some(j) => {
                let d = tool_decl(wanted[i].as_str(), j);
                let ghost prev = out@;
                out.push(d);
                assert(out@.map_values(|s: String| s@) =~= prev.map_values(|s: String| s@).push(d@));
            },
            None => {},
        }
        i += 1;
    }
    assert(wanted@.take(wanted@.len() as int) == wanted@);
    assert(specs@.take(specs@.len() as int) == specs@);
    out
}

/// An optional string as JSON: the literal or `null`.
pub open spec fn opt_text(o: Option<Seq<char>>) -> Seq<char> {
    match o {
        Some(s) => quoted(s),
        None => "null"@,
    }
}

fn push_opt(out: &mut Vec<char>, o: &Option<String>)
    ensures
        final(out)@ == old(out)@ + opt_text(crate::agent_core::opt_str(*o)),
{
    match o {
        Some(s) => push_str(out, json_quote(s.as_str()).as_str()),
        None => push_str(out, "null"),
    }
}

/// The step result the pipeline publishes: error, output, task id.
pub open spec fn step_result_text(task_id: Seq<char>, output: Option<Seq<char>>, error: Option<Seq<char>>) -> Seq<char> {
    "{\"error\":"@ + opt_text(error) + ",\"output\":"@ + opt_text(output) + ",\"task_id\":"@ + quoted(task_id) + "}"@
}

pub fn step_result_body(task_id: &str, output: &Option<String>, error: &Option<String>) -> (s: String)
    ensures
        s@ == step_result_text(task_id@, crate::agent_core::opt_str(*output), crate::agent_core::opt_str(*error)),
{
    let mut v: Vec<char> = Vec::new();
    push_str(&mut v, "{\"error\":");
    push_opt(&mut v, error);
    push_str(&mut v, ",\"output\":");
    push_opt(&mut v, output);
    push_str(&mut v, ",\"task_id\":");
    push_str(&mut v, json_quote(task_id).as_str());
    push_str(&mut v, "}");
    string_from_chars(v.as_slice())
}

/// The step result the wasm agent publishes: its record's fields in
/// declaration order (task id, output, error).
pub open spec fn step_record_text(task_id: Seq<char>, output: Option<Seq<char>>, error: Option<Seq<char>>) -> Seq<char> {
    "{\"task_id\":"@ + quoted(task_id) + ",\"output\":"@ + opt_text(output) + ",\"error\":"@ + opt_text(error) + "}"@
}

pub fn step_record_body(task_id: &str, output: &Option<String>, error: &Option<String>) -> (s: String)
    ensures
        s@ == step_record_text(task_id@, crate::agent_core::opt_str(*output), crate::agent_core::opt_str(*error)),
{
    let mut v: Vec<char> = Vec::new();
    push_str(&mut v, "{\"task_id\":");
    push_str(&mut v, json_quote(task_id).as_str());
    push_str(&mut v, ",\"output\":");
    push_opt(&mut v, output);
    push_str(&mut v, ",\"error\":");
    push_opt(&mut v, error);
    push_str(&mut v, "}");
    string_from_chars(v.as_slice())
}

/// One dispatched call: arguments, id, name.
pub open spec fn call_text(c: (Seq<char>, Seq<char>, Seq<char>)) -> Seq<char> {
    "{\"arguments\":"@ + quoted(c.2) + ",\"id\":"@ + quoted(c.0) + ",\"name\":"@ + quoted(c.1) + "}"@
}

pub open spec fn call_items(v: Seq<ToolCall>) -> Seq<char>
    decreases v.len(),
{
    if v.len() == 0 {
        Seq::empty()
    } else if v.len() == 1 {
        call_text(v[0]@)
    } else {
        call_items(v.drop_last()) + ","@ + call_text(v.last()@)
    }
}

/// The tool calls an agent step hands to the executor.
pub open spec fn tool_calls_text(task_id: Seq<char>, conversation_id: Seq<char>, agent_id: Seq<char>, calls: Seq<ToolCall>) -> Seq<char> {
    "{\"agent_id\":"@ + quoted(agent_id) + ",\"calls\":["@ + call_items(calls) + "],\"conversation_id\":"@ + quoted(conversation_id) + ",\"task_id\":"@ + quoted(task_id) + "}"@
}

pub fn tool_calls_body(task_id: &str, conversation_id: &str, agent_id: &str, calls: &Vec<ToolCall>) -> (s: String)
    ensures
        s@ == tool_calls_text(task_id@, conversation_id@, agent_id@, calls@),
{
    let mut v: Vec<char> = Vec::new();
    push_str(&mut v, "{\"agent_id\":");
    push_str(&mut v, json_quote(agent_id).as_str());
    push_str(&mut v, ",\"calls\":[");
    let ghost start = v@;
    let mut i: usize = 0;
    while i < calls.len()
        invariant
            i <= calls@.len(),
            v@ == start + call_items(calls@.take(i as int)),
        decreases calls.len() - i,
    {
        assert(calls@.take(i + 1).drop_last() == calls@.take(i as int));
        assert(calls@.take(i + 1).last() == calls@[i as int]);
        if i > 0 {
            push_str(&mut v, ",");
        } else {
            assert(calls@.take(1)[0] == calls@[0]);
        }
        let c = &calls[i];
        push_str(&mut v, "{\"arguments\":");
        push_str(&mut v, json_quote(c.arguments.as_str()).as_str());
        push_str(&mut v, ",\"id\":");
        push_str(&mut v, json_quote(c.id.as_str()).as_str());
        push_str(&mut v, ",\"name\":");
        push_str(&mut v, json_quote(c.name.as_str()).as_str());
        push_str(&mut v, "}");
        i += 1;
    }
    assert(calls@.take(calls@.len() as int) == calls@);
    push_str(&mut v, "],\"conversation_id\":");
    push_str(&mut v, json_quote(conversation_id).as_str());
    push_str(&mut v, ",\"task_id\":");
    push_str(&mut v, json_quote(task_id).as_str());
    push_str(&mut v, "}");
    string_from_chars(v.as_slice())
}

/// `choices[0].message` of a completion, read as a JSON pointer reads it
/// (when `choices` is an object, its member named `0`).
pub open spec fn first_message(doc: Json) -> Option<Json> {
    match field(doc, "choices"@) {
        Some(c) => match c {
            Json::Array(v) => if v@.len() > 0 {
                field(v@[0], "message"@)
            } else {
                None
            },
            Json::Object(_) => match field(c, "0"@) {
                Some(x) => field(x, "message"@),
                None => None,
            },
            _ => None,
        },
        None => None,
    }
}

/// The string at `outer.inner` of a value.
pub open spec fn nested_str(c: Json, outer: Seq<char>, inner: Seq<char>) -> Option<Seq<char>> {
    match field(c, outer) {
        Some(f) => str_of(field(f, inner)),
        None => None,
    }
}

pub open spec fn or_seq(o: Option<Seq<char>>, d: Seq<char>) -> Seq<char> {
    match o {
        Some(s) => s,
        None => d,
    }
}

/// The call an entry of `tool_calls` stands for: its `id` (empty when
/// absent), `function.name` (empty when absent) and `function.arguments`
/// (`{}` when absent).
pub open spec fn call_of(c: Json) -> (Seq<char>, Seq<char>, Seq<char>) {
    (
        or_seq(str_of(field(c, "id"@)), Seq::empty()),
        or_seq(nested_str(c, "function"@, "name"@), Seq::empty()),
        or_seq(nested_str(c, "function"@, "arguments"@), "{}"@),
    )
}

/// The calls of a `tool_calls` array that name a function, in order.
pub open spec fn named_calls(cs: Seq<Json>) -> Seq<(Seq<char>, Seq<char>, Seq<char>)>
    decreases cs.len(),
{
    if cs.len() == 0 {
        Seq::empty()
    } else {
        let prev = named_calls(cs.drop_last());
        let c = call_of(cs.last());
        if c.1.len() > 0 {
            prev.push(c)
        } else {
            prev
        }
    }
}

/// `choices[0].message.tool_calls`, when it is an array.
pub open spec fn completion_calls(doc: Json) -> Option<Seq<Json>> {
    match first_message(doc) {
        Some(m) => match field(m, "tool_calls"@) {
            Some(Json::Array(v)) => Some(v@),
            _ => None,
        },
        None => None,
    }
}

/// `choices[0].message.content`, empty when it is not a string.
pub open spec fn completion_content(doc: Json) -> Seq<char> {
    match first_message(doc) {
        Some(m) => or_seq(str_of(field(m, "content"@)), Seq::empty()),
        None => Seq::empty(),
    }
}

/// The reply a completion stands for: its named tool calls when there are
/// any, else its text content.
pub open spec fn completion_of(doc: Json) -> Result<Seq<(Seq<char>, Seq<char>, Seq<char>)>, Seq<char>> {
    match completion_calls(doc) {
        Some(cs) => if named_calls(cs).len() > 0 {
            Ok(named_calls(cs))
        } else {
            Err(completion_content(doc))
        },
        None => Err(completion_content(doc)),
    }
}

fn first_message_ref(doc: &Json) -> (r: Option<&Json>)
    ensures
        match r {
            Some(m) => first_message(*doc) == Some(*m),
            None => first_message(*doc) is None,
        },
{
    match get(doc, "choices") {
        Some(c) => match c {
            Json::Array(v) => if v.len() > 0 {
                get(&v[0], "message")
            } else {
                None
            },
            Json::Object(_) => match get(c, "0") {
                Some(x) => get(x, "message"),
                None => None,
            },
            _ => None,
        },
        None => None,
    }
}

fn string_at(j: Option<&Json>, d: &str) -> (s: String)
    ensures
        s@ == or_seq(str_of(match j {
            Some(v) => Some(*v),
            None => None,
        }), d@),
{
    match as_str(j) {
        Some(t) => t,
        None => d.to_string(),
    }
}

fn nested_string(c: &Json, outer: &str, inner: &str, d: &str) -> (s: String)
    ensures
        s@ == or_seq(nested_str(*c, outer@, inner@), d@),
{
    match get(c, outer) {
        Some(f) => string_at(get(f, inner), d),
        None => d.to_string(),
    }
}

/// Reads one entry of `tool_calls`.
pub fn call_from(c: &Json) -> (r: ToolCall)
    ensures
        r@ == call_of(*c),
{
    proof {
        reveal_strlit("");
        assert(""@ =~= Seq::<char>::empty());
    }
    ToolCall {
        id: string_at(get(c, "id"), ""),
        name: nested_string(c, "function", "name", ""),
        arguments: nested_string(c, "function", "arguments", "{}"),
    }
}

/// Interprets a parsed chat completion.
pub fn completion_reply(doc: &Json) -> (r: LlmReply)
    ensures
        reply_view(r) == completion_of(*doc),
{
    let msg = first_message_ref(doc);
    let content = match msg {
        Some(m) => {
            proof {
                reveal_strlit("");
                assert(""@ =~= Seq::<char>::empty());
            }
            string_at(get(m, "content"), "")
        },
        None => String::new(),
    };
    let calls_json = match msg {
        Some(m) => get(m, "tool_calls"),
        None => None,
    };
    match calls_json {
        Some(Json::Array(cs)) => {
            let mut out: Vec<ToolCall> = Vec::new();
            let mut i: usize = 0;
            while i < cs.len()
                invariant
                    i <= cs@.len(),
                    out@.map_values(|c: ToolCall| c@) == named_calls(cs@.take(i as int)),
                decreases cs.len() - i,
            {
                assert(cs@.take(i + 1).drop_last() == cs@.take(i as int));
                assert(cs@.take(i + 1).last() == cs@[i as int]);
                let c = call_from(&cs[i]);
                if !c.name.as_str().is_empty() {
                    let ghost prev = out@;
                    out.push(c);
                    assert(out@.map_values(|c: ToolCall| c@) =~= prev.map_values(|c: ToolCall| c@).push(c@));
                }
                i += 1;
            }
            assert(cs@.take(cs@.len() as int) == cs@);
            if out.len() > 0 {
                LlmReply::Tools(out)
            } else {
                LlmReply::Text(content)
            }
        },
        _ => LlmReply::Text(content),
    }
}

/// Interprets the body of a successful LLM answer: bytes that do not parse
/// are an error (`decode LLM resp: <parse error>`), else the reply the
/// parsed completion stands for.
pub fn completion_from_body(body: &[u8]) -> (r: Result<LlmReply, String>)
    ensures
        match crate::json::json_of_bytes(body@) {
            Err(e) => r matches Err(m) && m@ == "decode LLM resp: "@ + e,
            Ok(doc) => r matches Ok(x) && reply_view(x) == completion_of(doc),
        },
{
    match crate::json::decode_json(body) {
        Err(e) => Err(crate::store::join2("decode LLM resp: ", e.as_str())),
        Ok(doc) => Ok(completion_reply(&doc)),
    }
}

/// What an agent step publishes once the LLM has answered: the tool calls
/// to dispatch, or the step's result (its output or its error).
#[derive(Debug)]
pub enum StepOutcome {
    Dispatch(Vec<ToolCall>),
    Finish { output: Option<String>, error: Option<String> },
}

/// The step's publication for an LLM outcome: a reply with tool calls is
/// dispatched, a text reply is the output, a failed call is the error.
pub fn step_outcome(outcome: Result<LlmReply, String>) -> (r: StepOutcome)
    ensures
        match outcome {
            Ok(LlmReply::Tools(calls)) => if calls@.len() > 0 {
                r == StepOutcome::Dispatch(calls)
            } else {
                r == (StepOutcome::Finish { output: None, error: None })
            },
            Ok(LlmReply::Text(t)) => r == (StepOutcome::Finish { output: Some(t), error: None }),
            Err(e) => r == (StepOutcome::Finish { output: None, error: Some(e) }),
        },
{
    match outcome {
        Ok(LlmReply::Tools(calls)) => if calls.len() > 0 {
            StepOutcome::Dispatch(calls)
        } else {
            StepOutcome::Finish { output: None, error: None }
        },
        Ok(LlmReply::Text(t)) => StepOutcome::Finish { output: Some(t), error: None },
        Err(e) => StepOutcome::Finish { output: None, error: Some(e) },
    }
}

} // verus!
