//! The executor's messages on the bus: reading the tool calls an agent
//! step asks for and the results tools send back, and writing the step
//! requests and tool calls it publishes. Objects are written with their
//! members in serde_json's sorted order.

use vstd::prelude::*;
use crate::agent_core::opt_str;
use crate::executor::{RawCall, ToolCallSpec};
use crate::json::{as_str, field, get, json_quote, quoted, str_of, Json};
use crate::text::{push_str, string_from_chars};

verus! {

/// Subject a tool listens on for its calls.
pub open spec fn tool_call_subject_of(name: Seq<char>) -> Seq<char> {
    "mycelium.tool.call."@ + name
}

pub fn tool_call_subject(name: &str) -> (s: String)
    ensures
        s@ == tool_call_subject_of(name@),
{
    let mut v: Vec<char> = Vec::new();
    push_str(&mut v, "mycelium.tool.call.");
    push_str(&mut v, name);
    string_from_chars(v.as_slice())
}

/// One tool call as published to its tool: arguments, call id, run id,
/// task id.
pub open spec fn tool_call_text(task_id: Seq<char>, call: (Seq<char>, Seq<char>, Seq<char>), run_id: Seq<char>) -> Seq<char> {
    "{\"arguments\":"@ + quoted(call.2) + ",\"call_id\":"@ + quoted(call.0) + ",\"run_id\":"@ + quoted(run_id)
        + ",\"task_id\":"@ + quoted(task_id) + "}"@
}

pub fn tool_call_body(task_id: &str, call: &ToolCallSpec, run_id: &str) -> (s: String)
    ensures
        s@ == tool_call_text(task_id@, call@, run_id@),
{
    let mut v: Vec<char> = Vec::new();
    push_str(&mut v, "{\"arguments\":");
    push_str(&mut v, json_quote(call.arguments.as_str()).as_str());
    push_str(&mut v, ",\"call_id\":");
    push_str(&mut v, json_quote(call.id.as_str()).as_str());
    push_str(&mut v, ",\"run_id\":");
    push_str(&mut v, json_quote(run_id).as_str());
    push_str(&mut v, ",\"task_id\":");
    push_str(&mut v, json_quote(task_id).as_str());
    push_str(&mut v, "}");
    string_from_chars(v.as_slice())
}

/// A request for the next agent step of a task.
pub open spec fn step_request_text(task_id: Seq<char>, conversation_id: Seq<char>, agent_id: Seq<char>, run_id: Seq<char>) -> Seq<char> {
    "{\"agent_id\":"@ + quoted(agent_id) + ",\"conversation_id\":"@ + quoted(conversation_id) + ",\"run_id\":"@
        + quoted(run_id) + ",\"task_id\":"@ + quoted(task_id) + "}"@
}

pub fn step_request_body(task_id: &str, conversation_id: &str, agent_id: &str, run_id: &str) -> (s: String)
    ensures
        s@ == step_request_text(task_id@, conversation_id@, agent_id@, run_id@),
{
    let mut v: Vec<char> = Vec::new();
    push_str(&mut v, "{\"agent_id\":");
    push_str(&mut v, json_quote(agent_id).as_str());
    push_str(&mut v, ",\"conversation_id\":");
    push_str(&mut v, json_quote(conversation_id).as_str());
    push_str(&mut v, ",\"run_id\":");
    push_str(&mut v, json_quote(run_id).as_str());
    push_str(&mut v, ",\"task_id\":");
    push_str(&mut v, json_quote(task_id).as_str());
    push_str(&mut v, "}");
    string_from_chars(v.as_slice())
}

/// The string member `key` of a value.
pub open spec fn str_field(j: Json, key: Seq<char>) -> Option<Seq<char>> {
    str_of(field(j, key))
}

fn string_field(j: &Json, key: &str) -> (r: Option<String>)
    ensures
        opt_str(r) == str_field(*j, key@),
{
    as_str(get(j, key))
}

/// The raw view of a call read off the bus.
pub open spec fn raw_view(r: RawCall) -> (Option<Seq<char>>, Option<Seq<char>>, Option<Seq<char>>) {
    (opt_str(r.id), opt_str(r.name), opt_str(r.arguments))
}

/// What an entry of `calls` holds: its string `id`, `name` and `arguments`.
pub open spec fn entry_view(c: Json) -> (Option<Seq<char>>, Option<Seq<char>>, Option<Seq<char>>) {
    (str_field(c, "id"@), str_field(c, "name"@), str_field(c, "arguments"@))
}

/// The entries of `calls` when it is an array, else none.
pub open spec fn call_entries(doc: Json) -> Seq<Json> {
    match field(doc, "calls"@) {
        Some(Json::Array(v)) => v@,
        _ => Seq::empty(),
    }
}

/// What a `step.tool-calls` document says: its task (when `task_id` is a
/// string) and its call entries, each read as a raw call.
pub open spec fn tool_calls_match(doc: Json, m: ToolCallsMsg) -> bool {
    &&& opt_str(m.task_id) == str_field(doc, "task_id"@)
    &&& m.calls@.len() == call_entries(doc).len()
    &&& forall|i: int| 0 <= i < m.calls@.len() ==> raw_view(#[trigger] m.calls@[i]) == entry_view(call_entries(doc)[i])
}

/// A `step.tool-calls` message: the task it belongs to (absent when
/// `task_id` is not a string) and its calls as read.
pub struct ToolCallsMsg {
    pub task_id: Option<String>,
    pub calls: Vec<RawCall>,
}

/// Reads a `step.tool-calls` message.
pub fn read_tool_calls(doc: &Json) -> (m: ToolCallsMsg)
    ensures
        tool_calls_match(*doc, m),
{
    let task_id = string_field(doc, "task_id");
    let mut calls: Vec<RawCall> = Vec::new();
    match get(doc, "calls") {
        Some(Json::Array(cs)) => {
            let mut i: usize = 0;
            while i < cs.len()
                invariant
                    i <= cs@.len(),
                    call_entries(*doc) == cs@,
                    calls@.len() == i,
                    forall|k: int| 0 <= k < i ==> raw_view(#[trigger] calls@[k]) == entry_view(cs@[k]),
                decreases cs.len() - i,
            {
                let c = &cs[i];
                let r = RawCall {
                    id: string_field(c, "id"),
                    name: string_field(c, "name"),
                    arguments: string_field(c, "arguments"),
                };
                calls.push(r);
                i += 1;
            }
        },
        _ => {},
    }
    ToolCallsMsg { task_id, calls }
}

/// A `tool.result` message.
pub struct ToolResultMsg {
    pub task_id: String,
    pub call_id: String,
    pub output: Option<String>,
    pub error: Option<String>,
}

/// What a `tool.result` document says: nothing unless `task_id` is a
/// string; a missing call id reads as empty, output and error only as
/// strings.
pub open spec fn tool_result_matches(doc: Json, r: Option<ToolResultMsg>) -> bool {
    match r {
        Some(m) => {
            &&& str_field(doc, "task_id"@) == Some(m.task_id@)
            &&& m.call_id@ == match str_field(doc, "call_id"@) {
                Some(c) => c,
                None => Seq::empty(),
            }
            &&& opt_str(m.output) == str_field(doc, "output"@)
            &&& opt_str(m.error) == str_field(doc, "error"@)
        },
        None => str_field(doc, "task_id"@) is None,
    }
}

/// Reads a `tool.result` message: `None` when `task_id` is not a string;
/// a missing call id reads as empty, output and error only as strings.
pub fn read_tool_result(doc: &Json) -> (r: Option<ToolResultMsg>)
    ensures
        tool_result_matches(*doc, r),
{
    match string_field(doc, "task_id") {
        Some(task_id) => {
            let call_id = match string_field(doc, "call_id") {
                Some(c) => c,
                None => String::new(),
            };
            Some(ToolResultMsg {
                task_id,
                call_id,
                output: string_field(doc, "output"),
                error: string_field(doc, "error"),
            })
        },
        None => None,
    }
}

/// What a `step.result` message says: a string `task_id`, and `output` and
/// `error`, each a string or absent (`null` counts as absent); as an
/// object, or as an array in that order of which only the first is
/// required.
pub open spec fn step_result_of(doc: Json) -> Option<(Seq<char>, Option<Seq<char>>, Option<Seq<char>>)> {
    match crate::records::record_fields(doc, seq!["task_id"@, "output"@, "error"@], 1) {
        None => None,
        Some(f) => match (crate::records::req_str(f[0]), crate::records::opt_str_field(f[1]), crate::records::opt_str_field(f[2])) {
            (Some(t), Some(o), Some(e)) => Some((t, o, e)),
            _ => None,
        },
    }
}

fn read_opt(j: Option<&Json>) -> (r: Option<Option<String>>)
    ensures
        match crate::records::opt_str_field(match j {
            Some(x) => Some(*x),
            None => None,
        }) {
            None => r is None,
            Some(o) => r matches Some(x) && opt_str(x) == o,
        },
{
    match j {
        None => Some(None),
        Some(Json::Null) => Some(None),
        Some(Json::Str(s)) => Some(Some(s.clone())),
        _ => None,
    }
}

/// Reads a `step.result` message: its task, output and error.
pub fn read_step_result(doc: &Json) -> (r: Option<(String, Option<String>, Option<String>)>)
    ensures
        match step_result_of(*doc) {
            None => r is None,
            Some(x) => r matches Some(v) && v.0@ == x.0 && opt_str(v.1) == x.1 && opt_str(v.2) == x.2,
        },
{
    let names: [&str; 3] = ["task_id", "output", "error"];
    assert(names@.map_values(|n: &str| n@) =~= seq!["task_id"@, "output"@, "error"@]);
    let f = match crate::task_record::record_refs(doc, names.as_slice(), 1) {
        Some(f) => f,
        None => return None,
    };
    let task_id = match f[0] {
        Some(Json::Str(s)) => s.clone(),
        _ => return None,
    };
    match (read_opt(f[1]), read_opt(f[2])) {
        (Some(o), Some(e)) => Some((task_id, o, e)),
        _ => None,
    }
}

/// What a step request names: its task, conversation and agent, each a
/// required string (an object, or an array in that order).
pub open spec fn step_request_of(doc: Json) -> Option<(Seq<char>, Seq<char>, Seq<char>)> {
    match crate::records::record_fields(doc, seq!["task_id"@, "conversation_id"@, "agent_id"@], 3) {
        None => None,
        Some(f) => match (crate::records::req_str(f[0]), crate::records::req_str(f[1]), crate::records::req_str(f[2])) {
            (Some(t), Some(c), Some(a)) => Some((t, c, a)),
            _ => None,
        },
    }
}

/// Reads a step request.
pub fn read_step_request(doc: &Json) -> (r: Option<(String, String, String)>)
    ensures
        match step_request_of(*doc) {
            None => r is None,
            Some(x) => r matches Some(v) && v.0@ == x.0 && v.1@ == x.1 && v.2@ == x.2,
        },
{
    let names: [&str; 3] = ["task_id", "conversation_id", "agent_id"];
    assert(names@.map_values(|n: &str| n@) =~= seq!["task_id"@, "conversation_id"@, "agent_id"@]);
    let f = match crate::task_record::record_refs(doc, names.as_slice(), 3) {
        Some(f) => f,
        None => return None,
    };
    match (f[0], f[1], f[2]) {
        (Some(Json::Str(t)), Some(Json::Str(c)), Some(Json::Str(a))) => Some((t.clone(), c.clone(), a.clone())),
        _ => None,
    }
}

/// Decode error text: `decode <what>: <parse error>`.
pub open spec fn decode_error(what: Seq<char>, e: Seq<char>) -> Seq<char> {
    "decode "@ + what + ": "@ + e
}

fn decode_message(what: &str, e: &str) -> (s: String)
    ensures
        s@ == decode_error(what@, e@),
{
    let mut v: Vec<char> = Vec::new();
    push_str(&mut v, "decode ");
    push_str(&mut v, what);
    push_str(&mut v, ": ");
    push_str(&mut v, e);
    string_from_chars(v.as_slice())
}

/// Reads a `step.tool-calls` message as it arrives: bytes that do not
/// parse are refused with the parse error.
pub fn read_tool_calls_body(body: &[u8]) -> (r: Result<ToolCallsMsg, String>)
    ensures
        match crate::json::json_of_bytes(body@) {
            Err(e) => r matches Err(m) && m@ == decode_error("step.tool-calls"@, e),
            Ok(doc) => r matches Ok(m) && tool_calls_match(doc, m),
        },
{
    match crate::json::decode_json(body) {
        Err(e) => Err(decode_message("step.tool-calls", e.as_str())),
        Ok(doc) => Ok(read_tool_calls(&doc)),
    }
}

/// Reads a `tool.result` message as it arrives: bytes that do not parse
/// are refused with the parse error.
pub fn read_tool_result_body(body: &[u8]) -> (r: Result<Option<ToolResultMsg>, String>)
    ensures
        match crate::json::json_of_bytes(body@) {
            Err(e) => r matches Err(m) && m@ == decode_error("tool.result"@, e),
            Ok(doc) => r matches Ok(x) && tool_result_matches(doc, x),
        },
{
    match crate::json::decode_json(body) {
        Err(e) => Err(decode_message("tool.result", e.as_str())),
        Ok(doc) => Ok(read_tool_result(&doc)),
    }
}

/// Reads a `step.result` message as it arrives: bytes that do not parse,
/// or a document that is not a step result, are refused.
pub fn read_step_result_body(body: &[u8]) -> (r: Result<(String, Option<String>, Option<String>), String>)
    ensures
        match crate::json::json_of_bytes(body@) {
            Err(e) => r matches Err(m) && m@ == decode_error("step.result"@, e),
            Ok(doc) => match step_result_of(doc) {
                None => r is Err,
                Some(x) => r matches Ok(v) && v.0@ == x.0 && opt_str(v.1) == x.1 && opt_str(v.2) == x.2,
            },
        },
{
    match crate::json::decode_json(body) {
        Err(e) => Err(decode_message("step.result", e.as_str())),
        Ok(doc) => match read_step_result(&doc) {
            Some(v) => Ok(v),
            None => Err("decode step.result: not a step result".to_string()),
        },
    }
}

/// Reads a step request as it arrives: bytes that do not parse, or a
/// document that is not a step request, are refused.
pub fn read_step_request_body(body: &[u8]) -> (r: Result<(String, String, String), String>)
    ensures
        match crate::json::json_of_bytes(body@) {
            Err(e) => r matches Err(m) && m@ == decode_error("step.agent"@, e),
            Ok(doc) => match step_request_of(doc) {
                None => r is Err,
                Some(x) => r matches Ok(v) && v.0@ == x.0 && v.1@ == x.1 && v.2@ == x.2,
            },
        },
{
    match crate::json::decode_json(body) {
        Err(e) => Err(decode_message("step.agent", e.as_str())),
        Ok(doc) => match read_step_request(&doc) {
            Some(v) => Ok(v),
            None => Err("decode step.agent: not a step request".to_string()),
        },
    }
}

} // verus!
