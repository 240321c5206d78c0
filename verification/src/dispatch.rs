//! Tool-call dispatch in the skill runner: which backend serves a call,
//! the error answers, the published result, and the MCP tool routing
//! table.

use vstd::prelude::*;
use crate::json::{field, get, json_quote, quoted, str_of, text_of, Json};
use crate::text::{push_str, string_from_chars};
use crate::tool_runner::{SkillManifest, ToolCallResp};

verus! {

/// The tool named by a call subject `mycelium.tool.call.<tool>`; `None`
/// when the subject is another or names no tool.
pub fn tool_call_name(subject: &str) -> (r: Option<String>)
    ensures
        match r {
            Some(n) => subject@ == "mycelium.tool.call."@ + n@ && n@.len() > 0,
            None => !"mycelium.tool.call."@.is_prefix_of(subject@) || subject@ == "mycelium.tool.call."@,
        },
{
    let s = crate::text::chars_of(subject);
    let p = crate::text::chars_of("mycelium.tool.call.");
    if !crate::text::starts_with_chars(s.as_slice(), p.as_slice()) {
        return None;
    }
    let rest = crate::text::slice_from(s.as_slice(), p.len());
    if rest.len() == 0 {
        assert(s@ == p@);
        return None;
    }
    assert(s@ == p@ + rest@);
    Some(string_from_chars(rest.as_slice()))
}

/// The string member `key` of an envelope, or `default`.
pub open spec fn str_or(env: Json, key: Seq<char>, default: Seq<char>) -> Seq<char> {
    match str_of(field(env, key)) {
        Some(s) => s,
        None => default,
    }
}

fn member_or(env: &Json, key: &str, default: &str) -> (s: String)
    ensures
        s@ == str_or(*env, key@, default@),
{
    match crate::json::as_str(get(env, key)) {
        Some(v) => v,
        None => default.to_string(),
    }
}

/// The task id, call id and raw arguments of a call envelope; missing ids
/// are empty, missing arguments are `{}`.
pub fn call_envelope(env: &Json) -> (r: (String, String, String))
    ensures
        r.0@ == str_or(*env, "task_id"@, Seq::empty()),
        r.1@ == str_or(*env, "call_id"@, Seq::empty()),
        r.2@ == str_or(*env, "arguments"@, "{}"@),
{
    proof {
        reveal_strlit("");
    }
    (member_or(env, "task_id", ""), member_or(env, "call_id", ""), member_or(env, "arguments", "{}"))
}

/// A failed call's answer: `{"error":"<message>"}`, flagged as an error.
pub fn error_resp(call_id: &str, tool_id: &str, msg: &str) -> (r: ToolCallResp)
    ensures
        r.call_id@ == call_id@,
        r.tool_id@ == tool_id@,
        r.output_json@ == crate::tools::error_json(msg@),
        r.is_error,
{
    let mut v: Vec<char> = Vec::new();
    push_str(&mut v, "{\"error\":");
    push_str(&mut v, json_quote(msg).as_str());
    push_str(&mut v, "}");
    ToolCallResp {
        call_id: call_id.to_string(),
        tool_id: tool_id.to_string(),
        output_json: string_from_chars(v.as_slice()),
        is_error: true,
    }
}

/// What serves a call.
#[derive(Debug)]
pub enum Backend {
    /// A registered skill.
    Skill(SkillManifest),
    /// An MCP server that exports the tool, with its manifest lookup.
    Mcp { server: String, manifest: Result<Option<SkillManifest>, String> },
    /// Nothing knows the tool.
    Unknown,
}

/// How a call proceeds.
#[derive(Debug)]
pub enum Dispatch {
    InvokeSkill(SkillManifest),
    InvokeMcp(SkillManifest),
    Answer(ToolCallResp),
}

/// Routes a call: a skill of that name first, then an MCP server that
/// exports it; a missing or unreadable server manifest, or no backend at
/// all, is answered with an error.
pub fn route_call(name: &str, call_id: &str, backend: Backend) -> (d: Dispatch)
    ensures
        match backend {
            Backend::Skill(m) => d matches Dispatch::InvokeSkill(x) && x == m,
            Backend::Mcp { server, manifest } => match manifest {
                Ok(Some(m)) => d matches Dispatch::InvokeMcp(x) && x == m,
                Ok(None) => d matches Dispatch::Answer(r) && r.call_id@ == call_id@ && r.tool_id@ == name@
                    && r.is_error && r.output_json@ == crate::tools::error_json(
                    "MCP server "@ + server@ + " manifest missing"@,
                ),
                Err(e) => d matches Dispatch::Answer(r) && r.call_id@ == call_id@ && r.tool_id@ == name@
                    && r.is_error && r.output_json@ == crate::tools::error_json("MCP manifest lookup failed: "@ + e@),
            },
            Backend::Unknown => d matches Dispatch::Answer(r) && r.call_id@ == call_id@ && r.tool_id@ == name@
                && r.is_error && r.output_json@ == crate::tools::error_json(
                "tool "@ + name@ + " not registered (no skill or MCP server found)"@,
            ),
        },
{
    match backend {
        Backend::Skill(m) => Dispatch::InvokeSkill(m),
        Backend::Mcp { server, manifest } => match manifest {
            Ok(Some(m)) => Dispatch::InvokeMcp(m),
            Ok(None) => {
                let mut v: Vec<char> = Vec::new();
                push_str(&mut v, "MCP server ");
                push_str(&mut v, server.as_str());
                push_str(&mut v, " manifest missing");
                let m = string_from_chars(v.as_slice());
                Dispatch::Answer(error_resp(call_id, name, m.as_str()))
            },
            Err(e) => {
                let mut v: Vec<char> = Vec::new();
                push_str(&mut v, "MCP manifest lookup failed: ");
                push_str(&mut v, e.as_str());
                let m = string_from_chars(v.as_slice());
                Dispatch::Answer(error_resp(call_id, name, m.as_str()))
            },
        },
        Backend::Unknown => {
            let mut v: Vec<char> = Vec::new();
            push_str(&mut v, "tool ");
            push_str(&mut v, name);
            push_str(&mut v, " not registered (no skill or MCP server found)");
            let m = string_from_chars(v.as_slice());
            Dispatch::Answer(error_resp(call_id, name, m.as_str()))
        },
    }
}

/// The answer of a skill invocation: a loader failure is answered for the
/// call, a sandbox failure with an empty call id, both under the skill's
/// name.
pub fn skill_outcome(call_id: &str, skill: &str, loaded: Result<(), String>, invoked: Result<ToolCallResp, String>) -> (r: ToolCallResp)
    ensures
        match loaded {
            Err(e) => r.call_id@ == call_id@ && r.tool_id@ == skill@ && r.is_error
                && r.output_json@ == crate::tools::error_json("loader failed: "@ + e@),
            Ok(()) => match invoked {
                Ok(x) => r == x,
                Err(e) => r.call_id@.len() == 0 && r.tool_id@ == skill@ && r.is_error
                    && r.output_json@ == crate::tools::error_json("sandbox: "@ + e@),
            },
        },
{
    match loaded {
        Err(e) => {
            let mut v: Vec<char> = Vec::new();
            push_str(&mut v, "loader failed: ");
            push_str(&mut v, e.as_str());
            let m = string_from_chars(v.as_slice());
            error_resp(call_id, skill, m.as_str())
        },
        Ok(()) => match invoked {
            Ok(x) => x,
            Err(e) => {
                let mut v: Vec<char> = Vec::new();
                push_str(&mut v, "sandbox: ");
                push_str(&mut v, e.as_str());
                let m = string_from_chars(v.as_slice());
                proof {
                    reveal_strlit("");
                }
                error_resp("", skill, m.as_str())
            },
        },
    }
}

/// The answer of an MCP tool invocation: loader and sandbox failures are
/// both answered for the call under the tool's name.
pub fn mcp_outcome(call_id: &str, tool: &str, loaded: Result<(), String>, invoked: Result<ToolCallResp, String>) -> (r: ToolCallResp)
    ensures
        match loaded {
            Err(e) => r.call_id@ == call_id@ && r.tool_id@ == tool@ && r.is_error
                && r.output_json@ == crate::tools::error_json("loader failed: "@ + e@),
            Ok(()) => match invoked {
                Ok(x) => r == x,
                Err(e) => r.call_id@ == call_id@ && r.tool_id@ == tool@ && r.is_error
                    && r.output_json@ == crate::tools::error_json("sandbox: "@ + e@),
            },
        },
{
    match loaded {
        Err(e) => {
            let m = crate::store::join2("loader failed: ", e.as_str());
            error_resp(call_id, tool, m.as_str())
        },
        Ok(()) => match invoked {
            Ok(x) => x,
            Err(e) => {
                let m = crate::store::join2("sandbox: ", e.as_str());
                error_resp(call_id, tool, m.as_str())
            },
        },
    }
}

/// The published result of a call, members in sorted order: the output
/// text as `output` for a success, as `error` for a failure, the other
/// one `null`.
pub open spec fn result_json(task_id: Seq<char>, r: ToolCallResp) -> Seq<char> {
    "{\"call_id\":"@ + quoted(r.call_id@) + ",\"error\":"@ + (if r.is_error {
        quoted(r.output_json@)
    } else {
        "null"@
    }) + ",\"output\":"@ + (if r.is_error {
        "null"@
    } else {
        quoted(r.output_json@)
    }) + ",\"task_id\":"@ + quoted(task_id) + ",\"tool_id\":"@ + quoted(r.tool_id@) + "}"@
}

pub fn result_body(task_id: &str, r: &ToolCallResp) -> (s: String)
    ensures
        s@ == result_json(task_id@, *r),
{
    let mut v: Vec<char> = Vec::new();
    push_str(&mut v, "{\"call_id\":");
    push_str(&mut v, json_quote(r.call_id.as_str()).as_str());
    push_str(&mut v, ",\"error\":");
    if r.is_error {
        push_str(&mut v, json_quote(r.output_json.as_str()).as_str());
    } else {
        push_str(&mut v, "null");
    }
    push_str(&mut v, ",\"output\":");
    if r.is_error {
        push_str(&mut v, "null");
    } else {
        push_str(&mut v, json_quote(r.output_json.as_str()).as_str());
    }
    push_str(&mut v, ",\"task_id\":");
    push_str(&mut v, json_quote(task_id).as_str());
    push_str(&mut v, ",\"tool_id\":");
    push_str(&mut v, json_quote(r.tool_id.as_str()).as_str());
    push_str(&mut v, "}");
    string_from_chars(v.as_slice())
}

/// A tool an MCP server exports.
#[derive(Clone, Debug)]
pub struct McpToolDef {
    pub name: String,
    pub description: String,
    pub input_schema: String,
}

/// The schema of a tool without a readable one.
pub open spec fn default_schema_text() -> Seq<char> {
    "{\"properties\":{},\"required\":[],\"type\":\"object\"}"@
}

/// The schema entry stored for an MCP tool: description, owning server and
/// parameters (its schema, or an empty object schema when it did not
/// parse), members in sorted order.
pub open spec fn tool_entry_json(description: Seq<char>, server: Seq<char>, schema: Option<Json>) -> Seq<char> {
    "{\"description\":"@ + quoted(description) + ",\"mcp_server\":"@ + quoted(server) + ",\"parameters\":"@ + match schema {
        Some(j) => text_of(j),
        None => default_schema_text(),
    } + "}"@
}

pub fn tool_entry(description: &str, server: &str, schema: &Option<Json>) -> (s: String)
    ensures
        s@ == tool_entry_json(description@, server@, *schema),
{
    let mut v: Vec<char> = Vec::new();
    push_str(&mut v, "{\"description\":");
    push_str(&mut v, json_quote(description).as_str());
    push_str(&mut v, ",\"mcp_server\":");
    push_str(&mut v, json_quote(server).as_str());
    push_str(&mut v, ",\"parameters\":");
    match schema {
        Some(j) => crate::json::render(j, &mut v),
        None => push_str(&mut v, "{\"properties\":{},\"required\":[],\"type\":\"object\"}"),
    }
    push_str(&mut v, "}");
    string_from_chars(v.as_slice())
}

/// One entry of the tool routing table: a tool and the stored server name.
#[derive(Clone, Debug)]
pub struct RouteEntry {
    pub tool: String,
    pub server: Vec<u8>,
}

/// The tools a server owns, in table order.
pub open spec fn owned_by(es: Seq<RouteEntry>, server: Seq<char>) -> Seq<Seq<char>>
    decreases es.len(),
{
    if es.len() == 0 {
        Seq::empty()
    } else if es.last().server@ == crate::loader::utf8(server) {
        owned_by(es.drop_last(), server).push(es.last().tool@)
    } else {
        owned_by(es.drop_last(), server)
    }
}

fn bytes_eq(a: &[u8], b: &[u8]) -> (r: bool)
    ensures
        r == (a@ == b@),
{
    if a.len() != b.len() {
        return false;
    }
    let mut i: usize = 0;
    while i < a.len()
        invariant
            i <= a@.len(),
            a@.len() == b@.len(),
            forall|j: int| 0 <= j < i ==> a@[j] == b@[j],
        decreases a.len() - i,
    {
        if a[i] != b[i] {
            return false;
        }
        i += 1;
    }
    assert(a@ =~= b@);
    true
}

/// Uninstalling a server removes the tools whose table entry names it.
pub fn tools_owned_by(entries: &Vec<RouteEntry>, server: &str) -> (out: Vec<String>)
    ensures
        crate::config::strings_view(out@) == owned_by(entries@, server@),
{
    let sb = server.as_bytes();
    let mut out: Vec<String> = Vec::new();
    let mut i: usize = 0;
    while i < entries.len()
        invariant
            i <= entries@.len(),
            sb@ == crate::loader::utf8(server@),
            crate::config::strings_view(out@) == owned_by(entries@.take(i as int), server@),
        decreases entries.len() - i,
    {
        assert(entries@.take(i + 1).drop_last() == entries@.take(i as int));
        assert(entries@.take(i + 1).last() == entries@[i as int]);
        if bytes_eq(entries[i].server.as_slice(), sb) {
            let ghost prev = out@;
            out.push(entries[i].tool.clone());
            assert(crate::config::strings_view(out@) =~= crate::config::strings_view(prev).push(entries@[i as int].tool@));
        }
        i += 1;
    }
    assert(entries@.take(entries@.len() as int) == entries@);
    out
}

/// The server a tool routes to: the UTF-8 server name of its table entry
/// (the last one when the tool appears twice); entries that are not UTF-8
/// are ignored.
pub open spec fn route_of(es: Seq<RouteEntry>, tool: Seq<char>) -> Option<Seq<char>>
    decreases es.len(),
{
    if es.len() == 0 {
        None
    } else if es.last().tool@ == tool && vstd::utf8::valid_utf8(es.last().server@) {
        Some(vstd::utf8::decode_utf8(es.last().server@))
    } else {
        route_of(es.drop_last(), tool)
    }
}

pub fn route(entries: &Vec<RouteEntry>, tool: &str) -> (r: Option<String>)
    ensures
        crate::agent_core::opt_str(r) == route_of(entries@, tool@),
{
    let mut i: usize = entries.len();
    assert(entries@.take(i as int) == entries@);
    while i > 0
        invariant
            i <= entries@.len(),
            route_of(entries@, tool@) == route_of(entries@.take(i as int), tool@),
        decreases i,
    {
        assert(entries@.take(i as int).drop_last() == entries@.take(i - 1));
        assert(entries@.take(i as int).last() == entries@[i - 1]);
        let e = &entries[i - 1];
        if crate::text::str_eq(e.tool.as_str(), tool) {
            match crate::text::utf8_text(e.server.as_slice()) {
                Some(s) => {
                    return Some(s);
                },
                None => {},
            }
        }
        i -= 1;
    }
    None
}

} // verus!
