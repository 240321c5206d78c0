//! LLM call shapes shared by the agent step: the OpenAI-compatible
//! messages array and the tool-call records of a chat completion.

use vstd::prelude::*;
use crate::types::{role_name, role_to_str, AgentConfig, Message, ToolCallRequest, ToolCallResult};

verus! {

/// One entry of an OpenAI-compatible `messages` array:
/// `{"role": .., "content": .., "tool_call_id": ..}`.
#[derive(Clone, Debug)]
pub struct ChatMessage {
    pub role: String,
    pub content: String,
    pub tool_call_id: Option<String>,
}

/// Character view of an optional string.
pub open spec fn opt_str(o: Option<String>) -> Option<Seq<char>> {
    match o {
        Some(s) => Some(s@),
        None => None,
    }
}

impl View for ChatMessage {
    type V = (Seq<char>, Seq<char>, Option<Seq<char>>);

    open spec fn view(&self) -> Self::V {
        (self.role@, self.content@, opt_str(self.tool_call_id))
    }
}

/// Copy of an optional string.
pub fn clone_opt(o: &Option<String>) -> (r: Option<String>)
    ensures
        opt_str(r) == opt_str(*o),
{
    match o {
        Some(s) => Some(s.clone()),
        None => None,
    }
}

/// Minimal OpenAI-compatible chat completion response.
#[derive(Debug)]
pub struct ChatCompletion {
    pub choices: Vec<Choice>,
}

#[derive(Debug)]
pub struct Choice {
    pub message: AssistantMessage,
    pub finish_reason: String,
}

#[derive(Debug)]
pub struct AssistantMessage {
    pub content: Option<String>,
    pub tool_calls: Option<Vec<RawToolCall>>,
}

#[derive(Debug)]
pub struct RawToolCall {
    pub id: String,
    pub function: RawFunction,
}

#[derive(Debug)]
pub struct RawFunction {
    pub name: String,
    pub arguments: String,
}

/// The message list the LLM sees for a history: the agent's system prompt
/// first, then every history message with its role name and tool-call id.
pub open spec fn messages_for(config: AgentConfig, history: Seq<Message>) -> Seq<
    (Seq<char>, Seq<char>, Option<Seq<char>>),
> {
    seq![("system"@, config.system_prompt@, None::<Seq<char>>)] + history.map_values(
        |m: Message| (role_name(m.role), m.content@, opt_str(m.tool_use_id)),
    )
}

/// Build an OpenAI-compatible messages array from the conversation history.
pub fn build_messages(config: &AgentConfig, history: &[Message]) -> (out: Vec<ChatMessage>)
    ensures
        out@.map_values(|c: ChatMessage| c@) == messages_for(*config, history@),
{
    let mut out: Vec<ChatMessage> = Vec::new();
    out.push(
        ChatMessage {
            role: "system".to_string(),
            content: config.system_prompt.clone(),
            tool_call_id: None,
        },
    );
    let ghost tail = history@.map_values(
        |m: Message| (role_name(m.role), m.content@, opt_str(m.tool_use_id)),
    );
    let mut i: usize = 0;
    while i < history.len()
        invariant
            i <= history.len(),
            tail == history@.map_values(
                |m: Message| (role_name(m.role), m.content@, opt_str(m.tool_use_id)),
            ),
            out@.map_values(|c: ChatMessage| c@) == seq![
                ("system"@, config.system_prompt@, None::<Seq<char>>),
            ] + tail.take(i as int),
        decreases history.len() - i,
    {
        let m = &history[i];
        let role = role_to_str(m.role);
        let cm = ChatMessage {
            role: role.to_string(),
            content: m.content.clone(),
            tool_call_id: clone_opt(&m.tool_use_id),
        };
        assert(cm@ == tail[i as int]);
        let ghost prev = out@;
        out.push(cm);
        assert(out@.map_values(|c: ChatMessage| c@) =~= prev.map_values(|c: ChatMessage| c@).push(
            cm@,
        ));
        assert(tail.take(i + 1) == tail.take(i as int).push(tail[i as int]));
        i += 1;
    }
    assert(tail.take(history.len() as int) == tail);
    out
}

/// Parse raw tool calls from a chat completion into tool-call requests.
pub fn extract_tool_calls(calls: &[RawToolCall]) -> (out: Vec<ToolCallRequest>)
    ensures
        out@.len() == calls@.len(),
        forall|i: int|
            0 <= i < calls@.len() ==> {
                &&& (#[trigger] out@[i]).call_id@ == calls@[i].id@
                &&& out@[i].tool_id@ == calls@[i].function.name@
                &&& out@[i].args_json@ == calls@[i].function.arguments@
            },
{
    let mut out: Vec<ToolCallRequest> = Vec::new();
    let mut i: usize = 0;
    while i < calls.len()
        invariant
            i <= calls.len(),
            out@.len() == i,
            forall|j: int|
                0 <= j < i ==> {
                    &&& (#[trigger] out@[j]).call_id@ == calls@[j].id@
                    &&& out@[j].tool_id@ == calls@[j].function.name@
                    &&& out@[j].args_json@ == calls@[j].function.arguments@
                },
        decreases calls.len() - i,
    {
        let c = &calls[i];
        out.push(
            ToolCallRequest {
                call_id: c.id.clone(),
                tool_id: c.function.name.clone(),
                args_json: c.function.arguments.clone(),
            },
        );
        i += 1;
    }
    out
}

/// Tool results in the message shape the LLM expects:
/// `{"role": "tool", "tool_call_id": call_id, "content": output_json}`.
pub fn tool_results_to_messages(results: &[ToolCallResult]) -> (out: Vec<ChatMessage>)
    ensures
        out@.len() == results@.len(),
        forall|i: int|
            0 <= i < results@.len() ==> (#[trigger] out@[i])@ == (
                "tool"@,
                results@[i].output_json@,
                Some(results@[i].call_id@),
            ),
{
    let mut out: Vec<ChatMessage> = Vec::new();
    let mut i: usize = 0;
    while i < results.len()
        invariant
            i <= results.len(),
            out@.len() == i,
            forall|j: int|
                0 <= j < i ==> (#[trigger] out@[j])@ == (
                    "tool"@,
                    results@[j].output_json@,
                    Some(results@[j].call_id@),
                ),
        decreases results.len() - i,
    {
        let r = &results[i];
        out.push(
            ChatMessage {
                role: "tool".to_string(),
                content: r.output_json.clone(),
                tool_call_id: Some(r.call_id.clone()),
            },
        );
        i += 1;
    }
    out
}

} // verus!
