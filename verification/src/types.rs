//! Shared domain types: conversations, messages, tasks, tool calls, agent
//! configuration, channel messages and pairing records.

use vstd::prelude::*;
use crate::text::str_eq;

verus! {

/// Phases of one agent run, in the order a run passes through them.
#[derive(Clone, Copy, Debug, PartialEq, Eq, Structural)]
pub enum LifecyclePhase {
    Started,
    Stepping,
    ToolCalls,
    ToolResult,
    Completed,
    Error,
}

/// One lifecycle notification of a run.
#[derive(Clone, Debug)]
pub struct LifecycleEvent {
    pub run_id: String,
    pub task_id: String,
    pub phase: LifecyclePhase,
    pub step: u32,
    pub ts: String,
    pub error: Option<String>,
}

/// Author of a conversation message.
#[derive(Clone, Copy, Debug, PartialEq, Eq, Structural)]
pub enum MessageRole {
    System,
    User,
    Assistant,
    Tool,
}

#[derive(Clone, Debug)]
pub struct Message {
    pub id: String,
    pub role: MessageRole,
    pub content: String,
    pub tool_use_id: Option<String>,
    pub created_at: String,
}

#[derive(Clone, Debug)]
pub struct Conversation {
    pub id: String,
    pub agent_id: String,
    pub title: Option<String>,
    pub created_at: String,
    pub updated_at: String,
}

#[derive(Clone, Debug)]
pub struct Task {
    pub id: String,
    pub conversation_id: String,
    pub agent_id: String,
    pub input: String,
    pub created_at: String,
}

#[derive(Clone, Copy, Debug, PartialEq, Eq, Structural)]
pub enum TaskStatus {
    Pending,
    Running,
    Paused,
    Done,
    Failed,
}

#[derive(Clone, Debug)]
pub struct ToolCallRequest {
    pub call_id: String,
    pub tool_id: String,
    pub args_json: String,
}

#[derive(Clone, Debug)]
pub struct ToolCallResult {
    pub call_id: String,
    pub tool_id: String,
    pub output_json: String,
    pub is_error: bool,
}

#[derive(Clone, Debug)]
pub struct AgentConfig {
    pub id: String,
    pub name: String,
    pub system_prompt: String,
    pub model: String,
    pub tools: Vec<String>,
    pub max_steps: u32,
}

/// Channel message normalised from any inbound channel (Telegram, CLI, ...).
#[derive(Clone, Debug)]
pub struct ChannelMessage {
    pub channel_msg_id: String,
    pub sender_id: String,
    pub conversation_id: Option<String>,
    pub agent_id: Option<String>,
    pub text: String,
    pub raw_json: String,
}

/// Reply to be sent back through a specific channel.
#[derive(Clone, Debug)]
pub struct ChannelReply {
    pub recipient_id: String,
    pub conversation_id: String,
    pub text: String,
    pub format_hints: Option<String>,
}

/// Pairing code displayed by the CLI.
#[derive(Clone, Debug)]
pub struct PairCode {
    pub code: String,
    pub expires_at: u64,
}

/// Active pairing between a CLI session and a Telegram chat.
#[derive(Clone, Debug)]
pub struct PairInfo {
    pub session_id: String,
    pub chat_id: String,
    pub conversation_id: String,
    pub paired_at: u64,
}

/// Wire name of a role.
pub open spec fn role_name(r: MessageRole) -> Seq<char> {
    match r {
        MessageRole::System => "system"@,
        MessageRole::User => "user"@,
        MessageRole::Assistant => "assistant"@,
        MessageRole::Tool => "tool"@,
    }
}

/// Role named by a wire string; anything unrecognised is a user message.
pub open spec fn role_of_name(s: Seq<char>) -> MessageRole {
    if s == "system"@ {
        MessageRole::System
    } else if s == "assistant"@ {
        MessageRole::Assistant
    } else if s == "tool"@ {
        MessageRole::Tool
    } else {
        MessageRole::User
    }
}

/// Wire name of a message role.
pub fn role_to_str(r: MessageRole) -> (s: &'static str)
    ensures
        s@ == role_name(r),
{
    match r {
        MessageRole::System => "system",
        MessageRole::User => "user",
        MessageRole::Assistant => "assistant",
        MessageRole::Tool => "tool",
    }
}

/// Parses a wire role name; unknown names fall back to `User`.
pub fn role_from_str(s: &str) -> (r: MessageRole)
    ensures
        r == role_of_name(s@),
{
    proof {
        lemma_role_round_trip(MessageRole::User);
    }
    if str_eq(s, "system") {
        MessageRole::System
    } else if str_eq(s, "user") {
        MessageRole::User
    } else if str_eq(s, "assistant") {
        MessageRole::Assistant
    } else if str_eq(s, "tool") {
        MessageRole::Tool
    } else {
        MessageRole::User
    }
}

/// Law: reading back the wire name of a role gives the role again.
pub proof fn lemma_role_round_trip(r: MessageRole)
    ensures
        role_of_name(role_name(r)) == r,
{
    reveal_strlit("user");
    reveal_strlit("assistant");
    reveal_strlit("tool");
    reveal_strlit("system");
    assert("user"@.len() == 4);
    assert("tool"@.len() == 4);
    assert("system"@.len() == 6);
    assert("assistant"@.len() == 9);
    assert("user"@[0] != "tool"@[0]);
}

} // verus!
