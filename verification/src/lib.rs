//! Verified core of the mycelium agent pipeline: message routing, the
//! agent step loop, rate limiting, slash-command parsing, store key
//! schemes and the sandbox policy gate.

pub mod text;
pub mod subject;
pub mod types;
pub mod agent_core;
pub mod executor;
pub mod config;
pub mod store;
pub mod channel;
pub mod llm;
pub mod tool_runner;
pub mod loader;
pub mod hook_runner;
pub mod session;
pub mod events;
pub mod hooks;
pub mod router;
pub mod civil;
pub mod telegram;
pub mod quota;
pub mod compaction;
pub mod json;
pub mod tools;
pub mod calc;
pub mod gateway;
pub mod ordering;
pub mod dispatch;
pub mod cli;
pub mod skills;
pub mod registry;
pub mod step_wire;
pub mod bus;
pub mod tg_wire;
pub mod records;
pub mod task_record;
pub mod pairing;
pub mod manifest;
