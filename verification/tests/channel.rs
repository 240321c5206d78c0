use mycelium::channel::{
    agent_set_reply, agents_listing, choose_agent, help_text, memory_listing, parse_agent_create, parse_slash_command,
    AgentChoice, SlashCommand,
};
use mycelium::store::new_message;
use mycelium::types::{AgentConfig, MessageRole};

#[test]
fn agent_create_command() {
    let c = parse_agent_create("/agent create bob gpt-4 You are Bob.").unwrap();
    assert_eq!(c.id, "bob");
    assert_eq!(c.name, "bob");
    assert_eq!(c.model, "gpt-4");
    assert_eq!(c.system_prompt, "You are Bob.");
    assert_eq!(c.max_steps, 4);
    let c = parse_agent_create("/agent create bob gpt-4").unwrap();
    assert_eq!(c.system_prompt, "");
    assert!(parse_agent_create("/agent create bob").is_none());
    assert!(parse_agent_create("/agent create  gpt").is_none());
    assert!(parse_agent_create("hello").is_none());
}

#[test]
fn slash_commands() {
    assert!(matches!(parse_slash_command("/help"), Some(SlashCommand::Help)));
    assert!(matches!(parse_slash_command("/start now"), Some(SlashCommand::Help)));
    assert!(matches!(parse_slash_command("/agents"), Some(SlashCommand::Agents)));
    assert!(matches!(parse_slash_command("/agent set  bob "), Some(SlashCommand::AgentSet(id)) if id == "bob"));
    assert!(matches!(parse_slash_command("/agent set"), Some(SlashCommand::AgentSetUsage)));
    assert!(matches!(parse_slash_command("/agent frob"), Some(SlashCommand::AgentUsage)));
    assert!(parse_slash_command("/agent create a b").is_none());
    assert!(matches!(parse_slash_command("/reset"), Some(SlashCommand::Reset)));
    assert!(matches!(parse_slash_command("/memory"), Some(SlashCommand::Memory)));
    assert!(matches!(parse_slash_command("/tools"), Some(SlashCommand::Tools)));
    assert!(matches!(parse_slash_command("/budget"), Some(SlashCommand::Quota)));
    assert!(parse_slash_command("/nope").is_none());
    assert!(parse_slash_command("plain text").is_none());
}

#[test]
fn agent_choice_for_a_chat() {
    assert!(matches!(choose_agent(&Some("x".into()), "d"), AgentChoice::Use(a) if a == "x"));
    assert!(matches!(choose_agent(&Some(String::new()), "d"), AgentChoice::Use(a) if a == "d"));
    assert!(matches!(choose_agent(&None, "auto"), AgentChoice::FirstRegistered));
    assert!(matches!(choose_agent(&None, ""), AgentChoice::FirstRegistered));
}

#[test]
fn listings() {
    let ms: Vec<_> = (0..12)
        .map(|i| new_message(i.to_string(), if i % 2 == 0 { MessageRole::User } else { MessageRole::Assistant }, format!("m{i}"), None, "t".into()))
        .collect();
    let text = memory_listing(&ms);
    let lines: Vec<&str> = text.lines().collect();
    assert_eq!(lines.len(), 10);
    assert_eq!(lines[0], "you: m2");
    assert_eq!(lines[9], "bot: m11");
    assert_eq!(memory_listing(&vec![]), "(empty)");
    let a = AgentConfig { id: "a".into(), name: "a".into(), system_prompt: String::new(), model: "m".into(), tools: vec![], max_steps: 4 };
    let b = AgentConfig { id: "b".into(), name: "b".into(), system_prompt: String::new(), model: "n".into(), tools: vec![], max_steps: 4 };
    assert_eq!(agents_listing(&vec![a, b], "b"), "  a (m)\n* b (n)");
    assert_eq!(agents_listing(&vec![], "b"), "no agents yet — use /agent create <id> <model> <prompt>");
    assert!(help_text().starts_with("commands:\n/help"));
    assert_eq!(agent_set_reply("x"), "default agent for this chat → x");
}
