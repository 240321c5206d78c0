use mycelium::ordering::{conversation_message_keys, sort_keys, str_le};
use mycelium::store::{
    agent_key, conversations_of, create_agent, first_agent_id, memory_ack, memory_key, memory_keys,
    memory_keys_trimmed, message_key, messages_after, new_conversation, new_message, update_agent, DomainError,
};
use mycelium::types::{AgentConfig, MessageRole};

fn agent(id: &str) -> AgentConfig {
    AgentConfig {
        id: id.to_string(),
        name: id.to_string(),
        system_prompt: "be nice".to_string(),
        model: "m".to_string(),
        tools: vec!["calc".to_string()],
        max_steps: 4,
    }
}

#[test]
fn keys() {
    assert_eq!(agent_key("a1"), "agent/a1");
    assert_eq!(memory_key("a1", "k"), "memory/a1/k");
    assert_eq!(message_key("c", 7, "m1"), "msg/c/00000000000000000007_m1");
}

#[test]
fn creating_agents() {
    assert!(matches!(create_agent(&agent("  "), false), Err(DomainError::Validation(m)) if m == "agent id required"));
    assert!(matches!(create_agent(&agent("a"), true), Err(DomainError::Conflict(m)) if m == "agent a already exists"));
    let s = create_agent(&agent("a"), false).unwrap();
    assert_eq!(s.id, "a");
    assert!(s.endpoint.is_none());
}

#[test]
fn updating_keeps_endpoint_and_key() {
    let mut stored = create_agent(&agent("a"), false).unwrap();
    stored.set_endpoint_and_key(Some("http://e".to_string()), Some("k".to_string()));
    let mut changed = agent("a");
    changed.model = "other".to_string();
    let u = update_agent(&changed, Some(&stored)).unwrap();
    assert_eq!(u.model, "other");
    assert_eq!(u.endpoint.as_deref(), Some("http://e"));
    assert_eq!(u.api_key.as_deref(), Some("k"));
    assert!(matches!(update_agent(&changed, None), Err(DomainError::NotFound(m)) if m == "agent a not found"));
}

#[test]
fn stored_agent_setters() {
    let mut s = create_agent(&agent("a"), false).unwrap();
    s.set_tools(vec!["web".to_string()]);
    s.set_max_steps(9);
    assert_eq!(s.tools, vec!["web"]);
    assert_eq!(s.max_steps, 9);
    assert_eq!(s.model, "m");
    assert_eq!(first_agent_id(&vec![agent("x"), agent("y")]), Some("x".to_string()));
    assert_eq!(first_agent_id(&vec![]), None);
}

#[test]
fn memory_keys_listing() {
    let all = vec![
        "memory/a/x".to_string(),
        "memory/b/y".to_string(),
        "memory/a/memory/a/z".to_string(),
        "other".to_string(),
    ];
    assert_eq!(memory_keys(&all, "a"), vec!["x", "memory/a/z"]);
    assert_eq!(memory_keys_trimmed(&all, "a"), vec!["x", "z"]);
    assert_eq!(memory_ack(&None), "{\"ok\":true,\"error\":null}");
    assert_eq!(memory_ack(&Some("Backend(\"x\")".to_string())), "{\"ok\":false,\"error\":\"Backend(\\\"x\\\")\"}");
}

#[test]
fn messages_after_an_id() {
    let ms = vec![
        new_message("1".into(), MessageRole::User, "a".into(), None, "t".into()),
        new_message("2".into(), MessageRole::Assistant, "b".into(), None, "t".into()),
        new_message("3".into(), MessageRole::User, "c".into(), None, "t".into()),
    ];
    let after = messages_after(&ms, "1");
    assert_eq!(after.len(), 2);
    assert_eq!(after[0].id, "2");
    assert!(messages_after(&ms, "9").is_empty());
    assert!(messages_after(&ms, "3").is_empty());
}

#[test]
fn conversations_by_agent() {
    let cs = vec![
        new_conversation("c1".into(), "a".into(), None, "t".into()),
        new_conversation("c2".into(), "b".into(), Some("x".into()), "t".into()),
        new_conversation("c3".into(), "a".into(), None, "t".into()),
    ];
    let mine = conversations_of(cs, "a");
    assert_eq!(mine.iter().map(|c| c.id.as_str()).collect::<Vec<_>>(), vec!["c1", "c3"]);
}

#[test]
fn key_order_is_lexicographic() {
    assert!(str_le("abc", "abd"));
    assert!(str_le("ab", "abc"));
    assert!(!str_le("b", "abc"));
    assert!(str_le("", ""));
    let sorted = sort_keys(vec!["b".to_string(), "a".to_string(), "ab".to_string(), "a".to_string()]);
    assert_eq!(sorted, vec!["a", "a", "ab", "b"]);
}

#[test]
fn messages_list_in_append_order() {
    let later = message_key("c", 20, "zzz");
    let earlier = message_key("c", 3, "aaa");
    let middle = message_key("c", 10, "mmm");
    let keys = vec![later.clone(), "msg/other/1".to_string(), earlier.clone(), middle.clone()];
    assert_eq!(conversation_message_keys(&keys, "c"), vec![earlier, middle, later]);
}
