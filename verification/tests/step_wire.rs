use mycelium::agent_core::ChatMessage;
use mycelium::executor::{lifecycle_body, lifecycle_subject, phase_str, task_body, TaskJson};
use mycelium::json::Json;
use mycelium::llm::{LlmReply, ToolCall};
use mycelium::registry::{find_entry, ManifestCache, HOOK_CACHE_TTL_MS, ROUTE_CACHE_TTL_MS, SKILL_CACHE_TTL_MS};
use mycelium::step_wire::{
    call_from, chat_message_json, completion_reply, request_body, step_outcome, step_record_body, step_result_body,
    tool_calls_body, tool_decl, tool_decls, StepOutcome,
};
use mycelium::types::{LifecycleEvent, LifecyclePhase};
use serde_json::Value;

fn tree(v: &Value) -> Json {
    match v {
        Value::Null => Json::Null,
        Value::Bool(b) => Json::Bool(*b),
        Value::Number(n) => Json::Number(n.to_string()),
        Value::String(s) => Json::Str(s.clone()),
        Value::Array(items) => Json::Array(items.iter().map(tree).collect()),
        Value::Object(ms) => Json::Object(ms.iter().map(|(k, v)| (k.clone(), tree(v))).collect()),
    }
}

fn parsed(text: &str) -> Json {
    tree(&serde_json::from_str::<Value>(text).unwrap())
}

/// serde_json's compact rendering of a document, members sorted.
fn canonical(text: &str) -> String {
    serde_json::to_string(&serde_json::from_str::<Value>(text).unwrap()).unwrap()
}

fn msg(role: &str, content: &str, id: Option<&str>) -> ChatMessage {
    ChatMessage { role: role.into(), content: content.into(), tool_call_id: id.map(|s| s.to_string()) }
}

#[test]
fn chat_messages_render_like_serde_json() {
    assert_eq!(chat_message_json(&msg("user", "hi \"there\"", None)), "{\"content\":\"hi \\\"there\\\"\",\"role\":\"user\"}");
    assert_eq!(
        chat_message_json(&msg("tool", "{}", Some("c1"))),
        canonical("{\"role\":\"tool\",\"tool_call_id\":\"c1\",\"content\":\"{}\"}")
    );
}

#[test]
fn request_body_without_tools() {
    let ms = vec![msg("system", "You are mycelium agent a.", None), msg("user", "hello", None)];
    let body = request_body("m1", &ms, &vec![]);
    assert_eq!(
        body,
        canonical(
            "{\"model\":\"m1\",\"messages\":[{\"role\":\"system\",\"content\":\"You are mycelium agent a.\"},{\"role\":\"user\",\"content\":\"hello\"}],\"stream\":false}"
        )
    );
}

#[test]
fn request_body_with_tools_asks_for_auto_choice() {
    let ms = vec![msg("system", "s", None)];
    let decl = tool_decl("calc", &parsed("{\"description\":\"math\",\"parameters\":{\"type\":\"object\"}}"));
    let body = request_body("m", &ms, &vec![decl.clone(), decl]);
    let v: Value = serde_json::from_str(&body).unwrap();
    assert_eq!(v["tool_choice"], "auto");
    assert_eq!(v["tools"].as_array().unwrap().len(), 2);
    assert_eq!(v["tools"][0]["function"]["name"], "calc");
    assert_eq!(body, serde_json::to_string(&v).unwrap());
}

#[test]
fn tool_declarations_fill_defaults() {
    assert_eq!(
        tool_decl("t", &parsed("{}")),
        canonical("{\"type\":\"function\",\"function\":{\"name\":\"t\",\"description\":\"\",\"parameters\":{\"type\":\"object\"}}}")
    );
    assert_eq!(
        tool_decl("w", &parsed("{\"description\":\"fetch\",\"parameters\":{\"required\":[\"url\"],\"type\":\"object\"},\"extra\":1}")),
        canonical(
            "{\"type\":\"function\",\"function\":{\"name\":\"w\",\"description\":\"fetch\",\"parameters\":{\"type\":\"object\",\"required\":[\"url\"]}}}"
        )
    );
    let wanted = vec!["a".to_string(), "missing".to_string(), "b".to_string()];
    let specs = vec![Some(parsed("{}")), None, Some(parsed("{\"description\":\"B\"}"))];
    let decls = tool_decls(&wanted, &specs);
    assert_eq!(decls.len(), 2);
    assert!(decls[0].contains("\"name\":\"a\""));
    assert!(decls[1].contains("\"description\":\"B\""));
}

#[test]
fn completion_with_tool_calls() {
    let doc = parsed(
        "{\"choices\":[{\"message\":{\"content\":null,\"tool_calls\":[{\"id\":\"c1\",\"function\":{\"name\":\"calc\",\"arguments\":\"{\\\"expr\\\":\\\"1+1\\\"}\"}},{\"id\":\"c2\",\"function\":{\"arguments\":\"{}\"}},{\"function\":{\"name\":\"time\"}}]}}]}",
    );
    match completion_reply(&doc) {
        LlmReply::Tools(calls) => {
            assert_eq!(calls.len(), 2);
            assert_eq!((calls[0].id.as_str(), calls[0].name.as_str(), calls[0].arguments.as_str()), ("c1", "calc", "{\"expr\":\"1+1\"}"));
            assert_eq!((calls[1].id.as_str(), calls[1].name.as_str(), calls[1].arguments.as_str()), ("", "time", "{}"));
        }
        LlmReply::Text(_) => panic!("expected tool calls"),
    }
}

#[test]
fn completion_with_text_or_nothing() {
    match completion_reply(&parsed("{\"choices\":[{\"message\":{\"content\":\"hi\",\"tool_calls\":[]}}]}")) {
        LlmReply::Text(t) => assert_eq!(t, "hi"),
        _ => panic!(),
    }
    match completion_reply(&parsed("{\"choices\":{\"0\":{\"message\":{\"content\":\"by pointer\"}}}}")) {
        LlmReply::Text(t) => assert_eq!(t, "by pointer"),
        _ => panic!(),
    }
    match completion_reply(&parsed("{\"choices\":[]}")) {
        LlmReply::Text(t) => assert_eq!(t, ""),
        _ => panic!(),
    }
    let c = call_from(&parsed("{\"id\":7,\"function\":[\"name\"]}"));
    assert_eq!((c.id.as_str(), c.name.as_str(), c.arguments.as_str()), ("", "", "{}"));
}

#[test]
fn step_bodies() {
    assert_eq!(step_result_body("t1", &Some("ok".into()), &None), "{\"error\":null,\"output\":\"ok\",\"task_id\":\"t1\"}");
    assert_eq!(step_record_body("t1", &None, &Some("boom".into())), "{\"task_id\":\"t1\",\"output\":null,\"error\":\"boom\"}");
    let calls = vec![ToolCall { id: "c1".into(), name: "calc".into(), arguments: "{}".into() }];
    assert_eq!(
        tool_calls_body("t", "conv", "ag", &calls),
        canonical("{\"task_id\":\"t\",\"conversation_id\":\"conv\",\"agent_id\":\"ag\",\"calls\":[{\"id\":\"c1\",\"name\":\"calc\",\"arguments\":\"{}\"}]}")
    );
}

#[test]
fn step_outcome_routes_the_reply() {
    let calls = vec![ToolCall { id: "c1".into(), name: "n".into(), arguments: "{}".into() }];
    assert!(matches!(step_outcome(Ok(LlmReply::Tools(calls))), StepOutcome::Dispatch(v) if v.len() == 1));
    assert!(matches!(step_outcome(Ok(LlmReply::Tools(vec![]))), StepOutcome::Finish { output: None, error: None }));
    match step_outcome(Ok(LlmReply::Text("hi".into()))) {
        StepOutcome::Finish { output, error } => assert_eq!((output, error), (Some("hi".to_string()), None)),
        _ => panic!(),
    }
    match step_outcome(Err("HTTP 500: x".into())) {
        StepOutcome::Finish { output, error } => assert_eq!((output, error), (None, Some("HTTP 500: x".to_string()))),
        _ => panic!(),
    }
}

#[test]
fn manifest_cache_answers_within_its_time_to_live() {
    let mut c: ManifestCache<u32> = ManifestCache::new(HOOK_CACHE_TTL_MS);
    assert_eq!(c.lookup("before-tool-call", 0), None);
    c.fill(vec![("before-tool-call".into(), 1), ("after-tool-call".into(), 2), ("before-tool-call".into(), 3)], 1_000);
    assert_eq!(c.lookup("before-tool-call", 1_000), Some(&1));
    assert_eq!(c.lookup("after-tool-call", 1_000 + HOOK_CACHE_TTL_MS), Some(&2));
    assert_eq!(c.lookup("after-tool-call", 1_000 + HOOK_CACHE_TTL_MS + 1), None);
    assert_eq!(c.lookup("session-start", 1_500), None);
    c.invalidate();
    assert_eq!(c.lookup("before-tool-call", 1_000), None);
    assert_eq!(SKILL_CACHE_TTL_MS, 30_000);
}

#[test]
fn route_cache_expires_at_its_time_to_live() {
    let mut c: ManifestCache<String> = ManifestCache::new(ROUTE_CACHE_TTL_MS);
    assert_eq!(c.route("todo_add", 5), None);
    c.fill(vec![("todo_add".into(), "mcp-todo".into())], 100);
    assert_eq!(c.route("todo_add", 100), Some(Some(&"mcp-todo".to_string())));
    assert_eq!(c.route("other", 100 + ROUTE_CACHE_TTL_MS - 1), Some(None));
    assert_eq!(c.route("todo_add", 100 + ROUTE_CACHE_TTL_MS), None);
    assert_eq!(c.route("todo_add", 50), Some(Some(&"mcp-todo".to_string())));
    let entries = vec![("x".to_string(), 9u8)];
    assert_eq!(find_entry(&entries, "x"), Some(&9));
    assert_eq!(find_entry(&entries, "y"), None);
}

#[test]
fn lifecycle_and_task_bodies() {
    assert_eq!(lifecycle_subject(""), None);
    assert_eq!(lifecycle_subject("r1"), Some("mycelium.run.r1.lifecycle".to_string()));
    assert_eq!(phase_str(LifecyclePhase::ToolResult), "tool-result");
    let e = LifecycleEvent {
        run_id: "r".into(),
        task_id: "t".into(),
        phase: LifecyclePhase::ToolCalls,
        step: 2,
        ts: "2024-01-01T00:00:00Z".into(),
        error: None,
    };
    assert_eq!(lifecycle_body(&e), "{\"run_id\":\"r\",\"task_id\":\"t\",\"phase\":\"tool-calls\",\"step\":2,\"ts\":\"2024-01-01T00:00:00Z\"}");
    let e2 = LifecycleEvent { error: Some("max steps".into()), phase: LifecyclePhase::Error, ..e };
    assert!(lifecycle_body(&e2).ends_with(",\"error\":\"max steps\"}"));
    let t = TaskJson {
        id: "1".into(),
        conversation_id: "c".into(),
        agent_id: "a".into(),
        input: "hi".into(),
        created_at: "now".into(),
    };
    assert_eq!(task_body(&t), "{\"id\":\"1\",\"conversation_id\":\"c\",\"agent_id\":\"a\",\"input\":\"hi\",\"created_at\":\"now\"}");
}
