use mycelium::bus::{read_step_result, read_tool_calls, read_tool_result, step_request_body, tool_call_body, tool_call_subject};
use mycelium::channel::{agent_set_usage_text, agent_usage_text, agents_reply, memory_reply, reset_reply};
use mycelium::executor::{normalize_calls, ToolCallSpec};
use mycelium::json::Json;
use mycelium::quota::tool_entry_of;
use mycelium::router::{canonical_body, chat_task_body, pending_body, read_pending, read_update};
use mycelium::store::new_message;
use mycelium::tg_wire::{
    action_body, edit_body, get_updates_url, missing_result_error, poll_request_secs, reaction_body, read_answer,
    send_body, short_description_body, Answer,
};
use mycelium::types::{AgentConfig, MessageRole};
use serde_json::Value;

fn tree(v: &Value) -> Json {
    match v {
        Value::Null => Json::Null,
        Value::Bool(b) => Json::Bool(*b),
        Value::Number(n) => Json::Number(n.to_string()),
        Value::String(s) => Json::Str(s.clone()),
        Value::Array(items) => Json::Array(items.iter().map(tree).collect()),
        Value::Object(ms) => Json::Object(ms.iter().map(|(k, v)| (k.clone(), tree(v))).collect()),
    }
}

fn parsed(text: &str) -> Json {
    tree(&serde_json::from_str::<Value>(text).unwrap())
}

fn canonical(text: &str) -> String {
    serde_json::to_string(&serde_json::from_str::<Value>(text).unwrap()).unwrap()
}

#[test]
fn bot_api_bodies_match_serde_json() {
    assert_eq!(send_body("42", "hi", false), canonical("{\"chat_id\":\"42\",\"text\":\"hi\"}"));
    assert_eq!(
        send_body("42", "*b*", true),
        canonical("{\"chat_id\":\"42\",\"text\":\"*b*\",\"parse_mode\":\"Markdown\"}")
    );
    assert_eq!(
        edit_body("42", -7, "x"),
        canonical("{\"chat_id\":\"42\",\"message_id\":-7,\"text\":\"x\",\"parse_mode\":\"Markdown\"}")
    );
    assert_eq!(action_body("42", "typing"), canonical("{\"chat_id\":\"42\",\"action\":\"typing\"}"));
    assert_eq!(
        reaction_body(-100, 5, "👀"),
        canonical("{\"chat_id\":-100,\"message_id\":5,\"reaction\":[{\"type\":\"emoji\",\"emoji\":\"👀\"}],\"is_big\":false}")
    );
    assert_eq!(short_description_body("today: 1/2"), canonical("{\"short_description\":\"today: 1/2\"}"));
    assert_eq!(get_updates_url("T", 17, 30), "https://api.telegram.org/botT/getUpdates?offset=17&timeout=30");
    assert_eq!(poll_request_secs(30), 40);
}

#[test]
fn bot_api_answers() {
    let ok = parsed("{\"ok\":true,\"result\":{\"message_id\":9}}");
    match read_answer(&ok, Some("sendMessage")) {
        Answer::Succeeded(Some(r)) => assert!(matches!(r, Json::Object(_))),
        other => panic!("{other:?}"),
    }
    assert!(matches!(read_answer(&parsed("{\"ok\":true,\"result\":null}"), None), Answer::Succeeded(None)));
    match read_answer(&parsed("{\"ok\":false,\"description\":\"Bad Request\",\"error_code\":400}"), Some("sendMessage")) {
        Answer::Refused(e) => assert_eq!(e, "telegram sendMessage: Bad Request (400)"),
        other => panic!("{other:?}"),
    }
    match read_answer(&parsed("{\"ok\":false}"), None) {
        Answer::Refused(e) => assert_eq!(e, "telegram:  (0)"),
        other => panic!("{other:?}"),
    }
    assert!(matches!(read_answer(&parsed("{\"result\":[]}"), None), Answer::Malformed));
    assert!(matches!(read_answer(&parsed("{\"ok\":false,\"error_code\":\"x\"}"), None), Answer::Malformed));
    assert!(matches!(read_answer(&parsed("[true,[1]]"), None), Answer::Succeeded(Some(_))));
    assert!(matches!(read_answer(&parsed("[]"), None), Answer::Malformed));
    assert_eq!(missing_result_error("sendMessage"), "telegram sendMessage: ok=true but no result");
}

#[test]
fn inbound_updates_are_read() {
    let u = read_update(&parsed("{\"update_id\":1,\"message\":{\"message_id\":12,\"chat\":{\"id\":-99},\"text\":\"hello\"}}")).unwrap();
    assert_eq!((u.chat_id.as_str(), u.message_id.as_str(), u.text.as_str()), ("-99", "12", "hello"));
    let u = read_update(&parsed("{\"message\":null}")).unwrap();
    assert_eq!((u.chat_id.as_str(), u.message_id.as_str(), u.text.as_str()), ("", "", ""));
    assert!(read_update(&parsed("{\"update_id\":2}")).is_none());
}

#[test]
fn router_bodies() {
    assert_eq!(
        canonical_body("telegram", "12", "-99", "hi", "{}", Some("s1")),
        "{\"channel\":\"telegram\",\"channel_msg_id\":\"12\",\"sender_id\":\"-99\",\"text\":\"hi\",\"raw_json\":\"{}\",\"session_id\":\"s1\"}"
    );
    assert_eq!(
        chat_task_body("t", "c", "a", "hi", "2024-01-01T00:00:00Z", Some("s")),
        canonical("{\"id\":\"t\",\"conversation_id\":\"c\",\"agent_id\":\"a\",\"input\":\"hi\",\"created_at\":\"2024-01-01T00:00:00Z\",\"session_id\":\"s\"}")
    );
    assert_eq!(
        pending_body("telegram", "-99", "c", Some("12")),
        canonical("{\"channel\":\"telegram\",\"chat_id\":\"-99\",\"conversation_id\":\"c\",\"channel_msg_id\":\"12\"}")
    );
    assert_eq!(pending_body("telegram", "-99", "c", None), canonical("{\"channel\":\"telegram\",\"chat_id\":\"-99\",\"conversation_id\":\"c\"}"));
    assert_eq!(
        canonical_body("telegram", "1", "2", "", "{}", None),
        "{\"channel\":\"telegram\",\"channel_msg_id\":\"1\",\"sender_id\":\"2\",\"text\":\"\",\"raw_json\":\"{}\"}"
    );
    assert_eq!(
        chat_task_body("t", "c", "a", "hi", "now", None),
        canonical("{\"id\":\"t\",\"conversation_id\":\"c\",\"agent_id\":\"a\",\"input\":\"hi\",\"created_at\":\"now\"}")
    );
}

#[test]
fn delivery_records_are_decoded() {
    let p = read_pending(&parsed("{\"channel\":\"telegram\",\"chat_id\":\"5\",\"channel_msg_id\":\"1\"}")).unwrap();
    assert_eq!((p.channel.as_str(), p.chat_id.as_str(), p.conversation_id.as_str()), ("telegram", "5", ""));
    let p = read_pending(&parsed("{\"channel\":\"cli\",\"chat_id\":\"s\",\"conversation_id\":\"c9\"}")).unwrap();
    assert_eq!(p.conversation_id, "c9");
    assert!(read_pending(&parsed("{\"channel\":\"cli\"}")).is_none());
    assert!(read_pending(&parsed("{\"channel\":\"cli\",\"chat_id\":\"s\",\"conversation_id\":3}")).is_none());
    let p = read_pending(&parsed("[\"telegram\",\"7\"]")).unwrap();
    assert_eq!((p.channel.as_str(), p.chat_id.as_str(), p.conversation_id.as_str()), ("telegram", "7", ""));
}

#[test]
fn executor_bus_messages() {
    assert_eq!(tool_call_subject("calc"), "mycelium.tool.call.calc");
    let c = ToolCallSpec { id: "c1".into(), name: "calc".into(), arguments: "{\"expr\":\"2\"}".into() };
    assert_eq!(
        tool_call_body("t", &c, "r"),
        canonical("{\"task_id\":\"t\",\"call_id\":\"c1\",\"arguments\":\"{\\\"expr\\\":\\\"2\\\"}\",\"run_id\":\"r\"}")
    );
    assert_eq!(
        step_request_body("t", "c", "a", "r"),
        canonical("{\"task_id\":\"t\",\"conversation_id\":\"c\",\"agent_id\":\"a\",\"run_id\":\"r\"}")
    );
    let m = read_tool_calls(&parsed("{\"task_id\":\"t\",\"calls\":[{\"id\":\"1\",\"name\":\"calc\"},{\"name\":\"\"},{\"id\":2,\"name\":\"time\",\"arguments\":\"{}\"}]}"));
    assert_eq!(m.task_id.as_deref(), Some("t"));
    assert_eq!(m.calls.len(), 3);
    let kept = normalize_calls(&m.calls);
    assert_eq!(kept.len(), 2);
    assert_eq!((kept[0].id.as_str(), kept[0].arguments.as_str()), ("1", "{}"));
    assert_eq!((kept[1].id.as_str(), kept[1].name.as_str()), ("", "time"));
    assert!(read_tool_calls(&parsed("{\"calls\":{}}")).task_id.is_none());
    let r = read_tool_result(&parsed("{\"task_id\":\"t\",\"output\":\"42\",\"error\":null}")).unwrap();
    assert_eq!((r.call_id.as_str(), r.output.as_deref(), r.error.as_deref()), ("", Some("42"), None));
    assert!(read_tool_result(&parsed("{\"call_id\":\"c\"}")).is_none());
}

#[test]
fn slash_command_replies() {
    assert_eq!(agent_usage_text(), "usage: /agent set <id> | /agent create <id> <model> <prompt>");
    assert_eq!(agent_set_usage_text(), "usage: /agent set <id>");
    assert_eq!(reset_reply(true), "conversation cleared.");
    assert_eq!(reset_reply(false), "nothing to reset.");
    assert_eq!(memory_reply(&None), "no conversation yet.");
    assert_eq!(memory_reply(&Some(Err("down".into()))), "get_messages failed: down");
    let msgs = vec![new_message("m1".into(), MessageRole::User, "hi".into(), None, "t".into())];
    assert_eq!(memory_reply(&Some(Ok(msgs))), "you: hi");
    let a = AgentConfig {
        id: "a".into(),
        name: "a".into(),
        system_prompt: String::new(),
        model: "m".into(),
        tools: vec![],
        max_steps: 4,
    };
    assert_eq!(agents_reply(&Some("a".into()), &Ok(vec![a])), "* a (m)");
    assert_eq!(agents_reply(&None, &Ok(vec![])), "no agents yet — use /agent create <id> <model> <prompt>");
    assert_eq!(agents_reply(&None, &Err("x".into())), "list_agents failed: x");
}

#[test]
fn tool_listing_entries() {
    let e = tool_entry_of("calc".into(), &Some(parsed("{\"description\":\"math\"}")));
    assert_eq!((e.key.as_str(), e.description.as_str()), ("calc", "math"));
    let e = tool_entry_of("x".into(), &Some(parsed("{\"description\":3}")));
    assert_eq!(e.description, "");
    assert_eq!(tool_entry_of("y".into(), &None).description, "");
}

#[test]
fn step_result_messages() {
    assert_eq!(
        read_step_result(&parsed("{\"task_id\":\"t\",\"output\":\"hi\"}")),
        Some(("t".to_string(), Some("hi".to_string()), None))
    );
    assert_eq!(
        read_step_result(&parsed("{\"task_id\":\"t\",\"output\":null,\"error\":\"boom\"}")),
        Some(("t".to_string(), None, Some("boom".to_string())))
    );
    assert_eq!(read_step_result(&parsed("[\"t\"]")), Some(("t".to_string(), None, None)));
    assert_eq!(read_step_result(&parsed("{\"output\":\"hi\"}")), None);
    assert_eq!(read_step_result(&parsed("{\"task_id\":\"t\",\"error\":7}")), None);
}
