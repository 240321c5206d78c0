use mycelium::bus::{read_step_request_body, read_step_result_body, read_tool_calls_body, read_tool_result_body};
use mycelium::hooks::{hook_reply_of, HookReply};
use mycelium::json::{decode_json, decode_json_text, get, to_text, Json};
use mycelium::llm::LlmReply;
use mycelium::router::read_update_body;
use mycelium::step_wire::{completion_from_body, tool_spec_of};

fn serde_error(text: &str) -> String {
    serde_json::from_str::<serde_json::Value>(text).unwrap_err().to_string()
}

#[test]
fn documents_parse_like_serde_json() {
    let doc = decode_json(b"{\"b\":[1,2.5,-3],\"a\":{\"x\":null,\"y\":true},\"s\":\"q\\\"\"}").unwrap();
    assert_eq!(to_text(&doc), "{\"a\":{\"x\":null,\"y\":true},\"b\":[1,2.5,-3],\"s\":\"q\\\"\"}");
    assert!(matches!(get(&doc, "s"), Some(Json::Str(t)) if t == "q\""));
    assert_eq!(decode_json(b"{\"a\":").unwrap_err(), serde_error("{\"a\":"));
    assert_eq!(decode_json_text("nul").unwrap_err(), serde_error("nul"));
    assert!(matches!(decode_json_text(" 7 ").unwrap(), Json::Number(n) if n == "7"));
}

#[test]
fn raw_updates() {
    let (doc, inbound) =
        read_update_body(b"{\"update_id\":5,\"message\":{\"message_id\":9,\"chat\":{\"id\":-42},\"text\":\"hi\"}}").unwrap();
    let i = inbound.unwrap();
    assert_eq!((i.chat_id.as_str(), i.message_id.as_str(), i.text.as_str()), ("-42", "9", "hi"));
    assert_eq!(to_text(&doc), "{\"message\":{\"chat\":{\"id\":-42},\"message_id\":9,\"text\":\"hi\"},\"update_id\":5}");
    assert!(read_update_body(b"{\"update_id\":5}").unwrap().1.is_none());
    assert_eq!(read_update_body(b"{").unwrap_err(), format!("decode telegram update: {}", serde_error("{")));
}

#[test]
fn executor_bodies() {
    let m = read_tool_calls_body(b"{\"task_id\":\"t\",\"calls\":[{\"id\":\"1\",\"name\":\"calc\",\"arguments\":\"{}\"}]}").unwrap();
    assert_eq!(m.task_id.as_deref(), Some("t"));
    assert_eq!(m.calls.len(), 1);
    assert_eq!(m.calls[0].name.as_deref(), Some("calc"));
    assert_eq!(read_tool_calls_body(b"x").err().unwrap(), format!("decode step.tool-calls: {}", serde_error("x")));
    let r = read_tool_result_body(b"{\"task_id\":\"t\",\"call_id\":\"1\",\"output\":\"2\"}").unwrap().unwrap();
    assert_eq!((r.task_id.as_str(), r.call_id.as_str(), r.output.as_deref()), ("t", "1", Some("2")));
    assert!(read_tool_result_body(b"{\"call_id\":\"1\"}").unwrap().is_none());
    assert!(read_tool_result_body(b"").err().unwrap().starts_with("decode tool.result: "));
    assert_eq!(
        read_step_result_body(b"{\"task_id\":\"t\",\"error\":\"boom\"}").unwrap(),
        ("t".to_string(), None, Some("boom".to_string()))
    );
    assert!(read_step_result_body(b"{}").is_err());
    assert_eq!(
        read_step_request_body(b"{\"task_id\":\"t\",\"conversation_id\":\"c\",\"agent_id\":\"a\"}").unwrap(),
        ("t".to_string(), "c".to_string(), "a".to_string())
    );
    assert!(read_step_request_body(b"[").unwrap_err().starts_with("decode step.agent: "));
}

#[test]
fn llm_answers_and_tool_specs() {
    let body = b"{\"choices\":[{\"message\":{\"content\":null,\"tool_calls\":[{\"id\":\"c1\",\"function\":{\"name\":\"calc\",\"arguments\":\"{}\"}}]}}]}";
    match completion_from_body(body).unwrap() {
        LlmReply::Tools(calls) => assert_eq!(calls[0].name, "calc"),
        other => panic!("{other:?}"),
    }
    match completion_from_body(b"{\"choices\":[{\"message\":{\"content\":\"hello\"}}]}").unwrap() {
        LlmReply::Text(t) => assert_eq!(t, "hello"),
        other => panic!("{other:?}"),
    }
    assert_eq!(completion_from_body(b"oops").unwrap_err(), format!("decode LLM resp: {}", serde_error("oops")));
    assert!(tool_spec_of(b"{\"description\":\"adds\"}").is_some());
    assert!(tool_spec_of(b"not json").is_none());
}

#[test]
fn hook_reply_bodies() {
    assert!(matches!(hook_reply_of(b""), HookReply::Unanswered));
    assert!(matches!(hook_reply_of(&[0xff, 0xfe]), HookReply::Unanswered));
    assert!(matches!(hook_reply_of(b"not json"), HookReply::NotJson));
    match hook_reply_of(b"{\"reason\":\"no\",\"block\":true}") {
        HookReply::Json { text, block, reason } => {
            assert_eq!(text, "{\"block\":true,\"reason\":\"no\"}");
            assert_eq!(block, Some(true));
            assert_eq!(reason.as_deref(), Some("no"));
        }
        other => panic!("{other:?}"),
    }
}
