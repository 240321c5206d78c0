use mycelium::cli::{default_session_id, line_action, outgoing_message, pair_request, pairing_done, prompt, reply_display, reply_subject, LineAction};
use mycelium::dispatch::{
    call_envelope, error_resp, result_body, route, route_call, skill_outcome, tool_call_name, tool_entry, tools_owned_by,
    Backend, Dispatch, RouteEntry,
};
use mycelium::gateway::{
    agent_from_req, agent_to_json, agents_json, conversation_to_json, default_max_steps, delete_reply, get_agent_reply,
    health_json, message_to_json, role_str, AgentReq,
};
use mycelium::json::Json;
use mycelium::skills::{body_text, calc_result, demo_call, expr_arg, fetch_result, fetch_url, reversed, time_result};
use mycelium::store::{new_conversation, new_message};
use mycelium::tool_runner::ToolCallResp;
use mycelium::types::{MessageRole, ToolCallRequest};

fn obj(ms: Vec<(&str, Json)>) -> Json {
    Json::Object(ms.into_iter().map(|(k, v)| (k.to_string(), v)).collect())
}

#[test]
fn gateway_bodies_match_serde_json() {
    let c = agent_from_req(AgentReq {
        id: "a".into(),
        name: None,
        system_prompt: None,
        model: "m".into(),
        tools: vec!["x".into(), "y".into()],
        max_steps: default_max_steps(),
    });
    assert_eq!(c.name, "a");
    let body = agent_to_json(&c);
    assert_eq!(body, "{\"id\":\"a\",\"max_steps\":4,\"model\":\"m\",\"name\":\"a\",\"system_prompt\":\"\",\"tools\":[\"x\",\"y\"]}");
    let v: serde_json::Value = serde_json::from_str(
        "{\"tools\":[\"x\",\"y\"],\"name\":\"a\",\"system_prompt\":\"\",\"model\":\"m\",\"max_steps\":4,\"id\":\"a\"}",
    )
    .unwrap();
    assert_eq!(body, v.to_string());
    assert_eq!(agents_json(&vec![]), "{\"agents\":[]}");
    let conv = new_conversation("c".into(), "a".into(), None, "t".into());
    assert_eq!(conversation_to_json(&conv), "{\"agent_id\":\"a\",\"created_at\":\"t\",\"id\":\"c\",\"title\":null,\"updated_at\":\"t\"}");
    let m = new_message("m1".into(), MessageRole::Tool, "ok".into(), Some("call".into()), "t".into());
    assert_eq!(message_to_json(&m), "{\"content\":\"ok\",\"created_at\":\"t\",\"id\":\"m1\",\"role\":\"tool\",\"tool_use_id\":\"call\"}");
    assert_eq!(role_str(&MessageRole::System), "system");
    let r = get_agent_reply("zz", Ok(None));
    assert_eq!(r.status, 404);
    assert_eq!(r.body, "{\"error\":\"agent zz not found\"}");
    assert_eq!(get_agent_reply("a", Err("kv down".into())).status, 500);
    assert_eq!(delete_reply(Ok(())).status, 204);
    assert_eq!(health_json(), "{\"status\":\"ok\"}");
}

#[test]
fn dispatching_tool_calls() {
    assert_eq!(tool_call_name("mycelium.tool.call.calc").as_deref(), Some("calc"));
    assert_eq!(tool_call_name("mycelium.tool.call."), None);
    let env = obj(vec![("task_id", Json::Str("t".into())), ("call_id", Json::Str("c".into()))]);
    assert_eq!(call_envelope(&env), ("t".to_string(), "c".to_string(), "{}".to_string()));
    let e = error_resp("c", "t", "x");
    assert_eq!(e.output_json, "{\"error\":\"x\"}");
    match route_call("calc", "c", Backend::Unknown) {
        Dispatch::Answer(r) => assert_eq!(r.output_json, "{\"error\":\"tool calc not registered (no skill or MCP server found)\"}"),
        _ => panic!(),
    }
    match route_call("calc", "c", Backend::Mcp { server: "srv".into(), manifest: Ok(None) }) {
        Dispatch::Answer(r) => assert_eq!(r.output_json, "{\"error\":\"MCP server srv manifest missing\"}"),
        _ => panic!(),
    }
    let r = skill_outcome("c", "calc", Ok(()), Err("trap".into()));
    assert_eq!(r.call_id, "");
    assert_eq!(r.output_json, "{\"error\":\"sandbox: trap\"}");
    let ok = ToolCallResp { call_id: "c".into(), tool_id: "t".into(), output_json: "{\"v\":1}".into(), is_error: false };
    assert_eq!(result_body("task", &ok), "{\"call_id\":\"c\",\"error\":null,\"output\":\"{\\\"v\\\":1}\",\"task_id\":\"task\",\"tool_id\":\"t\"}");
    assert_eq!(tool_entry("d", "srv", &None), "{\"description\":\"d\",\"mcp_server\":\"srv\",\"parameters\":{\"properties\":{},\"required\":[],\"type\":\"object\"}}");
    let table = vec![
        RouteEntry { tool: "a".into(), server: b"s1".to_vec() },
        RouteEntry { tool: "b".into(), server: b"s2".to_vec() },
        RouteEntry { tool: "c".into(), server: b"s1".to_vec() },
        RouteEntry { tool: "d".into(), server: vec![0xff] },
    ];
    assert_eq!(tools_owned_by(&table, "s1"), vec!["a", "c"]);
    assert_eq!(route(&table, "b").as_deref(), Some("s2"));
    assert_eq!(route(&table, "d"), None);
    assert_eq!(route(&table, "zz"), None);
}

#[test]
fn cli_decisions() {
    assert!(matches!(line_action("   "), LineAction::Skip));
    assert!(matches!(line_action(" /quit "), LineAction::Quit));
    assert!(matches!(line_action("/exit"), LineAction::Quit));
    assert!(matches!(line_action("/unpair"), LineAction::Unpair));
    assert!(matches!(line_action("  hello there "), LineAction::Send(t) if t == "hello there"));
    assert_eq!(default_session_id("u"), "cli-u");
    assert_eq!(reply_subject("s"), "mycelium.channel.cli.out.s");
    assert_eq!(prompt(&Some("0123456789".into())), "[01234567]> ");
    assert_eq!(prompt(&None), "[unpaired]> ");
    assert_eq!(prompt(&Some("ééééx".into())), "[éééé]> ");
    assert_eq!(prompt(&Some("abcde€z".into())), "[abcde€]> ");
    let m = outgoing_message("s", 3, &None, "a", "hi".into());
    assert_eq!(m.channel_msg_id, "s-3");
    assert_eq!(m.raw_json, "{}");
    let v: serde_json::Value = serde_json::from_str("{\"session_id\":\"s\",\"expires_in\":300,\"agent_id\":\"a\"}").unwrap();
    assert_eq!(pair_request("s", "a"), v.to_string());
    assert_eq!(reply_display("raw", &Some(obj(vec![("text", Json::Str("hi".into()))]))), "hi");
    assert_eq!(reply_display("raw", &None), "raw");
    assert!(pairing_done(&obj(vec![("conversation_id", Json::Null)])));
    assert!(!pairing_done(&obj(vec![])));
}

#[test]
fn skill_answers() {
    let call = ToolCallRequest { call_id: "c".into(), tool_id: "t".into(), args_json: "{}".into() };
    assert_eq!(time_result(&call, "2024").output_json, "{\"now\":\"2024\"}");
    assert_eq!(fetch_url(&Some(obj(vec![("url", Json::Str("http://x".into()))]))), "http://x");
    assert_eq!(fetch_url(&None), "");
    let r = fetch_result(&call, "", Ok("ignored".into()));
    assert!(r.is_error);
    assert_eq!(r.output_json, "{\"error\":\"missing url argument\"}");
    assert_eq!(fetch_result(&call, "u", Ok("b".into())).output_json, "{\"body\":\"b\"}");
    assert_eq!(body_text(&vec![b'a'; 5000]).len(), 4096);
    assert_eq!(body_text(&[0x61, 0xff]), "a\u{FFFD}");
    let args = obj(vec![("text", Json::Str("abc".into()))]);
    assert_eq!(demo_call("text-upper", &args).unwrap(), "{\"result\":\"ABC\"}");
    assert_eq!(demo_call("text-reverse", &args).unwrap(), "{\"result\":\"cba\"}");
    assert_eq!(demo_call("x", &args).unwrap_err(), "unknown tool: x");
    assert_eq!(demo_call("text-upper", &obj(vec![])).unwrap_err(), "missing required field: text");
    assert_eq!(reversed("héllo"), "olléh");
    assert_eq!(calc_result("t", "c", &Ok("7".into())), "{\"call_id\":\"c\",\"error\":null,\"output\":\"7\",\"task_id\":\"t\"}");
    assert_eq!(expr_arg(&Some(obj(vec![("expr", Json::Str("1+1".into()))]))), "1+1");
}
