use mycelium::cli::{channel_message_body, outgoing_message, pair_banner, pairing_expired, pairing_timeout_error};
use mycelium::compaction::{after_compaction_payload, before_compaction_payload, summary_body};
use mycelium::dispatch::mcp_outcome;
use mycelium::events::read_rule;
use mycelium::hooks::{json_reply, outcome_of, HookReply};
use mycelium::json::Json;
use mycelium::telegram::{poll_pause_ms, update_body, TgChat, TgMessage, TgUpdate, POLL_ERROR_BACKOFF_MS};
use mycelium::tool_runner::ToolCallResp;
use mycelium::records::{agent_record, conversation_record, message_record, read_agent, read_conversation, read_message};
use mycelium::store::StoredAgentConfig;
use mycelium::telegram::{read_channel_action, read_channel_reply, read_stream_chunk};
use mycelium::types::{Conversation, Message, MessageRole};
use mycelium::executor::{initial_state, on_tool_calls, RawCall, RunStatus, TaskJson};
use mycelium::task_record::{read_state, state_record, status_from_str};
use mycelium::session::{new_session, read_session, session_body};
use mycelium::store::{memory_key, memory_keys};
use mycelium::config::{enabled_modules, Config};
use mycelium::events::wall_clock_stamp;
use mycelium::executor::delivery_text;
use mycelium::manifest::read_manifest;
use mycelium::pairing::{
    chat_pair_key, claim_code, code_from, code_key, code_record, complete, issue_code, pair_record, pairing_keys,
    pending_record, read_completion, read_pair, read_pair_request, read_pending_pair, request_code, session_pair_key,
    PairRequest,
};
use mycelium::types::PairInfo;
use mycelium::router::update_id_of;
use mycelium::session::session_end_payload;
use mycelium::store::DomainError;
use mycelium::telegram::is_out_subject;
use mycelium::tg_wire::refusal_text;
use mycelium::tool_runner::SkillSource;
use serde_json::Value;

fn tree(v: &Value) -> Json {
    match v {
        Value::Null => Json::Null,
        Value::Bool(b) => Json::Bool(*b),
        Value::Number(n) => Json::Number(n.to_string()),
        Value::String(s) => Json::Str(s.clone()),
        Value::Array(items) => Json::Array(items.iter().map(tree).collect()),
        Value::Object(ms) => Json::Object(ms.iter().map(|(k, v)| (k.clone(), tree(v))).collect()),
    }
}

fn parsed(text: &str) -> Json {
    tree(&serde_json::from_str::<Value>(text).unwrap())
}

fn canonical(text: &str) -> String {
    serde_json::to_string(&serde_json::from_str::<Value>(text).unwrap()).unwrap()
}

#[test]
fn poller_pauses() {
    assert_eq!(poll_pause_ms(None, 500), POLL_ERROR_BACKOFF_MS);
    assert_eq!(poll_pause_ms(Some(0), 500), 500);
    assert_eq!(poll_pause_ms(Some(3), 500), 0);
}

#[test]
fn updates_are_republished_as_serde_writes_them() {
    let u = TgUpdate {
        update_id: 10,
        message: Some(TgMessage { message_id: 3, chat: TgChat { id: -42 }, text: Some("hi \"x\"".into()) }),
    };
    assert_eq!(
        update_body(&u),
        "{\"update_id\":10,\"message\":{\"message_id\":3,\"chat\":{\"id\":-42},\"text\":\"hi \\\"x\\\"\"}}"
    );
    let bare = TgUpdate { update_id: 11, message: None };
    assert_eq!(update_body(&bare), "{\"update_id\":11,\"message\":null}");
    let no_text = TgUpdate { update_id: 1, message: Some(TgMessage { message_id: 1, chat: TgChat { id: 1 }, text: None }) };
    assert_eq!(update_body(&no_text), "{\"update_id\":1,\"message\":{\"message_id\":1,\"chat\":{\"id\":1},\"text\":null}}");
}

#[test]
fn cli_wire_and_pairing() {
    let m = outgoing_message("sess", 3, &None, "default", "hello".into());
    assert_eq!(
        channel_message_body(&m),
        "{\"channel_msg_id\":\"sess-3\",\"sender_id\":\"sess\",\"conversation_id\":null,\"agent_id\":\"default\",\"text\":\"hello\",\"raw_json\":\"{}\"}"
    );
    assert!(!pairing_expired(1_000_000, 0));
    assert!(!pairing_expired(120_000, 120));
    assert!(pairing_expired(120_001, 120));
    assert_eq!(pairing_timeout_error(120), "pairing timed out after 120s");
    let lines = pair_banner("ABC123");
    assert_eq!(lines.len(), 7);
    assert_eq!(lines[3], "  │  Send:  /pair ABC123                    │");
    assert_eq!(lines[0], "");
}

#[test]
fn mcp_failures_are_answered_for_the_call() {
    let r = mcp_outcome("c1", "todo_add", Err("no such object".into()), Err("unused".into()));
    assert_eq!((r.call_id.as_str(), r.tool_id.as_str(), r.is_error), ("c1", "todo_add", true));
    assert_eq!(r.output_json, "{\"error\":\"loader failed: no such object\"}");
    let r = mcp_outcome("c1", "todo_add", Ok(()), Err("trap".into()));
    assert_eq!(r.output_json, "{\"error\":\"sandbox: trap\"}");
    let ok = ToolCallResp { call_id: "c1".into(), tool_id: "todo_add".into(), output_json: "1".into(), is_error: false };
    let r = mcp_outcome("c1", "todo_add", Ok(()), Ok(ok));
    assert_eq!(r.output_json, "1");
}

#[test]
fn compaction_wire() {
    let body = summary_body("gemini-flash", "user: hi\n");
    let v: Value = serde_json::from_str(&body).unwrap();
    assert_eq!(v["model"], "gemini-flash");
    assert_eq!(v["stream"], false);
    assert_eq!(v["messages"][0]["role"], "system");
    assert_eq!(v["messages"][1]["content"], "Compress this transcript:\n\nuser: hi\n");
    assert!(v.get("tools").is_none());
    assert_eq!(body, serde_json::to_string(&v).unwrap());
    assert_eq!(
        before_compaction_payload("c", "a", 41, 9000),
        canonical("{\"conversation_id\":\"c\",\"agent_id\":\"a\",\"message_count\":41,\"char_count\":9000}")
    );
    assert_eq!(
        after_compaction_payload("c", "a", 41, 11, 120),
        canonical("{\"conversation_id\":\"c\",\"agent_id\":\"a\",\"old_count\":41,\"new_count\":11,\"summary_chars\":120}")
    );
}

#[test]
fn hook_json_replies() {
    let doc = parsed("{\"block\":true,\"reason\":\"policy\",\"x\":1}");
    let o = outcome_of("{}".into(), json_reply(&doc));
    assert!(o.block);
    assert_eq!(o.reason.as_deref(), Some("policy"));
    assert_eq!(o.payload, "{\"block\":true,\"reason\":\"policy\",\"x\":1}");
    let o = outcome_of("{}".into(), json_reply(&parsed("{\"block\":\"yes\"}")));
    assert!(!o.block);
    assert!(matches!(json_reply(&parsed("[1]")), HookReply::Json { block: None, reason: None, .. }));
}

#[test]
fn router_rules_are_decoded() {
    let r = read_rule(&parsed("{\"subject_pattern\":\"mycelium.event.*\",\"targets\":[\"a\",\"b\"],\"filter_jmespath\":null}")).unwrap();
    assert_eq!(r.subject_pattern, "mycelium.event.*");
    assert_eq!(r.targets, vec!["a".to_string(), "b".to_string()]);
    assert!(r.filter_jmespath.is_none());
    let r = read_rule(&parsed("{\"subject_pattern\":\"x\",\"targets\":[]}")).unwrap();
    assert!(r.targets.is_empty());
    assert!(read_rule(&parsed("{\"subject_pattern\":\"x\",\"targets\":[1]}")).is_none());
    assert!(read_rule(&parsed("{\"targets\":[]}")).is_none());
    assert!(read_rule(&parsed("{\"subject_pattern\":\"x\",\"targets\":[],\"filter_jmespath\":5}")).is_none());
    let r = read_rule(&parsed("[\"p\",[\"t\"],\"f\"]")).unwrap();
    assert_eq!(r.filter_jmespath.as_deref(), Some("f"));
    assert!(read_rule(&parsed("[\"p\",[\"t\"]]")).is_none());
}

fn text_of_tree(j: &Json) -> String {
    mycelium::json::to_text(j)
}

#[test]
fn stored_records_round_trip() {
    let m = Message {
        id: "0190-a".into(),
        role: MessageRole::Tool,
        content: "line\n\"q\"".into(),
        tool_use_id: Some("call-1".into()),
        created_at: "2024-05-01T10:00:00.000000001Z".into(),
    };
    let tree = message_record(&m);
    assert_eq!(
        text_of_tree(&tree),
        "{\"id\":\"0190-a\",\"role\":\"tool\",\"content\":\"line\\n\\\"q\\\"\",\"tool_use_id\":\"call-1\",\"created_at\":\"2024-05-01T10:00:00.000000001Z\"}"
    );
    let back = read_message(&parsed(&text_of_tree(&tree))).unwrap();
    assert_eq!((back.id, back.role, back.content, back.tool_use_id), (m.id.clone(), MessageRole::Tool, m.content.clone(), m.tool_use_id.clone()));
    let odd = read_message(&parsed("{\"id\":\"x\",\"role\":\"robot\",\"content\":\"c\",\"created_at\":\"t\"}")).unwrap();
    assert_eq!((odd.role, odd.tool_use_id), (MessageRole::User, None));
    assert!(read_message(&parsed("{\"id\":\"x\",\"role\":\"user\",\"content\":\"c\"}")).is_none());

    let c = Conversation { id: "c1".into(), agent_id: "a".into(), title: None, created_at: "t0".into(), updated_at: "t1".into() };
    let text = text_of_tree(&conversation_record(&c));
    assert_eq!(text, "{\"id\":\"c1\",\"agent_id\":\"a\",\"title\":null,\"created_at\":\"t0\",\"updated_at\":\"t1\"}");
    let back = read_conversation(&parsed(&text)).unwrap();
    assert_eq!((back.id, back.title, back.updated_at), ("c1".to_string(), None, "t1".to_string()));

    let a = StoredAgentConfig {
        id: "a".into(),
        name: "A".into(),
        system_prompt: "be brief".into(),
        model: "m".into(),
        tools: vec!["calc".into(), "time".into()],
        max_steps: 6,
        endpoint: Some("http://x/v1".into()),
        api_key: None,
        compaction_threshold: Some(30),
        compaction_model: None,
    };
    let text = text_of_tree(&agent_record(&a));
    assert_eq!(
        text,
        "{\"id\":\"a\",\"name\":\"A\",\"system_prompt\":\"be brief\",\"model\":\"m\",\"tools\":[\"calc\",\"time\"],\"max_steps\":6,\"endpoint\":\"http://x/v1\",\"api_key\":null,\"compaction_threshold\":30,\"compaction_model\":null}"
    );
    let back = read_agent(&parsed(&text)).unwrap();
    assert_eq!((back.tools.clone(), back.max_steps, back.endpoint.clone(), back.compaction_threshold), (a.tools.clone(), 6, a.endpoint.clone(), Some(30)));
    let minimal = read_agent(&parsed("{\"id\":\"b\",\"name\":\"b\",\"system_prompt\":\"\",\"model\":\"m\",\"tools\":[],\"max_steps\":4}")).unwrap();
    assert_eq!((minimal.endpoint, minimal.compaction_model), (None, None));
    assert!(read_agent(&parsed("{\"id\":\"b\",\"name\":\"b\",\"system_prompt\":\"\",\"model\":\"m\",\"tools\":[],\"max_steps\":-1}")).is_none());
}

#[test]
fn stream_and_outbound_requests_are_decoded() {
    assert_eq!(
        read_channel_reply(&parsed("{\"recipient_id\":\"5\",\"conversation_id\":\"c\",\"text\":\"hi\",\"format_hints\":null}")),
        Some(("5".to_string(), "hi".to_string()))
    );
    assert_eq!(read_channel_reply(&parsed("{\"recipient_id\":5,\"text\":\"hi\"}")), None);
    assert_eq!(read_channel_action(&parsed("{}")), Some("typing".to_string()));
    assert_eq!(read_channel_action(&parsed("{\"action\":\"upload_photo\"}")), Some("upload_photo".to_string()));
    assert_eq!(read_channel_action(&parsed("{\"action\":null}")), None);
    let c = read_stream_chunk(&parsed("{\"delta\":\"he\",\"chat_id\":\"9\",\"progress_message_id\":12}")).unwrap();
    assert_eq!((c.delta.as_str(), c.done, c.chat_id.as_str(), c.progress_message_id), ("he", false, "9", 12));
    let c = read_stream_chunk(&parsed("{\"done\":true}")).unwrap();
    assert!(c.done && c.delta.is_empty());
    assert!(read_stream_chunk(&parsed("{\"done\":1}")).is_none());
}

#[test]
fn task_state_round_trips_through_its_stored_text() {
    let task = TaskJson {
        id: "t1".into(),
        conversation_id: "c1".into(),
        agent_id: "a".into(),
        input: "what time is it?".into(),
        created_at: "2024-01-01T00:00:00Z".into(),
    };
    let mut st = initial_state(task, "-100".into(), -7, "r1".into());
    let raw = vec![RawCall { id: Some("k1".into()), name: Some("time".into()), arguments: None }];
    let _ = on_tool_calls(&mut st, &raw);
    let text = text_of_tree(&state_record(&st));
    assert_eq!(
        text,
        "{\"task\":{\"id\":\"t1\",\"conversation_id\":\"c1\",\"agent_id\":\"a\",\"input\":\"what time is it?\",\"created_at\":\"2024-01-01T00:00:00Z\"},\"status\":\"waiting_tools\",\"output\":null,\"error\":null,\"step\":1,\"pending_tool_calls\":[{\"id\":\"k1\",\"name\":\"time\",\"arguments\":\"{}\"}],\"tool_results\":[],\"progress_message_id\":-7,\"chat_id\":\"-100\",\"max_steps\":4,\"run_id\":\"r1\"}"
    );
    let back = read_state(&parsed(&text)).unwrap();
    assert_eq!(back.status, RunStatus::WaitingTools);
    assert_eq!((back.step, back.max_steps, back.progress_message_id), (1, 4, -7));
    assert_eq!(back.pending_tool_calls.len(), 1);
    assert_eq!(back.pending_tool_calls[0].name, "time");
    assert_eq!((back.chat_id.as_str(), back.run_id.as_str(), back.task.input.as_str()), ("-100", "r1", "what time is it?"));
    let older = read_state(&parsed(
        "{\"task\":{\"id\":\"t\",\"conversation_id\":\"c\",\"agent_id\":\"a\",\"input\":\"i\",\"created_at\":\"n\"},\"status\":\"running\",\"output\":null,\"error\":null}",
    ))
    .unwrap();
    assert_eq!((older.step, older.max_steps, older.chat_id.as_str()), (0, 0, ""));
    assert!(read_state(&parsed("{\"task\":{},\"status\":\"running\",\"output\":null,\"error\":null}")).is_none());
    assert_eq!(status_from_str("paused"), None);
    assert_eq!(status_from_str("done"), Some(RunStatus::Done));
}

#[test]
fn sessions_round_trip_through_their_stored_text() {
    let rec = new_session("s-1".into(), "telegram", "-100", "agent-a", "2024-01-01T00:00:00Z");
    let text = session_body(&rec);
    assert_eq!(
        text,
        "{\"id\":\"s-1\",\"channel\":\"telegram\",\"channel_session_key\":\"-100\",\"agent_id\":\"agent-a\",\"conversation_id\":\"\",\"started_at\":\"2024-01-01T00:00:00Z\",\"last_activity_at\":\"2024-01-01T00:00:00Z\",\"ended_at\":null,\"metadata\":null}"
    );
    let back = read_session(&parsed(&text)).unwrap();
    assert_eq!((back.id.as_str(), back.agent_id.as_str(), back.metadata.as_str()), ("s-1", "agent-a", "null"));
    assert!(back.ended_at.is_none());
    let with_meta = read_session(&parsed(
        "{\"id\":\"s\",\"channel\":\"cli\",\"channel_session_key\":\"k\",\"agent_id\":\"a\",\"started_at\":\"t\",\"last_activity_at\":\"u\",\"metadata\":{\"b\":1,\"a\":[true]}}",
    ))
    .unwrap();
    assert_eq!(with_meta.conversation_id, "");
    assert_eq!(with_meta.metadata, "{\"a\":[true],\"b\":1}");
    assert!(read_session(&parsed("{\"id\":\"s\"}")).is_none());
}

#[test]
fn memory_entries_are_listed_under_their_key() {
    let k = memory_key("agent-a", "fav/color");
    let keys = vec!["memory/agent-b/x".to_string(), k, "conv/1".to_string()];
    assert_eq!(memory_keys(&keys, "agent-a"), vec!["fav/color".to_string()]);
}

#[test]
fn manifests_are_read_with_their_defaults() {
    let m = read_manifest(&parsed(
        "{\"name\":\"web-fetch\",\"version\":\"0.1.0\",\"source\":{\"type\":\"oci\",\"image\":\"ghcr.io/x/web:0.1\"},\"capabilities\":[\"wasi:http/outgoing-handler\"],\"fuel_limit\":1000}",
    ))
    .unwrap();
    assert_eq!((m.name.as_str(), m.version.as_str()), ("web-fetch", "0.1.0"));
    assert!(matches!(&m.source, SkillSource::Oci { image, sha256: None } if image == "ghcr.io/x/web:0.1"));
    assert_eq!(m.capabilities, vec!["wasi:http/outgoing-handler".to_string()]);
    assert_eq!((m.fuel_limit, m.memory_max_bytes, m.wall_deadline_ms), (Some(1000), None, None));
    assert_eq!(m.description, "");
    assert_eq!(m.parameters, "{\"properties\":{},\"required\":[],\"type\":\"object\"}");
    let m = read_manifest(&parsed(
        "{\"name\":\"n\",\"version\":\"1\",\"source\":{\"type\":\"nats-object-store\",\"bucket\":\"b\",\"key\":\"k\",\"sha256\":\"ab\"},\"parameters\":{\"type\":\"object\"}}",
    ))
    .unwrap();
    assert!(matches!(&m.source, SkillSource::NatsObjectStore { bucket, key, sha256 } if bucket == "b" && key == "k" && sha256 == "ab"));
    assert_eq!(m.parameters, "{\"type\":\"object\"}");
    assert!(read_manifest(&parsed("{\"name\":\"n\",\"version\":\"1\",\"source\":{\"type\":\"nats-object-store\",\"bucket\":\"b\",\"key\":\"k\"}}")).is_none());
    assert!(read_manifest(&parsed("{\"name\":\"n\",\"version\":\"1\",\"source\":{\"type\":\"ftp\",\"path\":\"p\"}}")).is_none());
    let m = read_manifest(&parsed("[\"n\",\"1\",[\"file\",\"/tmp/x.wasm\",\"ff\"]]")).unwrap();
    assert!(matches!(&m.source, SkillSource::File { path, sha256: Some(p) } if path == "/tmp/x.wasm" && p == "ff"));
    assert!(read_manifest(&parsed("{\"name\":\"n\",\"version\":\"1\",\"source\":{\"type\":\"file\",\"path\":\"p\"},\"fuel_limit\":-1}")).is_none());
}

#[test]
fn pairing_codes_and_completion() {
    let req = PairRequest { session_id: "test-session-001".into(), agent_id: "default".into(), expires_in: 60 };
    let (code, pending) = issue_code(&req, &[0, 25, 26, 35, 36], 1000);
    assert_eq!(code.code, "AZ09A");
    assert_eq!(code.expires_at, 1060);
    assert_eq!(pending.session_id, "test-session-001");
    assert_eq!(pending.expires_at, 1060);
    assert_eq!(code_from(&[255, 100, 7, 61, 0]), "D2HZA");
    let (fresh, _) = request_code(&req).unwrap();
    assert_eq!(fresh.code.len(), 5);
    assert!(fresh.code.chars().all(|c| c.is_ascii_uppercase() || c.is_ascii_digit()));
    let reply: serde_json::Value = serde_json::from_str(&mycelium::json::to_text(&code_record(&fresh))).unwrap();
    assert!(reply.get("code").is_some());

    let info = complete(&code.code, "42", Some(pending.clone()), "conv-1".into(), 1060).unwrap();
    assert_eq!((info.session_id.as_str(), info.chat_id.as_str(), info.conversation_id.as_str(), info.paired_at), ("test-session-001", "42", "conv-1", 1060));
    assert!(matches!(complete("AZ09A", "42", Some(pending.clone()), "c".into(), 1061), Err(DomainError::NotFound(m)) if m == "pairing code AZ09A expired"));
    assert!(matches!(claim_code("XXXXX", None, 0), Err(DomainError::NotFound(m)) if m == "pairing code XXXXX not found"));
    assert_eq!(code_key("AZ09A"), "pair/code/AZ09A");
    assert_eq!(session_pair_key("s"), "pair/session/s");
    assert_eq!(chat_pair_key("42"), "pair/chat/42");
    assert_eq!(pairing_keys(&info), ("pair/session/test-session-001".to_string(), "pair/chat/42".to_string()));
}

#[test]
fn pairing_records() {
    let req = PairRequest { session_id: "s".into(), agent_id: "a".into(), expires_in: 300 };
    let (_, pending) = issue_code(&req, &[1, 2, 3, 4, 5], 7);
    let back = read_pending_pair(&parsed(&mycelium::json::to_text(&pending_record(&pending)))).unwrap();
    assert_eq!((back.session_id.as_str(), back.agent_id.as_str(), back.expires_at), ("s", "a", 307));
    let info = PairInfo { session_id: "s".into(), chat_id: "-5".into(), conversation_id: "c".into(), paired_at: 9 };
    let text = mycelium::json::to_text(&pair_record(&info));
    assert_eq!(text, "{\"session_id\":\"s\",\"chat_id\":\"-5\",\"conversation_id\":\"c\",\"paired_at\":9}");
    let back = read_pair(&parsed(&text)).unwrap();
    assert_eq!(back.paired_at, 9);
    let q = read_pair_request(&parsed("{\"session_id\":\"s\",\"agent_id\":\"default\",\"expires_in\":60}")).unwrap();
    assert_eq!(q.expires_in, 60);
    assert!(read_pair_request(&parsed("{\"session_id\":\"s\",\"agent_id\":\"d\"}")).is_none());
    assert_eq!(read_completion(&parsed("{\"code\":\"AZ09A\",\"chat_id\":\"42\"}")), Some(("AZ09A".to_string(), "42".to_string())));
    assert!(read_pending_pair(&parsed("{\"session_id\":\"s\",\"agent_id\":\"a\",\"expires_at\":-1}")).is_none());
}

#[test]
fn small_service_decisions() {
    let mut c = Config::default();
    assert_eq!(enabled_modules(&c).len(), 8);
    c.disabled_modules = vec!["gateway".into(), "telegram_poller".into()];
    assert_eq!(
        enabled_modules(&c),
        vec!["events", "channel_router", "session_sweeper", "executor", "agent", "telegram_out"]
    );
    assert_eq!(wall_clock_stamp(1_700_000_000, 5), 1_700_000_000_000_000_005);
    assert!(is_out_subject("mycelium.channel.telegram.out.42"));
    assert!(!is_out_subject("mycelium.channel.telegram.action.42"));
    assert_eq!(refusal_text(&None), "telegram returned ok=false");
    assert_eq!(refusal_text(&Some("Forbidden".into())), "Forbidden");
    assert_eq!(session_end_payload("s1"), "{\"reason\":\"idle-timeout\",\"session_id\":\"s1\"}");
    assert_eq!(delivery_text(&None, &None), "(no response)");
    assert_eq!(delivery_text(&Some("".into()), &Some("boom".into())), "(error: boom)");
    assert_eq!(update_id_of(&parsed("{\"update_id\":77}")), Some(77));
    assert_eq!(update_id_of(&parsed("{\"update_id\":\"77\"}")), None);
}

#[test]
fn pairing_request_returns_code() {
    let req = "{\"session_id\":\"test-session-001\",\"agent_id\":\"default\",\"expires_in\":60}";
    let request = read_pair_request(&parsed(req)).expect("a pairing request");
    let (code, pending) = request_code(&request).expect("a code");
    let body: serde_json::Value =
        serde_json::from_str(&mycelium::json::to_text(&code_record(&code))).expect("invalid JSON");
    assert!(body.get("code").is_some(), "response must contain 'code'");
    assert_eq!(pending.session_id, "test-session-001");
    assert_eq!(pending.expires_at, code.expires_at);
}

#[test]
fn compaction_settings_fall_back() {
    let mut a = StoredAgentConfig {
        id: "a".into(),
        name: "A".into(),
        system_prompt: String::new(),
        model: "main".into(),
        tools: vec![],
        max_steps: 4,
        endpoint: None,
        api_key: None,
        compaction_threshold: Some(30),
        compaction_model: None,
    };
    assert_eq!(mycelium::compaction::compaction_settings(&a), (30, "main".to_string()));
    a.compaction_threshold = Some(0);
    a.compaction_model = Some("cheap".into());
    assert_eq!(mycelium::compaction::compaction_settings(&a), (40, "cheap".to_string()));
    a.compaction_threshold = None;
    assert_eq!(mycelium::compaction::compaction_settings(&a).0, 40);
}
