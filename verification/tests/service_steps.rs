use mycelium::bus::read_step_request;
use mycelium::executor::{lifecycle_message, start_task, RunStatus, TaskJson};
use mycelium::json::Json;
use mycelium::quota::{quota_reply, tools_reply, usage_checked, BucketRead, CounterEntry, ToolEntry};
use mycelium::store::{fresh_message, open_conversation};
use mycelium::types::{LifecyclePhase, MessageRole};
use serde_json::Value;

fn tree(v: &Value) -> Json {
    match v {
        Value::Null => Json::Null,
        Value::Bool(b) => Json::Bool(*b),
        Value::Number(n) => Json::Number(n.to_string()),
        Value::String(s) => Json::Str(s.clone()),
        Value::Array(items) => Json::Array(items.iter().map(tree).collect()),
        Value::Object(ms) => Json::Object(ms.iter().map(|(k, v)| (k.clone(), tree(v))).collect()),
    }
}

fn parsed(text: &str) -> Json {
    tree(&serde_json::from_str::<Value>(text).unwrap())
}

fn is_v7(id: &str) -> bool {
    id.len() == 36 && &id[14..15] == "7" && "89ab".contains(&id[19..20])
}

#[test]
fn step_requests() {
    assert_eq!(
        read_step_request(&parsed("{\"task_id\":\"t\",\"conversation_id\":\"c\",\"agent_id\":\"a\",\"run_id\":\"r\"}")),
        Some(("t".to_string(), "c".to_string(), "a".to_string()))
    );
    assert_eq!(
        read_step_request(&parsed("[\"t\",\"c\",\"a\"]")),
        Some(("t".to_string(), "c".to_string(), "a".to_string()))
    );
    assert_eq!(read_step_request(&parsed("{\"task_id\":\"t\",\"agent_id\":\"a\"}")), None);
    assert_eq!(read_step_request(&parsed("[\"t\",\"c\"]")), None);
}

#[test]
fn a_started_task_runs_under_a_fresh_run_id() {
    let task = TaskJson {
        id: "t1".to_string(),
        conversation_id: "c1".to_string(),
        agent_id: "a1".to_string(),
        input: "hi".to_string(),
        created_at: "now".to_string(),
    };
    let s = start_task(task, "42".to_string(), 9);
    assert_eq!(s.status, RunStatus::Running);
    assert_eq!(s.step, 0);
    assert_eq!(s.max_steps, 4);
    assert_eq!(s.progress_message_id, 9);
    assert!(is_v7(&s.run_id));
}

#[test]
fn lifecycle_messages_are_stamped_and_addressed() {
    assert!(lifecycle_message("", "t", LifecyclePhase::Started, 0, None).is_none());
    let (subject, event, body) = lifecycle_message("r1", "t1", LifecyclePhase::Error, 3, Some("boom".into())).unwrap();
    assert_eq!(subject, "mycelium.run.r1.lifecycle");
    assert_eq!(event.step, 3);
    let v: Value = serde_json::from_str(&body).unwrap();
    assert_eq!(v["phase"], "error");
    assert_eq!(v["error"], "boom");
    assert_eq!(v["ts"], event.ts.as_str());
    assert!(event.ts.ends_with('Z'));
}

#[test]
fn fresh_records_carry_time_ordered_ids() {
    let c = open_conversation("a1".to_string(), Some("t".to_string()));
    assert!(is_v7(&c.id));
    assert_eq!(c.created_at, c.updated_at);
    assert_eq!(c.title.as_deref(), Some("t"));
    let (m, key) = fresh_message("c1", MessageRole::User, "hi".to_string(), None);
    assert!(is_v7(&m.id));
    assert_eq!(m.content, "hi");
    assert!(key.starts_with("msg/c1/"));
    assert!(key.ends_with(&format!("_{}", m.id)));
    assert_eq!(key.len(), "msg/c1/".len() + 20 + 1 + 36);
}

#[test]
fn usage_sums_and_overflow() {
    let e = |k: &str, v: &str| CounterEntry { key: k.to_string(), value: Some(v.as_bytes().to_vec()) };
    let entries = vec![e("rate/a/min/7", "3"), e("rate/b/min/7", "2"), e("rate/a/day/0", "9"), e("rate/a/min/6", "100")];
    assert_eq!(usage_checked(&entries, 7, 0), Some((5, 9)));
    let big = vec![e("rate/a/min/1", "18446744073709551615"), e("rate/b/min/1", "1")];
    assert_eq!(usage_checked(&big, 1, 0), None);
}

#[test]
fn chat_answers_for_bucket_reads() {
    assert_eq!(tools_reply(&BucketRead::Unavailable), "skill registry unavailable.");
    assert_eq!(tools_reply(&BucketRead::ListFailed), "skill registry list failed.");
    assert_eq!(tools_reply(&BucketRead::Read(vec![])), "no skills registered.");
    let entries = vec![ToolEntry { key: "calc".to_string(), description: "adds".to_string() }];
    assert_eq!(tools_reply(&BucketRead::Read(entries)), "registered skills:\n- calc — adds\n");
    assert_eq!(quota_reply(&BucketRead::Unavailable, 10, 200), "(no rate state)");
    assert_eq!(quota_reply(&BucketRead::ListFailed, 10, 200), "(rate state list failed)");
    assert_eq!(quota_reply(&BucketRead::Read((3, 40)), 10, 200), "quota:\n  RPM 3/10\n  RPD 40/200");
}
