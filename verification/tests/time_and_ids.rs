use mycelium::civil::{iso_from_wall_clock, secs_to_ymdhms};
use mycelium::router::{
    coarse_iso_from_secs, conv_key, default_agent_key, format_uuid, new_chat_task, new_task_id, route_text, seen_key, uuid_v4_from,
    uuid_v7_from, TextRoute,
};
use mycelium::session::{
    attach_conversation, attach_decision, close, idle_expired, index_key, is_session_key, new_session, now_iso,
    now_unix_secs, parse_rfc3339, session_body, session_key, sweep_idle, touch,
};

#[test]
fn calendar_fields() {
    assert_eq!(secs_to_ymdhms(0), (1970, 1, 1, 0, 0, 0));
    assert_eq!(secs_to_ymdhms(1_700_000_000), (2023, 11, 14, 22, 13, 20));
    assert_eq!(secs_to_ymdhms(951_782_400), (2000, 2, 29, 0, 0, 0));
    assert_eq!(secs_to_ymdhms(-1), (1969, 12, 31, 23, 59, 59));
    assert_eq!(secs_to_ymdhms(4_102_444_800), (2100, 1, 1, 0, 0, 0));
}

#[test]
fn iso_with_nanoseconds() {
    assert_eq!(iso_from_wall_clock(1_700_000_000, 5), "2023-11-14T22:13:20.000000005Z");
    assert_eq!(iso_from_wall_clock(0, 0), "1970-01-01T00:00:00.000000000Z");
}

#[test]
fn coarse_timestamps() {
    assert_eq!(coarse_iso_from_secs(0), "1970-01-01T00:00:00Z");
    assert_eq!(coarse_iso_from_secs(86_400 * 366 + 3661), "1971-01-02T01:01:01Z");
}

#[test]
fn uuids_from_bytes() {
    assert_eq!(uuid_v4_from([0; 16]), "00000000-0000-4000-8000-000000000000");
    assert_eq!(uuid_v4_from([0xff; 16]), "ffffffff-ffff-4fff-bfff-ffffffffffff");
    assert_eq!(uuid_v7_from(0x0123_4567_89ab, 0x0def, u64::MAX), "01234567-89ab-7def-bfff-ffffffffffff");
    assert_eq!(format_uuid(&[0x12; 16]), "12121212-1212-1212-1212-121212121212");
    let id = new_task_id();
    assert_eq!(id.len(), 36);
    assert_eq!(&id[14..15], "4");
    assert!("89ab".contains(&id[19..20]));
    assert!(id.chars().enumerate().all(|(i, c)| if [8, 13, 18, 23].contains(&i) {
        c == '-'
    } else {
        c.is_ascii_digit() || ('a'..='f').contains(&c)
    }));
    assert_ne!(id, new_task_id());
}

#[test]
fn chat_task_carries_its_id_and_stamp() {
    let (id, at, body) = new_chat_task("c1", "a1", "hello", Some("s1"));
    assert_eq!(&id[14..15], "4");
    let v: serde_json::Value = serde_json::from_str(&body).unwrap();
    assert_eq!(v["id"], id.as_str());
    assert_eq!(v["created_at"], at.as_str());
    assert_eq!(v["conversation_id"], "c1");
    assert_eq!(v["agent_id"], "a1");
    assert_eq!(v["input"], "hello");
    assert_eq!(v["session_id"], "s1");
    assert!(at.ends_with('Z'));
}

#[test]
fn routing_keys_and_paths() {
    assert_eq!(seen_key(5), "seen/5");
    assert_eq!(conv_key("7"), "conv/7");
    assert_eq!(default_agent_key("7"), "default-agent/7");
    assert!(matches!(route_text("/help", true), TextRoute::Command(_)));
    assert!(matches!(route_text("/help", false), TextRoute::Chat));
    assert!(matches!(route_text("/agent create a b p", true), TextRoute::CreateAgent(c) if c.id == "a"));
    assert!(matches!(route_text("", true), TextRoute::Empty));
    assert!(matches!(route_text("hello", true), TextRoute::Chat));
}

#[test]
fn session_records() {
    assert_eq!(session_key("s1"), "session/s1");
    assert_eq!(index_key("telegram", "42"), "index/telegram/42");
    assert!(is_session_key("session/x"));
    assert!(!is_session_key("index/x"));
    let (mut rec, created) = attach_decision(None, "telegram", "42", "a", "2024-01-01T00:00:00Z");
    assert!(created);
    assert_eq!(rec.id.len(), 36);
    assert_eq!(rec.conversation_id, "");
    assert_eq!(rec.metadata, "null");
    let (again, created) = attach_decision(Some(rec.clone()), "telegram", "42", "b", "later");
    assert!(!created);
    assert_eq!(again.agent_id, "a");
    touch(&mut rec, "t2");
    assert_eq!(rec.last_activity_at, "t2");
    assert!(attach_conversation(&mut rec, "c1", "t3"));
    assert!(!attach_conversation(&mut rec, "c1", "t4"));
    assert_eq!(rec.last_activity_at, "t3");
    assert!(close(&mut rec, "t5"));
    assert!(!close(&mut rec, "t6"));
    assert_eq!(rec.ended_at.as_deref(), Some("t5"));
}

#[test]
fn idle_sweep() {
    assert!(!idle_expired(100_000, Some(100_000 - 86_400)));
    assert!(idle_expired(100_000, Some(100_000 - 86_401)));
    assert!(!idle_expired(100_000, None));
    assert_eq!(parse_rfc3339("1970-01-02T00:00:00Z"), Some(86_400));
    assert_eq!(parse_rfc3339("not a time"), None);
    let mut old = new_session("old".into(), "t", "1", "a", "1970-01-01T00:00:00Z");
    let fresh = new_session("fresh".into(), "t", "2", "a", "1970-01-02T00:00:00Z");
    let mut closed = new_session("closed".into(), "t", "3", "a", "1970-01-01T00:00:00Z");
    close(&mut closed, "x");
    touch(&mut old, "1970-01-01T00:00:00Z");
    let ids = sweep_idle(&vec![old, fresh, closed], 172_800);
    assert_eq!(ids, vec!["old"]);
}

#[test]
fn clock_wrappers_are_live() {
    assert!(now_unix_secs() > 1_600_000_000);
    let t = now_iso();
    assert!(t.ends_with('Z'));
    assert!(parse_rfc3339(&t).is_some());
}

#[test]
fn an_attached_session_reads_back() {
    let (rec, created) = attach_decision(None, "telegram", "42", "a", "2024-01-01T00:00:00Z");
    assert!(created);
    let doc = mycelium::json::decode_json(session_body(&rec).as_bytes()).unwrap();
    let back = mycelium::session::read_session(&doc).unwrap();
    assert_eq!(back.id, rec.id);
    assert_eq!(back.channel_session_key, "42");
    assert_eq!(back.ended_at, None);
    assert_eq!(back.metadata, "null");
    assert_eq!(back.started_at, back.last_activity_at);
}
