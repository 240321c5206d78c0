use mycelium::hooks::{hook_subject, outcome_of, reply_text, HookOutcome, HookReply};
use mycelium::quota::{
    bot_status_text, format_quota, minute_and_day, quota_footer, read_counter, status_update_due, sum_usage,
    tools_listing, CounterEntry, ToolEntry,
};
use mycelium::telegram::{
    action_chat_id, api_error, default_action, lock_acquired, method_url, next_offset, poll_settings,
    reactions_for, read_offset, token_is_set, StreamChunk, StreamTable, TgChat, TgMessage, TgUpdate,
};

fn upd(id: u64, chat: Option<i64>) -> TgUpdate {
    TgUpdate {
        update_id: id,
        message: chat.map(|c| TgMessage { message_id: id as i64 * 10, chat: TgChat { id: c }, text: Some("hi".into()) }),
    }
}

#[test]
fn bot_api_texts() {
    assert!(token_is_set("x"));
    assert!(!token_is_set(""));
    assert_eq!(method_url("T", "getUpdates"), "https://api.telegram.org/botT/getUpdates");
    assert_eq!(api_error(Some("sendMessage"), &Some("Bad Request".into()), Some(400)), "telegram sendMessage: Bad Request (400)");
    assert_eq!(api_error(None, &None, None), "telegram:  (0)");
    assert_eq!(api_error(None, &None, Some(-5)), "telegram:  (-5)");
}

#[test]
fn long_poll_offsets() {
    assert_eq!(next_offset(&vec![upd(3, None), upd(9, Some(1)), upd(5, None)]), Some(10));
    assert_eq!(next_offset(&vec![]), None);
    assert_eq!(read_offset(Some(b"17")), 17);
    assert_eq!(read_offset(Some(b"x")), 0);
    assert_eq!(read_offset(Some(&[0xff])), 0);
    assert_eq!(read_offset(None), 0);
    assert_eq!(reactions_for(&vec![upd(1, Some(7)), upd(2, None), upd(3, Some(8))]), vec![(7, 10), (8, 30)]);
}

#[test]
fn poller_settings() {
    let p = poll_settings(&None, &None, &None, &None);
    assert_eq!(p.timeout_s, 25);
    assert_eq!(p.idle_ms, 500);
    assert_eq!(p.ack_emoji, "\u{1F440}");
    assert!(p.ack_enabled);
    let p = poll_settings(&Some("99999999999".into()), &Some("10".into()), &Some("👍".into()), &Some("yes".into()));
    assert_eq!(p.timeout_s, 25);
    assert_eq!(p.idle_ms, 10);
    assert_eq!(p.ack_emoji, "👍");
    assert!(!p.ack_enabled);
    assert!(poll_settings(&None, &None, &None, &Some("no".into())).ack_enabled);
    assert!(lock_acquired(1));
    assert!(!lock_acquired(2));
}

#[test]
fn chat_actions() {
    assert_eq!(action_chat_id("mycelium.channel.telegram.action.42").as_deref(), Some("42"));
    assert_eq!(action_chat_id("mycelium.channel.telegram.action."), None);
    assert_eq!(action_chat_id("x"), None);
    assert_eq!(default_action(), "typing");
}

fn chunk(delta: &str, done: bool, chat: &str, pm: i64) -> StreamChunk {
    StreamChunk { delta: delta.into(), done, chat_id: chat.into(), progress_message_id: pm }
}

#[test]
fn streamed_reply_is_debounced() {
    let mut t = StreamTable::new();
    assert!(t.on_chunk(&chunk("x", false, "", 5), 0).is_none());
    assert!(t.on_chunk(&chunk("x", false, "c", 0), 0).is_none());
    let e = t.on_chunk(&chunk("Hel", false, "c", 5), 0).unwrap();
    assert_eq!((e.chat_id.as_str(), e.message_id, e.text.as_str()), ("c", 5, "Hel"));
    assert!(t.on_chunk(&chunk("lo", false, "c", 5), 100).is_none());
    assert_eq!(t.on_chunk(&chunk(" w", false, "c", 5), 1000).unwrap().text, "Hello w");
    assert_eq!(t.on_chunk(&chunk("!", true, "c", 5), 1100).unwrap().text, "Hello w!");
    assert!(t.entries.is_empty());
    assert_eq!(t.on_chunk(&chunk("new", false, "c", 6), 1200).unwrap().text, "new");
}

#[test]
fn quota_counting() {
    let e = |k: &str, v: Option<&[u8]>| CounterEntry { key: k.into(), value: v.map(|b| b.to_vec()) };
    let entries = vec![
        e("rate/a/min/5", Some(b"3")),
        e("rate/b/min/5", Some(b"2")),
        e("rate/a/day/0", Some(b"7")),
        e("rate/a/min/4", Some(b"100")),
        e("rate/x/min/5", Some(&[0xff])),
        e("rate/y/min/5", None),
    ];
    assert_eq!(sum_usage(&entries, 5, 0), (5, 7));
    assert_eq!(read_counter(b"12"), 12);
    assert_eq!(minute_and_day(125), (2, 0));
    assert_eq!(format_quota(1, 10, 2, 200), "quota:\n  RPM 1/10\n  RPD 2/200");
    assert_eq!(quota_footer(1, 10, 2, 200), "_RPM 1/10 • RPD 2/200_");
    assert_eq!(bot_status_text(1, 10, 2, 200), "today: 2/200 calls • now: 1/10 this minute");
    assert!(!status_update_due(100, 40));
    assert!(status_update_due(105, 40));
}

#[test]
fn tool_listing() {
    assert_eq!(tools_listing(&vec![]), "no skills registered.");
    let t = tools_listing(&vec![
        ToolEntry { key: "calc".into(), description: "math".into() },
        ToolEntry { key: "time".into(), description: String::new() },
    ]);
    assert_eq!(t, "registered skills:\n- calc — math\n- time\n");
}

#[test]
fn hook_firing() {
    assert_eq!(hook_subject("before-compaction"), "mycelium.hook.before-compaction");
    assert_eq!(reply_text(b"{}").as_deref(), Some("{}"));
    assert_eq!(reply_text(b""), None);
    assert_eq!(reply_text(&[0xc3]), None);
    let o = outcome_of("{\"a\":1}".into(), HookReply::Unanswered);
    assert_eq!(o.payload, "{\"a\":1}");
    assert!(!o.block);
    let o = outcome_of("p".into(), HookReply::Json { text: "{\"block\":true}".into(), block: Some(true), reason: Some("no".into()) });
    assert!(o.block);
    assert_eq!(o.reason.as_deref(), Some("no"));
    assert_eq!(o.payload, "{\"block\":true}");
    let o: HookOutcome = outcome_of("p".into(), HookReply::NotJson);
    assert_eq!(o.payload, "p");
    assert!(!HookOutcome::passthrough("x".into()).block);
}
