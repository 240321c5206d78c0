use mycelium::executor::{
    effective_max, final_reply_body, initial_state, normalize_calls, on_step_result, on_tool_calls,
    on_tool_result, rearm, reply_text, RawCall, RunStatus, TaskJson, ToolCallsOutcome,
};

fn task() -> TaskJson {
    TaskJson {
        id: "t1".to_string(),
        conversation_id: "c1".to_string(),
        agent_id: "a1".to_string(),
        input: "hi".to_string(),
        created_at: "now".to_string(),
    }
}

fn call(id: &str, name: &str, args: Option<&str>) -> RawCall {
    RawCall { id: Some(id.to_string()), name: Some(name.to_string()), arguments: args.map(|a| a.to_string()) }
}

#[test]
fn calls_without_a_name_are_dropped_and_arguments_default() {
    let raw = vec![call("1", "calc", None), call("2", "", Some("{}")), RawCall { id: None, name: Some("time".into()), arguments: None }];
    let kept = normalize_calls(&raw);
    assert_eq!(kept.len(), 2);
    assert_eq!(kept[0].name, "calc");
    assert_eq!(kept[0].arguments, "{}");
    assert_eq!(kept[1].id, "");
}

#[test]
fn step_budget_is_never_exceeded() {
    let mut s = initial_state(task(), "42".to_string(), 7, "run".to_string());
    assert_eq!(effective_max(&s), 4);
    for step in 1..=4u32 {
        match on_tool_calls(&mut s, &[call("x", "calc", Some("{\"expr\":\"1+1\"}"))]) {
            ToolCallsOutcome::Dispatched { calls, progress } => {
                assert_eq!(calls.len(), 1);
                assert_eq!(progress, format!("🔧 calc({{\"expr\":\"1+1\"}})\n_step {step}/4_"));
            }
            ToolCallsOutcome::Exceeded { .. } => panic!("budget exceeded too early"),
        }
        assert_eq!(s.step, step);
        assert_eq!(s.status, RunStatus::WaitingTools);
    }
    match on_tool_calls(&mut s, &[call("x", "calc", None)]) {
        ToolCallsOutcome::Exceeded { progress } => assert_eq!(progress, "⚠️ max steps exceeded (4/4)"),
        ToolCallsOutcome::Dispatched { .. } => panic!("dispatched past the budget"),
    }
    assert_eq!(s.step, 4);
    assert_eq!(s.status, RunStatus::Failed);
    assert_eq!(s.error.as_deref(), Some("max steps exceeded"));
}

#[test]
fn several_calls_are_announced_by_name() {
    let mut s = initial_state(task(), String::new(), 0, String::new());
    match on_tool_calls(&mut s, &[call("a", "calc", None), call("b", "time", None)]) {
        ToolCallsOutcome::Dispatched { progress, .. } => {
            assert_eq!(progress, "🔧 calling 2 tools: calc, time\n_step 1/4_")
        }
        _ => panic!(),
    }
}

#[test]
fn results_fold_once_the_round_is_complete() {
    let mut s = initial_state(task(), String::new(), 0, String::new());
    let _ = on_tool_calls(&mut s, &[call("a", "calc", None), call("b", "time", None)]);
    let r1 = on_tool_result(&mut s, "b".to_string(), Some("12:00\nUTC".to_string()), None);
    assert!(!r1.round_complete);
    assert_eq!(r1.progress, "📊 time → 12:00 UTC\n_waiting for 1 more tools…_");
    assert!(r1.folded.is_empty());
    let r2 = on_tool_result(&mut s, "a".to_string(), None, Some("bad".to_string()));
    assert!(r2.round_complete);
    assert_eq!(r2.progress, "📊 calc → error: bad\n_step 1/4 • thinking…_");
    assert_eq!(r2.folded, vec!["[tool time returned: 12:00\nUTC]", "[tool calc failed: bad]"]);
    assert_eq!(s.status, RunStatus::WaitingTools);
    assert_eq!(s.pending_tool_calls.len(), 2);
    rearm(&mut s);
    assert_eq!(s.status, RunStatus::Running);
    assert_eq!(s.tool_results.len(), 2);
    assert!(s.pending_tool_calls.is_empty());
}

#[test]
fn unknown_call_ids_are_named_unknown() {
    let mut s = initial_state(task(), String::new(), 0, String::new());
    let _ = on_tool_calls(&mut s, &[call("a", "calc", None)]);
    let r = on_tool_result(&mut s, "zz".to_string(), None, None);
    assert_eq!(r.progress, "📊 unknown → (empty)\n_step 1/4 • thinking…_");
    assert_eq!(r.folded, vec!["[tool unknown returned: <empty>]"]);
}

#[test]
fn step_result_and_reply() {
    let mut s = initial_state(task(), String::new(), 0, String::new());
    on_step_result(&mut s, &Some("done".to_string()), &None);
    assert_eq!(s.status, RunStatus::Done);
    on_step_result(&mut s, &None, &Some("boom".to_string()));
    assert_eq!(s.status, RunStatus::Failed);
    assert_eq!(reply_text(&Some("hi".to_string()), &None), Some("hi".to_string()));
    assert_eq!(reply_text(&Some(String::new()), &Some("e".to_string())), Some("(error: e)".to_string()));
    assert_eq!(reply_text(&None, &None), None);
}

#[test]
fn final_reply_has_step_and_quota_footer() {
    let s = initial_state(task(), String::new(), 0, String::new());
    let body = final_reply_body(&"answer".to_string(), Some(&s), 1, 10, 5, 200);
    assert_eq!(body, "answer\n\n_step 0/4 • RPM 1/10 • RPD 5/200_");
    let body = final_reply_body(&"x".to_string(), None, 0, 0, 0, 0);
    assert_eq!(body, "x\n\n_step 0/4 • RPM 0/0 • RPD 0/0_");
}
