use mycelium::executor::RawCall;
use mycelium::llm::{
    attempt_outcome, circuit_after_failure, circuit_remaining, claim_won, gate_circuit, gate_day, gate_minute,
    http_error_text, next_count, parse_url, rate_key, rate_verdict, reply_from_completion, Attempt, Gate,
    LlmReply, RateWindow, Scheme,
};

#[test]
fn completion_with_named_calls_is_a_tool_turn() {
    let calls = vec![
        RawCall { id: Some("1".into()), name: Some("calc".into()), arguments: Some("{}".into()) },
        RawCall { id: Some("2".into()), name: None, arguments: None },
    ];
    match reply_from_completion(Some(calls), Some("ignored".into())) {
        LlmReply::Tools(ts) => {
            assert_eq!(ts.len(), 1);
            assert_eq!(ts[0].name, "calc");
        }
        LlmReply::Text(_) => panic!(),
    }
    match reply_from_completion(Some(vec![]), None) {
        LlmReply::Text(t) => assert_eq!(t, ""),
        _ => panic!(),
    }
}

#[test]
fn rate_caps() {
    assert_eq!(rate_verdict(0, 1_000), Ok(u64::MAX));
    assert_eq!(rate_verdict(10, 10), Ok(0));
    assert_eq!(rate_verdict(10, 13), Err(3));
    assert_eq!(next_count(&None), 1);
    assert_eq!(next_count(&Some("41".into())), 42);
    assert_eq!(next_count(&Some("junk".into())), 1);
    assert_eq!(rate_key("a", RateWindow::Minute, 125), "rate/a/min/2");
    assert_eq!(rate_key("a", RateWindow::Day, 86_400 * 3 + 5), "rate/a/day/3");
}

#[test]
fn circuit_breaker() {
    assert_eq!(circuit_remaining(Some(100), 40), Some(60));
    assert_eq!(circuit_remaining(Some(100), 100), None);
    assert_eq!(circuit_remaining(None, 5), None);
    assert_eq!(circuit_after_failure(4, 1000), None);
    assert_eq!(circuit_after_failure(5, 1000), Some(1060));
}

#[test]
fn gates_refuse_with_messages() {
    match gate_circuit(Some(30)) {
        Gate::Refuse(m) => assert_eq!(m, "circuit open; retry in 30s after repeated LLM failures"),
        _ => panic!(),
    }
    assert!(matches!(gate_circuit(None), Gate::CheckDay));
    match gate_day(Err(2)) {
        Gate::Refuse(m) => assert_eq!(m, "daily LLM budget exceeded (2 over cap); resets at UTC midnight"),
        _ => panic!(),
    }
    assert!(matches!(gate_day(Ok(5)), Gate::CheckMinute));
    match gate_minute(Err(1)) {
        Gate::Refuse(m) => assert_eq!(m, "rate limit hit (1 over budget this minute); try again shortly"),
        _ => panic!(),
    }
    assert!(matches!(gate_minute(Ok(0)), Gate::Proceed));
}

#[test]
fn retry_policy() {
    assert_eq!(attempt_outcome(200, 1, None), Attempt::Success);
    assert_eq!(attempt_outcome(429, 1, None), Attempt::Retry(1));
    assert_eq!(attempt_outcome(503, 2, None), Attempt::Retry(2));
    assert_eq!(attempt_outcome(429, 1, Some(500)), Attempt::Retry(60));
    assert_eq!(attempt_outcome(400, 1, None), Attempt::GiveUp);
    assert_eq!(claim_won(1), true);
    assert_eq!(claim_won(2), false);
}

#[test]
fn error_text_is_truncated() {
    let body = "x".repeat(500);
    let t = http_error_text(502, &body);
    assert_eq!(t, format!("HTTP 502: {}", "x".repeat(400)));
}

#[test]
fn urls_split_into_authority_and_path() {
    let u = parse_url("https://api.example.com/v1/chat?x=1").unwrap();
    assert_eq!(u.scheme, Scheme::Https);
    assert_eq!(u.authority, "api.example.com");
    assert_eq!(u.path_and_query, "/v1/chat?x=1");
    let u = parse_url("http://localhost:11434").unwrap();
    assert_eq!(u.scheme, Scheme::Http);
    assert_eq!(u.path_and_query, "/");
    assert_eq!(parse_url("ftp://x").unwrap_err(), "unknown scheme: ftp://x");
}
