use mycelium::config::{parse_list, Config, EnvOverrides};
use mycelium::text::{parse_u64, str_contains, str_starts_with};
use mycelium::types::{role_from_str, role_to_str, MessageRole};

#[test]
fn parse_u64_follows_std_rules() {
    assert_eq!(parse_u64("42"), Some(42));
    assert_eq!(parse_u64("+7"), Some(7));
    assert_eq!(parse_u64("18446744073709551615"), Some(u64::MAX));
    assert_eq!(parse_u64("18446744073709551616"), None);
    assert_eq!(parse_u64(""), None);
    assert_eq!(parse_u64("-1"), None);
    assert_eq!(parse_u64("1 "), None);
}

#[test]
fn substring_helpers() {
    assert!(str_contains("rate/a/min/5", "/min/5"));
    assert!(!str_contains("rate", "rates"));
    assert!(str_starts_with("wasi:http/outgoing", "wasi:http"));
    assert!(!str_starts_with("wasi:htt", "wasi:http"));
}

#[test]
fn role_names_round_trip() {
    for r in [MessageRole::System, MessageRole::User, MessageRole::Assistant, MessageRole::Tool] {
        assert_eq!(role_from_str(role_to_str(r)), r);
    }
    assert_eq!(role_to_str(MessageRole::Assistant), "assistant");
    assert_eq!(role_from_str("robot"), MessageRole::User);
}

#[test]
fn list_setting_is_trimmed_and_skips_blanks() {
    assert_eq!(parse_list(" a, b ,,c ,"), vec!["a", "b", "c"]);
    assert!(parse_list(" , ").is_empty());
}

#[test]
fn config_defaults_and_env_overrides() {
    let mut c = Config::default();
    assert_eq!(c.llm_rpm, 10);
    assert_eq!(c.llm_rpd, 200);
    assert_eq!(c.default_agent_id, "auto");
    assert!(c.module_enabled("gateway"));
    let env = EnvOverrides {
        nats_url: Some("nats://x:1".to_string()),
        telegram_bot_token: None,
        default_agent_id: None,
        llm_endpoint: None,
        llm_model: Some("m".to_string()),
        llm_api_key: None,
        llm_rpm: Some("oops".to_string()),
        llm_rpd: Some("50".to_string()),
        gateway_listen: None,
        disabled_modules: Some("gateway, telegram".to_string()),
    };
    c.apply_env(&env);
    assert_eq!(c.nats_url, "nats://x:1");
    assert_eq!(c.llm_model, "m");
    assert_eq!(c.llm_rpm, 10);
    assert_eq!(c.llm_rpd, 50);
    assert!(!c.module_enabled("gateway"));
    assert!(!c.module_enabled("telegram"));
    assert!(c.module_enabled("events"));
}
