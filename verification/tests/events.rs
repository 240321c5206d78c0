use mycelium::events::{event_stamp, fan_out, is_rule_key, journal_key, RouterRule};
use mycelium::subject::subject_matches;

#[test]
fn exact() {
    assert!(subject_matches("a.b.c", "a.b.c"));
    assert!(!subject_matches("a.b.c", "a.b"));
    assert!(!subject_matches("a.b.c", "a.b.c.d"));
}

#[test]
fn star() {
    assert!(subject_matches("a.*.c", "a.b.c"));
    assert!(subject_matches("a.*.c", "a.x.c"));
    assert!(!subject_matches("a.*.c", "a.b"));
}

#[test]
fn gt() {
    assert!(subject_matches("a.>", "a.b"));
    assert!(subject_matches("a.>", "a.b.c.d"));
    assert!(!subject_matches("a.>", "a"));
}

#[test]
fn subject_matches_itself_even_with_wildcards() {
    assert!(subject_matches("a.b.c", "a.b.c"));
    assert!(subject_matches("a.*.c", "a.*.c"));
    assert!(subject_matches("a.>", "a.>"));
    assert!(subject_matches("", ""));
}

#[test]
fn star_widens_a_literal_match() {
    assert!(subject_matches("x.y.z", "x.y.z"));
    assert!(subject_matches("x.*.z", "x.y.z"));
    assert!(subject_matches("*.*.*", "x.y.z"));
    assert!(!subject_matches("*.*", "x.y.z"));
}

#[test]
fn journal_key_is_zero_padded() {
    assert_eq!(journal_key("mycelium.event.x", 42), "events/mycelium.event.x/00000000000000000042");
}

#[test]
fn stamp_falls_back_to_seconds() {
    assert_eq!(event_stamp(Some(1_700_000_000_123_456_789), 5), 1_700_000_000_123_456_789);
    assert_eq!(event_stamp(None, 3), 3_000_000_000);
}

#[test]
fn rule_keys() {
    assert!(is_rule_key("rule/fan"));
    assert!(!is_rule_key("rules"));
}

#[test]
fn fan_out_collects_targets_of_matching_rules_in_order() {
    let rules = vec![
        RouterRule {
            subject_pattern: "mycelium.event.>".to_string(),
            targets: vec!["a".to_string(), "b".to_string()],
            filter_jmespath: None,
        },
        RouterRule {
            subject_pattern: "other.>".to_string(),
            targets: vec!["x".to_string()],
            filter_jmespath: None,
        },
        RouterRule {
            subject_pattern: "mycelium.*.login".to_string(),
            targets: vec!["c".to_string()],
            filter_jmespath: None,
        },
    ];
    assert_eq!(fan_out(&rules, "mycelium.event.login"), vec!["a", "b", "c"]);
    assert!(fan_out(&rules, "nothing").is_empty());
}
