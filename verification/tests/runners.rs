use mycelium::hook_runner;
use mycelium::loader::{cache_decision, cache_key_for, check_fetched, hash_ok, str_eq_ignore_ascii_case, CacheUse, Loader};
use mycelium::tool_runner::{
    check_capabilities, classify_call_err, classify_instantiate_err, decode_domain_error, decode_tool_result,
    epoch_deadline, export_error, finish_invoke, request_tool_id, resolve_limits, wants_http, CallOutcome, Config,
    DomainVal, EnvOverrides, ExportProblem, FieldVal, Payload, RecordField, SandboxError, SkillManifest,
    SkillSource, ToolCallReq,
};
use sha2::{Digest, Sha256};

fn manifest(caps: &[&str], source: SkillSource) -> SkillManifest {
    SkillManifest {
        name: "calc".to_string(),
        version: "0.1.0".to_string(),
        source,
        capabilities: caps.iter().map(|c| c.to_string()).collect(),
        fuel_limit: Some(7),
        memory_max_bytes: None,
        wall_deadline_ms: None,
        description: String::new(),
        parameters: "{}".to_string(),
    }
}

fn file(sha: Option<&str>) -> SkillSource {
    SkillSource::File { path: "/x.wasm".to_string(), sha256: sha.map(|s| s.to_string()) }
}

#[test]
fn capability_gate_names_the_first_refused() {
    let cfg = Config::default();
    assert!(cfg.capability_approved("wasi:logging/logging"));
    assert!(check_capabilities(&cfg, &manifest(&["wasi:logging/logging"], file(None))).is_ok());
    match check_capabilities(&cfg, &manifest(&["wasi:logging/logging", "wasi:http/outgoing", "wasi:fs"], file(None))) {
        Err(SandboxError::CapabilityRefused(s, c)) => {
            assert_eq!(s, "calc");
            assert_eq!(c, "wasi:http/outgoing");
        }
        other => panic!("{other:?}"),
    }
}

#[test]
fn limits_and_defaults() {
    let mut cfg = Config::default();
    assert_eq!(cfg.default_fuel_limit, 500_000_000);
    let l = resolve_limits(&cfg, &manifest(&[], file(None)));
    assert_eq!(l.fuel, 7);
    assert_eq!(l.memory_max, 16 * 1024 * 1024);
    assert_eq!(l.wall_deadline_ms, 30_000);
    assert_eq!(epoch_deadline(0), 1);
    assert_eq!(epoch_deadline(250), 250);
    cfg.apply_env(&EnvOverrides {
        nats_url: None,
        skill_cache_dir: Some("/tmp/c".into()),
        approved_caps: Some("a, ,b".into()),
        default_fuel: Some("x".into()),
        default_memory_max: Some("9".into()),
        default_wall_deadline_ms: None,
    });
    assert_eq!(cfg.skill_cache_dir, "/tmp/c");
    assert_eq!(cfg.approved_capabilities, vec!["a", "b"]);
    assert_eq!(cfg.default_fuel_limit, 500_000_000);
    assert_eq!(cfg.default_memory_max, 9);
}

#[test]
fn http_linking_and_tool_id() {
    assert!(wants_http(&vec!["wasi:logging".into(), "wasi:http/outgoing-handler".into()]));
    assert!(!wants_http(&vec!["wasi:htt".into()]));
    let m = manifest(&[], file(None));
    let req = ToolCallReq { call_id: "c".into(), tool_id: String::new(), arguments: "{}".into() };
    assert_eq!(request_tool_id(&req, &m), "calc");
    let req = ToolCallReq { call_id: "c".into(), tool_id: "x".into(), arguments: "{}".into() };
    assert_eq!(request_tool_id(&req, &m), "x");
}

#[test]
fn error_classification() {
    assert!(matches!(classify_instantiate_err("s", "import wasi:http not found"), SandboxError::CapabilityRefused(_, m) if m == "import wasi:http not found"));
    assert!(matches!(classify_instantiate_err("s", "bad magic"), SandboxError::Internal(m) if m == "instantiate s: bad magic"));
    assert!(matches!(classify_call_err("s", 30, "wasm trap: interrupt"), SandboxError::Timeout(_, 30)));
    assert!(matches!(classify_call_err("s", 30, "all fuel consumed"), SandboxError::OutOfFuel(_)));
    assert!(matches!(classify_call_err("s", 30, "memory grow failed"), SandboxError::OutOfMemory(_, 0)));
    assert!(matches!(classify_call_err("s", 30, "unreachable"), SandboxError::Trap(_, m) if m == "unreachable"));
    assert_eq!(SandboxError::Timeout("s".into(), 30).message(), "skill s exceeded wall-clock deadline (30 ms)");
    assert_eq!(
        SandboxError::CapabilityRefused("s".into(), "c".into()).message(),
        "skill s requested capability c which is not in the operator allow-list"
    );
    assert!(matches!(export_error("s", ExportProblem::NoInvoke), SandboxError::Internal(m) if m == "skill s exports tool-provider but no invoke func"));
}

#[test]
fn decoding_results() {
    let fields = vec![
        RecordField { name: "call-id".into(), value: FieldVal::Str(String::new()) },
        RecordField { name: "output-json".into(), value: FieldVal::Str("{\"v\":1}".into()) },
        RecordField { name: "is-error".into(), value: FieldVal::Bool(true) },
        RecordField { name: "extra".into(), value: FieldVal::Other },
    ];
    let r = decode_tool_result("calc", "c9", &Payload::Record(fields)).unwrap();
    assert_eq!(r.call_id, "c9");
    assert_eq!(r.tool_id, "calc");
    assert_eq!(r.output_json, "{\"v\":1}");
    assert!(r.is_error);
    assert!(matches!(decode_tool_result("calc", "c", &Payload::NotRecord), Err(SandboxError::Internal(m)) if m == "skill calc returned non-record success"));
    assert!(matches!(decode_domain_error("calc", &DomainVal::Variant("not-found".into(), Some(FieldVal::Str("x".into())))), SandboxError::Trap(_, m) if m == "not-found: x"));
    assert!(matches!(decode_domain_error("calc", &DomainVal::Variant("internal".into(), None)), SandboxError::Trap(_, m) if m == "internal"));
    assert!(matches!(finish_invoke("calc", "c", &CallOutcome::OkNone), Err(SandboxError::Internal(m)) if m == "skill calc returned ok with no value"));
}

#[test]
fn cache_key_hashes_name_version_and_source() {
    let m = manifest(&[], SkillSource::Oci { image: "ghcr.io/x:1".into(), sha256: None });
    let mut material = Vec::new();
    material.extend_from_slice(b"calc\x000.1.0\x00oci\x00ghcr.io/x:1");
    let expected = format!("{}.wasm", hex::encode(Sha256::digest(&material)));
    assert_eq!(cache_key_for(&m), expected);
    assert_eq!(cache_key_for(&m).len(), 69);
}

#[test]
fn sha_pins() {
    let empty = "E3B0C44298FC1C149AFBF4C8996FB92427AE41E4649B934CA495991B7852B855";
    assert!(hash_ok(&manifest(&[], file(Some(empty))), b""));
    assert!(!hash_ok(&manifest(&[], file(Some(empty))), b"x"));
    assert!(hash_ok(&manifest(&[], file(None)), b"anything"));
    assert!(check_fetched(&manifest(&[], file(None)), vec![1, 2]).is_ok());
    assert_eq!(
        check_fetched(&manifest(&[], file(Some("00"))), vec![1]).unwrap_err(),
        "sha256 mismatch for skill calc 0.1.0"
    );
    assert!(matches!(cache_decision(&manifest(&[], file(Some(empty))), None), CacheUse::Fetch));
    assert!(matches!(cache_decision(&manifest(&[], file(Some(empty))), Some(vec![])), CacheUse::Hit(b) if b.is_empty()));
    assert!(matches!(cache_decision(&manifest(&[], file(Some(empty))), Some(vec![7])), CacheUse::Refetch));
    assert!(matches!(cache_decision(&manifest(&[], file(None)), Some(vec![7])), CacheUse::Hit(b) if b == vec![7]));
    assert!(str_eq_ignore_ascii_case("aBc", "AbC"));
    assert!(!str_eq_ignore_ascii_case("ab", "abc"));
}

#[test]
fn loader_paths() {
    assert_eq!(Loader::new("/var/c".into()).cache_path("k.wasm"), "/var/c/k.wasm");
    assert_eq!(Loader::new("/var/c/".into()).cache_path("k.wasm"), "/var/c/k.wasm");
}

#[test]
fn hooks_pass_through_on_failure() {
    let cfg = hook_runner::Config::default();
    assert_eq!(cfg.default_wall_deadline_ms, 1_500);
    assert_eq!(hook_runner::hook_event_name("mycelium.hook.session-end").as_deref(), Some("session-end"));
    assert_eq!(hook_runner::hook_event_name("mycelium.hook."), None);
    assert_eq!(hook_runner::hook_event_name("other"), None);
    assert_eq!(hook_runner::payload_text(b"{\"a\":1}"), "{\"a\":1}");
    assert_eq!(hook_runner::payload_text(&[0xff, 0xfe]), "{}");
    assert_eq!(hook_runner::hook_reply(hook_runner::HookStage::NoHook, "p".into()), "p");
    assert_eq!(hook_runner::hook_reply(hook_runner::HookStage::Failed("e".into()), "p".into()), "p");
    assert_eq!(hook_runner::hook_reply(hook_runner::HookStage::Answered("q".into()), "p".into()), "q");
    match hook_runner::finish_hook("h", &hook_runner::HookOutcome::ErrSome(hook_runner::HookVal::Str("no".into()))) {
        Err(e) => assert_eq!(e.message(), "hook component h returned an error: no"),
        Ok(_) => panic!(),
    }
    assert!(matches!(hook_runner::classify_call_err("h", 5, "memory grow"), hook_runner::SandboxError::Trap(_, _)));
}
