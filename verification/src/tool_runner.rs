//! Skill runner policy: the operator allow-list, the per-call limits, and
//! the decoding of what a skill hands back. The wasm engine itself runs
//! outside this module; it hands plain values in and gets decisions back.

use vstd::prelude::*;
use crate::config::{any_equals, list_items, names_contain, num_or, over_num, over_str, parse_list, strings_view};
use crate::text::{decimal, decimal_chars, has_infix, push_all, push_str, split_on, str_contains, str_starts_with, string_from_chars};

verus! {

/// Runner configuration.
#[derive(Clone, Debug)]
pub struct Config {
    pub nats_url: String,
    /// Where to cache fetched skill components on disk.
    pub skill_cache_dir: String,
    /// Approved capabilities; a skill declaring anything outside this list
    /// is refused.
    pub approved_capabilities: Vec<String>,
    /// Per-call default fuel ceiling.
    pub default_fuel_limit: u64,
    /// Per-call default memory cap (bytes).
    pub default_memory_max: u64,
    /// Per-call default wall-clock deadline (milliseconds).
    pub default_wall_deadline_ms: u64,
}

impl Default for Config {
    fn default() -> (c: Self)
        ensures
            c.nats_url@ == "nats://127.0.0.1:4222"@,
            c.skill_cache_dir@ == "/var/lib/mycelium/skill-cache"@,
            strings_view(c.approved_capabilities@) == seq![
                "wasi:clocks/wall-clock"@,
                "wasi:logging/logging"@,
                "wasi:keyvalue/store@0.2.0-draft"@,
            ],
            c.default_fuel_limit == 500_000_000,
            c.default_memory_max == 16 * 1024 * 1024,
            c.default_wall_deadline_ms == 30_000,
    {
        let mut caps: Vec<String> = Vec::new();
        caps.push("wasi:clocks/wall-clock".to_string());
        caps.push("wasi:logging/logging".to_string());
        caps.push("wasi:keyvalue/store@0.2.0-draft".to_string());
        let c = Config {
            nats_url: "nats://127.0.0.1:4222".to_string(),
            skill_cache_dir: "/var/lib/mycelium/skill-cache".to_string(),
            approved_capabilities: caps,
            default_fuel_limit: 500_000_000,
            default_memory_max: 16 * 1024 * 1024,
            default_wall_deadline_ms: 30_000,
        };
        assert(strings_view(c.approved_capabilities@) =~= seq![
            "wasi:clocks/wall-clock"@,
            "wasi:logging/logging"@,
            "wasi:keyvalue/store@0.2.0-draft"@,
        ]);
        c
    }
}

/// Environment variables that override the runner config (`None` when
/// unset).
#[derive(Debug)]
pub struct EnvOverrides {
    pub nats_url: Option<String>,
    pub skill_cache_dir: Option<String>,
    pub approved_caps: Option<String>,
    pub default_fuel: Option<String>,
    pub default_memory_max: Option<String>,
    pub default_wall_deadline_ms: Option<String>,
}

impl Config {
    /// Whether `cap` is on the operator allow-list (exact match).
    pub fn capability_approved(&self, cap: &str) -> (r: bool)
        ensures
            r == names_contain(self.approved_capabilities@, cap@),
    {
        any_equals(&self.approved_capabilities, cap)
    }

    /// Applies environment overrides; a number that does not parse keeps
    /// the current value.
    pub fn apply_env(&mut self, env: &EnvOverrides)
        ensures
            final(self).nats_url@ == over_str(old(self).nats_url@, env.nats_url),
            final(self).skill_cache_dir@ == over_str(old(self).skill_cache_dir@, env.skill_cache_dir),
            match env.approved_caps {
                Some(v) => strings_view(final(self).approved_capabilities@) == list_items(
                    split_on(v@, ','),
                ),
                None => final(self).approved_capabilities == old(self).approved_capabilities,
            },
            final(self).default_fuel_limit == over_num(old(self).default_fuel_limit, env.default_fuel),
            final(self).default_memory_max == over_num(
                old(self).default_memory_max,
                env.default_memory_max,
            ),
            final(self).default_wall_deadline_ms == over_num(
                old(self).default_wall_deadline_ms,
                env.default_wall_deadline_ms,
            ),
    {
        if let Some(v) = &env.nats_url {
            self.nats_url = v.clone();
        }
        if let Some(v) = &env.skill_cache_dir {
            self.skill_cache_dir = v.clone();
        }
        if let Some(v) = &env.approved_caps {
            self.approved_capabilities = parse_list(v.as_str());
        }
        self.default_fuel_limit = num_or(&env.default_fuel, self.default_fuel_limit);
        self.default_memory_max = num_or(&env.default_memory_max, self.default_memory_max);
        self.default_wall_deadline_ms = num_or(
            &env.default_wall_deadline_ms,
            self.default_wall_deadline_ms,
        );
    }
}

/// Where a skill's wasm component comes from.
#[derive(Clone, Debug)]
pub enum SkillSource {
    /// OCI image reference, with an optional SHA-256 pin of the artifact.
    Oci { image: String, sha256: Option<String> },
    /// NATS object store entry; the SHA-256 pin is mandatory.
    NatsObjectStore { bucket: String, key: String, sha256: String },
    /// Bare wasm file on disk, with an optional SHA-256 pin.
    File { path: String, sha256: Option<String> },
}

/// A skill's manifest.
#[derive(Clone, Debug)]
pub struct SkillManifest {
    pub name: String,
    pub version: String,
    pub source: SkillSource,
    /// Host imports the skill needs; each must be approved by the operator.
    pub capabilities: Vec<String>,
    pub fuel_limit: Option<u64>,
    pub memory_max_bytes: Option<u64>,
    pub wall_deadline_ms: Option<u64>,
    pub description: String,
    /// JSON schema of the call arguments, as JSON text.
    pub parameters: String,
}

/// A tool call handed to a skill.
#[derive(Debug)]
pub struct ToolCallReq {
    pub call_id: String,
    /// Tool name; empty means the skill's own name.
    pub tool_id: String,
    /// Raw JSON arguments; the skill parses them itself.
    pub arguments: String,
}

/// A skill's answer to one tool call.
#[derive(Debug)]
pub struct ToolCallResp {
    pub call_id: String,
    pub tool_id: String,
    pub output_json: String,
    pub is_error: bool,
}

/// Why a skill invocation failed.
#[derive(Debug)]
pub enum SandboxError {
    CapabilityRefused(String, String),
    Timeout(String, u64),
    OutOfFuel(String),
    OutOfMemory(String, u64),
    Trap(String, String),
    Loader(String),
    Internal(String),
}

/// The text shown for each error.
pub open spec fn sandbox_error_text(e: SandboxError) -> Seq<char> {
    match e {
        SandboxError::CapabilityRefused(s, c) => "skill "@ + s@ + " requested capability "@ + c@
            + " which is not in the operator allow-list"@,
        SandboxError::Timeout(s, ms) => "skill "@ + s@ + " exceeded wall-clock deadline ("@
            + decimal(ms as nat) + " ms)"@,
        SandboxError::OutOfFuel(s) => "skill "@ + s@ + " ran out of fuel"@,
        SandboxError::OutOfMemory(s, b) => "skill "@ + s@ + " hit memory cap ("@ + decimal(b as nat)
            + " bytes)"@,
        SandboxError::Trap(s, m) => "skill "@ + s@ + " trapped: "@ + m@,
        SandboxError::Loader(m) => "skill loader failed: "@ + m@,
        SandboxError::Internal(m) => "sandbox internal error: "@ + m@,
    }
}

impl SandboxError {
    /// Human-readable description of the error.
    pub fn message(&self) -> (s: String)
        ensures
            s@ == sandbox_error_text(*self),
    {
        let mut v: Vec<char> = Vec::new();
        match self {
            SandboxError::CapabilityRefused(s, c) => {
                push_str(&mut v, "skill ");
                push_str(&mut v, s.as_str());
                push_str(&mut v, " requested capability ");
                push_str(&mut v, c.as_str());
                push_str(&mut v, " which is not in the operator allow-list");
            },
            SandboxError::Timeout(s, ms) => {
                push_str(&mut v, "skill ");
                push_str(&mut v, s.as_str());
                push_str(&mut v, " exceeded wall-clock deadline (");
                let d = decimal_chars(*ms);
                push_all(&mut v, d.as_slice());
                push_str(&mut v, " ms)");
            },
            SandboxError::OutOfFuel(s) => {
                push_str(&mut v, "skill ");
                push_str(&mut v, s.as_str());
                push_str(&mut v, " ran out of fuel");
            },
            SandboxError::OutOfMemory(s, b) => {
                push_str(&mut v, "skill ");
                push_str(&mut v, s.as_str());
                push_str(&mut v, " hit memory cap (");
                let d = decimal_chars(*b);
                push_all(&mut v, d.as_slice());
                push_str(&mut v, " bytes)");
            },
            SandboxError::Trap(s, m) => {
                push_str(&mut v, "skill ");
                push_str(&mut v, s.as_str());
                push_str(&mut v, " trapped: ");
                push_str(&mut v, m.as_str());
            },
            SandboxError::Loader(m) => {
                push_str(&mut v, "skill loader failed: ");
                push_str(&mut v, m.as_str());
            },
            SandboxError::Internal(m) => {
                push_str(&mut v, "sandbox internal error: ");
                push_str(&mut v, m.as_str());
            },
        }
        string_from_chars(v.as_slice())
    }
}

/// Index of the first capability in `caps` that is not approved, if any.
pub open spec fn first_refused(approved: Seq<String>, caps: Seq<String>) -> Option<int>
    decreases caps.len(),
{
    if caps.len() == 0 {
        None
    } else {
        match first_refused(approved, caps.drop_last()) {
            Some(i) => Some(i),
            None => if names_contain(approved, caps.last()@) {
                None
            } else {
                Some(caps.len() - 1)
            },
        }
    }
}

/// The capability gate admits exactly the manifests whose every declared
/// capability is approved; when it refuses, the named capability is not
/// approved and all before it are.
pub proof fn lemma_gate_admits_only_approved(approved: Seq<String>, caps: Seq<String>)
    ensures
        match first_refused(approved, caps) {
            Some(i) => 0 <= i < caps.len() && !names_contain(approved, caps[i]@)
                && forall|j: int| 0 <= j < i ==> names_contain(approved, (#[trigger] caps[j])@),
            None => forall|j: int| 0 <= j < caps.len() ==> names_contain(approved, (#[trigger] caps[j])@),
        },
    decreases caps.len(),
{
    if caps.len() > 0 {
        lemma_gate_admits_only_approved(approved, caps.drop_last());
        assert forall|j: int| 0 <= j < caps.len() - 1 implies caps.drop_last()[j] == caps[j] by {}
    }
}

/// The capability gate: every capability the manifest declares must be
/// on the allow-list; the first one that is not is named in the error.
pub fn check_capabilities(config: &Config, manifest: &SkillManifest) -> (r: Result<(), SandboxError>)
    ensures
        match first_refused(config.approved_capabilities@, manifest.capabilities@) {
            None => r is Ok,
            Some(i) => r matches Err(SandboxError::CapabilityRefused(s, c))
                && s@ == manifest.name@ && c@ == manifest.capabilities@[i]@,
        },
{
    let caps = &manifest.capabilities;
    let mut i: usize = 0;
    while i < caps.len()
        invariant
            i <= caps.len(),
            caps@ == manifest.capabilities@,
            first_refused(config.approved_capabilities@, caps@.take(i as int)) is None,
        decreases caps.len() - i,
    {
        assert(caps@.take(i + 1).drop_last() == caps@.take(i as int));
        if !config.capability_approved(caps[i].as_str()) {
            proof {
                assert(caps@.take(i + 1).last() == caps@[i as int]);
                assert(first_refused(config.approved_capabilities@, caps@.take(i + 1)) == Some(i as int));
                lemma_first_refused_prefix(config.approved_capabilities@, caps@, i as int + 1);
            }
            return Err(SandboxError::CapabilityRefused(manifest.name.clone(), caps[i].clone()));
        }
        i += 1;
    }
    assert(caps@.take(caps.len() as int) == caps@);
    Ok(())
}

/// Once a prefix of `caps` holds a refused capability, the whole list's
/// first refusal is that one.
proof fn lemma_first_refused_prefix(approved: Seq<String>, caps: Seq<String>, n: int)
    requires
        0 <= n <= caps.len(),
        first_refused(approved, caps.take(n)) is Some,
    ensures
        first_refused(approved, caps) == first_refused(approved, caps.take(n)),
    decreases caps.len() - n,
{
    if n < caps.len() {
        assert(caps.take(n + 1).drop_last() == caps.take(n));
        lemma_first_refused_prefix(approved, caps, n + 1);
    } else {
        assert(caps.take(n) == caps);
    }
}

/// Fuel, memory and wall-clock limits of one call.
#[derive(Clone, Copy, Debug, PartialEq, Eq, Structural)]
pub struct Limits {
    pub fuel: u64,
    pub memory_max: u64,
    pub wall_deadline_ms: u64,
}

pub open spec fn or_default(o: Option<u64>, d: u64) -> u64 {
    match o {
        Some(v) => v,
        None => d,
    }
}

/// The manifest's own limits where it sets them, else the runner defaults.
pub fn resolve_limits(config: &Config, manifest: &SkillManifest) -> (l: Limits)
    ensures
        l.fuel == or_default(manifest.fuel_limit, config.default_fuel_limit),
        l.memory_max == or_default(manifest.memory_max_bytes, config.default_memory_max),
        l.wall_deadline_ms == or_default(manifest.wall_deadline_ms, config.default_wall_deadline_ms),
{
    Limits {
        fuel: match manifest.fuel_limit {
            Some(v) => v,
            None => config.default_fuel_limit,
        },
        memory_max: match manifest.memory_max_bytes {
            Some(v) => v,
            None => config.default_memory_max,
        },
        wall_deadline_ms: match manifest.wall_deadline_ms {
            Some(v) => v,
            None => config.default_wall_deadline_ms,
        },
    }
}

/// Epoch ticks (one per millisecond) until the deadline; never zero.
pub fn epoch_deadline(wall_deadline_ms: u64) -> (t: u64)
    ensures
        t == if wall_deadline_ms >= 1 { wall_deadline_ms } else { 1 },
{
    if wall_deadline_ms >= 1 {
        wall_deadline_ms
    } else {
        1
    }
}

/// Whether some capability asks for outgoing HTTP (`wasi:http...`), so the
/// HTTP host imports are linked.
pub fn wants_http(caps: &Vec<String>) -> (r: bool)
    ensures
        r == exists|i: int| 0 <= i < caps@.len() && "wasi:http"@.is_prefix_of((#[trigger] caps@[i])@),
{
    let mut i: usize = 0;
    while i < caps.len()
        invariant
            i <= caps.len(),
            forall|j: int| 0 <= j < i ==> !"wasi:http"@.is_prefix_of((#[trigger] caps@[j])@),
        decreases caps.len() - i,
    {
        if str_starts_with(caps[i].as_str(), "wasi:http") {
            return true;
        }
        i += 1;
    }
    false
}

/// The tool id handed to the skill: the request's, or the skill's name
/// when the request leaves it empty.
pub fn request_tool_id(req: &ToolCallReq, manifest: &SkillManifest) -> (t: String)
    ensures
        t@ == if req.tool_id@.len() == 0 { manifest.name@ } else { req.tool_id@ },
{
    if req.tool_id.as_str().is_empty() {
        manifest.name.clone()
    } else {
        req.tool_id.clone()
    }
}

/// A field value of a record a skill returns, as far as decoding reads it.
#[derive(Clone, Debug)]
pub enum FieldVal {
    Str(String),
    Bool(bool),
    Other,
}

/// A named field of a returned record.
#[derive(Clone, Debug)]
pub struct RecordField {
    pub name: String,
    pub value: FieldVal,
}

/// The success payload of a skill call.
#[derive(Clone, Debug)]
pub enum Payload {
    Record(Vec<RecordField>),
    NotRecord,
}

/// The error payload of a skill call.
#[derive(Clone, Debug)]
pub enum DomainVal {
    /// A variant case with an optional payload.
    Variant(String, Option<FieldVal>),
    /// Anything else, with its debug rendering.
    Other(String),
}

/// What the skill's `invoke` returned.
#[derive(Clone, Debug)]
pub enum CallOutcome {
    OkSome(Payload),
    OkNone,
    ErrSome(DomainVal),
    ErrNone,
    /// The function returned something other than a result.
    NotResult,
}

/// The last string value among fields named `key`.
pub open spec fn last_str(fields: Seq<RecordField>, key: Seq<char>) -> Option<Seq<char>>
    decreases fields.len(),
{
    if fields.len() == 0 {
        None
    } else {
        let f = fields.last();
        if f.name@ == key && f.value is Str {
            Some(f.value->Str_0@)
        } else {
            last_str(fields.drop_last(), key)
        }
    }
}

/// The last boolean value among fields named `key`.
pub open spec fn last_bool(fields: Seq<RecordField>, key: Seq<char>) -> Option<bool>
    decreases fields.len(),
{
    if fields.len() == 0 {
        None
    } else {
        let f = fields.last();
        if f.name@ == key && f.value is Bool {
            Some(f.value->Bool_0)
        } else {
            last_bool(fields.drop_last(), key)
        }
    }
}

pub open spec fn str_or_empty(o: Option<Seq<char>>) -> Seq<char> {
    match o {
        Some(s) => s,
        None => Seq::empty(),
    }
}

pub open spec fn nonempty_or(s: Seq<char>, d: Seq<char>) -> Seq<char> {
    if s.len() == 0 { d } else { s }
}

/// The text of an internal error about a skill.
pub open spec fn skill_internal(skill: Seq<char>, tail: Seq<char>) -> Seq<char> {
    "skill "@ + skill + tail
}

fn skill_msg(skill: &str, tail: &str) -> (s: String)
    ensures
        s@ == skill_internal(skill@, tail@),
{
    let mut v: Vec<char> = Vec::new();
    push_str(&mut v, "skill ");
    push_str(&mut v, skill);
    push_str(&mut v, tail);
    string_from_chars(v.as_slice())
}

/// Decodes a successful payload: the last `call-id`, `tool-id`,
/// `output-json` strings and `is-error` flag; an empty call id falls back
/// to the expected one, an empty tool id to the skill's name.
pub fn decode_tool_result(skill: &str, expected_call_id: &str, payload: &Payload) -> (r: Result<ToolCallResp, SandboxError>)
    ensures
        match payload {
            Payload::NotRecord => r matches Err(SandboxError::Internal(m))
                && m@ == skill_internal(skill@, " returned non-record success"@),
            Payload::Record(fields) => r matches Ok(resp)
                && resp.call_id@ == nonempty_or(str_or_empty(last_str(fields@, "call-id"@)), expected_call_id@)
                && resp.tool_id@ == nonempty_or(str_or_empty(last_str(fields@, "tool-id"@)), skill@)
                && resp.output_json@ == str_or_empty(last_str(fields@, "output-json"@))
                && resp.is_error == (last_bool(fields@, "is-error"@) == Some(true)),
        },
{
    match payload {
        Payload::NotRecord => Err(SandboxError::Internal(skill_msg(skill, " returned non-record success"))),
        Payload::Record(fields) => {
            let mut call_id = String::new();
            let mut tool_id = String::new();
            let mut output_json = String::new();
            let mut is_error = false;
            let mut i: usize = 0;
            while i < fields.len()
                invariant
                    i <= fields.len(),
                    call_id@ == str_or_empty(last_str(fields@.take(i as int), "call-id"@)),
                    tool_id@ == str_or_empty(last_str(fields@.take(i as int), "tool-id"@)),
                    output_json@ == str_or_empty(last_str(fields@.take(i as int), "output-json"@)),
                    is_error == (last_bool(fields@.take(i as int), "is-error"@) == Some(true)),
                decreases fields.len() - i,
            {
                proof {
                    reveal_strlit("call-id");
                    reveal_strlit("tool-id");
                    reveal_strlit("output-json");
                    assert("call-id"@[0] != "tool-id"@[0]);
                    assert("call-id"@ != "tool-id"@);
                    assert("call-id"@.len() != "output-json"@.len());
                    assert("tool-id"@.len() != "output-json"@.len());
                }
                let f = &fields[i];
                let ghost pre = fields@.take(i as int);
                assert(fields@.take(i + 1).drop_last() == pre);
                assert(fields@.take(i + 1).last() == fields@[i as int]);
                match &f.value {
                    FieldVal::Str(s) => {
                        if crate::text::str_eq(f.name.as_str(), "call-id") {
                            call_id = s.clone();
                        } else if crate::text::str_eq(f.name.as_str(), "tool-id") {
                            tool_id = s.clone();
                        } else if crate::text::str_eq(f.name.as_str(), "output-json") {
                            output_json = s.clone();
                        }
                    },
                    FieldVal::Bool(b) => {
                        if crate::text::str_eq(f.name.as_str(), "is-error") {
                            is_error = *b;
                        }
                    },
                    FieldVal::Other => {},
                }
                i += 1;
            }
            assert(fields@.take(fields.len() as int) == fields@);
            let call_id = if call_id.as_str().is_empty() {
                expected_call_id.to_string()
            } else {
                call_id
            };
            let tool_id = if tool_id.as_str().is_empty() {
                skill.to_string()
            } else {
                tool_id
            };
            Ok(ToolCallResp { call_id, tool_id, output_json, is_error })
        },
    }
}

/// The message of a domain error: the case name, followed by `": "` and the
/// payload string when there is a non-empty one.
pub open spec fn domain_text(err: DomainVal) -> Seq<char> {
    match err {
        DomainVal::Variant(case, payload) => {
            let pl = match payload {
                Some(FieldVal::Str(s)) => s@,
                _ => Seq::empty(),
            };
            if pl.len() == 0 {
                case@
            } else {
                case@ + ": "@ + pl
            }
        },
        DomainVal::Other(d) => d@,
    }
}

/// A domain error returned by a skill becomes a trap of that skill.
pub fn decode_domain_error(skill: &str, err: &DomainVal) -> (e: SandboxError)
    ensures
        e matches SandboxError::Trap(s, m) && s@ == skill@ && m@ == domain_text(*err),
{
    let msg = match err {
        DomainVal::Variant(case, payload) => {
            let pl: String = match payload {
                Some(FieldVal::Str(s)) => s.clone(),
                _ => String::new(),
            };
            if pl.as_str().is_empty() {
                case.clone()
            } else {
                let mut v: Vec<char> = Vec::new();
                push_str(&mut v, case.as_str());
                push_str(&mut v, ": ");
                push_str(&mut v, pl.as_str());
                string_from_chars(v.as_slice())
            }
        },
        DomainVal::Other(d) => d.clone(),
    };
    SandboxError::Trap(skill.to_string(), msg)
}

/// Classifies a failed instantiation by its error text: a missing import
/// means the skill needs a capability that was not linked.
pub fn classify_instantiate_err(skill: &str, msg: &str) -> (e: SandboxError)
    ensures
        if has_infix(msg@, "import"@) && (has_infix(msg@, "not found"@) || has_infix(
            msg@,
            "unsatisfied"@,
        ) || has_infix(msg@, "missing"@)) {
            e matches SandboxError::CapabilityRefused(s, m) && s@ == skill@ && m@ == msg@
        } else {
            e matches SandboxError::Internal(m) && m@ == "instantiate "@ + skill@ + ": "@ + msg@
        },
{
    if str_contains(msg, "import") && (str_contains(msg, "not found") || str_contains(msg, "unsatisfied")
        || str_contains(msg, "missing")) {
        SandboxError::CapabilityRefused(skill.to_string(), msg.to_string())
    } else {
        let mut v: Vec<char> = Vec::new();
        push_str(&mut v, "instantiate ");
        push_str(&mut v, skill);
        push_str(&mut v, ": ");
        push_str(&mut v, msg);
        SandboxError::Internal(string_from_chars(v.as_slice()))
    }
}

/// Classifies a failed call by its error text: an epoch interrupt is a
/// timeout, fuel exhaustion runs out of fuel, a failed memory grow hits the
/// memory cap, anything else is a trap.
pub fn classify_call_err(skill: &str, wall_ms: u64, msg: &str) -> (e: SandboxError)
    ensures
        if has_infix(msg@, "epoch"@) || has_infix(msg@, "interrupt"@) {
            e matches SandboxError::Timeout(s, ms) && s@ == skill@ && ms == wall_ms
        } else if has_infix(msg@, "fuel"@) {
            e matches SandboxError::OutOfFuel(s) && s@ == skill@
        } else if has_infix(msg@, "memory"@) && has_infix(msg@, "grow"@) {
            e matches SandboxError::OutOfMemory(s, b) && s@ == skill@ && b == 0
        } else {
            e matches SandboxError::Trap(s, m) && s@ == skill@ && m@ == msg@
        },
{
    if str_contains(msg, "epoch") || str_contains(msg, "interrupt") {
        SandboxError::Timeout(skill.to_string(), wall_ms)
    } else if str_contains(msg, "fuel") {
        SandboxError::OutOfFuel(skill.to_string())
    } else if str_contains(msg, "memory") && str_contains(msg, "grow") {
        SandboxError::OutOfMemory(skill.to_string(), 0)
    } else {
        SandboxError::Trap(skill.to_string(), msg.to_string())
    }
}

/// Which export lookup failed on an instantiated skill.
#[derive(Clone, Copy, Debug, PartialEq, Eq, Structural)]
pub enum ExportProblem {
    /// The tool-provider interface is not exported.
    NoInterface,
    /// The interface has no `invoke` export.
    NoInvoke,
    /// `invoke` is not a function.
    NotAFunction,
}

pub open spec fn export_problem_tail(p: ExportProblem) -> Seq<char> {
    match p {
        ExportProblem::NoInterface => " does not export mycelium:tool/tool-provider@0.1.0"@,
        ExportProblem::NoInvoke => " exports tool-provider but no invoke func"@,
        ExportProblem::NotAFunction => " invoke export is not a function"@,
    }
}

/// The internal error for a failed export lookup.
pub fn export_error(skill: &str, p: ExportProblem) -> (e: SandboxError)
    ensures
        e matches SandboxError::Internal(m) && m@ == skill_internal(skill@, export_problem_tail(p)),
{
    let m = match p {
        ExportProblem::NoInterface => skill_msg(skill, " does not export mycelium:tool/tool-provider@0.1.0"),
        ExportProblem::NoInvoke => skill_msg(skill, " exports tool-provider but no invoke func"),
        ExportProblem::NotAFunction => skill_msg(skill, " invoke export is not a function"),
    };
    SandboxError::Internal(m)
}

/// Turns what `invoke` returned into the call's answer.
pub fn finish_invoke(skill: &str, call_id: &str, outcome: &CallOutcome) -> (r: Result<ToolCallResp, SandboxError>)
    ensures
        match outcome {
            CallOutcome::OkSome(Payload::Record(fields)) => r matches Ok(resp)
                && resp.call_id@ == nonempty_or(str_or_empty(last_str(fields@, "call-id"@)), call_id@)
                && resp.tool_id@ == nonempty_or(str_or_empty(last_str(fields@, "tool-id"@)), skill@)
                && resp.output_json@ == str_or_empty(last_str(fields@, "output-json"@))
                && resp.is_error == (last_bool(fields@, "is-error"@) == Some(true)),
            CallOutcome::OkSome(Payload::NotRecord) => r matches Err(SandboxError::Internal(m))
                && m@ == skill_internal(skill@, " returned non-record success"@),
            CallOutcome::OkNone => r matches Err(SandboxError::Internal(m))
                && m@ == skill_internal(skill@, " returned ok with no value"@),
            CallOutcome::ErrSome(d) => r matches Err(SandboxError::Trap(s, m))
                && s@ == skill@ && m@ == domain_text(*d),
            CallOutcome::ErrNone => r matches Err(SandboxError::Internal(m))
                && m@ == skill_internal(skill@, " returned err with no payload"@),
            CallOutcome::NotResult => r matches Err(SandboxError::Internal(m))
                && m@ == skill_internal(skill@, " returned non-result value"@),
        },
{
    match outcome {
        CallOutcome::OkSome(p) => decode_tool_result(skill, call_id, p),
        CallOutcome::OkNone => Err(SandboxError::Internal(skill_msg(skill, " returned ok with no value"))),
        CallOutcome::ErrSome(d) => Err(decode_domain_error(skill, d)),
        CallOutcome::ErrNone => Err(SandboxError::Internal(skill_msg(skill, " returned err with no payload"))),
        CallOutcome::NotResult => Err(SandboxError::Internal(skill_msg(skill, " returned non-result value"))),
    }
}

} // verus!
