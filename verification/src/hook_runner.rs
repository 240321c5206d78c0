//! Hook runner policy. Hooks are sandboxed components that see a lifecycle
//! event and its JSON payload and answer with a (possibly rewritten)
//! payload; whatever goes wrong, the original payload passes through.

use vstd::prelude::*;
use crate::config::{any_equals, list_items, names_contain, num_or, over_num, over_str, parse_list, strings_view};
use crate::text::{decimal, decimal_chars, has_infix, push_all, push_str, split_on, str_contains, string_from_chars};
use crate::tool_runner::{first_refused, Limits, SkillManifest};

verus! {

/// A hook's manifest has the same shape as a skill's.
pub type HookManifest = SkillManifest;

/// Hook runner configuration.
#[derive(Clone, Debug)]
pub struct Config {
    pub nats_url: String,
    pub hook_cache_dir: String,
    pub approved_capabilities: Vec<String>,
    pub default_fuel_limit: u64,
    pub default_memory_max: u64,
    pub default_wall_deadline_ms: u64,
}

impl Default for Config {
    fn default() -> (c: Self)
        ensures
            c.nats_url@ == "nats://127.0.0.1:4222"@,
            c.hook_cache_dir@ == "/var/lib/mycelium/hook-cache"@,
            strings_view(c.approved_capabilities@) == seq![
                "wasi:clocks/wall-clock"@,
                "wasi:logging/logging"@,
            ],
            c.default_fuel_limit == 200_000_000,
            c.default_memory_max == 8 * 1024 * 1024,
            c.default_wall_deadline_ms == 1_500,
    {
        let mut caps: Vec<String> = Vec::new();
        caps.push("wasi:clocks/wall-clock".to_string());
        caps.push("wasi:logging/logging".to_string());
        let c = Config {
            nats_url: "nats://127.0.0.1:4222".to_string(),
            hook_cache_dir: "/var/lib/mycelium/hook-cache".to_string(),
            approved_capabilities: caps,
            default_fuel_limit: 200_000_000,
            default_memory_max: 8 * 1024 * 1024,
            default_wall_deadline_ms: 1_500,
        };
        assert(strings_view(c.approved_capabilities@) =~= seq![
            "wasi:clocks/wall-clock"@,
            "wasi:logging/logging"@,
        ]);
        c
    }
}

/// Environment variables that override the hook runner config.
#[derive(Debug)]
pub struct EnvOverrides {
    pub nats_url: Option<String>,
    pub hook_cache_dir: Option<String>,
    pub approved_caps: Option<String>,
    pub default_fuel: Option<String>,
    pub default_memory_max: Option<String>,
    pub default_wall_deadline_ms: Option<String>,
}

impl Config {
    /// Whether `cap` is on the operator allow-list (exact match).
    pub fn capability_approved(&self, cap: &str) -> (r: bool)
        ensures
            r == names_contain(self.approved_capabilities@, cap@),
    {
        any_equals(&self.approved_capabilities, cap)
    }

    /// Applies environment overrides; a number that does not parse keeps
    /// the current value.
    pub fn apply_env(&mut self, env: &EnvOverrides)
        ensures
            final(self).nats_url@ == over_str(old(self).nats_url@, env.nats_url),
            final(self).hook_cache_dir@ == over_str(old(self).hook_cache_dir@, env.hook_cache_dir),
            match env.approved_caps {
                Some(v) => strings_view(final(self).approved_capabilities@) == list_items(
                    split_on(v@, ','),
                ),
                None => final(self).approved_capabilities == old(self).approved_capabilities,
            },
            final(self).default_fuel_limit == over_num(old(self).default_fuel_limit, env.default_fuel),
            final(self).default_memory_max == over_num(
                old(self).default_memory_max,
                env.default_memory_max,
            ),
            final(self).default_wall_deadline_ms == over_num(
                old(self).default_wall_deadline_ms,
                env.default_wall_deadline_ms,
            ),
    {
        if let Some(v) = &env.nats_url {
            self.nats_url = v.clone();
        }
        if let Some(v) = &env.hook_cache_dir {
            self.hook_cache_dir = v.clone();
        }
        if let Some(v) = &env.approved_caps {
            self.approved_capabilities = parse_list(v.as_str());
        }
        self.default_fuel_limit = num_or(&env.default_fuel, self.default_fuel_limit);
        self.default_memory_max = num_or(&env.default_memory_max, self.default_memory_max);
        self.default_wall_deadline_ms = num_or(&env.default_wall_deadline_ms, self.default_wall_deadline_ms);
    }
}

/// Why a hook invocation failed.
#[derive(Debug)]
pub enum SandboxError {
    CapabilityRefused(String, String),
    Timeout(String, u64),
    OutOfFuel(String),
    Trap(String, String),
    /// The hook itself answered with an error string.
    HookErr(String, String),
    Internal(String),
}

/// The text shown for each error.
pub open spec fn hook_error_text(e: SandboxError) -> Seq<char> {
    match e {
        SandboxError::CapabilityRefused(h, c) => "hook "@ + h@ + " requested capability "@ + c@
            + " which is not in the operator allow-list"@,
        SandboxError::Timeout(h, ms) => "hook "@ + h@ + " exceeded wall-clock deadline ("@
            + decimal(ms as nat) + " ms)"@,
        SandboxError::OutOfFuel(h) => "hook "@ + h@ + " ran out of fuel"@,
        SandboxError::Trap(h, m) => "hook "@ + h@ + " trapped: "@ + m@,
        SandboxError::HookErr(h, m) => "hook component "@ + h@ + " returned an error: "@ + m@,
        SandboxError::Internal(m) => "sandbox internal error: "@ + m@,
    }
}

impl SandboxError {
    /// Human-readable description of the error.
    pub fn message(&self) -> (s: String)
        ensures
            s@ == hook_error_text(*self),
    {
        let mut v: Vec<char> = Vec::new();
        match self {
            SandboxError::CapabilityRefused(h, c) => {
                push_str(&mut v, "hook ");
                push_str(&mut v, h.as_str());
                push_str(&mut v, " requested capability ");
                push_str(&mut v, c.as_str());
                push_str(&mut v, " which is not in the operator allow-list");
            },
            SandboxError::Timeout(h, ms) => {
                push_str(&mut v, "hook ");
                push_str(&mut v, h.as_str());
                push_str(&mut v, " exceeded wall-clock deadline (");
                let d = decimal_chars(*ms);
                push_all(&mut v, d.as_slice());
                push_str(&mut v, " ms)");
            },
            SandboxError::OutOfFuel(h) => {
                push_str(&mut v, "hook ");
                push_str(&mut v, h.as_str());
                push_str(&mut v, " ran out of fuel");
            },
            SandboxError::Trap(h, m) => {
                push_str(&mut v, "hook ");
                push_str(&mut v, h.as_str());
                push_str(&mut v, " trapped: ");
                push_str(&mut v, m.as_str());
            },
            SandboxError::HookErr(h, m) => {
                push_str(&mut v, "hook component ");
                push_str(&mut v, h.as_str());
                push_str(&mut v, " returned an error: ");
                push_str(&mut v, m.as_str());
            },
            SandboxError::Internal(m) => {
                push_str(&mut v, "sandbox internal error: ");
                push_str(&mut v, m.as_str());
            },
        }
        string_from_chars(v.as_slice())
    }
}

/// Once a prefix of `caps` holds a refused capability, the whole list's
/// first refusal is that one.
proof fn lemma_refused_prefix(approved: Seq<String>, caps: Seq<String>, n: int)
    requires
        0 <= n <= caps.len(),
        first_refused(approved, caps.take(n)) is Some,
    ensures
        first_refused(approved, caps) == first_refused(approved, caps.take(n)),
    decreases caps.len() - n,
{
    if n < caps.len() {
        assert(caps.take(n + 1).drop_last() == caps.take(n));
        lemma_refused_prefix(approved, caps, n + 1);
    } else {
        assert(caps.take(n) == caps);
    }
}

/// The capability gate for a hook: the first capability not on the
/// allow-list is named in the error.
pub fn check_capabilities(config: &Config, manifest: &HookManifest) -> (r: Result<(), SandboxError>)
    ensures
        match first_refused(config.approved_capabilities@, manifest.capabilities@) {
            None => r is Ok,
            Some(i) => r matches Err(SandboxError::CapabilityRefused(h, c))
                && h@ == manifest.name@ && c@ == manifest.capabilities@[i]@,
        },
{
    let mut i: usize = 0;
    while i < manifest.capabilities.len()
        invariant
            i <= manifest.capabilities.len(),
            first_refused(config.approved_capabilities@, manifest.capabilities@.take(i as int)) is None,
        decreases manifest.capabilities.len() - i,
    {
        let ghost caps = manifest.capabilities@;
        assert(caps.take(i + 1).drop_last() == caps.take(i as int));
        if !config.capability_approved(manifest.capabilities[i].as_str()) {
            proof {
                assert(caps.take(i + 1).last() == caps[i as int]);
                assert(first_refused(config.approved_capabilities@, caps.take(i + 1)) == Some(i as int));
                lemma_refused_prefix(config.approved_capabilities@, caps, i as int + 1);
            }
            return Err(SandboxError::CapabilityRefused(manifest.name.clone(), manifest.capabilities[i].clone()));
        }
        i += 1;
    }
    assert(manifest.capabilities@.take(manifest.capabilities.len() as int) == manifest.capabilities@);
    Ok(())
}

/// The hook's own limits where its manifest sets them, else the defaults.
pub fn resolve_limits(config: &Config, manifest: &HookManifest) -> (l: Limits)
    ensures
        l.fuel == crate::tool_runner::or_default(manifest.fuel_limit, config.default_fuel_limit),
        l.memory_max == crate::tool_runner::or_default(manifest.memory_max_bytes, config.default_memory_max),
        l.wall_deadline_ms == crate::tool_runner::or_default(
            manifest.wall_deadline_ms,
            config.default_wall_deadline_ms,
        ),
{
    Limits {
        fuel: match manifest.fuel_limit {
            Some(v) => v,
            None => config.default_fuel_limit,
        },
        memory_max: match manifest.memory_max_bytes {
            Some(v) => v,
            None => config.default_memory_max,
        },
        wall_deadline_ms: match manifest.wall_deadline_ms {
            Some(v) => v,
            None => config.default_wall_deadline_ms,
        },
    }
}

/// Classifies a failed instantiation by its error text.
pub fn classify_instantiate_err(hook: &str, msg: &str) -> (e: SandboxError)
    ensures
        if has_infix(msg@, "import"@) && (has_infix(msg@, "not found"@) || has_infix(
            msg@,
            "unsatisfied"@,
        ) || has_infix(msg@, "missing"@)) {
            e matches SandboxError::CapabilityRefused(h, m) && h@ == hook@ && m@ == msg@
        } else {
            e matches SandboxError::Internal(m) && m@ == "instantiate "@ + hook@ + ": "@ + msg@
        },
{
    if str_contains(msg, "import") && (str_contains(msg, "not found") || str_contains(msg, "unsatisfied")
        || str_contains(msg, "missing")) {
        SandboxError::CapabilityRefused(hook.to_string(), msg.to_string())
    } else {
        let mut v: Vec<char> = Vec::new();
        push_str(&mut v, "instantiate ");
        push_str(&mut v, hook);
        push_str(&mut v, ": ");
        push_str(&mut v, msg);
        SandboxError::Internal(string_from_chars(v.as_slice()))
    }
}

/// Classifies a failed call by its error text: an epoch interrupt is a
/// timeout, fuel exhaustion runs out of fuel, anything else is a trap.
pub fn classify_call_err(hook: &str, wall_ms: u64, msg: &str) -> (e: SandboxError)
    ensures
        if has_infix(msg@, "epoch"@) || has_infix(msg@, "interrupt"@) {
            e matches SandboxError::Timeout(h, ms) && h@ == hook@ && ms == wall_ms
        } else if has_infix(msg@, "fuel"@) {
            e matches SandboxError::OutOfFuel(h) && h@ == hook@
        } else {
            e matches SandboxError::Trap(h, m) && h@ == hook@ && m@ == msg@
        },
{
    if str_contains(msg, "epoch") || str_contains(msg, "interrupt") {
        SandboxError::Timeout(hook.to_string(), wall_ms)
    } else if str_contains(msg, "fuel") {
        SandboxError::OutOfFuel(hook.to_string())
    } else {
        SandboxError::Trap(hook.to_string(), msg.to_string())
    }
}

/// A value a hook hands back inside its result.
#[derive(Clone, Debug)]
pub enum HookVal {
    Str(String),
    Other,
}

/// What a hook's `handle` returned.
#[derive(Clone, Debug)]
pub enum HookOutcome {
    OkSome(HookVal),
    OkNone,
    ErrSome(HookVal),
    ErrNone,
    NotResult,
}

pub open spec fn hook_internal(hook: Seq<char>, tail: Seq<char>) -> Seq<char> {
    "hook "@ + hook + tail
}

fn hook_msg(hook: &str, tail: &str) -> (s: String)
    ensures
        s@ == hook_internal(hook@, tail@),
{
    let mut v: Vec<char> = Vec::new();
    push_str(&mut v, "hook ");
    push_str(&mut v, hook);
    push_str(&mut v, tail);
    string_from_chars(v.as_slice())
}

/// Which export lookup failed on an instantiated hook.
#[derive(Clone, Copy, Debug, PartialEq, Eq, Structural)]
pub enum ExportProblem {
    NoInterface,
    NoHandle,
    NotAFunction,
}

pub open spec fn export_problem_tail(p: ExportProblem) -> Seq<char> {
    match p {
        ExportProblem::NoInterface => " does not export mycelium:hook/hook-provider@0.1.0"@,
        ExportProblem::NoHandle => " exports hook-provider but no handle func"@,
        ExportProblem::NotAFunction => " handle export is not a function"@,
    }
}

/// The internal error for a failed export lookup.
pub fn export_error(hook: &str, p: ExportProblem) -> (e: SandboxError)
    ensures
        e matches SandboxError::Internal(m) && m@ == hook_internal(hook@, export_problem_tail(p)),
{
    let m = match p {
        ExportProblem::NoInterface => hook_msg(hook, " does not export mycelium:hook/hook-provider@0.1.0"),
        ExportProblem::NoHandle => hook_msg(hook, " exports hook-provider but no handle func"),
        ExportProblem::NotAFunction => hook_msg(hook, " handle export is not a function"),
    };
    SandboxError::Internal(m)
}

/// Turns what `handle` returned into the hook's answer: an ok string is
/// the new payload, an error string is the hook's own error.
pub fn finish_hook(hook: &str, outcome: &HookOutcome) -> (r: Result<String, SandboxError>)
    ensures
        match outcome {
            HookOutcome::OkSome(HookVal::Str(s)) => r matches Ok(p) && p@ == s@,
            HookOutcome::OkSome(HookVal::Other) => r matches Err(SandboxError::Internal(m))
                && m@ == hook_internal(hook@, " ok-branch not a string"@),
            HookOutcome::OkNone => r matches Err(SandboxError::Internal(m))
                && m@ == hook_internal(hook@, " returned ok with no value"@),
            HookOutcome::ErrSome(HookVal::Str(s)) => r matches Err(SandboxError::HookErr(h, m))
                && h@ == hook@ && m@ == s@,
            HookOutcome::ErrSome(HookVal::Other) => r matches Err(SandboxError::Internal(m))
                && m@ == hook_internal(hook@, " err-branch not a string"@),
            HookOutcome::ErrNone => r matches Err(SandboxError::Internal(m))
                && m@ == hook_internal(hook@, " returned err with no payload"@),
            HookOutcome::NotResult => r matches Err(SandboxError::Internal(m))
                && m@ == hook_internal(hook@, " returned non-result value"@),
        },
{
    match outcome {
        HookOutcome::OkSome(HookVal::Str(s)) => Ok(s.clone()),
        HookOutcome::OkSome(HookVal::Other) => Err(SandboxError::Internal(hook_msg(hook, " ok-branch not a string"))),
        HookOutcome::OkNone => Err(SandboxError::Internal(hook_msg(hook, " returned ok with no value"))),
        HookOutcome::ErrSome(HookVal::Str(s)) => Err(SandboxError::HookErr(hook.to_string(), s.clone())),
        HookOutcome::ErrSome(HookVal::Other) => Err(SandboxError::Internal(hook_msg(hook, " err-branch not a string"))),
        HookOutcome::ErrNone => Err(SandboxError::Internal(hook_msg(hook, " returned err with no payload"))),
        HookOutcome::NotResult => Err(SandboxError::Internal(hook_msg(hook, " returned non-result value"))),
    }
}

/// The event name of a hook subject `mycelium.hook.<event>`; `None` for
/// other subjects and an empty event.
pub fn hook_event_name(subject: &str) -> (r: Option<String>)
    ensures
        match r {
            Some(e) => subject@ == "mycelium.hook."@ + e@ && e@.len() > 0,
            None => !("mycelium.hook."@.is_prefix_of(subject@)) || subject@ == "mycelium.hook."@,
        },
{
    let s = crate::text::chars_of(subject);
    let p = crate::text::chars_of("mycelium.hook.");
    if !crate::text::starts_with_chars(s.as_slice(), p.as_slice()) {
        return None;
    }
    let rest = crate::text::slice_from(s.as_slice(), p.len());
    if rest.len() == 0 {
        assert(s@ == p@);
        return None;
    }
    assert(s@ == p@ + rest@);
    Some(string_from_chars(rest.as_slice()))
}

/// The payload text of a hook request: the body when it is UTF-8, else
/// `{}`.
pub fn payload_text(body: &[u8]) -> (s: String)
    ensures
        s@ == if vstd::utf8::valid_utf8(body@) { vstd::utf8::decode_utf8(body@) } else { "{}"@ },
{
    match crate::text::utf8_text(body) {
        Some(t) => t,
        None => "{}".to_string(),
    }
}

/// What the hook stage produced for one event.
#[derive(Debug)]
pub enum HookStage {
    /// No hook is registered for the event.
    NoHook,
    /// Looking the hook up, loading it or running it failed.
    Failed(String),
    /// The hook answered with this payload.
    Answered(String),
}

/// The reply to a hook request: the hook's answer, or the original payload
/// unchanged when there is no hook or anything failed.
pub fn hook_reply(stage: HookStage, payload: String) -> (r: String)
    ensures
        r@ == match stage {
            HookStage::Answered(out) => out@,
            _ => payload@,
        },
{
    match stage {
        HookStage::Answered(out) => out,
        _ => payload,
    }
}

} // verus!
