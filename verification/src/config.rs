//! Runtime configuration of the core pipeline: defaults, environment
//! overrides, and which modules are switched off.

use vstd::prelude::*;
use crate::text::{chars_of, parse_u64, parse_u64_spec, split_chars, split_on, string_from_chars, trim_chars, trimmed};

verus! {

/// Runtime config for the core pipeline.
///
/// Environment always wins over a config file so secrets stay out of the
/// file.
#[derive(Clone, Debug)]
pub struct Config {
    /// `nats://host:port`.
    pub nats_url: String,
    /// Telegram bot token; may be empty in development.
    pub telegram_bot_token: String,
    /// Default agent id; `"auto"` falls back to the first registered agent.
    pub default_agent_id: String,
    /// OpenAI-compatible LLM endpoint.
    pub llm_endpoint: String,
    /// Default model name when an agent names none.
    pub llm_model: String,
    /// LLM API key.
    pub llm_api_key: String,
    /// Requests-per-minute soft cap; 0 disables.
    pub llm_rpm: u64,
    /// Requests-per-day hard cap; 0 disables.
    pub llm_rpd: u64,
    /// HTTP gateway listen address; empty disables the gateway.
    pub gateway_listen: String,
    /// Module names to disable at startup.
    pub disabled_modules: Vec<String>,
}

impl Default for Config {
    fn default() -> (c: Self)
        ensures
            c.nats_url@ == "nats://127.0.0.1:4222"@,
            c.telegram_bot_token@.len() == 0,
            c.default_agent_id@ == "auto"@,
            c.llm_endpoint@ == "https://generativelanguage.googleapis.com/v1beta/openai/chat/completions"@,
            c.llm_model@ == "gemini-2.5-flash-lite"@,
            c.llm_api_key@.len() == 0,
            c.llm_rpm == 10,
            c.llm_rpd == 200,
            c.gateway_listen@.len() == 0,
            c.disabled_modules@.len() == 0,
    {
        Config {
            nats_url: "nats://127.0.0.1:4222".to_string(),
            telegram_bot_token: String::new(),
            default_agent_id: "auto".to_string(),
            llm_endpoint: "https://generativelanguage.googleapis.com/v1beta/openai/chat/completions".to_string(),
            llm_model: "gemini-2.5-flash-lite".to_string(),
            llm_api_key: String::new(),
            llm_rpm: 10,
            llm_rpd: 200,
            gateway_listen: String::new(),
            disabled_modules: Vec::new(),
        }
    }
}

/// Whether some entry of `v` equals `name`.
pub open spec fn names_contain(v: Seq<String>, name: Seq<char>) -> bool {
    exists|i: int| 0 <= i < v.len() && (#[trigger] v[i])@ == name
}

/// Whether any entry of `v` equals `name`.
pub fn any_equals(v: &Vec<String>, name: &str) -> (r: bool)
    ensures
        r == names_contain(v@, name@),
{
    let mut i: usize = 0;
    while i < v.len()
        invariant
            i <= v.len(),
            forall|j: int| 0 <= j < i ==> (#[trigger] v@[j])@ != name@,
        decreases v.len() - i,
    {
        if crate::text::str_eq(v[i].as_str(), name) {
            return true;
        }
        i += 1;
    }
    false
}

impl Config {
    pub fn module_enabled(&self, name: &str) -> (r: bool)
        ensures
            r == !names_contain(self.disabled_modules@, name@),
    {
        !any_equals(&self.disabled_modules, name)
    }
}

/// The non-empty, whitespace-trimmed pieces of a comma-separated list.
pub open spec fn list_items(pieces: Seq<Seq<char>>) -> Seq<Seq<char>>
    decreases pieces.len(),
{
    if pieces.len() == 0 {
        Seq::empty()
    } else {
        let prev = list_items(pieces.drop_last());
        let t = trimmed(pieces.last());
        if t.len() > 0 {
            prev.push(t)
        } else {
            prev
        }
    }
}

pub open spec fn strings_view(v: Seq<String>) -> Seq<Seq<char>> {
    v.map_values(|s: String| s@)
}

/// Splits a comma-separated list, trims each entry and drops empty ones.
pub fn parse_list(s: &str) -> (out: Vec<String>)
    ensures
        strings_view(out@) == list_items(split_on(s@, ',')),
{
    let pieces = split_chars(s, ',');
    let ghost pv = pieces@.map_values(|v: Vec<char>| v@);
    let mut out: Vec<String> = Vec::new();
    let mut i: usize = 0;
    while i < pieces.len()
        invariant
            i <= pieces.len(),
            pv == pieces@.map_values(|v: Vec<char>| v@),
            strings_view(out@) == list_items(pv.take(i as int)),
        decreases pieces.len() - i,
    {
        assert(pv.take(i + 1).drop_last() == pv.take(i as int));
        assert(pv.take(i + 1).last() == pieces@[i as int]@);
        let t = trim_chars(pieces[i].as_slice());
        if t.len() > 0 {
            let ghost prev = out@;
            out.push(string_from_chars(t.as_slice()));
            assert(strings_view(out@) =~= strings_view(prev).push(t@));
        }
        i += 1;
    }
    assert(pv.take(pieces.len() as int) == pv);
    out
}

/// Environment variables that override the config, as read at startup
/// (`None` when unset).
#[derive(Debug)]
pub struct EnvOverrides {
    pub nats_url: Option<String>,
    pub telegram_bot_token: Option<String>,
    pub default_agent_id: Option<String>,
    pub llm_endpoint: Option<String>,
    pub llm_model: Option<String>,
    pub llm_api_key: Option<String>,
    pub llm_rpm: Option<String>,
    pub llm_rpd: Option<String>,
    pub gateway_listen: Option<String>,
    pub disabled_modules: Option<String>,
}

/// A string override: the variable's value when set.
pub open spec fn over_str(cur: Seq<char>, o: Option<String>) -> Seq<char> {
    match o {
        Some(v) => v@,
        None => cur,
    }
}

/// A number override: the parsed value when set and parseable.
pub open spec fn over_num(cur: u64, o: Option<String>) -> u64 {
    match o {
        Some(v) => match parse_u64_spec(v@) {
            Some(n) => n,
            None => cur,
        },
        None => cur,
    }
}

fn set_str(dst: &mut String, o: &Option<String>)
    ensures
        final(dst)@ == over_str(old(dst)@, *o),
{
    match o {
        Some(v) => {
            *dst = v.clone();
        },
        None => {},
    }
}

/// The parsed value of a set variable, or `cur` when unset or unparseable.
pub fn num_or(o: &Option<String>, cur: u64) -> (n: u64)
    ensures
        n == over_num(cur, *o),
{
    match o {
        Some(v) => match parse_u64(v.as_str()) {
            Some(n) => n,
            None => cur,
        },
        None => cur,
    }
}

fn set_num(dst: &mut u64, o: &Option<String>)
    ensures
        *final(dst) == over_num(*old(dst), *o),
{
    match o {
        Some(v) => match parse_u64(v.as_str()) {
            Some(n) => {
                *dst = n;
            },
            None => {},
        },
        None => {},
    }
}

impl Config {
    /// Applies environment overrides; the environment always wins.
    pub fn apply_env(&mut self, env: &EnvOverrides)
        ensures
            final(self).nats_url@ == over_str(old(self).nats_url@, env.nats_url),
            final(self).telegram_bot_token@ == over_str(
                old(self).telegram_bot_token@,
                env.telegram_bot_token,
            ),
            final(self).default_agent_id@ == over_str(
                old(self).default_agent_id@,
                env.default_agent_id,
            ),
            final(self).llm_endpoint@ == over_str(old(self).llm_endpoint@, env.llm_endpoint),
            final(self).llm_model@ == over_str(old(self).llm_model@, env.llm_model),
            final(self).llm_api_key@ == over_str(old(self).llm_api_key@, env.llm_api_key),
            final(self).llm_rpm == over_num(old(self).llm_rpm, env.llm_rpm),
            final(self).llm_rpd == over_num(old(self).llm_rpd, env.llm_rpd),
            final(self).gateway_listen@ == over_str(old(self).gateway_listen@, env.gateway_listen),
            match env.disabled_modules {
                Some(v) => strings_view(final(self).disabled_modules@) == list_items(
                    split_on(v@, ','),
                ),
                None => final(self).disabled_modules == old(self).disabled_modules,
            },
    {
        set_str(&mut self.nats_url, &env.nats_url);
        set_str(&mut self.telegram_bot_token, &env.telegram_bot_token);
        set_str(&mut self.default_agent_id, &env.default_agent_id);
        set_str(&mut self.llm_endpoint, &env.llm_endpoint);
        set_str(&mut self.llm_model, &env.llm_model);
        set_str(&mut self.llm_api_key, &env.llm_api_key);
        set_num(&mut self.llm_rpm, &env.llm_rpm);
        set_num(&mut self.llm_rpd, &env.llm_rpd);
        set_str(&mut self.gateway_listen, &env.gateway_listen);
        match &env.disabled_modules {
            Some(v) => {
                self.disabled_modules = parse_list(v.as_str());
            },
            None => {},
        }
    }
}

/// The modules of the core process, in the order they are started.
pub open spec fn module_names() -> Seq<Seq<char>> {
    seq![
        "events"@,
        "telegram_poller"@,
        "channel_router"@,
        "session_sweeper"@,
        "executor"@,
        "agent"@,
        "telegram_out"@,
        "gateway"@,
    ]
}

/// The modules of `names` that are not disabled, in order.
pub open spec fn enabled_of(names: Seq<Seq<char>>, disabled: Seq<String>) -> Seq<Seq<char>>
    decreases names.len(),
{
    if names.len() == 0 {
        Seq::empty()
    } else {
        let prev = enabled_of(names.drop_last(), disabled);
        if names_contain(disabled, names.last()) {
            prev
        } else {
            prev.push(names.last())
        }
    }
}

/// The modules to start under this config, in start order.
pub fn enabled_modules(c: &Config) -> (out: Vec<&'static str>)
    ensures
        out@.map_values(|n: &str| n@) == enabled_of(module_names(), c.disabled_modules@),
{
    let all: [&'static str; 8] = [
        "events",
        "telegram_poller",
        "channel_router",
        "session_sweeper",
        "executor",
        "agent",
        "telegram_out",
        "gateway",
    ];
    let ghost names = all@.map_values(|n: &str| n@);
    assert(names =~= module_names());
    let mut out: Vec<&'static str> = Vec::new();
    let mut i: usize = 0;
    while i < 8
        invariant
            i <= 8,
            all@.len() == 8,
            names == all@.map_values(|n: &str| n@),
            out@.map_values(|n: &str| n@) == enabled_of(names.take(i as int), c.disabled_modules@),
        decreases 8 - i,
    {
        assert(names.take(i + 1).drop_last() =~= names.take(i as int));
        assert(names.take(i + 1).last() == all@[i as int]@);
        if c.module_enabled(all[i]) {
            let ghost prev = out@;
            out.push(all[i]);
            assert(out@.map_values(|n: &str| n@) =~= prev.map_values(|n: &str| n@).push(all@[i as int]@));
        }
        i += 1;
    }
    assert(names.take(8) =~= names);
    out
}

} // verus!
