//! LLM quota accounting for display: the per-minute and per-day request
//! counters are summed from the rate-limit store and rendered for chat,
//! reply footers and the bot's status line.

use vstd::prelude::*;
use crate::text::{decimal, decimal_chars, decimal_string, has_infix, parse_u64, parse_u64_spec, push_all, push_str, str_contains, string_from_chars};

verus! {

/// The value of a stored counter: its decimal text, 0 when it is not UTF-8
/// or not a number.
pub open spec fn counter_value(bytes: Seq<u8>) -> nat {
    if vstd::utf8::valid_utf8(bytes) {
        match parse_u64_spec(vstd::utf8::decode_utf8(bytes)) {
            Some(n) => n as nat,
            None => 0,
        }
    } else {
        0
    }
}

pub fn read_counter(bytes: &[u8]) -> (n: u64)
    ensures
        n as nat == counter_value(bytes@),
{
    match crate::text::utf8_text(bytes) {
        Some(s) => match parse_u64(s.as_str()) {
            Some(n) => n,
            None => 0,
        },
        None => 0,
    }
}

/// Key fragment of the counters of one minute.
pub open spec fn minute_tag(minute: u64) -> Seq<char> {
    "/min/"@ + decimal(minute as nat)
}

/// Key fragment of the counters of one day.
pub open spec fn day_tag(day: u64) -> Seq<char> {
    "/day/"@ + decimal(day as nat)
}

/// A stored counter: its key and, if it could be read, its bytes.
#[derive(Clone, Debug)]
pub struct CounterEntry {
    pub key: String,
    pub value: Option<Vec<u8>>,
}

pub open spec fn entry_count(e: CounterEntry) -> nat {
    match e.value {
        Some(b) => counter_value(b@),
        None => 0,
    }
}

/// Requests counted for the given minute and day: every counter whose key
/// names that minute (resp. day) adds its value.
pub open spec fn usage(es: Seq<CounterEntry>, minute: u64, day: u64) -> (nat, nat)
    decreases es.len(),
{
    if es.len() == 0 {
        (0, 0)
    } else {
        let prev = usage(es.drop_last(), minute, day);
        let e = es.last();
        let n = entry_count(e);
        (
            prev.0 + if has_infix(e.key@, minute_tag(minute)) { n } else { 0 },
            prev.1 + if has_infix(e.key@, day_tag(day)) { n } else { 0 },
        )
    }
}

proof fn lemma_usage_prefix(es: Seq<CounterEntry>, minute: u64, day: u64, i: int)
    requires
        0 <= i <= es.len(),
    ensures
        usage(es.take(i), minute, day).0 <= usage(es, minute, day).0,
        usage(es.take(i), minute, day).1 <= usage(es, minute, day).1,
    decreases es.len() - i,
{
    if i < es.len() {
        lemma_usage_prefix(es, minute, day, i + 1);
        assert(es.take(i + 1).drop_last() == es.take(i));
    } else {
        assert(es.take(i) == es);
    }
}

fn tag_string(head: &str, n: u64) -> (s: String)
    ensures
        s@ == head@ + decimal(n as nat),
{
    let mut v: Vec<char> = Vec::new();
    push_str(&mut v, head);
    let d = decimal_chars(n);
    push_all(&mut v, d.as_slice());
    string_from_chars(v.as_slice())
}

/// Sums the minute and day counters.
pub fn sum_usage(entries: &Vec<CounterEntry>, minute: u64, day: u64) -> (r: (u64, u64))
    requires
        usage(entries@, minute, day).0 <= u64::MAX,
        usage(entries@, minute, day).1 <= u64::MAX,
    ensures
        r.0 as nat == usage(entries@, minute, day).0,
        r.1 as nat == usage(entries@, minute, day).1,
{
    let min_tag = tag_string("/min/", minute);
    let day_tag_s = tag_string("/day/", day);
    let mut rpm: u64 = 0;
    let mut rpd: u64 = 0;
    let mut i: usize = 0;
    while i < entries.len()
        invariant
            i <= entries.len(),
            min_tag@ == minute_tag(minute),
            day_tag_s@ == day_tag(day),
            usage(entries@, minute, day).0 <= u64::MAX,
            usage(entries@, minute, day).1 <= u64::MAX,
            rpm as nat == usage(entries@.take(i as int), minute, day).0,
            rpd as nat == usage(entries@.take(i as int), minute, day).1,
        decreases entries.len() - i,
    {
        assert(entries@.take(i + 1).drop_last() == entries@.take(i as int));
        assert(entries@.take(i + 1).last() == entries@[i as int]);
        proof {
            lemma_usage_prefix(entries@, minute, day, i + 1);
        }
        let e = &entries[i];
        let n: u64 = match &e.value {
            Some(b) => read_counter(b.as_slice()),
            None => 0,
        };
        if str_contains(e.key.as_str(), min_tag.as_str()) {
            rpm = rpm + n;
        }
        if str_contains(e.key.as_str(), day_tag_s.as_str()) {
            rpd = rpd + n;
        }
        i += 1;
    }
    assert(entries@.take(entries.len() as int) == entries@);
    (rpm, rpd)
}

/// Sums the minute and day counters; `None` when a sum does not fit in
/// 64 bits.
pub fn usage_checked(entries: &Vec<CounterEntry>, minute: u64, day: u64) -> (r: Option<(u64, u64)>)
    ensures
        match r {
            Some((a, b)) => a as nat == usage(entries@, minute, day).0 && b as nat == usage(entries@, minute, day).1,
            None => usage(entries@, minute, day).0 > u64::MAX || usage(entries@, minute, day).1 > u64::MAX,
        },
{
    let min_tag = tag_string("/min/", minute);
    let day_tag_s = tag_string("/day/", day);
    let mut rpm: u64 = 0;
    let mut rpd: u64 = 0;
    let mut i: usize = 0;
    while i < entries.len()
        invariant
            i <= entries.len(),
            min_tag@ == minute_tag(minute),
            day_tag_s@ == day_tag(day),
            rpm as nat == usage(entries@.take(i as int), minute, day).0,
            rpd as nat == usage(entries@.take(i as int), minute, day).1,
        decreases entries.len() - i,
    {
        assert(entries@.take(i + 1).drop_last() == entries@.take(i as int));
        assert(entries@.take(i + 1).last() == entries@[i as int]);
        proof {
            lemma_usage_prefix(entries@, minute, day, i + 1);
        }
        let e = &entries[i];
        let n: u64 = match &e.value {
            Some(b) => read_counter(b.as_slice()),
            None => 0,
        };
        if str_contains(e.key.as_str(), min_tag.as_str()) {
            match rpm.checked_add(n) {
                Some(x) => rpm = x,
                None => return None,
            }
        }
        if str_contains(e.key.as_str(), day_tag_s.as_str()) {
            match rpd.checked_add(n) {
                Some(x) => rpd = x,
                None => return None,
            }
        }
        i += 1;
    }
    assert(entries@.take(entries.len() as int) == entries@);
    Some((rpm, rpd))
}

/// Minute and day numbers of a Unix time.
pub fn minute_and_day(now: u64) -> (r: (u64, u64))
    ensures
        r.0 == now / 60,
        r.1 == now / 86_400,
{
    (now / 60, now / 86_400)
}

/// The quota line under a reply: `_RPM a/b • RPD c/d_`.
pub open spec fn footer_line(rpm_used: nat, rpm_cap: nat, rpd_used: nat, rpd_cap: nat) -> Seq<char> {
    "_RPM "@ + decimal(rpm_used) + "/"@ + decimal(rpm_cap) + " • RPD "@ + decimal(rpd_used) + "/"@ + decimal(rpd_cap)
        + "_"@
}

pub fn quota_footer(rpm_used: u64, rpm_cap: u64, rpd_used: u64, rpd_cap: u64) -> (s: String)
    ensures
        s@ == footer_line(rpm_used as nat, rpm_cap as nat, rpd_used as nat, rpd_cap as nat),
{
    let mut v: Vec<char> = Vec::new();
    push_str(&mut v, "_RPM ");
    push_all(&mut v, decimal_chars(rpm_used).as_slice());
    push_str(&mut v, "/");
    push_all(&mut v, decimal_chars(rpm_cap).as_slice());
    push_str(&mut v, " • RPD ");
    push_all(&mut v, decimal_chars(rpd_used).as_slice());
    push_str(&mut v, "/");
    push_all(&mut v, decimal_chars(rpd_cap).as_slice());
    push_str(&mut v, "_");
    string_from_chars(v.as_slice())
}

/// The `/quota` answer in chat.
pub open spec fn chat_quota(rpm_used: nat, rpm_cap: nat, rpd_used: nat, rpd_cap: nat) -> Seq<char> {
    "quota:\n  RPM "@ + decimal(rpm_used) + "/"@ + decimal(rpm_cap) + "\n  RPD "@ + decimal(rpd_used) + "/"@ + decimal(
        rpd_cap,
    )
}

pub fn format_quota(rpm_used: u64, rpm_cap: u64, rpd_used: u64, rpd_cap: u64) -> (s: String)
    ensures
        s@ == chat_quota(rpm_used as nat, rpm_cap as nat, rpd_used as nat, rpd_cap as nat),
{
    let mut v: Vec<char> = Vec::new();
    push_str(&mut v, "quota:\n  RPM ");
    push_all(&mut v, decimal_chars(rpm_used).as_slice());
    push_str(&mut v, "/");
    push_all(&mut v, decimal_chars(rpm_cap).as_slice());
    push_str(&mut v, "\n  RPD ");
    push_all(&mut v, decimal_chars(rpd_used).as_slice());
    push_str(&mut v, "/");
    push_all(&mut v, decimal_chars(rpd_cap).as_slice());
    string_from_chars(v.as_slice())
}

/// The bot's short description showing the quota.
pub open spec fn status_line(rpm_used: nat, rpm_cap: nat, rpd_used: nat, rpd_cap: nat) -> Seq<char> {
    "today: "@ + decimal(rpd_used) + "/"@ + decimal(rpd_cap) + " calls • now: "@ + decimal(rpm_used) + "/"@ + decimal(
        rpm_cap,
    ) + " this minute"@
}

pub fn bot_status_text(rpm_used: u64, rpm_cap: u64, rpd_used: u64, rpd_cap: u64) -> (s: String)
    ensures
        s@ == status_line(rpm_used as nat, rpm_cap as nat, rpd_used as nat, rpd_cap as nat),
{
    let mut v: Vec<char> = Vec::new();
    push_str(&mut v, "today: ");
    push_all(&mut v, decimal_chars(rpd_used).as_slice());
    push_str(&mut v, "/");
    push_all(&mut v, decimal_chars(rpd_cap).as_slice());
    push_str(&mut v, " calls • now: ");
    push_all(&mut v, decimal_chars(rpm_used).as_slice());
    push_str(&mut v, "/");
    push_all(&mut v, decimal_chars(rpm_cap).as_slice());
    push_str(&mut v, " this minute");
    string_from_chars(v.as_slice())
}

/// Minimum seconds between two status updates (the Bot API allows about
/// one per minute).
pub const STATUS_INTERVAL_SECS: u64 = 65;

/// Whether the status line may be updated at `now`, given the time of the
/// last update (0 when none is recorded).
pub fn status_update_due(now: u64, last: u64) -> (r: bool)
    requires
        last + STATUS_INTERVAL_SECS <= u64::MAX,
    ensures
        r == (now >= last + STATUS_INTERVAL_SECS),
{
    !(now < last + STATUS_INTERVAL_SECS)
}

/// The cap configured for a window: the parsed setting, else the default.
pub fn cap_setting(setting: &Option<String>, default: u64) -> (c: u64)
    ensures
        c == crate::config::over_num(default, *setting),
{
    crate::config::num_or(setting, default)
}

/// A registered skill as listed in chat: its key and description (empty
/// when it has none).
#[derive(Clone, Debug)]
pub struct ToolEntry {
    pub key: String,
    pub description: String,
}

pub open spec fn tool_line(e: ToolEntry) -> Seq<char> {
    if e.description@.len() == 0 {
        "- "@ + e.key@ + "\n"@
    } else {
        "- "@ + e.key@ + " — "@ + e.description@ + "\n"@
    }
}

pub open spec fn tool_lines(es: Seq<ToolEntry>) -> Seq<char>
    decreases es.len(),
{
    if es.len() == 0 {
        Seq::empty()
    } else {
        tool_lines(es.drop_last()) + tool_line(es.last())
    }
}

/// The `/tools` answer: one line per registered skill, or a note that
/// there are none.
pub fn tools_listing(entries: &Vec<ToolEntry>) -> (s: String)
    ensures
        s@ == if entries@.len() == 0 {
            "no skills registered."@
        } else {
            "registered skills:\n"@ + tool_lines(entries@)
        },
{
    if entries.len() == 0 {
        return "no skills registered.".to_string();
    }
    let mut v: Vec<char> = Vec::new();
    push_str(&mut v, "registered skills:\n");
    let mut i: usize = 0;
    while i < entries.len()
        invariant
            i <= entries.len(),
            v@ == "registered skills:\n"@ + tool_lines(entries@.take(i as int)),
        decreases entries.len() - i,
    {
        assert(entries@.take(i + 1).drop_last() == entries@.take(i as int));
        assert(entries@.take(i + 1).last() == entries@[i as int]);
        let e = &entries[i];
        push_str(&mut v, "- ");
        push_str(&mut v, e.key.as_str());
        if !e.description.as_str().is_empty() {
            push_str(&mut v, " — ");
            push_str(&mut v, e.description.as_str());
        }
        push_str(&mut v, "\n");
        i += 1;
    }
    assert(entries@.take(entries.len() as int) == entries@);
    string_from_chars(v.as_slice())
}

/// The description shown for a registered skill: the string `description`
/// of its stored spec, empty when the spec is missing, not JSON, or has
/// no such string.
pub open spec fn description_of(spec: Option<crate::json::Json>) -> Seq<char> {
    match spec {
        Some(j) => match crate::json::str_of(crate::json::field(j, "description"@)) {
            Some(d) => d,
            None => Seq::empty(),
        },
        None => Seq::empty(),
    }
}

/// The `/tools` entry of a skill from its key and parsed stored spec.
pub fn tool_entry_of(key: String, spec: &Option<crate::json::Json>) -> (e: ToolEntry)
    ensures
        e.key == key,
        e.description@ == description_of(*spec),
{
    let description = match spec {
        Some(j) => match crate::json::as_str(crate::json::get(j, "description")) {
            Some(d) => d,
            None => String::new(),
        },
        None => String::new(),
    };
    ToolEntry { key, description }
}

/// How far reading a key-value bucket for a chat answer got: the bucket
/// could not be opened, its keys could not be listed, or it was read.
#[derive(Debug)]
pub enum BucketRead<T> {
    Unavailable,
    ListFailed,
    Read(T),
}

/// The `/tools` answer for a read of the skill registry.
pub fn tools_reply(read: &BucketRead<Vec<ToolEntry>>) -> (s: String)
    ensures
        s@ == match read {
            BucketRead::Unavailable => "skill registry unavailable."@,
            BucketRead::ListFailed => "skill registry list failed."@,
            BucketRead::Read(es) => if es@.len() == 0 {
                "no skills registered."@
            } else {
                "registered skills:\n"@ + tool_lines(es@)
            },
        },
{
    match read {
        BucketRead::Unavailable => "skill registry unavailable.".to_string(),
        BucketRead::ListFailed => "skill registry list failed.".to_string(),
        BucketRead::Read(es) => tools_listing(es),
    }
}

/// The `/quota` answer for a read of the rate counters (requests this
/// minute and this day) against the caps.
pub fn quota_reply(read: &BucketRead<(u64, u64)>, rpm_cap: u64, rpd_cap: u64) -> (s: String)
    ensures
        s@ == match read {
            BucketRead::Unavailable => "(no rate state)"@,
            BucketRead::ListFailed => "(rate state list failed)"@,
            BucketRead::Read((m, d)) => chat_quota(*m as nat, rpm_cap as nat, *d as nat, rpd_cap as nat),
        },
{
    match read {
        BucketRead::Unavailable => "(no rate state)".to_string(),
        BucketRead::ListFailed => "(rate state list failed)".to_string(),
        BucketRead::Read((m, d)) => format_quota(*m, rpm_cap, *d, rpd_cap),
    }
}

} // verus!
