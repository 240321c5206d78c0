//! Event router: every event is journaled under a time-stamped key and
//! fanned out to the targets of each rule whose subject pattern matches.

use vstd::prelude::*;
use crate::config::strings_view;
use crate::subject::{is_star, is_tail, segments_match, spec_subject_matches, split_dots, subject_matches};
use crate::text::{decimal, padded_decimal_chars, push_all, push_str, string_from_chars, zero_pad};

verus! {

/// A fan-out rule: events whose subject matches the pattern are
/// republished to every target subject.
#[derive(Clone, Debug)]
pub struct RouterRule {
    pub subject_pattern: String,
    pub targets: Vec<String>,
    /// Reserved for payload filtering; not applied.
    pub filter_jmespath: Option<String>,
}

/// Whether a store key holds a router rule.
pub fn is_rule_key(key: &str) -> (r: bool)
    ensures
        r == "rule/"@.is_prefix_of(key@),
{
    crate::text::str_starts_with(key, "rule/")
}

/// Trusted: `chrono::Utc::now().timestamp_nanos_opt()`, the current time in
/// nanoseconds since the epoch, `None` outside the representable range. It
/// depends on the clock, so nothing is stated.
#[verifier::external_body]
pub(crate) fn now_nanos() -> (n: Option<i64>) {
    chrono::Utc::now().timestamp_nanos_opt()
}

/// The journal stamp: nanoseconds since the epoch, or whole seconds scaled
/// to nanoseconds when the nanosecond value is out of range, taken as an
/// unsigned 64-bit number.
pub open spec fn stamp_of(nanos: Option<i64>, secs: i64) -> u64 {
    match nanos {
        Some(n) => n as u64,
        None => secs.wrapping_mul(1_000_000_000) as u64,
    }
}

pub fn event_stamp(nanos: Option<i64>, secs: i64) -> (s: u64)
    ensures
        s == stamp_of(nanos, secs),
{
    match nanos {
        Some(n) => n as u64,
        None => secs.wrapping_mul(1_000_000_000) as u64,
    }
}

/// The journal stamp of the wasm event logger: the wall clock's seconds
/// and nanoseconds as nanoseconds since the epoch.
pub fn wall_clock_stamp(seconds: u64, nanoseconds: u32) -> (s: u64)
    requires
        seconds * 1_000_000_000 + nanoseconds <= u64::MAX,
    ensures
        s == seconds * 1_000_000_000 + nanoseconds,
{
    seconds * 1_000_000_000 + nanoseconds as u64
}

/// Journal key of an event: its subject and a 20-digit zero-padded stamp.
pub open spec fn journal_key_of(subject: Seq<char>, stamp: u64) -> Seq<char> {
    "events/"@ + subject + "/"@ + zero_pad(decimal(stamp as nat), 20)
}

pub fn journal_key(subject: &str, stamp: u64) -> (k: String)
    ensures
        k@ == journal_key_of(subject@, stamp),
{
    let mut v: Vec<char> = Vec::new();
    push_str(&mut v, "events/");
    push_str(&mut v, subject);
    push_str(&mut v, "/");
    let d = padded_decimal_chars(stamp, 20);
    push_all(&mut v, d.as_slice());
    string_from_chars(v.as_slice())
}

/// Journal key of an event received now.
pub fn journal_key_now(subject: &str) -> (k: String)
    ensures
        exists|stamp: u64| k@ == journal_key_of(subject@, stamp),
{
    let nanos = now_nanos();
    let secs = crate::session::now_unix_secs();
    let stamp = event_stamp(nanos, secs);
    journal_key(subject, stamp)
}

/// Targets of all rules whose pattern matches `subject`, rule by rule, in
/// order.
pub open spec fn targets_for(rules: Seq<RouterRule>, subject: Seq<char>) -> Seq<Seq<char>>
    decreases rules.len(),
{
    if rules.len() == 0 {
        Seq::empty()
    } else {
        let prev = targets_for(rules.drop_last(), subject);
        let r = rules.last();
        if spec_subject_matches(r.subject_pattern@, subject) {
            prev + strings_view(r.targets@)
        } else {
            prev
        }
    }
}

/// Where an event with `subject` is republished.
pub fn fan_out(rules: &Vec<RouterRule>, subject: &str) -> (out: Vec<String>)
    ensures
        strings_view(out@) == targets_for(rules@, subject@),
{
    let mut out: Vec<String> = Vec::new();
    let mut i: usize = 0;
    while i < rules.len()
        invariant
            i <= rules.len(),
            strings_view(out@) == targets_for(rules@.take(i as int), subject@),
        decreases rules.len() - i,
    {
        assert(rules@.take(i + 1).drop_last() == rules@.take(i as int));
        assert(rules@.take(i + 1).last() == rules@[i as int]);
        let r = &rules[i];
        if subject_matches(r.subject_pattern.as_str(), subject) {
            let mut j: usize = 0;
            let ghost base = strings_view(out@);
            while j < r.targets.len()
                invariant
                    j <= r.targets.len(),
                    strings_view(out@) == base + strings_view(r.targets@).take(j as int),
                decreases r.targets.len() - j,
            {
                let ghost prev = out@;
                out.push(r.targets[j].clone());
                assert(strings_view(out@) =~= strings_view(prev).push(r.targets@[j as int]@));
                assert(strings_view(r.targets@).take(j + 1) =~= strings_view(r.targets@).take(j as int).push(
                    r.targets@[j as int]@,
                ));
                j += 1;
            }
            assert(strings_view(r.targets@).take(r.targets.len() as int) =~= strings_view(r.targets@));
        }
        i += 1;
    }
    assert(rules@.take(rules.len() as int) == rules@);
    out
}

/// Every subject matches itself used as a pattern.
pub proof fn lemma_subject_matches_itself(s: Seq<char>)
    ensures
        spec_subject_matches(s, s),
{
    lemma_segments_match_refl(split_dots(s));
}

proof fn lemma_segments_match_refl(p: Seq<Seq<char>>)
    ensures
        segments_match(p, p),
    decreases p.len(),
{
    if p.len() > 0 && !is_tail(p[0]) {
        lemma_segments_match_refl(p.drop_first());
    }
}

/// A pattern free of `*` and `>` segments matches exactly the subjects
/// with the same segments.
pub proof fn lemma_literal_pattern_matches_only_itself(p: Seq<Seq<char>>, s: Seq<Seq<char>>)
    requires
        forall|i: int| 0 <= i < p.len() ==> !is_star(#[trigger] p[i]) && !is_tail(p[i]),
    ensures
        segments_match(p, s) <==> p == s,
    decreases p.len(),
{
    if p.len() > 0 && s.len() > 0 {
        assert(!is_star(p[0]) && !is_tail(p[0]));
        assert forall|i: int| 0 <= i < p.drop_first().len() implies !is_star(#[trigger] p.drop_first()[i])
            && !is_tail(p.drop_first()[i]) by {
            assert(p.drop_first()[i] == p[i + 1]);
        }
        lemma_literal_pattern_matches_only_itself(p.drop_first(), s.drop_first());
        if p[0] == s[0] && p.drop_first() == s.drop_first() {
            assert forall|i: int| 0 <= i < p.len() implies p[i] == s[i] by {
                if i > 0 {
                    assert(p[i] == p.drop_first()[i - 1]);
                    assert(s[i] == s.drop_first()[i - 1]);
                }
            }
            assert(p =~= s);
        }
        if p == s {
            assert(p.drop_first() == s.drop_first());
        }
        assert(segments_match(p, s) == (p[0] == s[0] && segments_match(p.drop_first(), s.drop_first())));
        assert(segments_match(p, s) ==> p == s);
        assert(p == s ==> segments_match(p, s));
    } else if p.len() > 0 {
        assert(!is_tail(p[0]));
        assert(!segments_match(p, s));
    } else {
        assert(segments_match(p, s) == (s.len() == 0));
        assert(s.len() == 0 ==> p =~= s);
    }
}

/// Replacing a non-`>` segment of a pattern by `*` never loses a match.
pub proof fn lemma_star_widens(p: Seq<Seq<char>>, s: Seq<Seq<char>>, k: int)
    requires
        0 <= k < p.len(),
        !is_tail(p[k]),
        segments_match(p, s),
    ensures
        segments_match(p.update(k, seq!['*']), s),
    decreases p.len(),
{
    let q = p.update(k, seq!['*']);
    if k == 0 {
        assert(q.drop_first() == p.drop_first());
        assert(is_star(q[0]));
        assert(seq!['*'][0] != seq!['>'][0]);
        assert(!is_tail(q[0]));
    } else {
        assert(q[0] == p[0]);
        if !is_tail(p[0]) {
            assert(q.drop_first() == p.drop_first().update(k - 1, seq!['*']));
            lemma_star_widens(p.drop_first(), s.drop_first(), k - 1);
        }
    }
}

/// A pattern ending in `>` matches exactly the subjects that extend a
/// match of the segments before it by one or more segments.
pub proof fn lemma_tail_wildcard(p: Seq<Seq<char>>, s: Seq<Seq<char>>)
    requires
        forall|i: int| 0 <= i < p.len() ==> !is_tail(#[trigger] p[i]),
    ensures
        segments_match(p.push(seq!['>']), s) <==> (s.len() > p.len() && segments_match(p, s.take(p.len() as int))),
    decreases p.len(),
{
    let q = p.push(seq!['>']);
    if p.len() == 0 {
        assert(q[0] == seq!['>']);
        assert(s.take(0) =~= Seq::<Seq<char>>::empty());
    } else {
        assert(q[0] == p[0]);
        assert(!is_tail(p[0]));
        assert(q.drop_first() =~= p.drop_first().push(seq!['>']));
        assert forall|i: int| 0 <= i < p.drop_first().len() implies !is_tail(#[trigger] p.drop_first()[i]) by {
            assert(p.drop_first()[i] == p[i + 1]);
        }
        if s.len() > 0 {
            lemma_tail_wildcard(p.drop_first(), s.drop_first());
            if s.len() >= p.len() {
                assert(s.take(p.len() as int).drop_first() =~= s.drop_first().take(p.len() - 1));
                assert(s.take(p.len() as int)[0] == s[0]);
            }
        } else {
            assert(!segments_match(q, s));
        }
    }
}

/// Whether every item of an array is a string.
pub open spec fn all_strings(v: Seq<crate::json::Json>) -> bool {
    forall|i: int| 0 <= i < v.len() ==> v[i] is Str
}

/// The texts of an array of strings.
pub open spec fn str_items(v: Seq<crate::json::Json>) -> Seq<Seq<char>> {
    v.map_values(
        |x: crate::json::Json|
            match x {
                crate::json::Json::Str(s) => s@,
                _ => Seq::empty(),
            },
    )
}

/// A list of strings, when the value is an array of strings.
pub open spec fn string_list(j: crate::json::Json) -> Option<Seq<Seq<char>>> {
    match j {
        crate::json::Json::Array(v) => if all_strings(v@) {
            Some(str_items(v@))
        } else {
            None
        },
        _ => None,
    }
}

/// An optional string member as the rule decoder reads it: absent or
/// `null` is none, a string is itself, anything else fails.
pub open spec fn opt_string(j: Option<crate::json::Json>) -> Option<Option<Seq<char>>> {
    match j {
        None => Some(None),
        Some(crate::json::Json::Null) => Some(None),
        Some(crate::json::Json::Str(s)) => Some(Some(s@)),
        _ => None,
    }
}

/// The rule a stored value decodes to: an object with a string
/// `subject_pattern`, an array of strings `targets` and an optional string
/// `filter_jmespath` (other members ignored); or an array of exactly those
/// three, in that order.
pub open spec fn rule_of(j: crate::json::Json) -> Option<(Seq<char>, Seq<Seq<char>>, Option<Seq<char>>)> {
    let parts: Option<(Option<crate::json::Json>, Option<crate::json::Json>, Option<crate::json::Json>)> = match j {
        crate::json::Json::Object(_) => Some(
            (
                crate::json::field(j, "subject_pattern"@),
                crate::json::field(j, "targets"@),
                crate::json::field(j, "filter_jmespath"@),
            ),
        ),
        crate::json::Json::Array(v) => if v@.len() == 3 {
            Some((Some(v@[0]), Some(v@[1]), Some(v@[2])))
        } else {
            None
        },
        _ => None,
    };
    match parts {
        None => None,
        Some((p, t, f)) => match (crate::json::str_of(p), t, opt_string(f)) {
            (Some(pat), Some(tj), Some(filter)) => match string_list(tj) {
                Some(targets) => Some((pat, targets, filter)),
                None => None,
            },
            _ => None,
        },
    }
}

fn read_strings(j: &crate::json::Json) -> (r: Option<Vec<String>>)
    ensures
        match string_list(*j) {
            None => r is None,
            Some(t) => r matches Some(v) && strings_view(v@) == t,
        },
{
    match j {
        crate::json::Json::Array(items) => {
            let mut out: Vec<String> = Vec::new();
            let mut i: usize = 0;
            while i < items.len()
                invariant
                    i <= items@.len(),
                    *j == crate::json::Json::Array(*items),
                    all_strings(items@.take(i as int)),
                    strings_view(out@) == str_items(items@.take(i as int)),
                decreases items.len() - i,
            {
                assert(items@.take(i + 1).drop_last() =~= items@.take(i as int));
                match &items[i] {
                    crate::json::Json::Str(s) => {
                        let ghost prev = out@;
                        out.push(s.clone());
                        assert(strings_view(out@) =~= strings_view(prev).push(s@));
                        assert(str_items(items@.take(i + 1)) =~= str_items(items@.take(i as int)).push(s@));
                    },
                    _ => {
                        assert(!all_strings(items@));
                        return None;
                    },
                }
                i += 1;
            }
            assert(items@.take(items@.len() as int) =~= items@);
            Some(out)
        },
        _ => None,
    }
}

fn read_opt_string(j: Option<&crate::json::Json>) -> (r: Option<Option<String>>)
    ensures
        match opt_string(match j {
            Some(x) => Some(*x),
            None => None,
        }) {
            None => r is None,
            Some(o) => r matches Some(x) && crate::agent_core::opt_str(x) == o,
        },
{
    match j {
        None => Some(None),
        Some(crate::json::Json::Null) => Some(None),
        Some(crate::json::Json::Str(s)) => Some(Some(s.clone())),
        _ => None,
    }
}

/// Decodes a stored rule.
pub fn read_rule(j: &crate::json::Json) -> (r: Option<RouterRule>)
    ensures
        match rule_of(*j) {
            None => r is None,
            Some(x) => r matches Some(rule) && rule.subject_pattern@ == x.0 && strings_view(rule.targets@) == x.1
                && crate::agent_core::opt_str(rule.filter_jmespath) == x.2,
        },
{
    let (p, t, f): (Option<&crate::json::Json>, Option<&crate::json::Json>, Option<&crate::json::Json>) = match j {
        crate::json::Json::Object(_) => (
            crate::json::get(j, "subject_pattern"),
            crate::json::get(j, "targets"),
            crate::json::get(j, "filter_jmespath"),
        ),
        crate::json::Json::Array(v) => if v.len() == 3 {
            (Some(&v[0]), Some(&v[1]), Some(&v[2]))
        } else {
            return None;
        },
        _ => return None,
    };
    let pattern = match crate::json::as_str(p) {
        Some(s) => s,
        None => return None,
    };
    let filter = match read_opt_string(f) {
        Some(o) => o,
        None => return None,
    };
    let targets = match t {
        Some(tj) => match read_strings(tj) {
            Some(v) => v,
            None => return None,
        },
        None => return None,
    };
    Some(RouterRule { subject_pattern: pattern, targets, filter_jmespath: filter })
}

} // verus!
