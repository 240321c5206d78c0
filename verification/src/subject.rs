//! NATS subject pattern matching: `*` matches one segment, `>` matches one
//! or more trailing segments.

use vstd::prelude::*;
use crate::text::{chars_eq, split_chars, split_on};

verus! {

/// The segments of `s` between `.` separators.
pub open spec fn split_dots(s: Seq<char>) -> Seq<Seq<char>> {
    split_on(s, '.')
}

pub open spec fn is_star(seg: Seq<char>) -> bool {
    seg == seq!['*']
}

pub open spec fn is_tail(seg: Seq<char>) -> bool {
    seg == seq!['>']
}

/// Segment-wise pattern matching.
pub open spec fn segments_match(p: Seq<Seq<char>>, s: Seq<Seq<char>>) -> bool
    decreases p.len(),
{
    if p.len() == 0 {
        s.len() == 0
    } else if is_tail(p[0]) {
        s.len() >= 1
    } else if s.len() == 0 {
        false
    } else if is_star(p[0]) || p[0] == s[0] {
        segments_match(p.drop_first(), s.drop_first())
    } else {
        false
    }
}

/// Whether `subject` is matched by `pattern`.
pub open spec fn spec_subject_matches(pattern: Seq<char>, subject: Seq<char>) -> bool {
    segments_match(split_dots(pattern), split_dots(subject))
}

/// NATS subject pattern matcher. `*` = one segment, `>` = one or more tail
/// segments.
pub fn subject_matches(pattern: &str, subject: &str) -> (r: bool)
    ensures
        r == spec_subject_matches(pattern@, subject@),
{
    let p = split_chars(pattern, '.');
    let s = split_chars(subject, '.');
    let ghost pv = split_dots(pattern@);
    let ghost sv = split_dots(subject@);
    let mut i: usize = 0;
    assert(pv.skip(0) == pv);
    assert(sv.skip(0) == sv);
    while i < p.len()
        invariant
            i <= p.len(),
            i <= s.len(),
            pv == split_dots(pattern@),
            sv == split_dots(subject@),
            p@.map_values(|v: Vec<char>| v@) == pv,
            s@.map_values(|v: Vec<char>| v@) == sv,
            segments_match(pv, sv) == segments_match(pv.skip(i as int), sv.skip(i as int)),
        decreases p.len() - i,
    {
        let ghost pr = pv.skip(i as int);
        let ghost sr = sv.skip(i as int);
        assert(pr[0] == p@[i as int]@);
        let star: Vec<char> = vec!['*'];
        let tail: Vec<char> = vec!['>'];
        assert(star@ =~= seq!['*']);
        assert(tail@ =~= seq!['>']);
        assert(sr.len() == s.len() - i);
        assert(pr.len() == p.len() - i);
        assert(pr.len() > 0);
        if chars_eq(p[i].as_slice(), tail.as_slice()) {
            assert(is_tail(pr[0]));
            return i < s.len();
        }
        if i >= s.len() {
            return false;
        }
        assert(sr[0] == s@[i as int]@);
        if !chars_eq(p[i].as_slice(), star.as_slice()) && !chars_eq(p[i].as_slice(), s[i].as_slice()) {
            return false;
        }
        assert(pr.drop_first() == pv.skip(i + 1));
        assert(sr.drop_first() == sv.skip(i + 1));
        i += 1;
    }
    assert(pv.skip(i as int).len() == 0);
    i == s.len()
}

} // verus!
