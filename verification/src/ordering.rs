//! Lexicographic order of store keys and the sort that lists a
//! conversation's messages in key order.

use vstd::prelude::*;
use crate::config::strings_view;
use crate::store::{lex_lt, message_key_of};

verus! {

broadcast use vstd::seq_lib::group_seq_properties;

/// `x` sorts before or equal to `y`: character by character, a proper
/// prefix first.
pub open spec fn lex_le(x: Seq<char>, y: Seq<char>) -> bool
    decreases x.len(),
{
    if x.len() == 0 {
        true
    } else if y.len() == 0 {
        false
    } else if x[0] != y[0] {
        x[0] < y[0]
    } else {
        lex_le(x.drop_first(), y.drop_first())
    }
}

pub proof fn lemma_lex_total(x: Seq<char>, y: Seq<char>)
    ensures
        lex_le(x, y) || lex_le(y, x),
    decreases x.len(),
{
    if x.len() > 0 && y.len() > 0 && x[0] == y[0] {
        lemma_lex_total(x.drop_first(), y.drop_first());
    }
}

pub proof fn lemma_lex_trans(x: Seq<char>, y: Seq<char>, z: Seq<char>)
    requires
        lex_le(x, y),
        lex_le(y, z),
    ensures
        lex_le(x, z),
    decreases x.len(),
{
    if x.len() > 0 && y.len() > 0 && z.len() > 0 && x[0] == y[0] && y[0] == z[0] {
        lemma_lex_trans(x.drop_first(), y.drop_first(), z.drop_first());
    }
}

pub proof fn lemma_lex_antisym(x: Seq<char>, y: Seq<char>)
    requires
        lex_le(x, y),
        lex_le(y, x),
    ensures
        x == y,
    decreases x.len(),
{
    if x.len() > 0 && y.len() > 0 {
        lemma_lex_antisym(x.drop_first(), y.drop_first());
        assert(x == seq![x[0]] + x.drop_first());
        assert(y == seq![y[0]] + y.drop_first());
    }
}

/// A strict difference at the first mismatch orders the two ways.
pub proof fn lemma_lex_lt_strict(x: Seq<char>, y: Seq<char>)
    requires
        lex_lt(x, y),
    ensures
        lex_le(x, y),
        !lex_le(y, x),
    decreases x.len(),
{
    let i = choose|i: int| 0 <= i < x.len() && i < y.len() && x.take(i) == y.take(i) && #[trigger] x[i] < y[i];
    if i > 0 {
        assert(x[0] == x.take(i)[0]);
        assert(y[0] == y.take(i)[0]);
        assert(x.drop_first().take(i - 1) == x.take(i).drop_first());
        assert(y.drop_first().take(i - 1) == y.take(i).drop_first());
        assert(x.drop_first()[i - 1] == x[i]);
        assert(y.drop_first()[i - 1] == y[i]);
        assert(lex_lt(x.drop_first(), y.drop_first()));
        lemma_lex_lt_strict(x.drop_first(), y.drop_first());
    }
}

/// Whether `a` is before-or-equal `b` in key order.
pub fn str_le(a: &str, b: &str) -> (r: bool)
    ensures
        r == lex_le(a@, b@),
{
    let x = crate::text::chars_of(a);
    let y = crate::text::chars_of(b);
    let mut i: usize = 0;
    while i < x.len() && i < y.len() && x[i] == y[i]
        invariant
            i <= x@.len(),
            i <= y@.len(),
            x@ == a@,
            y@ == b@,
            lex_le(a@, b@) == lex_le(a@.skip(i as int), b@.skip(i as int)),
        decreases x.len() - i,
    {
        assert(a@.skip(i as int).drop_first() == a@.skip(i + 1));
        assert(b@.skip(i as int).drop_first() == b@.skip(i + 1));
        i += 1;
    }
    if i == x.len() {
        true
    } else if i == y.len() {
        false
    } else {
        x[i] < y[i]
    }
}

/// Keys in ascending order.
pub open spec fn sorted(s: Seq<Seq<char>>) -> bool {
    forall|p: int, q: int| 0 <= p < q < s.len() ==> lex_le(#[trigger] s[p], #[trigger] s[q])
}

/// Sorts keys ascending (stable insertion sort).
pub fn sort_keys(keys: Vec<String>) -> (out: Vec<String>)
    ensures
        sorted(strings_view(out@)),
        strings_view(out@).to_multiset() == strings_view(keys@).to_multiset(),
{
    let ghost src = strings_view(keys@);
    let mut out: Vec<String> = Vec::new();
    let mut n: usize = 0;
    for k in it: keys
        invariant
            strings_view(it.seq()) == src,
            sorted(strings_view(out@)),
            strings_view(out@).to_multiset() == src.take(it.index() as int).to_multiset(),
    {
        let ghost idx = it.index();
        let ghost ov = strings_view(out@);
        let mut j: usize = 0;
        while j < out.len() && str_le(out[j].as_str(), k.as_str())
            invariant
                j <= out@.len(),
                ov == strings_view(out@),
                forall|a: int| 0 <= a < j ==> lex_le(#[trigger] ov[a], k@),
            decreases out.len() - j,
        {
            j += 1;
        }
        proof {
            if j < out@.len() {
                lemma_lex_total(ov[j as int], k@);
                assert(lex_le(k@, ov[j as int]));
                assert forall|b: int| j <= b < ov.len() implies lex_le(k@, #[trigger] ov[b]) by {
                    if b > j {
                        lemma_lex_trans(k@, ov[j as int], ov[b]);
                    }
                }
            }
        }
        let ghost kv = k@;
        out.insert(j, k);
        proof {
            let nv = strings_view(out@);
            assert(nv =~= ov.insert(j as int, kv));
            assert forall|p: int, q: int| 0 <= p < q < nv.len() implies lex_le(#[trigger] nv[p], #[trigger] nv[q]) by {
                if q < j {
                    assert(nv[p] == ov[p] && nv[q] == ov[q]);
                } else if q == j {
                    assert(nv[p] == ov[p]);
                } else if p == j {
                    assert(nv[q] == ov[q - 1]);
                } else if p < j {
                    assert(nv[p] == ov[p] && nv[q] == ov[q - 1]);
                    lemma_lex_trans(ov[p], kv, ov[q - 1]);
                } else {
                    assert(nv[p] == ov[p - 1] && nv[q] == ov[q - 1]);
                }
            }
            assert(src.take(idx + 1) =~= src.take(idx as int).push(kv));
            vstd::seq_lib::to_multiset_insert(ov, j as int, kv);
            vstd::seq_lib::to_multiset_build(src.take(idx as int), kv);
        }
    }
    proof {
        assert(src.take(src.len() as int) =~= src);
    }
    out
}

/// Messages come back in the order they were appended: of two message
/// keys of one conversation, the one stamped earlier sorts first, so in
/// any sorted key list it comes before the later one.
pub proof fn lemma_sorted_messages_in_time_order(
    keys: Seq<Seq<char>>,
    conversation_id: Seq<char>,
    a: u64,
    id_a: Seq<char>,
    b: u64,
    id_b: Seq<char>,
    p: int,
    q: int,
)
    requires
        sorted(keys),
        a < b,
        0 <= p < keys.len(),
        0 <= q < keys.len(),
        keys[p] == message_key_of(conversation_id, a, id_a),
        keys[q] == message_key_of(conversation_id, b, id_b),
    ensures
        p < q,
{
    crate::store::lemma_message_keys_in_time_order(conversation_id, a, id_a, b, id_b);
    lemma_lex_lt_strict(keys[p], keys[q]);
    if q < p {
        assert(lex_le(keys[q], keys[p]));
    }
    if p == q {
        assert(lex_le(keys[p], keys[p])) by {
            lemma_lex_total(keys[p], keys[p]);
        }
    }
}

/// The keys of a conversation's messages, in key order (which is the
/// order they were appended in).
pub fn conversation_message_keys(all_keys: &Vec<String>, conversation_id: &str) -> (out: Vec<String>)
    ensures
        sorted(strings_view(out@)),
        strings_view(out@).to_multiset() == crate::store::keys_with_prefix(
            strings_view(all_keys@),
            "msg/"@ + conversation_id@ + "/"@,
        ).to_multiset(),
{
    let prefix = crate::store::message_prefix(conversation_id);
    let mine = crate::store::filter_prefix(all_keys, prefix.as_str());
    sort_keys(mine)
}

} // verus!
