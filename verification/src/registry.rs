//! Time-limited snapshots of a manifest bucket (hooks by event, skills by
//! name) and of the tool-to-server routing map: when a registry may answer
//! from memory, and what it answers.

use vstd::prelude::*;
use crate::text::str_eq;

verus! {

/// How long a snapshot of the hook manifests is trusted, in milliseconds.
pub const HOOK_CACHE_TTL_MS: u64 = 15000;

/// How long a snapshot of the skill manifests is trusted, in milliseconds.
pub const SKILL_CACHE_TTL_MS: u64 = 30000;

/// How long a snapshot of the tool-to-server routing map is trusted.
pub const ROUTE_CACHE_TTL_MS: u64 = 30000;

/// The value of the first entry named `key`.
pub open spec fn entry_for<V>(es: Seq<(String, V)>, key: Seq<char>) -> Option<V>
    decreases es.len(),
{
    if es.len() == 0 {
        None
    } else if es[0].0@ == key {
        Some(es[0].1)
    } else {
        entry_for(es.drop_first(), key)
    }
}

/// Milliseconds from `at` to `now` on a monotonic clock; a reading before
/// `at` counts as no time at all.
pub open spec fn elapsed(at: u64, now: u64) -> nat {
    if now >= at {
        (now - at) as nat
    } else {
        0
    }
}

/// The entries read from a bucket and the time they were read.
pub struct Snapshot<V> {
    pub taken_at: u64,
    pub entries: Vec<(String, V)>,
}

/// A registry's in-memory copy of its bucket.
pub struct ManifestCache<V> {
    pub ttl_ms: u64,
    pub snapshot: Option<Snapshot<V>>,
}

impl<V> ManifestCache<V> {
    /// A manifest lookup may use the snapshot until more than the time to
    /// live has passed.
    pub open spec fn usable(&self, now: u64) -> bool {
        match self.snapshot {
            Some(s) => elapsed(s.taken_at, now) <= self.ttl_ms,
            None => false,
        }
    }

    /// A route lookup may use the snapshot only while less than the time to
    /// live has passed.
    pub open spec fn routable(&self, now: u64) -> bool {
        match self.snapshot {
            Some(s) => elapsed(s.taken_at, now) < self.ttl_ms,
            None => false,
        }
    }

    /// The entries of the snapshot (empty when there is none).
    pub open spec fn entries(&self) -> Seq<(String, V)> {
        match self.snapshot {
            Some(s) => s.entries@,
            None => Seq::empty(),
        }
    }

    /// What a manifest lookup answers from memory; `None` sends the
    /// registry back to the bucket.
    pub open spec fn cached(&self, key: Seq<char>, now: u64) -> Option<V> {
        if self.usable(now) {
            entry_for(self.entries(), key)
        } else {
            None
        }
    }

    /// An empty cache: the first lookup reads the bucket.
    pub fn new(ttl_ms: u64) -> (c: Self)
        ensures
            c.ttl_ms == ttl_ms,
            c.snapshot is None,
    {
        ManifestCache { ttl_ms, snapshot: None }
    }

    /// Keeps what a refresh read from the bucket, stamped `now`.
    pub fn fill(&mut self, entries: Vec<(String, V)>, now: u64)
        ensures
            final(self).ttl_ms == old(self).ttl_ms,
            final(self).snapshot == Some(Snapshot { taken_at: now, entries }),
    {
        self.snapshot = Some(Snapshot { taken_at: now, entries });
    }

    /// Drops the snapshot (after an install or an uninstall).
    pub fn invalidate(&mut self)
        ensures
            final(self).ttl_ms == old(self).ttl_ms,
            final(self).snapshot is None,
    {
        self.snapshot = None;
    }

    /// The manifest named `key` from a snapshot that is still usable; `None`
    /// when the snapshot is missing, too old, or does not hold the name.
    pub fn lookup(&self, key: &str, now: u64) -> (r: Option<&V>)
        ensures
            match r {
                Some(v) => self.cached(key@, now) == Some(*v),
                None => self.cached(key@, now) is None,
            },
    {
        match &self.snapshot {
            Some(s) => {
                let age: u64 = if now >= s.taken_at { now - s.taken_at } else { 0 };
                if age <= self.ttl_ms {
                    find_entry(&s.entries, key)
                } else {
                    None
                }
            },
            None => None,
        }
    }

    /// A route lookup: `None` when the snapshot must be read again first,
    /// otherwise the snapshot's answer (which may be that no server owns
    /// the tool).
    pub fn route(&self, key: &str, now: u64) -> (r: Option<Option<&V>>)
        ensures
            r is None <==> !self.routable(now),
            match r {
                Some(Some(v)) => entry_for(self.entries(), key@) == Some(*v),
                Some(None) => entry_for(self.entries(), key@) is None,
                None => true,
            },
    {
        match &self.snapshot {
            Some(s) => {
                let age: u64 = if now >= s.taken_at { now - s.taken_at } else { 0 };
                if age < self.ttl_ms {
                    Some(find_entry(&s.entries, key))
                } else {
                    None
                }
            },
            None => None,
        }
    }
}

/// The first entry named `key` in what a refresh read.
pub fn find_entry<'a, V>(entries: &'a Vec<(String, V)>, key: &str) -> (r: Option<&'a V>)
    ensures
        match r {
            Some(v) => entry_for(entries@, key@) == Some(*v),
            None => entry_for(entries@, key@) is None,
        },
{
    let mut i: usize = 0;
    assert(entries@.skip(0) == entries@);
    while i < entries.len()
        invariant
            i <= entries@.len(),
            entry_for(entries@, key@) == entry_for(entries@.skip(i as int), key@),
        decreases entries.len() - i,
    {
        assert(entries@.skip(i as int)[0] == entries@[i as int]);
        assert(entries@.skip(i as int).drop_first() == entries@.skip(i + 1));
        if str_eq(entries[i].0.as_str(), key) {
            return Some(&entries[i].1);
        }
        i += 1;
    }
    None
}

/// Law: a lookup made within the time to live of a refresh answers exactly
/// what the refreshed entries hold for the name.
pub proof fn lemma_lookup_after_fill<V>(
    c: ManifestCache<V>,
    entries: Vec<(String, V)>,
    taken_at: u64,
    now: u64,
    key: Seq<char>,
)
    requires
        c.snapshot == Some(Snapshot { taken_at, entries }),
        taken_at <= now,
        now - taken_at <= c.ttl_ms,
    ensures
        c.cached(key, now) == entry_for(entries@, key),
{
}

/// Law: a cache that was invalidated, or never filled, answers nothing from
/// memory: every lookup goes back to the bucket.
pub proof fn lemma_empty_cache_answers_nothing<V>(c: ManifestCache<V>, key: Seq<char>, now: u64)
    requires
        c.snapshot is None,
    ensures
        c.cached(key, now) is None,
        !c.routable(now),
{
}

/// Law: once more than the time to live has passed since the refresh, the
/// snapshot answers nothing.
pub proof fn lemma_stale_snapshot_answers_nothing<V>(c: ManifestCache<V>, key: Seq<char>, now: u64)
    requires
        c.snapshot is Some,
        now >= c.snapshot->0.taken_at,
        now - c.snapshot->0.taken_at > c.ttl_ms,
    ensures
        c.cached(key, now) is None,
        !c.routable(now),
{
}

/// Law: a snapshot that a route lookup may use may also serve a manifest
/// lookup at the same moment, with the same answer.
pub proof fn lemma_routable_implies_usable<V>(c: ManifestCache<V>, key: Seq<char>, now: u64)
    requires
        c.routable(now),
    ensures
        c.usable(now),
        c.cached(key, now) == entry_for(c.entries(), key),
{
}

} // verus!
