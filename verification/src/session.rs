//! Channel sessions: one open session per (channel, channel session key),
//! with its start, last activity and end. The key-value store that holds
//! them is driven from outside; this module decides what to write.

use vstd::prelude::*;
use crate::text::{push_str, string_from_chars};

verus! {

/// Idle time after which a session is closed by the sweeper (24 h).
pub const IDLE_CLOSE_SECS: i64 = 86_400;

/// A session record.
#[derive(Clone, Debug)]
pub struct SessionRecord {
    pub id: String,
    pub channel: String,
    pub channel_session_key: String,
    pub agent_id: String,
    /// Empty until a conversation is attached.
    pub conversation_id: String,
    pub started_at: String,
    pub last_activity_at: String,
    /// Set once the session is closed.
    pub ended_at: Option<String>,
    /// Free-form JSON metadata, as JSON text.
    pub metadata: String,
}

/// Trusted: `uuid::Uuid::now_v7()` rendered with `to_string`. It rests
/// on the clock and on random bits, so only the hyphenated lowercase form
/// is stated, with the version and variant that `now_v7` sets.
#[verifier::external_body]
pub(crate) fn new_uuid_v7() -> (s: String)
    ensures
        crate::router::uuid_form(s@, '7'),
{
    uuid::Uuid::now_v7().to_string()
}

/// Trusted: the current UTC time from `chrono::Utc::now()` in RFC 3339
/// with whole seconds and a `Z` suffix. It depends on the clock, so
/// nothing is stated of it.
#[verifier::external_body]
pub fn now_iso() -> (s: String) {
    chrono::Utc::now().to_rfc3339_opts(chrono::SecondsFormat::Secs, true)
}

/// Trusted: the current UTC time from `chrono::Utc::now()` as seconds
/// since the Unix epoch. It depends on the clock, so nothing is stated.
#[verifier::external_body]
pub fn now_unix_secs() -> (t: i64) {
    chrono::Utc::now().timestamp()
}

/// What `chrono` parses from an RFC 3339 timestamp, as Unix seconds.
pub uninterp spec fn rfc3339_secs(s: Seq<char>) -> Option<int>;

/// Trusted: `chrono::DateTime::parse_from_rfc3339`, taken to Unix seconds
/// with `timestamp()`; `None` when the text does not parse. The result is
/// a function of the text alone.
#[verifier::external_body]
pub fn parse_rfc3339(s: &str) -> (r: Option<i64>)
    ensures
        match r {
            Some(t) => rfc3339_secs(s@) == Some(t as int),
            None => rfc3339_secs(s@) is None,
        },
{
    match chrono::DateTime::parse_from_rfc3339(s) {
        Ok(t) => Some(t.timestamp()),
        Err(_) => None,
    }
}

/// Store key of a session record.
pub fn session_key(session_id: &str) -> (k: String)
    ensures
        k@ == "session/"@ + session_id@,
{
    let mut v: Vec<char> = Vec::new();
    push_str(&mut v, "session/");
    push_str(&mut v, session_id);
    string_from_chars(v.as_slice())
}

/// Store key of the index entry pointing at the open session of a
/// (channel, channel session key).
pub fn index_key(channel: &str, channel_session_key: &str) -> (k: String)
    ensures
        k@ == "index/"@ + channel@ + "/"@ + channel_session_key@,
{
    let mut v: Vec<char> = Vec::new();
    push_str(&mut v, "index/");
    push_str(&mut v, channel);
    push_str(&mut v, "/");
    push_str(&mut v, channel_session_key);
    string_from_chars(v.as_slice())
}

/// Whether a store key holds a session record.
pub fn is_session_key(key: &str) -> (r: bool)
    ensures
        r == "session/"@.is_prefix_of(key@),
{
    crate::text::str_starts_with(key, "session/")
}

/// A new open session started at `now`, with no conversation yet.
pub fn new_session(id: String, channel: &str, channel_session_key: &str, agent_id: &str, now: &str) -> (rec: SessionRecord)
    ensures
        rec.id@ == id@,
        rec.channel@ == channel@,
        rec.channel_session_key@ == channel_session_key@,
        rec.agent_id@ == agent_id@,
        rec.conversation_id@.len() == 0,
        rec.started_at@ == now@,
        rec.last_activity_at@ == now@,
        rec.ended_at is None,
        rec.metadata@ == "null"@,
{
    SessionRecord {
        id,
        channel: channel.to_string(),
        channel_session_key: channel_session_key.to_string(),
        agent_id: agent_id.to_string(),
        conversation_id: String::new(),
        started_at: now.to_string(),
        last_activity_at: now.to_string(),
        ended_at: None,
        metadata: "null".to_string(),
    }
}

/// Attaching a channel session: the open one is reused; otherwise a fresh
/// record with a new time-ordered id is started at `now`.
pub fn attach_decision(existing: Option<SessionRecord>, channel: &str, channel_session_key: &str, agent_id: &str, now: &str) -> (r: (SessionRecord, bool))
    ensures
        match existing {
            Some(e) => r.0 == e && !r.1,
            None => r.1 && r.0.channel@ == channel@ && r.0.channel_session_key@ == channel_session_key@
                && r.0.agent_id@ == agent_id@ && r.0.conversation_id@.len() == 0
                && r.0.started_at@ == now@ && r.0.last_activity_at@ == now@
                && r.0.ended_at is None && crate::router::uuid_form(r.0.id@, '7') && r.0.metadata@ == "null"@,
        },
{
    match existing {
        Some(e) => (e, false),
        None => {
            let id = new_uuid_v7();
            (new_session(id, channel, channel_session_key, agent_id, now), true)
        },
    }
}

/// The open session among an index lookup: a closed record does not count.
pub fn active_only(rec: Option<SessionRecord>) -> (r: Option<SessionRecord>)
    ensures
        r == match rec {
            Some(x) => if x.ended_at is None { Some(x) } else { None },
            None => None,
        },
{
    match rec {
        Some(x) => if x.ended_at.is_none() { Some(x) } else { None },
        None => None,
    }
}

/// Records activity at `now`.
pub fn touch(rec: &mut SessionRecord, now: &str)
    ensures
        final(rec).last_activity_at@ == now@,
        final(rec).id == old(rec).id,
        final(rec).channel == old(rec).channel,
        final(rec).channel_session_key == old(rec).channel_session_key,
        final(rec).agent_id == old(rec).agent_id,
        final(rec).conversation_id == old(rec).conversation_id,
        final(rec).started_at == old(rec).started_at,
        final(rec).ended_at == old(rec).ended_at,
        final(rec).metadata == old(rec).metadata,
{
    rec.last_activity_at = now.to_string();
}

/// Attaches a conversation; returns whether the record changed (and must
/// be saved). Attaching the current conversation again changes nothing.
pub fn attach_conversation(rec: &mut SessionRecord, conv_id: &str, now: &str) -> (changed: bool)
    ensures
        changed == (old(rec).conversation_id@ != conv_id@),
        changed ==> final(rec).conversation_id@ == conv_id@ && final(rec).last_activity_at@ == now@,
        !changed ==> *final(rec) == *old(rec),
        final(rec).id == old(rec).id,
        final(rec).channel == old(rec).channel,
        final(rec).channel_session_key == old(rec).channel_session_key,
        final(rec).ended_at == old(rec).ended_at,
{
    if crate::text::str_eq(rec.conversation_id.as_str(), conv_id) {
        false
    } else {
        rec.conversation_id = conv_id.to_string();
        rec.last_activity_at = now.to_string();
        true
    }
}

/// Closes a session at `now`; returns whether it was open (and the record
/// must be saved and its index entry dropped). Closing twice keeps the
/// first end time.
pub fn close(rec: &mut SessionRecord, now: &str) -> (was_open: bool)
    ensures
        was_open == (old(rec).ended_at is None),
        was_open ==> (final(rec).ended_at matches Some(t) && t@ == now@),
        !was_open ==> *final(rec) == *old(rec),
        final(rec).id == old(rec).id,
        final(rec).channel == old(rec).channel,
        final(rec).channel_session_key == old(rec).channel_session_key,
        final(rec).last_activity_at == old(rec).last_activity_at,
        final(rec).conversation_id == old(rec).conversation_id,
{
    if rec.ended_at.is_some() {
        false
    } else {
        rec.ended_at = Some(now.to_string());
        true
    }
}

/// Seconds a session has been idle at `now`: zero when its last activity
/// does not parse.
pub open spec fn idle_secs(now: int, last: Option<int>) -> int {
    match last {
        Some(t) => now - t,
        None => 0,
    }
}

/// Whether the sweeper closes a session idle since `last` (parsed last
/// activity) at `now`: strictly more than 24 hours.
pub fn idle_expired(now: i64, last: Option<i64>) -> (r: bool)
    ensures
        r == (idle_secs(now as int, match last {
            Some(t) => Some(t as int),
            None => None,
        }) > IDLE_CLOSE_SECS),
{
    match last {
        Some(t) => (now as i128) - (t as i128) > (IDLE_CLOSE_SECS as i128),
        None => false,
    }
}

/// The sweeper's verdict for one open session at `now`.
pub fn sweep_verdict(rec: &SessionRecord, now: i64) -> (r: bool)
    ensures
        r == (idle_secs(now as int, rfc3339_secs(rec.last_activity_at@)) > IDLE_CLOSE_SECS),
{
    let last = parse_rfc3339(rec.last_activity_at.as_str());
    idle_expired(now, last)
}

/// The sessions among `recs` the sweeper closes at `now`, by id, in order.
pub open spec fn swept(recs: Seq<SessionRecord>, now: int) -> Seq<Seq<char>>
    decreases recs.len(),
{
    if recs.len() == 0 {
        Seq::empty()
    } else {
        let prev = swept(recs.drop_last(), now);
        let r = recs.last();
        if r.ended_at is None && idle_secs(now, rfc3339_secs(r.last_activity_at@)) > IDLE_CLOSE_SECS {
            prev.push(r.id@)
        } else {
            prev
        }
    }
}

/// Ids of the open sessions in `recs` that are idle for too long at `now`.
pub fn sweep_idle(recs: &Vec<SessionRecord>, now: i64) -> (ids: Vec<String>)
    ensures
        crate::config::strings_view(ids@) == swept(recs@, now as int),
{
    let mut ids: Vec<String> = Vec::new();
    let mut i: usize = 0;
    while i < recs.len()
        invariant
            i <= recs.len(),
            crate::config::strings_view(ids@) == swept(recs@.take(i as int), now as int),
        decreases recs.len() - i,
    {
        assert(recs@.take(i + 1).drop_last() == recs@.take(i as int));
        assert(recs@.take(i + 1).last() == recs@[i as int]);
        let r = &recs[i];
        if r.ended_at.is_none() && sweep_verdict(r, now) {
            let ghost prev = ids@;
            ids.push(r.id.clone());
            assert(crate::config::strings_view(ids@) =~= crate::config::strings_view(prev).push(r.id@));
        }
        i += 1;
    }
    assert(recs@.take(recs.len() as int) == recs@);
    ids
}

/// The stored text of a session: its fields in declaration order, the end
/// `null` while open, the metadata as its JSON text.
pub open spec fn session_text(r: SessionRecord) -> Seq<char> {
    "{\"id\":"@ + crate::json::quoted(r.id@) + ",\"channel\":"@ + crate::json::quoted(r.channel@)
        + ",\"channel_session_key\":"@ + crate::json::quoted(r.channel_session_key@) + ",\"agent_id\":"@
        + crate::json::quoted(r.agent_id@) + ",\"conversation_id\":"@ + crate::json::quoted(r.conversation_id@)
        + ",\"started_at\":"@ + crate::json::quoted(r.started_at@) + ",\"last_activity_at\":"@ + crate::json::quoted(
        r.last_activity_at@,
    ) + ",\"ended_at\":"@ + match r.ended_at {
        Some(e) => crate::json::quoted(e@),
        None => "null"@,
    } + ",\"metadata\":"@ + r.metadata@ + "}"@
}

pub fn session_body(r: &SessionRecord) -> (s: String)
    ensures
        s@ == session_text(*r),
{
    let mut v: Vec<char> = Vec::new();
    push_str(&mut v, "{\"id\":");
    push_str(&mut v, crate::json::json_quote(r.id.as_str()).as_str());
    push_str(&mut v, ",\"channel\":");
    push_str(&mut v, crate::json::json_quote(r.channel.as_str()).as_str());
    push_str(&mut v, ",\"channel_session_key\":");
    push_str(&mut v, crate::json::json_quote(r.channel_session_key.as_str()).as_str());
    push_str(&mut v, ",\"agent_id\":");
    push_str(&mut v, crate::json::json_quote(r.agent_id.as_str()).as_str());
    push_str(&mut v, ",\"conversation_id\":");
    push_str(&mut v, crate::json::json_quote(r.conversation_id.as_str()).as_str());
    push_str(&mut v, ",\"started_at\":");
    push_str(&mut v, crate::json::json_quote(r.started_at.as_str()).as_str());
    push_str(&mut v, ",\"last_activity_at\":");
    push_str(&mut v, crate::json::json_quote(r.last_activity_at.as_str()).as_str());
    push_str(&mut v, ",\"ended_at\":");
    match &r.ended_at {
        Some(e) => push_str(&mut v, crate::json::json_quote(e.as_str()).as_str()),
        None => push_str(&mut v, "null"),
    }
    push_str(&mut v, ",\"metadata\":");
    push_str(&mut v, r.metadata.as_str());
    push_str(&mut v, "}");
    string_from_chars(v.as_slice())
}

pub open spec fn session_names() -> Seq<Seq<char>> {
    seq![
        "id"@,
        "channel"@,
        "channel_session_key"@,
        "agent_id"@,
        "conversation_id"@,
        "started_at"@,
        "last_activity_at"@,
        "ended_at"@,
        "metadata"@,
    ]
}

pub type SessionView = (
    Seq<char>,
    Seq<char>,
    Seq<char>,
    Seq<char>,
    Seq<char>,
    Seq<char>,
    Seq<char>,
    Option<Seq<char>>,
    Seq<char>,
);

pub open spec fn session_view(r: SessionRecord) -> SessionView {
    (
        r.id@,
        r.channel@,
        r.channel_session_key@,
        r.agent_id@,
        r.conversation_id@,
        r.started_at@,
        r.last_activity_at@,
        crate::agent_core::opt_str(r.ended_at),
        r.metadata@,
    )
}

/// The session a stored tree decodes to: the ids, channel, key, agent and
/// times are strings; the conversation defaults to empty, the end to none
/// (`null` too), the metadata to `null` (any value, kept as its text).
pub open spec fn session_of(j: crate::json::Json) -> Option<SessionView> {
    match crate::records::record_fields(j, session_names(), 7) {
        None => None,
        Some(f) => {
            let id = crate::records::req_str(f[0]);
            let channel = crate::records::req_str(f[1]);
            let key = crate::records::req_str(f[2]);
            let agent = crate::records::req_str(f[3]);
            let conv = crate::telegram::str_field_or(f[4], Seq::empty());
            let started = crate::records::req_str(f[5]);
            let last = crate::records::req_str(f[6]);
            let ended = crate::records::opt_str_field(f[7]);
            let meta = match f[8] {
                Some(m) => crate::json::text_of(m),
                None => "null"@,
            };
            if id is Some && channel is Some && key is Some && agent is Some && conv is Some && started is Some
                && last is Some && ended is Some {
                Some((id->0, channel->0, key->0, agent->0, conv->0, started->0, last->0, ended->0, meta))
            } else {
                None
            }
        },
    }
}

fn req_string(j: Option<&crate::json::Json>) -> (r: Option<String>)
    ensures
        crate::agent_core::opt_str(r) == crate::records::req_str(match j {
            Some(x) => Some(*x),
            None => None,
        }),
{
    match j {
        Some(crate::json::Json::Str(s)) => Some(s.clone()),
        _ => None,
    }
}

/// Reads a stored session.
#[verifier::rlimit(40)]
pub fn read_session(j: &crate::json::Json) -> (r: Option<SessionRecord>)
    ensures
        match session_of(*j) {
            None => r is None,
            Some(v) => r matches Some(x) && session_view(x) == v,
        },
{
    let names: [&str; 9] = [
        "id",
        "channel",
        "channel_session_key",
        "agent_id",
        "conversation_id",
        "started_at",
        "last_activity_at",
        "ended_at",
        "metadata",
    ];
    assert(names@.map_values(|n: &str| n@) =~= session_names());
    let f = match crate::task_record::record_refs(j, names.as_slice(), 7) {
        Some(f) => f,
        None => return None,
    };
    let id = match req_string(f[0]) {
        Some(x) => x,
        None => return None,
    };
    let channel = match req_string(f[1]) {
        Some(x) => x,
        None => return None,
    };
    let channel_session_key = match req_string(f[2]) {
        Some(x) => x,
        None => return None,
    };
    let agent_id = match req_string(f[3]) {
        Some(x) => x,
        None => return None,
    };
    let conversation_id = match f[4] {
        None => String::new(),
        Some(crate::json::Json::Str(c)) => c.clone(),
        Some(_) => return None,
    };
    let started_at = match req_string(f[5]) {
        Some(x) => x,
        None => return None,
    };
    let last_activity_at = match req_string(f[6]) {
        Some(x) => x,
        None => return None,
    };
    let ended_at = match f[7] {
        None => None,
        Some(crate::json::Json::Null) => None,
        Some(crate::json::Json::Str(e)) => Some(e.clone()),
        Some(_) => return None,
    };
    let metadata = match f[8] {
        Some(m) => crate::json::to_text(m),
        None => "null".to_string(),
    };
    Some(
        SessionRecord {
            id,
            channel,
            channel_session_key,
            agent_id,
            conversation_id,
            started_at,
            last_activity_at,
            ended_at,
            metadata,
        },
    )
}

/// A stored tree of a session: its fields in declaration order as
/// strings (the end as `null` while open), and any metadata value whose
/// text is the record's metadata.
pub open spec fn session_tree(j: crate::json::Json, r: SessionRecord) -> bool {
    &&& j matches crate::json::Json::Object(ms) && ms@.len() == 9
        && ms@[0].0@ == "id"@ && crate::records::is_str(ms@[0].1, r.id@)
        && ms@[1].0@ == "channel"@ && crate::records::is_str(ms@[1].1, r.channel@)
        && ms@[2].0@ == "channel_session_key"@ && crate::records::is_str(ms@[2].1, r.channel_session_key@)
        && ms@[3].0@ == "agent_id"@ && crate::records::is_str(ms@[3].1, r.agent_id@)
        && ms@[4].0@ == "conversation_id"@ && crate::records::is_str(ms@[4].1, r.conversation_id@)
        && ms@[5].0@ == "started_at"@ && crate::records::is_str(ms@[5].1, r.started_at@)
        && ms@[6].0@ == "last_activity_at"@ && crate::records::is_str(ms@[6].1, r.last_activity_at@)
        && ms@[7].0@ == "ended_at"@ && crate::records::is_opt_str(ms@[7].1, crate::agent_core::opt_str(r.ended_at))
        && ms@[8].0@ == "metadata"@ && crate::json::text_of(ms@[8].1) == r.metadata@
}

/// Law: a session read back from a tree written for it is the same
/// session; in particular the record an attach starts (open, metadata
/// `null`) reads back as itself, and it is still open.
pub proof fn lemma_session_round_trip(r: SessionRecord, j: crate::json::Json)
    requires
        session_tree(j, r),
    ensures
        session_of(j) == Some(session_view(r)),
{
    reveal_strlit("id");
    reveal_strlit("channel");
    reveal_strlit("channel_session_key");
    reveal_strlit("agent_id");
    reveal_strlit("conversation_id");
    reveal_strlit("started_at");
    reveal_strlit("last_activity_at");
    reveal_strlit("ended_at");
    reveal_strlit("metadata");
    let ms = j->Object_0@;
    let n = session_names();
    assert(n[0].len() == 2);
    assert(n[1].len() == 7);
    assert(n[2].len() == 19);
    assert(n[3].len() == 8);
    assert(n[4].len() == 15);
    assert(n[5].len() == 10);
    assert(n[6].len() == 16);
    assert(n[7].len() == 8);
    assert(n[8].len() == 8);
    assert(n[3][0] != n[7][0]);
    assert(n[3][0] != n[8][0]);
    assert(n[7][0] != n[8][0]);
    assert forall|a: int, b: int| 0 <= a < 9 && 0 <= b < 9 && a != b implies n[a] != n[b] by {
        if n[a].len() == n[b].len() {
            assert(n[a][0] != n[b][0]);
        }
    }
    assert forall|k: int| 0 <= k < 9 implies ms[k].0@ == #[trigger] n[k] by {}
    assert forall|k: int| 0 <= k < 9 implies crate::json::member(ms, n[k]) == Some(ms[k].1) by {
        assert forall|m: int| 0 <= m < k implies ms[m].0@ != n[k] by {
            assert(ms[m].0@ == n[m]);
        }
        crate::records::lemma_member_at(ms, n[k], k);
    }
    let f = crate::records::record_fields(j, n, 7)->0;
    assert forall|k: int| 0 <= k < 9 implies f[k] == crate::json::field(j, n[k]) by {}
    assert(f[0] == Some(ms[0].1));
    assert(f[4] == Some(ms[4].1));
    assert(f[7] == Some(ms[7].1));
    assert(f[8] == Some(ms[8].1));
}

/// Payload of the `session-end` hook fired for a session the sweeper
/// closed, members in sorted order.
pub fn session_end_payload(session_id: &str) -> (s: String)
    ensures
        s@ == "{\"reason\":\"idle-timeout\",\"session_id\":"@ + crate::json::quoted(session_id@) + "}"@,
{
    let mut v: Vec<char> = Vec::new();
    push_str(&mut v, "{\"reason\":\"idle-timeout\",\"session_id\":");
    push_str(&mut v, crate::json::json_quote(session_id).as_str());
    push_str(&mut v, "}");
    string_from_chars(v.as_slice())
}

} // verus!
