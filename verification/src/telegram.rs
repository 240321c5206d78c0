//! Telegram Bot API plumbing: update types, long-poll offsets, API error
//! texts, poller settings, and the debounced editing of a streamed reply.

use vstd::prelude::*;
use crate::text::{decimal, decimal_chars, parse_u64, parse_u64_spec, push_all, push_str, str_eq, string_from_chars};

verus! {

/// An update from `getUpdates`.
#[derive(Clone, Debug)]
pub struct TgUpdate {
    pub update_id: u64,
    pub message: Option<TgMessage>,
}

#[derive(Clone, Debug)]
pub struct TgMessage {
    pub message_id: i64,
    pub chat: TgChat,
    pub text: Option<String>,
}

#[derive(Clone, Copy, Debug, PartialEq, Eq, Structural)]
pub struct TgChat {
    pub id: i64,
}

/// The message a `sendMessage` call created.
#[derive(Clone, Copy, Debug, PartialEq, Eq, Structural)]
pub struct SentMessage {
    pub message_id: i64,
}

/// Whether a bot token is configured.
pub fn token_is_set(token: &str) -> (r: bool)
    ensures
        r == (token@.len() > 0),
{
    !token.is_empty()
}

/// URL of a Bot API method.
pub fn method_url(token: &str, method: &str) -> (u: String)
    ensures
        u@ == "https://api.telegram.org/bot"@ + token@ + "/"@ + method@,
{
    let mut v: Vec<char> = Vec::new();
    push_str(&mut v, "https://api.telegram.org/bot");
    push_str(&mut v, token);
    push_str(&mut v, "/");
    push_str(&mut v, method);
    string_from_chars(v.as_slice())
}

/// Base-10 text of a signed number.
pub open spec fn signed_decimal(n: int) -> Seq<char> {
    if n < 0 {
        "-"@ + decimal((-n) as nat)
    } else {
        decimal(n as nat)
    }
}

pub fn signed_decimal_string(n: i64) -> (s: String)
    ensures
        s@ == signed_decimal(n as int),
{
    let mut v: Vec<char> = Vec::new();
    if n < 0 {
        push_str(&mut v, "-");
        let m: u64 = if n == i64::MIN {
            9_223_372_036_854_775_808u64
        } else {
            (-n) as u64
        };
        let d = decimal_chars(m);
        push_all(&mut v, d.as_slice());
    } else {
        let d = decimal_chars(n as u64);
        push_all(&mut v, d.as_slice());
    }
    string_from_chars(v.as_slice())
}

/// Error text of a refused Bot API call: the method (when named), the
/// description (empty when absent) and the error code (0 when absent).
pub open spec fn api_error_text(method: Option<Seq<char>>, description: Option<Seq<char>>, code: Option<i64>) -> Seq<char> {
    let head = match method {
        Some(m) => "telegram "@ + m + ": "@,
        None => "telegram: "@,
    };
    let desc = match description {
        Some(d) => d,
        None => Seq::empty(),
    };
    let c: int = match code {
        Some(c) => c as int,
        None => 0,
    };
    head + desc + " ("@ + signed_decimal(c) + ")"@
}

pub fn api_error(method: Option<&str>, description: &Option<String>, code: Option<i64>) -> (s: String)
    ensures
        s@ == api_error_text(
            match method {
                Some(m) => Some(m@),
                None => None,
            },
            crate::agent_core::opt_str(*description),
            code,
        ),
{
    let mut v: Vec<char> = Vec::new();
    match method {
        Some(m) => {
            push_str(&mut v, "telegram ");
            push_str(&mut v, m);
            push_str(&mut v, ": ");
        },
        None => {
            push_str(&mut v, "telegram: ");
        },
    }
    match description {
        Some(d) => push_str(&mut v, d.as_str()),
        None => {},
    }
    push_str(&mut v, " (");
    let c = match code {
        Some(c) => c,
        None => 0,
    };
    let cs = signed_decimal_string(c);
    push_str(&mut v, cs.as_str());
    push_str(&mut v, ")");
    string_from_chars(v.as_slice())
}

/// The largest update id in a batch, if any.
pub open spec fn max_update_id(us: Seq<TgUpdate>) -> Option<u64>
    decreases us.len(),
{
    if us.len() == 0 {
        None
    } else {
        let id = us.last().update_id;
        match max_update_id(us.drop_last()) {
            None => Some(id),
            Some(m) => Some(if id > m { id } else { m }),
        }
    }
}

proof fn lemma_max_update_id(us: Seq<TgUpdate>)
    ensures
        match max_update_id(us) {
            None => us.len() == 0,
            Some(m) => (exists|i: int| 0 <= i < us.len() && us[i].update_id == m)
                && forall|i: int| 0 <= i < us.len() ==> (#[trigger] us[i]).update_id <= m,
        },
    decreases us.len(),
{
    if us.len() > 0 {
        lemma_max_update_id(us.drop_last());
        assert forall|i: int| 0 <= i < us.len() - 1 implies us.drop_last()[i] == us[i] by {}
        match max_update_id(us.drop_last()) {
            None => {
                assert(us[us.len() - 1].update_id == us.last().update_id);
            },
            Some(m) => {
                if us.last().update_id <= m {
                    let i = choose|i: int| 0 <= i < us.len() - 1 && us.drop_last()[i].update_id == m;
                    assert(us[i].update_id == m);
                } else {
                    assert(us[us.len() - 1].update_id == us.last().update_id);
                }
            },
        }
    }
}

/// The next long-poll offset after a batch: one past the largest update
/// id, so every update of the batch is acknowledged; `None` for an empty
/// batch (the offset stays).
pub fn next_offset(updates: &Vec<TgUpdate>) -> (r: Option<u64>)
    requires
        forall|i: int| 0 <= i < updates@.len() ==> (#[trigger] updates@[i]).update_id < u64::MAX,
    ensures
        match max_update_id(updates@) {
            None => r is None,
            Some(m) => r == Some((m + 1) as u64),
        },
        r matches Some(n) ==> forall|i: int| 0 <= i < updates@.len() ==> (#[trigger] updates@[i]).update_id < n,
{
    let mut best: Option<u64> = None;
    let mut i: usize = 0;
    while i < updates.len()
        invariant
            i <= updates.len(),
            best == max_update_id(updates@.take(i as int)),
        decreases updates.len() - i,
    {
        assert(updates@.take(i + 1).drop_last() == updates@.take(i as int));
        assert(updates@.take(i + 1).last() == updates@[i as int]);
        let id = updates[i].update_id;
        best = match best {
            None => Some(id),
            Some(m) => Some(if id > m { id } else { m }),
        };
        i += 1;
    }
    assert(updates@.take(updates.len() as int) == updates@);
    proof {
        lemma_max_update_id(updates@);
    }
    match best {
        None => None,
        Some(m) => {
            proof {
                let k = choose|k: int| 0 <= k < updates@.len() && updates@[k].update_id == m;
                assert(updates@[k].update_id < u64::MAX);
            }
            Some(m + 1)
        },
    }
}

/// The stored offset: the decimal text of the bytes, 0 when absent,
/// not UTF-8, or not a number.
pub open spec fn stored_offset(bytes: Option<Seq<u8>>) -> u64 {
    match bytes {
        None => 0,
        Some(b) => if vstd::utf8::valid_utf8(b) {
            match parse_u64_spec(vstd::utf8::decode_utf8(b)) {
                Some(n) => n,
                None => 0,
            }
        } else {
            0
        },
    }
}

pub fn read_offset(bytes: Option<&[u8]>) -> (n: u64)
    ensures
        n == stored_offset(match bytes {
            Some(b) => Some(b@),
            None => None,
        }),
{
    match bytes {
        None => 0,
        Some(b) => match crate::text::utf8_text(b) {
            Some(s) => match parse_u64(s.as_str()) {
                Some(n) => n,
                None => 0,
            },
            None => 0,
        },
    }
}

/// The (chat, message) pairs to acknowledge with a reaction, in order.
pub open spec fn ack_targets(us: Seq<TgUpdate>) -> Seq<(i64, i64)>
    decreases us.len(),
{
    if us.len() == 0 {
        Seq::empty()
    } else {
        let prev = ack_targets(us.drop_last());
        match us.last().message {
            Some(m) => prev.push((m.chat.id, m.message_id)),
            None => prev,
        }
    }
}

pub fn reactions_for(updates: &Vec<TgUpdate>) -> (out: Vec<(i64, i64)>)
    ensures
        out@ == ack_targets(updates@),
{
    let mut out: Vec<(i64, i64)> = Vec::new();
    let mut i: usize = 0;
    while i < updates.len()
        invariant
            i <= updates.len(),
            out@ == ack_targets(updates@.take(i as int)),
        decreases updates.len() - i,
    {
        assert(updates@.take(i + 1).drop_last() == updates@.take(i as int));
        assert(updates@.take(i + 1).last() == updates@[i as int]);
        match &updates[i].message {
            Some(m) => out.push((m.chat.id, m.message_id)),
            None => {},
        }
        i += 1;
    }
    assert(updates@.take(updates.len() as int) == updates@);
    out
}

/// Poller settings read from component config.
#[derive(Debug)]
pub struct PollSettings {
    pub timeout_s: u32,
    pub idle_ms: u64,
    pub ack_emoji: String,
    pub ack_enabled: bool,
}

pub open spec fn parse_u32_spec(s: Seq<char>) -> Option<u32> {
    match parse_u64_spec(s) {
        Some(n) => if n <= u32::MAX { Some(n as u32) } else { None },
        None => None,
    }
}

/// Whether a flag value switches something on.
pub open spec fn truthy(v: Seq<char>) -> bool {
    v == "1"@ || v == "true"@ || v == "yes"@
}

/// The poller's settings: a 25 s long-poll timeout and 500 ms idle pause
/// unless configured; the eyes emoji as acknowledgement unless another is
/// configured; acknowledgements on unless switched off with 1/true/yes.
pub fn poll_settings(timeout: &Option<String>, idle: &Option<String>, emoji: &Option<String>, ack_disabled: &Option<String>) -> (p: PollSettings)
    ensures
        p.timeout_s == match timeout {
            Some(t) => match parse_u32_spec(t@) {
                Some(n) => n,
                None => 25u32,
            },
            None => 25u32,
        },
        p.idle_ms == crate::config::over_num(500, *idle),
        p.ack_emoji@ == match emoji {
            Some(e) => e@,
            None => seq!['\u{1F440}'],
        },
        p.ack_enabled == match ack_disabled {
            Some(v) => !truthy(v@),
            None => true,
        },
{
    let timeout_s: u32 = match timeout {
        Some(t) => match parse_u64(t.as_str()) {
            Some(n) => if n <= u32::MAX as u64 { n as u32 } else { 25 },
            None => 25,
        },
        None => 25,
    };
    let idle_ms = crate::config::num_or(idle, 500);
    let ack_emoji = match emoji {
        Some(e) => e.clone(),
        None => {
            let v: Vec<char> = vec!['\u{1F440}'];
            string_from_chars(v.as_slice())
        },
    };
    let ack_enabled = match ack_disabled {
        Some(v) => !(str_eq(v.as_str(), "1") || str_eq(v.as_str(), "true") || str_eq(v.as_str(), "yes")),
        None => true,
    };
    PollSettings { timeout_s, idle_ms, ack_emoji, ack_enabled }
}

/// Whether an atomic increment of the poll lock acquired it (this caller
/// is the only holder).
pub fn lock_acquired(count_after_increment: i64) -> (r: bool)
    ensures
        r == (count_after_increment == 1),
{
    count_after_increment == 1
}

/// The chat id of a chat-action subject
/// `mycelium.channel.telegram.action.<chat>`; `None` when empty or
/// another subject.
pub fn action_chat_id(subject: &str) -> (r: Option<String>)
    ensures
        match r {
            Some(c) => subject@ == "mycelium.channel.telegram.action."@ + c@ && c@.len() > 0,
            None => !"mycelium.channel.telegram.action."@.is_prefix_of(subject@)
                || subject@ == "mycelium.channel.telegram.action."@,
        },
{
    let s = crate::text::chars_of(subject);
    let p = crate::text::chars_of("mycelium.channel.telegram.action.");
    if !crate::text::starts_with_chars(s.as_slice(), p.as_slice()) {
        return None;
    }
    let rest = crate::text::slice_from(s.as_slice(), p.len());
    if rest.len() == 0 {
        assert(s@ == p@);
        return None;
    }
    assert(s@ == p@ + rest@);
    Some(string_from_chars(rest.as_slice()))
}

/// The chat action sent when a request names none.
pub fn default_action() -> (s: String)
    ensures
        s@ == "typing"@,
{
    "typing".to_string()
}

/// Minimum time between two edits of a streamed reply (ms).
pub const EDIT_DEBOUNCE_MS: u64 = 900;

/// A chunk of a streamed assistant reply.
#[derive(Clone, Debug)]
pub struct StreamChunk {
    pub delta: String,
    pub done: bool,
    pub chat_id: String,
    pub progress_message_id: i64,
}

/// The reply being streamed into one chat's progress message.
#[derive(Clone, Debug)]
pub struct StreamBuffer {
    pub buf: String,
    /// Monotonic time (ms) of the last edit.
    pub last_edit_ms: Option<u64>,
    pub progress_message_id: i64,
}

impl View for StreamBuffer {
    type V = (Seq<char>, Option<u64>, i64);

    open spec fn view(&self) -> Self::V {
        (self.buf@, self.last_edit_ms, self.progress_message_id)
    }
}

/// An edit of a progress message to perform.
#[derive(Clone, Debug)]
pub struct StreamEdit {
    pub chat_id: String,
    pub message_id: i64,
    pub text: String,
}

/// Whether a chunk triggers an edit: always when the stream is done,
/// else when no edit happened yet or the last one is at least the debounce
/// interval ago.
pub open spec fn edit_due(done: bool, last_edit: Option<u64>, now: u64) -> bool {
    done || match last_edit {
        None => true,
        Some(t) => now >= t && now - t >= EDIT_DEBOUNCE_MS,
    }
}

/// The per-chat effect of one chunk: the delta is appended; an edit is due
/// when the stream is done or the debounce interval has passed, and only
/// for a non-empty text. The buffer after it is `None` when the stream
/// ends with an edit.
pub open spec fn chunk_step(prev: Option<(Seq<char>, Option<u64>, i64)>, c: StreamChunk, now: u64) -> (Option<(Seq<char>, Option<u64>, i64)>, Option<Seq<char>>) {
    let (buf, last) = match prev {
        Some(b) => (b.0, b.1),
        None => (Seq::<char>::empty(), None::<u64>),
    };
    let text = buf + c.delta@;
    if !edit_due(c.done, last, now) || text.len() == 0 {
        (Some((text, last, c.progress_message_id)), None)
    } else if c.done {
        (None, Some(text))
    } else {
        (Some((text, Some(now), c.progress_message_id)), Some(text))
    }
}

/// The buffer stored under `chat`, if any (the last entry with that key).
pub open spec fn entry_of(es: Seq<(String, StreamBuffer)>, chat: Seq<char>) -> Option<(Seq<char>, Option<u64>, i64)>
    decreases es.len(),
{
    if es.len() == 0 {
        None
    } else if es.last().0@ == chat {
        Some(es.last().1@)
    } else {
        entry_of(es.drop_last(), chat)
    }
}

proof fn lemma_entry_none(es: Seq<(String, StreamBuffer)>, chat: Seq<char>)
    ensures
        entry_of(es, chat) is None <==> forall|j: int| 0 <= j < es.len() ==> (#[trigger] es[j]).0@ != chat,
    decreases es.len(),
{
    if es.len() > 0 {
        lemma_entry_none(es.drop_last(), chat);
        assert forall|j: int| 0 <= j < es.len() - 1 implies es.drop_last()[j] == es[j] by {}
        if entry_of(es, chat) is None {
            assert forall|j: int| 0 <= j < es.len() implies (#[trigger] es[j]).0@ != chat by {
                if j < es.len() - 1 {
                    assert(es.drop_last()[j] == es[j]);
                }
            }
        }
    }
}

proof fn lemma_entry_at(es: Seq<(String, StreamBuffer)>, k: int)
    requires
        keys_of(es).no_duplicates(),
        0 <= k < es.len(),
    ensures
        entry_of(es, es[k].0@) == Some(es[k].1@),
    decreases es.len(),
{
    if k < es.len() - 1 {
        assert(keys_of(es)[k] != keys_of(es)[es.len() - 1]);
        assert(keys_of(es.drop_last()) =~= keys_of(es).drop_last());
        assert(es.drop_last()[k] == es[k]);
        lemma_entry_at(es.drop_last(), k);
    }
}

/// The open streams, one per chat.
#[derive(Debug)]
pub struct StreamTable {
    pub entries: Vec<(String, StreamBuffer)>,
}

pub open spec fn keys_of(es: Seq<(String, StreamBuffer)>) -> Seq<Seq<char>> {
    es.map_values(|e: (String, StreamBuffer)| e.0@)
}

impl StreamTable {
    /// No chat appears twice.
    pub open spec fn wf(&self) -> bool {
        keys_of(self.entries@).no_duplicates()
    }

    /// The buffer of a chat, if it has one.
    pub open spec fn get(&self, chat: Seq<char>) -> Option<(Seq<char>, Option<u64>, i64)> {
        entry_of(self.entries@, chat)
    }

    pub fn new() -> (t: StreamTable)
        ensures
            t.wf(),
            forall|k: Seq<char>| t.get(k) is None,
    {
        StreamTable { entries: Vec::new() }
    }

    fn find(&self, chat: &str) -> (r: Option<usize>)
        requires
            self.wf(),
        ensures
            match r {
                Some(i) => i < self.entries@.len() && self.entries@[i as int].0@ == chat@
                    && self.get(chat@) == Some(self.entries@[i as int].1@),
                None => forall|j: int| 0 <= j < self.entries@.len() ==> (#[trigger] self.entries@[j]).0@ != chat@,
            },
    {
        let mut i: usize = 0;
        while i < self.entries.len()
            invariant
                i <= self.entries@.len(),
                self.wf(),
                forall|j: int| 0 <= j < i ==> (#[trigger] self.entries@[j]).0@ != chat@,
            decreases self.entries.len() - i,
        {
            if str_eq(self.entries[i].0.as_str(), chat) {
                proof {
                    lemma_get_at(self, i as int);
                }
                return Some(i);
            }
            i += 1;
        }
        None
    }

    /// Feeds one chunk of a streamed reply. Chunks without a chat or a
    /// progress message change nothing; otherwise the chat's buffer moves
    /// as `chunk_step` says, every other chat keeps its own, and the edit
    /// to perform (if any) targets the chunk's progress message.
    pub fn on_chunk(&mut self, c: &StreamChunk, now: u64) -> (e: Option<StreamEdit>)
        requires
            old(self).wf(),
        ensures
            final(self).wf(),
            c.chat_id@.len() == 0 || c.progress_message_id == 0 ==> final(self).get(c.chat_id@) == old(self).get(
                c.chat_id@,
            ) && e is None,
            !(c.chat_id@.len() == 0 || c.progress_message_id == 0) ==> final(self).get(c.chat_id@) == chunk_step(
                old(self).get(c.chat_id@),
                *c,
                now,
            ).0 && match chunk_step(old(self).get(c.chat_id@), *c, now).1 {
                Some(t) => e matches Some(ed) && ed.text@ == t && ed.chat_id@ == c.chat_id@ && ed.message_id
                    == c.progress_message_id,
                None => e is None,
            },
            forall|k: Seq<char>| k != c.chat_id@ ==> final(self).get(k) == old(self).get(k),
    {
        if c.chat_id.as_str().is_empty() || c.progress_message_id == 0 {
            return None;
        }
        let found = self.find(c.chat_id.as_str());
        proof {
            if found is None {
                lemma_entry_none(self.entries@, c.chat_id@);
            }
        }
        let (buf, last): (String, Option<u64>) = match found {
            Some(i) => (self.entries[i].1.buf.clone(), self.entries[i].1.last_edit_ms),
            None => (String::new(), None),
        };
        let mut v: Vec<char> = Vec::new();
        push_str(&mut v, buf.as_str());
        push_str(&mut v, c.delta.as_str());
        let text = string_from_chars(v.as_slice());
        let due = c.done || match last {
            None => true,
            Some(t) => now >= t && now - t >= EDIT_DEBOUNCE_MS,
        };
        let ghost old_self = *old(self);
        if !due || text.as_str().is_empty() {
            let nb = StreamBuffer { buf: text, last_edit_ms: last, progress_message_id: c.progress_message_id };
            self.put(found, c.chat_id.clone(), nb);
            None
        } else if c.done {
            match found {
                Some(i) => self.drop_at(i),
                None => {},
            }
            proof {
                if found is None {
                    assert forall|k: Seq<char>| true implies self.get(k) == old_self.get(k) by {}
                }
            }
            Some(StreamEdit { chat_id: c.chat_id.clone(), message_id: c.progress_message_id, text })
        } else {
            let body = text.clone();
            let nb = StreamBuffer { buf: text, last_edit_ms: Some(now), progress_message_id: c.progress_message_id };
            self.put(found, c.chat_id.clone(), nb);
            Some(StreamEdit { chat_id: c.chat_id.clone(), message_id: c.progress_message_id, text: body })
        }
    }

    fn put(&mut self, at: Option<usize>, chat: String, b: StreamBuffer)
        requires
            old(self).wf(),
            match at {
                Some(i) => i < old(self).entries@.len() && old(self).entries@[i as int].0@ == chat@,
                None => forall|j: int| 0 <= j < old(self).entries@.len() ==> (#[trigger] old(self).entries@[j]).0@ != chat@,
            },
        ensures
            final(self).wf(),
            final(self).get(chat@) == Some(b@),
            forall|k: Seq<char>| k != chat@ ==> final(self).get(k) == old(self).get(k),
    {
        let ghost o = *old(self);
        match at {
            Some(i) => {
                self.entries.set(i, (chat, b));
                proof {
                    assert(keys_of(self.entries@) =~= keys_of(o.entries@));
                    lemma_get_at(self, i as int);
                    assert forall|k: Seq<char>| k != chat@ implies self.get(k) == o.get(k) by {
                        lemma_get_other_update(o, *self, i as int, k);
                    }
                }
            },
            None => {
                self.entries.push((chat, b));
                proof {
                    let n = o.entries@.len() as int;
                    assert(keys_of(self.entries@) =~= keys_of(o.entries@).push(chat@));
                    assert forall|x: int, y: int| 0 <= x < y < keys_of(self.entries@).len() implies keys_of(self.entries@)[x]
                        != keys_of(self.entries@)[y] by {
                        if y == n {
                            assert(o.entries@[x].0@ != chat@);
                        } else {
                            assert(keys_of(o.entries@)[x] != keys_of(o.entries@)[y]);
                        }
                    }
                    lemma_get_at(self, n);
                    assert forall|k: Seq<char>| k != chat@ implies self.get(k) == o.get(k) by {
                        lemma_get_other_push(o, *self, k);
                    }
                }
            },
        }
    }

    fn drop_at(&mut self, i: usize)
        requires
            old(self).wf(),
            i < old(self).entries@.len(),
        ensures
            final(self).wf(),
            final(self).get(old(self).entries@[i as int].0@) is None,
            forall|k: Seq<char>| k != old(self).entries@[i as int].0@ ==> final(self).get(k) == old(self).get(k),
    {
        let ghost o = *old(self);
        self.entries.remove(i);
        proof {
            let chat = o.entries@[i as int].0@;
            assert(self.entries@ =~= o.entries@.remove(i as int));
            assert(keys_of(self.entries@) =~= keys_of(o.entries@).remove(i as int));
            assert forall|x: int, y: int| 0 <= x < y < keys_of(self.entries@).len() implies keys_of(self.entries@)[x]
                != keys_of(self.entries@)[y] by {
                let x0 = if x < i { x } else { x + 1 };
                let y0 = if y < i { y } else { y + 1 };
                assert(keys_of(o.entries@)[x0] != keys_of(o.entries@)[y0]);
            }
            assert forall|j: int| 0 <= j < self.entries@.len() implies (#[trigger] self.entries@[j]).0@ != chat by {
                let j0 = if j < i { j } else { j + 1 };
                assert(keys_of(o.entries@)[j0] != keys_of(o.entries@)[i as int]);
            }
            assert forall|k: Seq<char>| k != chat implies self.get(k) == o.get(k) by {
                lemma_get_other_remove(o, *self, i as int, k);
            }
            lemma_entry_none(self.entries@, chat);
        }
    }
}

proof fn lemma_get_at(t: &StreamTable, k: int)
    requires
        t.wf(),
        0 <= k < t.entries@.len(),
    ensures
        t.get(t.entries@[k].0@) == Some(t.entries@[k].1@),
{
    lemma_entry_at(t.entries@, k);
}

proof fn lemma_get_some(t: &StreamTable, k: Seq<char>)
    requires
        t.wf(),
    ensures
        t.get(k) is Some <==> exists|i: int| 0 <= i < t.entries@.len() && (#[trigger] t.entries@[i]).0@ == k,
        forall|i: int| 0 <= i < t.entries@.len() && (#[trigger] t.entries@[i]).0@ == k ==> t.get(k) == Some(t.entries@[i].1@),
{
    lemma_entry_none(t.entries@, k);
    assert forall|i: int| 0 <= i < t.entries@.len() && (#[trigger] t.entries@[i]).0@ == k implies t.get(k) == Some(
        t.entries@[i].1@,
    ) by {
        lemma_get_at(t, i);
    }
}

proof fn lemma_get_other_update(o: StreamTable, n: StreamTable, i: int, k: Seq<char>)
    requires
        o.wf(),
        n.wf(),
        0 <= i < o.entries@.len(),
        n.entries@.len() == o.entries@.len(),
        n.entries@[i].0@ == o.entries@[i].0@,
        forall|j: int| 0 <= j < o.entries@.len() && j != i ==> n.entries@[j] == o.entries@[j],
        k != o.entries@[i].0@,
    ensures
        n.get(k) == o.get(k),
{
    lemma_get_some(&o, k);
    lemma_get_some(&n, k);
    if o.get(k) is Some {
        let j = choose|j: int| 0 <= j < o.entries@.len() && (#[trigger] o.entries@[j]).0@ == k;
        assert(n.entries@[j] == o.entries@[j]);
    }
    if n.get(k) is Some {
        let j = choose|j: int| 0 <= j < n.entries@.len() && (#[trigger] n.entries@[j]).0@ == k;
        assert(n.entries@[j] == o.entries@[j]);
    }
}

proof fn lemma_get_other_push(o: StreamTable, n: StreamTable, k: Seq<char>)
    requires
        o.wf(),
        n.wf(),
        n.entries@.len() == o.entries@.len() + 1,
        forall|j: int| 0 <= j < o.entries@.len() ==> n.entries@[j] == o.entries@[j],
        k != n.entries@[o.entries@.len() as int].0@,
    ensures
        n.get(k) == o.get(k),
{
    lemma_get_some(&o, k);
    lemma_get_some(&n, k);
    if o.get(k) is Some {
        let j = choose|j: int| 0 <= j < o.entries@.len() && (#[trigger] o.entries@[j]).0@ == k;
        assert(n.entries@[j] == o.entries@[j]);
    }
    if n.get(k) is Some {
        let j = choose|j: int| 0 <= j < n.entries@.len() && (#[trigger] n.entries@[j]).0@ == k;
        assert(n.entries@[j] == o.entries@[j]);
    }
}

proof fn lemma_get_other_remove(o: StreamTable, n: StreamTable, i: int, k: Seq<char>)
    requires
        o.wf(),
        n.wf(),
        0 <= i < o.entries@.len(),
        n.entries@ == o.entries@.remove(i),
        k != o.entries@[i].0@,
    ensures
        n.get(k) == o.get(k),
{
    lemma_get_some(&o, k);
    lemma_get_some(&n, k);
    if o.get(k) is Some {
        let j = choose|j: int| 0 <= j < o.entries@.len() && (#[trigger] o.entries@[j]).0@ == k;
        assert(j != i);
        let j1 = if j < i { j } else { j - 1 };
        assert(n.entries@[j1] == o.entries@[j]);
    }
    if n.get(k) is Some {
        let j = choose|j: int| 0 <= j < n.entries@.len() && (#[trigger] n.entries@[j]).0@ == k;
        let j0 = if j < i { j } else { j + 1 };
        assert(n.entries@[j] == o.entries@[j0]);
    }
}

/// Pause after a poll error, in milliseconds.
pub const POLL_ERROR_BACKOFF_MS: u64 = 2000;

/// How long the poller waits before the next poll: the idle time after an
/// empty batch, the error backoff after a failed poll, no time after a
/// batch with updates. `batch` is the size of the batch, `None` for a
/// failed poll.
pub fn poll_pause_ms(batch: Option<usize>, idle_ms: u64) -> (ms: u64)
    ensures
        ms == match batch {
            None => POLL_ERROR_BACKOFF_MS,
            Some(n) => if n == 0 {
                idle_ms
            } else {
                0
            },
        },
{
    match batch {
        None => POLL_ERROR_BACKOFF_MS,
        Some(n) => if n == 0 {
            idle_ms
        } else {
            0
        },
    }
}

/// An update as republished on the bus: its fields in declaration order,
/// absent parts as `null`.
pub open spec fn update_text(u: TgUpdate) -> Seq<char> {
    "{\"update_id\":"@ + decimal(u.update_id as nat) + ",\"message\":"@ + match u.message {
        None => "null"@,
        Some(m) => "{\"message_id\":"@ + signed_decimal(m.message_id as int) + ",\"chat\":{\"id\":"@ + signed_decimal(
            m.chat.id as int,
        ) + "},\"text\":"@ + match m.text {
            Some(t) => crate::json::quoted(t@),
            None => "null"@,
        } + "}"@,
    } + "}"@
}

pub fn update_body(u: &TgUpdate) -> (s: String)
    ensures
        s@ == update_text(*u),
{
    let mut v: Vec<char> = Vec::new();
    push_str(&mut v, "{\"update_id\":");
    push_all(&mut v, decimal_chars(u.update_id).as_slice());
    push_str(&mut v, ",\"message\":");
    match &u.message {
        None => push_str(&mut v, "null"),
        Some(m) => {
            push_str(&mut v, "{\"message_id\":");
            push_str(&mut v, signed_decimal_string(m.message_id).as_str());
            push_str(&mut v, ",\"chat\":{\"id\":");
            push_str(&mut v, signed_decimal_string(m.chat.id).as_str());
            push_str(&mut v, "},\"text\":");
            match &m.text {
                Some(t) => push_str(&mut v, crate::json::json_quote(t.as_str()).as_str()),
                None => push_str(&mut v, "null"),
            }
            push_str(&mut v, "}");
        },
    }
    push_str(&mut v, "}");
    string_from_chars(v.as_slice())
}

/// A string field with a default, as its decoder reads it: absent is the
/// default, a string is itself, anything else (`null` too) fails.
pub open spec fn str_field_or(j: Option<crate::json::Json>, d: Seq<char>) -> Option<Seq<char>> {
    match j {
        None => Some(d),
        Some(crate::json::Json::Str(s)) => Some(s@),
        _ => None,
    }
}

/// A boolean field with a default (false when absent).
pub open spec fn bool_field_or_false(j: Option<crate::json::Json>) -> Option<bool> {
    match j {
        None => Some(false),
        Some(crate::json::Json::Bool(b)) => Some(b),
        _ => None,
    }
}

/// A 64-bit integer field with a default (0 when absent).
pub open spec fn i64_field_or_zero(j: Option<crate::json::Json>) -> Option<i64> {
    match j {
        None => Some(0),
        Some(x) => crate::json::i64_of(Some(x)),
    }
}

fn read_str_or(j: Option<&crate::json::Json>, d: &str) -> (r: Option<String>)
    ensures
        crate::agent_core::opt_str(r) == str_field_or(match j {
            Some(x) => Some(*x),
            None => None,
        }, d@),
{
    match j {
        None => Some(d.to_string()),
        Some(crate::json::Json::Str(s)) => Some(s.clone()),
        _ => None,
    }
}

/// The fields of a reply to send: an object with string `recipient_id`
/// and `text`, or an array of exactly those two strings.
pub open spec fn channel_reply_of(j: crate::json::Json) -> Option<(Seq<char>, Seq<char>)> {
    let parts: Option<(Option<crate::json::Json>, Option<crate::json::Json>)> = match j {
        crate::json::Json::Object(_) => Some((crate::json::field(j, "recipient_id"@), crate::json::field(j, "text"@))),
        crate::json::Json::Array(v) => if v@.len() == 2 {
            Some((Some(v@[0]), Some(v@[1])))
        } else {
            None
        },
        _ => None,
    };
    match parts {
        Some((r, t)) => match (crate::json::str_of(r), crate::json::str_of(t)) {
            (Some(rv), Some(tv)) => Some((rv, tv)),
            _ => None,
        },
        None => None,
    }
}

/// Decodes a reply for the chat: recipient and text.
pub fn read_channel_reply(j: &crate::json::Json) -> (r: Option<(String, String)>)
    ensures
        match channel_reply_of(*j) {
            None => r is None,
            Some(x) => r matches Some(v) && v.0@ == x.0 && v.1@ == x.1,
        },
{
    let (a, b): (Option<&crate::json::Json>, Option<&crate::json::Json>) = match j {
        crate::json::Json::Object(_) => (crate::json::get(j, "recipient_id"), crate::json::get(j, "text")),
        crate::json::Json::Array(v) => if v.len() == 2 {
            (Some(&v[0]), Some(&v[1]))
        } else {
            return None;
        },
        _ => return None,
    };
    match (crate::json::as_str(a), crate::json::as_str(b)) {
        (Some(x), Some(y)) => Some((x, y)),
        _ => None,
    }
}

/// The action a non-empty chat-action request names: its `action`
/// (`typing` when absent); as an array, its only element or `typing` when
/// empty.
pub open spec fn channel_action_of(j: crate::json::Json) -> Option<Seq<char>> {
    match j {
        crate::json::Json::Object(_) => str_field_or(crate::json::field(j, "action"@), "typing"@),
        crate::json::Json::Array(v) => if v@.len() == 0 {
            Some("typing"@)
        } else if v@.len() == 1 {
            str_field_or(Some(v@[0]), "typing"@)
        } else {
            None
        },
        _ => None,
    }
}

pub fn read_channel_action(j: &crate::json::Json) -> (r: Option<String>)
    ensures
        crate::agent_core::opt_str(r) == channel_action_of(*j),
{
    match j {
        crate::json::Json::Object(_) => read_str_or(crate::json::get(j, "action"), "typing"),
        crate::json::Json::Array(v) => if v.len() == 0 {
            Some("typing".to_string())
        } else if v.len() == 1 {
            read_str_or(Some(&v[0]), "typing")
        } else {
            None
        },
        _ => None,
    }
}

/// The fields of a stream chunk, each with its default (empty delta, not
/// done, empty chat, message 0): an object names them, an array lists a
/// prefix of them in the order delta, done, chat id, message id.
pub open spec fn stream_chunk_of(j: crate::json::Json) -> Option<(Seq<char>, bool, Seq<char>, i64)> {
    let parts: Option<(Option<crate::json::Json>, Option<crate::json::Json>, Option<crate::json::Json>, Option<crate::json::Json>)> = match j {
        crate::json::Json::Object(_) => Some(
            (
                crate::json::field(j, "delta"@),
                crate::json::field(j, "done"@),
                crate::json::field(j, "chat_id"@),
                crate::json::field(j, "progress_message_id"@),
            ),
        ),
        crate::json::Json::Array(v) => if v@.len() <= 4 {
            Some(
                (
                    if v@.len() > 0 { Some(v@[0]) } else { None },
                    if v@.len() > 1 { Some(v@[1]) } else { None },
                    if v@.len() > 2 { Some(v@[2]) } else { None },
                    if v@.len() > 3 { Some(v@[3]) } else { None },
                ),
            )
        } else {
            None
        },
        _ => None,
    };
    match parts {
        None => None,
        Some((d, dn, c, m)) => match (
            str_field_or(d, Seq::empty()),
            bool_field_or_false(dn),
            str_field_or(c, Seq::empty()),
            i64_field_or_zero(m),
        ) {
            (Some(dv), Some(dnv), Some(cv), Some(mv)) => Some((dv, dnv, cv, mv)),
            _ => None,
        },
    }
}

/// Decodes a chunk of a streamed reply.
pub fn read_stream_chunk(j: &crate::json::Json) -> (r: Option<StreamChunk>)
    ensures
        match stream_chunk_of(*j) {
            None => r is None,
            Some(x) => r matches Some(c) && c.delta@ == x.0 && c.done == x.1 && c.chat_id@ == x.2
                && c.progress_message_id == x.3,
        },
{
    let (d, dn, c, m): (Option<&crate::json::Json>, Option<&crate::json::Json>, Option<&crate::json::Json>, Option<&crate::json::Json>) = match j {
        crate::json::Json::Object(_) => (
            crate::json::get(j, "delta"),
            crate::json::get(j, "done"),
            crate::json::get(j, "chat_id"),
            crate::json::get(j, "progress_message_id"),
        ),
        crate::json::Json::Array(v) => if v.len() <= 4 {
            (
                if v.len() > 0 { Some(&v[0]) } else { None },
                if v.len() > 1 { Some(&v[1]) } else { None },
                if v.len() > 2 { Some(&v[2]) } else { None },
                if v.len() > 3 { Some(&v[3]) } else { None },
            )
        } else {
            return None;
        },
        _ => return None,
    };
    proof {
        reveal_strlit("");
        assert(""@ =~= Seq::<char>::empty());
    }
    let delta = match read_str_or(d, "") {
        Some(x) => x,
        None => return None,
    };
    let done = match dn {
        None => false,
        Some(crate::json::Json::Bool(b)) => *b,
        _ => return None,
    };
    let chat_id = match read_str_or(c, "") {
        Some(x) => x,
        None => return None,
    };
    let progress_message_id = match m {
        None => 0,
        Some(x) => match crate::json::as_i64(Some(x)) {
            Some(n) => n,
            None => return None,
        },
    };
    Some(StreamChunk { delta, done, chat_id, progress_message_id })
}

/// Whether a subject carries a reply for a Telegram chat.
pub fn is_out_subject(subject: &str) -> (r: bool)
    ensures
        r == "mycelium.channel.telegram.out."@.is_prefix_of(subject@),
{
    crate::text::str_starts_with(subject, "mycelium.channel.telegram.out.")
}

} // verus!
