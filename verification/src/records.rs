//! The records the stores keep: messages, conversations and agent configs
//! as JSON trees (fields in declaration order, absent options as `null`),
//! and how a stored tree is read back. Reading back what was written gives
//! the record again.

use vstd::prelude::*;
use crate::agent_core::opt_str;
use crate::config::strings_view;
use crate::json::{field, member, str_of, Json};
use crate::types::{role_name, role_of_name, role_to_str, role_from_str, Conversation, Message, MessageRole};

verus! {

/// The members a record decoder reads, one per field name: by name from an
/// object (a missing member reads as absent); by position from an array
/// that holds at least the `required` leading fields and at most all of
/// them. Anything else is no record.
pub open spec fn record_fields(j: Json, names: Seq<Seq<char>>, required: nat) -> Option<Seq<Option<Json>>> {
    match j {
        Json::Object(_) => Some(names.map_values(|n: Seq<char>| field(j, n))),
        Json::Array(v) => if required <= v@.len() <= names.len() {
            Some(Seq::new(names.len(), |i: int| if i < v@.len() { Some(v@[i]) } else { None }))
        } else {
            None
        },
        _ => None,
    }
}

/// A required string field.
pub open spec fn req_str(f: Option<Json>) -> Option<Seq<char>> {
    match f {
        Some(Json::Str(s)) => Some(s@),
        _ => None,
    }
}

/// An optional string field: absent or `null` is none.
pub open spec fn opt_str_field(f: Option<Json>) -> Option<Option<Seq<char>>> {
    match f {
        None => Some(None),
        Some(Json::Null) => Some(None),
        Some(Json::Str(s)) => Some(Some(s@)),
        _ => None,
    }
}

/// Whether a value is the string `s`.
pub open spec fn is_str(j: Json, s: Seq<char>) -> bool {
    j matches Json::Str(x) && x@ == s
}

/// Whether a value is the optional string `o` (`null` for none).
pub open spec fn is_opt_str(j: Json, o: Option<Seq<char>>) -> bool {
    match o {
        Some(s) => is_str(j, s),
        None => j is Null,
    }
}

/// The lookup of a member that is the first of its name.
pub proof fn lemma_member_at(ms: Seq<(String, Json)>, k: Seq<char>, i: int)
    requires
        0 <= i < ms.len(),
        ms[i].0@ == k,
        forall|j: int| 0 <= j < i ==> ms[j].0@ != k,
    ensures
        member(ms, k) == Some(ms[i].1),
    decreases i,
{
    if i > 0 {
        assert(ms[0].0@ != k);
        assert forall|j: int| 0 <= j < i - 1 implies ms.drop_first()[j].0@ != k by {
            assert(ms.drop_first()[j] == ms[j + 1]);
        }
        lemma_member_at(ms.drop_first(), k, i - 1);
    }
}

fn str_of_ref(j: Option<&Json>) -> (r: Option<String>)
    ensures
        opt_str(r) == req_str(match j {
            Some(x) => Some(*x),
            None => None,
        }),
{
    match j {
        Some(Json::Str(s)) => Some(s.clone()),
        _ => None,
    }
}

fn opt_str_of_ref(j: Option<&Json>) -> (r: Option<Option<String>>)
    ensures
        match opt_str_field(match j {
            Some(x) => Some(*x),
            None => None,
        }) {
            None => r is None,
            Some(o) => r matches Some(x) && opt_str(x) == o,
        },
{
    match j {
        None => Some(None),
        Some(Json::Null) => Some(None),
        Some(Json::Str(s)) => Some(Some(s.clone())),
        _ => None,
    }
}

fn opt_json(o: &Option<String>) -> (j: Json)
    ensures
        is_opt_str(j, opt_str(*o)),
{
    match o {
        Some(s) => Json::Str(s.clone()),
        None => Json::Null,
    }
}

/// The characters of a message record: id, role, content, tool-use id,
/// creation time.
pub open spec fn message_view(m: Message) -> (Seq<char>, MessageRole, Seq<char>, Option<Seq<char>>, Seq<char>) {
    (m.id@, m.role, m.content@, opt_str(m.tool_use_id), m.created_at@)
}

/// The stored tree of a message: `{id, role, content, tool_use_id,
/// created_at}`, the role by its wire name.
pub open spec fn message_tree(j: Json, m: Message) -> bool {
    &&& j matches Json::Object(ms) && ms@.len() == 5
        && ms@[0].0@ == "id"@ && is_str(ms@[0].1, m.id@)
        && ms@[1].0@ == "role"@ && is_str(ms@[1].1, role_name(m.role))
        && ms@[2].0@ == "content"@ && is_str(ms@[2].1, m.content@)
        && ms@[3].0@ == "tool_use_id"@ && is_opt_str(ms@[3].1, opt_str(m.tool_use_id))
        && ms@[4].0@ == "created_at"@ && is_str(ms@[4].1, m.created_at@)
}

/// The message a stored tree decodes to: all five fields are required
/// (the tool-use id may be `null`, and in an object may be missing); an
/// unknown role name reads as a user message.
pub open spec fn message_of(j: Json) -> Option<(Seq<char>, MessageRole, Seq<char>, Option<Seq<char>>, Seq<char>)> {
    match record_fields(j, seq!["id"@, "role"@, "content"@, "tool_use_id"@, "created_at"@], 5) {
        None => None,
        Some(f) => match (req_str(f[0]), req_str(f[1]), req_str(f[2]), opt_str_field(f[3]), req_str(f[4])) {
            (Some(id), Some(role), Some(content), Some(tool), Some(at)) => Some(
                (id, role_of_name(role), content, tool, at),
            ),
            _ => None,
        },
    }
}

/// The stored tree of a message.
pub fn message_record(m: &Message) -> (j: Json)
    ensures
        message_tree(j, *m),
{
    let ms: Vec<(String, Json)> = vec![
        ("id".to_string(), Json::Str(m.id.clone())),
        ("role".to_string(), Json::Str(role_to_str(m.role).to_string())),
        ("content".to_string(), Json::Str(m.content.clone())),
        ("tool_use_id".to_string(), opt_json(&m.tool_use_id)),
        ("created_at".to_string(), Json::Str(m.created_at.clone())),
    ];
    Json::Object(ms)
}

/// Reads a stored message.
pub fn read_message(j: &Json) -> (r: Option<Message>)
    ensures
        match message_of(*j) {
            None => r is None,
            Some(v) => r matches Some(m) && message_view(m) == v,
        },
{
    let ghost names = seq!["id"@, "role"@, "content"@, "tool_use_id"@, "created_at"@];
    let (a, b, c, d, e): (Option<&Json>, Option<&Json>, Option<&Json>, Option<&Json>, Option<&Json>) = match j {
        Json::Object(_) => (
            crate::json::get(j, "id"),
            crate::json::get(j, "role"),
            crate::json::get(j, "content"),
            crate::json::get(j, "tool_use_id"),
            crate::json::get(j, "created_at"),
        ),
        Json::Array(v) => if v.len() == 5 {
            (Some(&v[0]), Some(&v[1]), Some(&v[2]), Some(&v[3]), Some(&v[4]))
        } else {
            return None;
        },
        _ => return None,
    };
    proof {
        if j is Object {
            assert(record_fields(*j, names, 5)->0[0] == field(*j, "id"@));
            assert(record_fields(*j, names, 5)->0[1] == field(*j, "role"@));
            assert(record_fields(*j, names, 5)->0[2] == field(*j, "content"@));
            assert(record_fields(*j, names, 5)->0[3] == field(*j, "tool_use_id"@));
            assert(record_fields(*j, names, 5)->0[4] == field(*j, "created_at"@));
        }
    }
    let id = match str_of_ref(a) {
        Some(x) => x,
        None => return None,
    };
    let role = match str_of_ref(b) {
        Some(x) => x,
        None => return None,
    };
    let content = match str_of_ref(c) {
        Some(x) => x,
        None => return None,
    };
    let tool_use_id = match opt_str_of_ref(d) {
        Some(x) => x,
        None => return None,
    };
    let created_at = match str_of_ref(e) {
        Some(x) => x,
        None => return None,
    };
    Some(Message { id, role: role_from_str(role.as_str()), content, tool_use_id, created_at })
}

/// Law: a message read back from the tree written for it is the same
/// message.
pub proof fn lemma_message_round_trip(m: Message, j: Json)
    requires
        message_tree(j, m),
    ensures
        message_of(j) == Some(message_view(m)),
{
    reveal_strlit("id");
    reveal_strlit("role");
    reveal_strlit("content");
    reveal_strlit("tool_use_id");
    reveal_strlit("created_at");
    let ms = j->Object_0@;
    assert("id"@.len() == 2);
    assert("role"@.len() == 4);
    assert("content"@.len() == 7);
    assert("tool_use_id"@.len() == 11);
    assert("created_at"@.len() == 10);
    assert("id"@ != "role"@);
    assert("id"@ != "content"@);
    assert("role"@ != "content"@);
    assert("id"@ != "tool_use_id"@);
    assert("role"@ != "tool_use_id"@);
    assert("content"@ != "tool_use_id"@);
    assert("id"@ != "created_at"@);
    assert("role"@ != "created_at"@);
    assert("content"@ != "created_at"@);
    assert("tool_use_id"@ != "created_at"@);
    lemma_member_at(ms, "id"@, 0);
    lemma_member_at(ms, "role"@, 1);
    lemma_member_at(ms, "content"@, 2);
    lemma_member_at(ms, "tool_use_id"@, 3);
    lemma_member_at(ms, "created_at"@, 4);
    crate::types::lemma_role_round_trip(m.role);
    let names = seq!["id"@, "role"@, "content"@, "tool_use_id"@, "created_at"@];
    let f = record_fields(j, names, 5)->0;
    assert(f[0] == field(j, "id"@));
    assert(f[1] == field(j, "role"@));
    assert(f[2] == field(j, "content"@));
    assert(f[3] == field(j, "tool_use_id"@));
    assert(f[4] == field(j, "created_at"@));
}

/// The characters of a conversation record.
pub open spec fn conversation_view(c: Conversation) -> (Seq<char>, Seq<char>, Option<Seq<char>>, Seq<char>, Seq<char>) {
    (c.id@, c.agent_id@, opt_str(c.title), c.created_at@, c.updated_at@)
}

/// The stored tree of a conversation: `{id, agent_id, title, created_at,
/// updated_at}`.
pub open spec fn conversation_tree(j: Json, c: Conversation) -> bool {
    &&& j matches Json::Object(ms) && ms@.len() == 5
        && ms@[0].0@ == "id"@ && is_str(ms@[0].1, c.id@)
        && ms@[1].0@ == "agent_id"@ && is_str(ms@[1].1, c.agent_id@)
        && ms@[2].0@ == "title"@ && is_opt_str(ms@[2].1, opt_str(c.title))
        && ms@[3].0@ == "created_at"@ && is_str(ms@[3].1, c.created_at@)
        && ms@[4].0@ == "updated_at"@ && is_str(ms@[4].1, c.updated_at@)
}

/// The conversation a stored tree decodes to: all five fields are
/// required (the title may be `null`, and in an object may be missing).
pub open spec fn conversation_of(j: Json) -> Option<(Seq<char>, Seq<char>, Option<Seq<char>>, Seq<char>, Seq<char>)> {
    match record_fields(j, seq!["id"@, "agent_id"@, "title"@, "created_at"@, "updated_at"@], 5) {
        None => None,
        Some(f) => match (req_str(f[0]), req_str(f[1]), opt_str_field(f[2]), req_str(f[3]), req_str(f[4])) {
            (Some(id), Some(agent), Some(title), Some(created), Some(updated)) => Some(
                (id, agent, title, created, updated),
            ),
            _ => None,
        },
    }
}

/// The stored tree of a conversation.
pub fn conversation_record(c: &Conversation) -> (j: Json)
    ensures
        conversation_tree(j, *c),
{
    let ms: Vec<(String, Json)> = vec![
        ("id".to_string(), Json::Str(c.id.clone())),
        ("agent_id".to_string(), Json::Str(c.agent_id.clone())),
        ("title".to_string(), opt_json(&c.title)),
        ("created_at".to_string(), Json::Str(c.created_at.clone())),
        ("updated_at".to_string(), Json::Str(c.updated_at.clone())),
    ];
    Json::Object(ms)
}

/// Reads a stored conversation.
pub fn read_conversation(j: &Json) -> (r: Option<Conversation>)
    ensures
        match conversation_of(*j) {
            None => r is None,
            Some(v) => r matches Some(c) && conversation_view(c) == v,
        },
{
    let ghost names = seq!["id"@, "agent_id"@, "title"@, "created_at"@, "updated_at"@];
    let (a, b, c, d, e): (Option<&Json>, Option<&Json>, Option<&Json>, Option<&Json>, Option<&Json>) = match j {
        Json::Object(_) => (
            crate::json::get(j, "id"),
            crate::json::get(j, "agent_id"),
            crate::json::get(j, "title"),
            crate::json::get(j, "created_at"),
            crate::json::get(j, "updated_at"),
        ),
        Json::Array(v) => if v.len() == 5 {
            (Some(&v[0]), Some(&v[1]), Some(&v[2]), Some(&v[3]), Some(&v[4]))
        } else {
            return None;
        },
        _ => return None,
    };
    proof {
        if j is Object {
            assert(record_fields(*j, names, 5)->0[0] == field(*j, "id"@));
            assert(record_fields(*j, names, 5)->0[1] == field(*j, "agent_id"@));
            assert(record_fields(*j, names, 5)->0[2] == field(*j, "title"@));
            assert(record_fields(*j, names, 5)->0[3] == field(*j, "created_at"@));
            assert(record_fields(*j, names, 5)->0[4] == field(*j, "updated_at"@));
        }
    }
    let id = match str_of_ref(a) {
        Some(x) => x,
        None => return None,
    };
    let agent_id = match str_of_ref(b) {
        Some(x) => x,
        None => return None,
    };
    let title = match opt_str_of_ref(c) {
        Some(x) => x,
        None => return None,
    };
    let created_at = match str_of_ref(d) {
        Some(x) => x,
        None => return None,
    };
    let updated_at = match str_of_ref(e) {
        Some(x) => x,
        None => return None,
    };
    Some(Conversation { id, agent_id, title, created_at, updated_at })
}

/// Law: a conversation read back from the tree written for it is the same
/// conversation.
pub proof fn lemma_conversation_round_trip(c: Conversation, j: Json)
    requires
        conversation_tree(j, c),
    ensures
        conversation_of(j) == Some(conversation_view(c)),
{
    reveal_strlit("id");
    reveal_strlit("agent_id");
    reveal_strlit("title");
    reveal_strlit("created_at");
    reveal_strlit("updated_at");
    let ms = j->Object_0@;
    assert("id"@.len() == 2);
    assert("agent_id"@.len() == 8);
    assert("title"@.len() == 5);
    assert("created_at"@.len() == 10);
    assert("updated_at"@.len() == 10);
    assert("created_at"@[0] != "updated_at"@[0]);
    assert("id"@ != "agent_id"@);
    assert("id"@ != "title"@);
    assert("agent_id"@ != "title"@);
    assert("id"@ != "created_at"@);
    assert("agent_id"@ != "created_at"@);
    assert("title"@ != "created_at"@);
    assert("id"@ != "updated_at"@);
    assert("agent_id"@ != "updated_at"@);
    assert("title"@ != "updated_at"@);
    assert("created_at"@ != "updated_at"@);
    lemma_member_at(ms, "id"@, 0);
    lemma_member_at(ms, "agent_id"@, 1);
    lemma_member_at(ms, "title"@, 2);
    lemma_member_at(ms, "created_at"@, 3);
    lemma_member_at(ms, "updated_at"@, 4);
    let names = seq!["id"@, "agent_id"@, "title"@, "created_at"@, "updated_at"@];
    let f = record_fields(j, names, 5)->0;
    assert(f[0] == field(j, "id"@));
    assert(f[1] == field(j, "agent_id"@));
    assert(f[2] == field(j, "title"@));
    assert(f[3] == field(j, "created_at"@));
    assert(f[4] == field(j, "updated_at"@));
}

/// Whether a value is the number `n`, written in decimal.
pub open spec fn is_u32(j: Json, n: u32) -> bool {
    j matches Json::Number(t) && t@ == crate::text::decimal(n as nat)
}

/// Whether a value is the optional number `o` (`null` for none).
pub open spec fn is_opt_u32(j: Json, o: Option<u32>) -> bool {
    match o {
        Some(n) => is_u32(j, n),
        None => j is Null,
    }
}

/// Whether a value is the array of the strings `v`.
pub open spec fn is_str_list(j: Json, v: Seq<Seq<char>>) -> bool {
    j matches Json::Array(items) && crate::events::all_strings(items@) && crate::events::str_items(items@) == v
}

/// A required `u32` field.
pub open spec fn req_u32(f: Option<Json>) -> Option<u32> {
    match f {
        Some(x) => crate::gateway::u32_field(x),
        None => None,
    }
}

/// An optional `u32` field: absent or `null` is none.
pub open spec fn opt_u32_field(f: Option<Json>) -> Option<Option<u32>> {
    match f {
        None => Some(None),
        Some(Json::Null) => Some(None),
        Some(x) => match crate::gateway::u32_field(x) {
            Some(n) => Some(Some(n)),
            None => None,
        },
    }
}

/// A required list of strings.
pub open spec fn req_list(f: Option<Json>) -> Option<Seq<Seq<char>>> {
    match f {
        Some(x) => crate::events::string_list(x),
        None => None,
    }
}

pub type AgentRecordView = (
    Seq<char>,
    Seq<char>,
    Seq<char>,
    Seq<char>,
    Seq<Seq<char>>,
    u32,
    Option<Seq<char>>,
    Option<Seq<char>>,
    Option<u32>,
    Option<Seq<char>>,
);

/// The characters of a stored agent config.
pub open spec fn agent_view(a: crate::store::StoredAgentConfig) -> AgentRecordView {
    (
        a.id@,
        a.name@,
        a.system_prompt@,
        a.model@,
        strings_view(a.tools@),
        a.max_steps,
        opt_str(a.endpoint),
        opt_str(a.api_key),
        a.compaction_threshold,
        opt_str(a.compaction_model),
    )
}

pub open spec fn agent_names() -> Seq<Seq<char>> {
    seq![
        "id"@,
        "name"@,
        "system_prompt"@,
        "model"@,
        "tools"@,
        "max_steps"@,
        "endpoint"@,
        "api_key"@,
        "compaction_threshold"@,
        "compaction_model"@,
    ]
}

/// The stored tree of an agent config: the public fields, then the
/// endpoint, API key and compaction settings (`null` when unset).
pub open spec fn agent_tree(j: Json, a: crate::store::StoredAgentConfig) -> bool {
    &&& j matches Json::Object(ms) && ms@.len() == 10
        && (forall|i: int| 0 <= i < 10 ==> #[trigger] ms@[i].0@ == agent_names()[i])
        && is_str(ms@[0].1, a.id@) && is_str(ms@[1].1, a.name@) && is_str(ms@[2].1, a.system_prompt@)
        && is_str(ms@[3].1, a.model@) && is_str_list(ms@[4].1, strings_view(a.tools@))
        && is_u32(ms@[5].1, a.max_steps) && is_opt_str(ms@[6].1, opt_str(a.endpoint))
        && is_opt_str(ms@[7].1, opt_str(a.api_key)) && is_opt_u32(ms@[8].1, a.compaction_threshold)
        && is_opt_str(ms@[9].1, opt_str(a.compaction_model))
}

/// The config a stored tree decodes to: the six public fields are
/// required, the four extension fields may be missing (and `null`).
pub open spec fn agent_of(j: Json) -> Option<AgentRecordView> {
    match record_fields(j, agent_names(), 6) {
        None => None,
        Some(f) => match (
            req_str(f[0]),
            req_str(f[1]),
            req_str(f[2]),
            req_str(f[3]),
            req_list(f[4]),
            req_u32(f[5]),
            opt_str_field(f[6]),
            opt_str_field(f[7]),
            opt_u32_field(f[8]),
            opt_str_field(f[9]),
        ) {
            (Some(id), Some(name), Some(prompt), Some(model), Some(tools), Some(steps), Some(ep), Some(key), Some(th), Some(cm)) => Some(
                (id, name, prompt, model, tools, steps, ep, key, th, cm),
            ),
            _ => None,
        },
    }
}

fn number_json(n: u32) -> (j: Json)
    ensures
        is_u32(j, n),
{
    let d = crate::text::decimal_chars(n as u64);
    Json::Number(crate::text::string_from_chars(d.as_slice()))
}

fn list_json(v: &Vec<String>) -> (j: Json)
    ensures
        is_str_list(j, strings_view(v@)),
{
    let mut items: Vec<Json> = Vec::new();
    let mut i: usize = 0;
    while i < v.len()
        invariant
            i <= v@.len(),
            items@.len() == i,
            forall|k: int| 0 <= k < i ==> is_str(#[trigger] items@[k], v@[k]@),
        decreases v.len() - i,
    {
        items.push(Json::Str(v[i].clone()));
        i += 1;
    }
    assert(crate::events::str_items(items@) =~= strings_view(v@));
    Json::Array(items)
}

/// The stored tree of an agent config.
pub fn agent_record(a: &crate::store::StoredAgentConfig) -> (j: Json)
    ensures
        agent_tree(j, *a),
{
    let th = match a.compaction_threshold {
        Some(n) => number_json(n),
        None => Json::Null,
    };
    let ms: Vec<(String, Json)> = vec![
        ("id".to_string(), Json::Str(a.id.clone())),
        ("name".to_string(), Json::Str(a.name.clone())),
        ("system_prompt".to_string(), Json::Str(a.system_prompt.clone())),
        ("model".to_string(), Json::Str(a.model.clone())),
        ("tools".to_string(), list_json(&a.tools)),
        ("max_steps".to_string(), number_json(a.max_steps)),
        ("endpoint".to_string(), opt_json(&a.endpoint)),
        ("api_key".to_string(), opt_json(&a.api_key)),
        ("compaction_threshold".to_string(), th),
        ("compaction_model".to_string(), opt_json(&a.compaction_model)),
    ];
    let j = Json::Object(ms);
    assert(forall|i: int| 0 <= i < 10 ==> #[trigger] ms@[i].0@ == agent_names()[i]);
    j
}

fn u32_of_ref(j: Option<&Json>) -> (r: Option<u32>)
    ensures
        r == req_u32(match j {
            Some(x) => Some(*x),
            None => None,
        }),
{
    match j {
        Some(x) => match crate::json::as_u64(Some(x)) {
            Some(n) => if n <= u32::MAX as u64 {
                Some(n as u32)
            } else {
                None
            },
            None => None,
        },
        None => None,
    }
}

fn opt_u32_of_ref(j: Option<&Json>) -> (r: Option<Option<u32>>)
    ensures
        r == opt_u32_field(match j {
            Some(x) => Some(*x),
            None => None,
        }),
{
    match j {
        None => Some(None),
        Some(Json::Null) => Some(None),
        Some(x) => match u32_of_ref(Some(x)) {
            Some(n) => Some(Some(n)),
            None => None,
        },
    }
}

fn list_of_ref(j: Option<&Json>) -> (r: Option<Vec<String>>)
    ensures
        match req_list(match j {
            Some(x) => Some(*x),
            None => None,
        }) {
            None => r is None,
            Some(t) => r matches Some(v) && strings_view(v@) == t,
        },
{
    match j {
        Some(Json::Array(items)) => {
            let mut out: Vec<String> = Vec::new();
            let mut i: usize = 0;
            while i < items.len()
                invariant
                    i <= items@.len(),
                    req_list(match j {
                        Some(x) => Some(*x),
                        None => None,
                    }) == crate::events::string_list(Json::Array(*items)),
                    crate::events::all_strings(items@.take(i as int)),
                    strings_view(out@) == crate::events::str_items(items@.take(i as int)),
                decreases items.len() - i,
            {
                assert(items@.take(i + 1).drop_last() =~= items@.take(i as int));
                match &items[i] {
                    Json::Str(s) => {
                        let ghost prev = out@;
                        out.push(s.clone());
                        assert(strings_view(out@) =~= strings_view(prev).push(s@));
                        assert(crate::events::str_items(items@.take(i + 1)) =~= crate::events::str_items(
                            items@.take(i as int),
                        ).push(s@));
                    },
                    _ => {
                        assert(!crate::events::all_strings(items@));
                        return None;
                    },
                }
                i += 1;
            }
            assert(items@.take(items@.len() as int) =~= items@);
            Some(out)
        },
        _ => None,
    }
}

/// Reads a stored agent config.
#[verifier::rlimit(40)]
pub fn read_agent(j: &Json) -> (r: Option<crate::store::StoredAgentConfig>)
    ensures
        match agent_of(*j) {
            None => r is None,
            Some(v) => r matches Some(a) && agent_view(a) == v,
        },
{
    let mut f: Vec<Option<&Json>> = Vec::new();
    match j {
        Json::Object(_) => {
            f.push(crate::json::get(j, "id"));
            f.push(crate::json::get(j, "name"));
            f.push(crate::json::get(j, "system_prompt"));
            f.push(crate::json::get(j, "model"));
            f.push(crate::json::get(j, "tools"));
            f.push(crate::json::get(j, "max_steps"));
            f.push(crate::json::get(j, "endpoint"));
            f.push(crate::json::get(j, "api_key"));
            f.push(crate::json::get(j, "compaction_threshold"));
            f.push(crate::json::get(j, "compaction_model"));
        },
        Json::Array(v) => {
            if v.len() < 6 || v.len() > 10 {
                return None;
            }
            let mut i: usize = 0;
            while i < 10
                invariant
                    i <= 10,
                    6 <= v@.len() <= 10,
                    f@.len() == i,
                    forall|k: int| 0 <= k < i ==> #[trigger] f@[k] == (if k < v@.len() {
                        Some(&v@[k])
                    } else {
                        None
                    }),
                decreases 10 - i,
            {
                if i < v.len() {
                    f.push(Some(&v[i]));
                } else {
                    f.push(None);
                }
                i += 1;
            }
        },
        _ => return None,
    }
    let ghost fs = f@.map_values(|o: Option<&Json>| match o {
        Some(x) => Some(*x),
        None => None,
    });
    assert(record_fields(*j, agent_names(), 6) == Some(fs));
    let id = match str_of_ref(f[0]) {
        Some(x) => x,
        None => return None,
    };
    let name = match str_of_ref(f[1]) {
        Some(x) => x,
        None => return None,
    };
    let system_prompt = match str_of_ref(f[2]) {
        Some(x) => x,
        None => return None,
    };
    let model = match str_of_ref(f[3]) {
        Some(x) => x,
        None => return None,
    };
    let tools = match list_of_ref(f[4]) {
        Some(x) => x,
        None => return None,
    };
    let max_steps = match u32_of_ref(f[5]) {
        Some(x) => x,
        None => return None,
    };
    let endpoint = match opt_str_of_ref(f[6]) {
        Some(x) => x,
        None => return None,
    };
    let api_key = match opt_str_of_ref(f[7]) {
        Some(x) => x,
        None => return None,
    };
    let compaction_threshold = match opt_u32_of_ref(f[8]) {
        Some(x) => x,
        None => return None,
    };
    let compaction_model = match opt_str_of_ref(f[9]) {
        Some(x) => x,
        None => return None,
    };
    Some(
        crate::store::StoredAgentConfig {
            id,
            name,
            system_prompt,
            model,
            tools,
            max_steps,
            endpoint,
            api_key,
            compaction_threshold,
            compaction_model,
        },
    )
}

/// A `u32` written as its decimal text reads back as the same number.
pub proof fn lemma_u32_text(j: Json, n: u32)
    requires
        is_u32(j, n),
    ensures
        crate::gateway::u32_field(j) == Some(n),
{
    crate::text::lemma_decimal_digits(n as nat);
    crate::text::lemma_parse_decimal(n as u64);
}

/// Law: an agent config read back from the tree written for it is the
/// same config.
pub proof fn lemma_agent_round_trip(a: crate::store::StoredAgentConfig, j: Json)
    requires
        agent_tree(j, a),
    ensures
        agent_of(j) == Some(agent_view(a)),
{
    reveal_strlit("id");
    reveal_strlit("name");
    reveal_strlit("system_prompt");
    reveal_strlit("model");
    reveal_strlit("tools");
    reveal_strlit("max_steps");
    reveal_strlit("endpoint");
    reveal_strlit("api_key");
    reveal_strlit("compaction_threshold");
    reveal_strlit("compaction_model");
    let n = agent_names();
    assert(n[0].len() == 2);
    assert(n[1].len() == 4);
    assert(n[2].len() == 13);
    assert(n[3].len() == 5);
    assert(n[4].len() == 5);
    assert(n[5].len() == 9);
    assert(n[6].len() == 8);
    assert(n[7].len() == 7);
    assert(n[8].len() == 20);
    assert(n[9].len() == 16);
    assert(n[3][0] != n[4][0]);
    assert forall|k: int, i: int| 0 <= k < i < 10 implies n[k] != n[i] by {
        if n[k] == n[i] {
            assert(n[k].len() == n[i].len());
            if k == 3 && i == 4 {
                assert(n[3][0] != n[4][0]);
            }
        }
    }
    let ms = j->Object_0@;
    assert forall|i: int| 0 <= i < 10 implies member(ms, n[i]) == Some(ms[i].1) by {
        assert(ms[i].0@ == n[i]);
        assert forall|k: int| 0 <= k < i implies ms[k].0@ != n[i] by {
            assert(ms[k].0@ == n[k]);
        }
        lemma_member_at(ms, n[i], i);
    }
    let f = record_fields(j, n, 6)->0;
    assert forall|i: int| 0 <= i < 10 implies f[i] == Some(ms[i].1) by {
        assert(f[i] == field(j, n[i]));
        assert(member(ms, n[i]) == Some(ms[i].1));
    }
    lemma_u32_text(ms[5].1, a.max_steps);
    match a.compaction_threshold {
        Some(t) => lemma_u32_text(ms[8].1, t),
        None => {},
    }
    assert(f[0] == Some(ms[0].1));
    assert(f[4] == Some(ms[4].1));
    assert(f[5] == Some(ms[5].1));
    assert(f[8] == Some(ms[8].1));
    assert(f[9] == Some(ms[9].1));
}

} // verus!
