//! The executor's stored task state as a JSON tree (fields in declaration
//! order, the status by name, absent options as `null`), and how a stored
//! tree is read back. Reading back what was written gives the state again.

use vstd::prelude::*;
use crate::agent_core::opt_str;
use crate::executor::{calls_view, results_view, RunStatus, TaskJson, TaskState, ToolCallSpec, ToolResultRec};
use crate::json::{field, member, Json};
use crate::records::{is_opt_str, is_str, is_u32, lemma_member_at, lemma_u32_text, opt_str_field, record_fields, req_str};
use crate::telegram::{i64_field_or_zero, signed_decimal, str_field_or};

verus! {

/// The member references a record decoder reads, one per name (see
/// `record_fields`).
pub fn record_refs<'a>(j: &'a Json, names: &[&str], required: usize) -> (r: Option<Vec<Option<&'a Json>>>)
    ensures
        match record_fields(*j, names@.map_values(|n: &str| n@), required as nat) {
            None => r is None,
            Some(fs) => r matches Some(v) && v@.len() == fs.len() && forall|i: int|
                0 <= i < fs.len() ==> fs[i] == match #[trigger] v@[i] {
                    Some(x) => Some(*x),
                    None => None,
                },
        },
{
    let ghost ns = names@.map_values(|n: &str| n@);
    let mut out: Vec<Option<&'a Json>> = Vec::new();
    match j {
        Json::Object(_) => {
            let mut i: usize = 0;
            while i < names.len()
                invariant
                    i <= names@.len(),
                    ns == names@.map_values(|n: &str| n@),
                    j is Object,
                    out@.len() == i,
                    forall|k: int| 0 <= k < i ==> field(*j, ns[k]) == match #[trigger] out@[k] {
                        Some(x) => Some(*x),
                        None => None,
                    },
                decreases names.len() - i,
            {
                out.push(crate::json::get(j, names[i]));
                i += 1;
            }
            Some(out)
        },
        Json::Array(v) => {
            if v.len() < required || v.len() > names.len() {
                return None;
            }
            let mut i: usize = 0;
            while i < names.len()
                invariant
                    i <= names@.len(),
                    required <= v@.len() <= names@.len(),
                    out@.len() == i,
                    forall|k: int| 0 <= k < i ==> #[trigger] out@[k] == (if k < v@.len() {
                        Some(&v@[k])
                    } else {
                        None
                    }),
                decreases names.len() - i,
            {
                if i < v.len() {
                    out.push(Some(&v[i]));
                } else {
                    out.push(None);
                }
                i += 1;
            }
            Some(out)
        },
        _ => None,
    }
}

/// Wire name of a task status.
pub open spec fn status_name(s: RunStatus) -> Seq<char> {
    match s {
        RunStatus::Running => "running"@,
        RunStatus::WaitingTools => "waiting_tools"@,
        RunStatus::Done => "done"@,
        RunStatus::Failed => "failed"@,
    }
}

/// The status a stored name stands for; other names are not statuses the
/// executor writes.
pub open spec fn status_of_name(s: Seq<char>) -> Option<RunStatus> {
    if s == "running"@ {
        Some(RunStatus::Running)
    } else if s == "waiting_tools"@ {
        Some(RunStatus::WaitingTools)
    } else if s == "done"@ {
        Some(RunStatus::Done)
    } else if s == "failed"@ {
        Some(RunStatus::Failed)
    } else {
        None
    }
}

pub fn status_str(s: RunStatus) -> (r: &'static str)
    ensures
        r@ == status_name(s),
{
    match s {
        RunStatus::Running => "running",
        RunStatus::WaitingTools => "waiting_tools",
        RunStatus::Done => "done",
        RunStatus::Failed => "failed",
    }
}

pub fn status_from_str(s: &str) -> (r: Option<RunStatus>)
    ensures
        r == status_of_name(s@),
{
    if crate::text::str_eq(s, "running") {
        Some(RunStatus::Running)
    } else if crate::text::str_eq(s, "waiting_tools") {
        Some(RunStatus::WaitingTools)
    } else if crate::text::str_eq(s, "done") {
        Some(RunStatus::Done)
    } else if crate::text::str_eq(s, "failed") {
        Some(RunStatus::Failed)
    } else {
        None
    }
}

/// Law: a status read back from its name is the same status.
pub proof fn lemma_status_round_trip(s: RunStatus)
    ensures
        status_of_name(status_name(s)) == Some(s),
{
    reveal_strlit("running");
    reveal_strlit("waiting_tools");
    reveal_strlit("done");
    reveal_strlit("failed");
    assert("running"@.len() == 7);
    assert("waiting_tools"@.len() == 13);
    assert("done"@.len() == 4);
    assert("failed"@.len() == 6);
}

/// Whether a value is the number `n`, written in decimal with its sign.
pub open spec fn is_i64(j: Json, n: i64) -> bool {
    j matches Json::Number(t) && t@ == signed_decimal(n as int)
}

pub proof fn lemma_i64_text(j: Json, n: i64)
    requires
        is_i64(j, n),
    ensures
        crate::json::i64_of(Some(j)) == Some(n),
{
    if n < 0 {
        let m: nat = (-(n as int)) as nat;
        crate::text::lemma_decimal_digits(m);
        assert(m <= 9_223_372_036_854_775_808);
        crate::text::lemma_parse_decimal(m as u64);
        let t = j->Number_0@;
        reveal_strlit("-");
        assert(t == seq!['-'] + crate::text::decimal(m));
        assert(t.drop_first() =~= crate::text::decimal(m));
    } else {
        crate::text::lemma_decimal_digits(n as nat);
        crate::text::lemma_parse_decimal(n as u64);
        assert(crate::text::is_digit(crate::text::decimal(n as nat)[0]));
    }
}

fn i64_json(n: i64) -> (j: Json)
    ensures
        is_i64(j, n),
{
    Json::Number(crate::telegram::signed_decimal_string(n))
}

fn u32_json(n: u32) -> (j: Json)
    ensures
        is_u32(j, n),
{
    let d = crate::text::decimal_chars(n as u64);
    Json::Number(crate::text::string_from_chars(d.as_slice()))
}

/// A `u32` field that defaults to 0.
pub open spec fn u32_or_zero(f: Option<Json>) -> Option<u32> {
    match f {
        None => Some(0),
        Some(x) => crate::gateway::u32_field(x),
    }
}

fn read_str(j: Option<&Json>) -> (r: Option<String>)
    ensures
        opt_str(r) == req_str(match j {
            Some(x) => Some(*x),
            None => None,
        }),
{
    match j {
        Some(Json::Str(s)) => Some(s.clone()),
        _ => None,
    }
}

fn read_opt_str(j: Option<&Json>) -> (r: Option<Option<String>>)
    ensures
        match opt_str_field(match j {
            Some(x) => Some(*x),
            None => None,
        }) {
            None => r is None,
            Some(o) => r matches Some(x) && opt_str(x) == o,
        },
{
    match j {
        None => Some(None),
        Some(Json::Null) => Some(None),
        Some(Json::Str(s)) => Some(Some(s.clone())),
        _ => None,
    }
}

fn read_str_or_empty(j: Option<&Json>) -> (r: Option<String>)
    ensures
        opt_str(r) == str_field_or(match j {
            Some(x) => Some(*x),
            None => None,
        }, Seq::empty()),
{
    match j {
        None => Some(String::new()),
        Some(Json::Str(s)) => Some(s.clone()),
        _ => None,
    }
}

fn read_u32_or_zero(j: Option<&Json>) -> (r: Option<u32>)
    ensures
        r == u32_or_zero(match j {
            Some(x) => Some(*x),
            None => None,
        }),
{
    match j {
        None => Some(0),
        Some(x) => match crate::json::as_u64(Some(x)) {
            Some(n) => if n <= u32::MAX as u64 {
                Some(n as u32)
            } else {
                None
            },
            None => None,
        },
    }
}

fn read_i64_or_zero(j: Option<&Json>) -> (r: Option<i64>)
    ensures
        r == i64_field_or_zero(match j {
            Some(x) => Some(*x),
            None => None,
        }),
{
    match j {
        None => Some(0),
        Some(x) => crate::json::as_i64(Some(x)),
    }
}

fn opt_json(o: &Option<String>) -> (j: Json)
    ensures
        is_opt_str(j, opt_str(*o)),
{
    match o {
        Some(s) => Json::Str(s.clone()),
        None => Json::Null,
    }
}

// ------------------------------------------------------------------ task

pub open spec fn task_names() -> Seq<Seq<char>> {
    seq!["id"@, "conversation_id"@, "agent_id"@, "input"@, "created_at"@]
}

pub open spec fn task_view(t: TaskJson) -> (Seq<char>, Seq<char>, Seq<char>, Seq<char>, Seq<char>) {
    (t.id@, t.conversation_id@, t.agent_id@, t.input@, t.created_at@)
}

/// The stored tree of a submitted task.
pub open spec fn task_tree(j: Json, t: TaskJson) -> bool {
    &&& j matches Json::Object(ms) && ms@.len() == 5
        && (forall|i: int| 0 <= i < 5 ==> #[trigger] ms@[i].0@ == task_names()[i])
        && is_str(ms@[0].1, t.id@) && is_str(ms@[1].1, t.conversation_id@) && is_str(ms@[2].1, t.agent_id@)
        && is_str(ms@[3].1, t.input@) && is_str(ms@[4].1, t.created_at@)
}

/// The task a stored tree decodes to: all five strings are required.
pub open spec fn task_of(j: Json) -> Option<(Seq<char>, Seq<char>, Seq<char>, Seq<char>, Seq<char>)> {
    match record_fields(j, task_names(), 5) {
        None => None,
        Some(f) => match (req_str(f[0]), req_str(f[1]), req_str(f[2]), req_str(f[3]), req_str(f[4])) {
            (Some(a), Some(b), Some(c), Some(d), Some(e)) => Some((a, b, c, d, e)),
            _ => None,
        },
    }
}

pub fn task_record(t: &TaskJson) -> (j: Json)
    ensures
        task_tree(j, *t),
{
    let ms: Vec<(String, Json)> = vec![
        ("id".to_string(), Json::Str(t.id.clone())),
        ("conversation_id".to_string(), Json::Str(t.conversation_id.clone())),
        ("agent_id".to_string(), Json::Str(t.agent_id.clone())),
        ("input".to_string(), Json::Str(t.input.clone())),
        ("created_at".to_string(), Json::Str(t.created_at.clone())),
    ];
    assert(forall|i: int| 0 <= i < 5 ==> #[trigger] ms@[i].0@ == task_names()[i]);
    Json::Object(ms)
}

pub fn read_task(j: &Json) -> (r: Option<TaskJson>)
    ensures
        match task_of(*j) {
            None => r is None,
            Some(v) => r matches Some(t) && task_view(t) == v,
        },
{
    let names: [&str; 5] = ["id", "conversation_id", "agent_id", "input", "created_at"];
    assert(names@.map_values(|n: &str| n@) =~= task_names());
    let f = match record_refs(j, names.as_slice(), 5) {
        Some(f) => f,
        None => return None,
    };
    let id = match read_str(f[0]) {
        Some(x) => x,
        None => return None,
    };
    let conversation_id = match read_str(f[1]) {
        Some(x) => x,
        None => return None,
    };
    let agent_id = match read_str(f[2]) {
        Some(x) => x,
        None => return None,
    };
    let input = match read_str(f[3]) {
        Some(x) => x,
        None => return None,
    };
    let created_at = match read_str(f[4]) {
        Some(x) => x,
        None => return None,
    };
    Some(TaskJson { id, conversation_id, agent_id, input, created_at })
}

proof fn lemma_distinct_names(n: Seq<Seq<char>>)
    requires
        forall|k: int, i: int| 0 <= k < i < n.len() ==> n[k].len() != n[i].len() || n[k][0] != n[i][0],
    ensures
        forall|k: int, i: int| 0 <= k < i < n.len() ==> n[k] != n[i],
{
    assert forall|k: int, i: int| 0 <= k < i < n.len() implies n[k] != n[i] by {
        if n[k] == n[i] {
            assert(n[k].len() == n[i].len());
        }
    }
}

/// Members of an object whose names are distinct and in order are found
/// where they stand.
proof fn lemma_members_in_order(j: Json, n: Seq<Seq<char>>)
    requires
        j is Object,
        j->Object_0@.len() == n.len(),
        forall|i: int| 0 <= i < n.len() ==> #[trigger] j->Object_0@[i].0@ == n[i],
        forall|k: int, i: int| 0 <= k < i < n.len() ==> n[k] != n[i],
    ensures
        forall|i: int| 0 <= i < n.len() ==> #[trigger] field(j, n[i]) == Some(j->Object_0@[i].1),
{
    let ms = j->Object_0@;
    assert forall|i: int| 0 <= i < n.len() implies #[trigger] field(j, n[i]) == Some(ms[i].1) by {
        assert(ms[i].0@ == n[i]);
        assert forall|k: int| 0 <= k < i implies ms[k].0@ != n[i] by {
            assert(ms[k].0@ == n[k]);
        }
        lemma_member_at(ms, n[i], i);
    }
}

/// Law: a task read back from the tree written for it is the same task.
pub proof fn lemma_task_round_trip(t: TaskJson, j: Json)
    requires
        task_tree(j, t),
    ensures
        task_of(j) == Some(task_view(t)),
{
    reveal_strlit("id");
    reveal_strlit("conversation_id");
    reveal_strlit("agent_id");
    reveal_strlit("input");
    reveal_strlit("created_at");
    let n = task_names();
    assert(n[0].len() == 2);
    assert(n[1].len() == 15);
    assert(n[2].len() == 8);
    assert(n[3].len() == 5);
    assert(n[4].len() == 10);
    lemma_distinct_names(n);
    lemma_members_in_order(j, n);
    let f = record_fields(j, n, 5)->0;
    assert forall|i: int| 0 <= i < 5 implies f[i] == Some(j->Object_0@[i].1) by {
        assert(f[i] == field(j, n[i]));
    }
}

// ------------------------------------------------------------- tool call

pub open spec fn call_names() -> Seq<Seq<char>> {
    seq!["id"@, "name"@, "arguments"@]
}

/// The stored tree of a pending tool call.
pub open spec fn call_tree(j: Json, c: ToolCallSpec) -> bool {
    &&& j matches Json::Object(ms) && ms@.len() == 3
        && (forall|i: int| 0 <= i < 3 ==> #[trigger] ms@[i].0@ == call_names()[i])
        && is_str(ms@[0].1, c.id@) && is_str(ms@[1].1, c.name@) && is_str(ms@[2].1, c.arguments@)
}

pub open spec fn call_of(j: Json) -> Option<(Seq<char>, Seq<char>, Seq<char>)> {
    match record_fields(j, call_names(), 3) {
        None => None,
        Some(f) => match (req_str(f[0]), req_str(f[1]), req_str(f[2])) {
            (Some(a), Some(b), Some(c)) => Some((a, b, c)),
            _ => None,
        },
    }
}

fn call_record(c: &ToolCallSpec) -> (j: Json)
    ensures
        call_tree(j, *c),
{
    let ms: Vec<(String, Json)> = vec![
        ("id".to_string(), Json::Str(c.id.clone())),
        ("name".to_string(), Json::Str(c.name.clone())),
        ("arguments".to_string(), Json::Str(c.arguments.clone())),
    ];
    assert(forall|i: int| 0 <= i < 3 ==> #[trigger] ms@[i].0@ == call_names()[i]);
    Json::Object(ms)
}

fn read_call(j: &Json) -> (r: Option<ToolCallSpec>)
    ensures
        match call_of(*j) {
            None => r is None,
            Some(v) => r matches Some(c) && c@ == v,
        },
{
    let names: [&str; 3] = ["id", "name", "arguments"];
    assert(names@.map_values(|n: &str| n@) =~= call_names());
    let f = match record_refs(j, names.as_slice(), 3) {
        Some(f) => f,
        None => return None,
    };
    let id = match read_str(f[0]) {
        Some(x) => x,
        None => return None,
    };
    let name = match read_str(f[1]) {
        Some(x) => x,
        None => return None,
    };
    let arguments = match read_str(f[2]) {
        Some(x) => x,
        None => return None,
    };
    Some(ToolCallSpec { id, name, arguments })
}

proof fn lemma_call_round_trip(c: ToolCallSpec, j: Json)
    requires
        call_tree(j, c),
    ensures
        call_of(j) == Some(c@),
{
    reveal_strlit("id");
    reveal_strlit("name");
    reveal_strlit("arguments");
    let n = call_names();
    assert(n[0].len() == 2);
    assert(n[1].len() == 4);
    assert(n[2].len() == 9);
    lemma_distinct_names(n);
    lemma_members_in_order(j, n);
    let f = record_fields(j, n, 3)->0;
    assert forall|i: int| 0 <= i < 3 implies f[i] == Some(j->Object_0@[i].1) by {
        assert(f[i] == field(j, n[i]));
    }
}

// ----------------------------------------------------------- tool result

pub open spec fn result_names() -> Seq<Seq<char>> {
    seq!["id"@, "name"@, "output"@, "error"@]
}

/// The stored tree of a collected tool result.
pub open spec fn result_tree(j: Json, r: ToolResultRec) -> bool {
    &&& j matches Json::Object(ms) && ms@.len() == 4
        && (forall|i: int| 0 <= i < 4 ==> #[trigger] ms@[i].0@ == result_names()[i])
        && is_str(ms@[0].1, r.id@) && is_str(ms@[1].1, r.name@) && is_opt_str(ms@[2].1, opt_str(r.output))
        && is_opt_str(ms@[3].1, opt_str(r.error))
}

pub open spec fn result_of(j: Json) -> Option<(Seq<char>, Seq<char>, Option<Seq<char>>, Option<Seq<char>>)> {
    match record_fields(j, result_names(), 4) {
        None => None,
        Some(f) => match (req_str(f[0]), req_str(f[1]), opt_str_field(f[2]), opt_str_field(f[3])) {
            (Some(a), Some(b), Some(c), Some(d)) => Some((a, b, c, d)),
            _ => None,
        },
    }
}

fn result_record(r: &ToolResultRec) -> (j: Json)
    ensures
        result_tree(j, *r),
{
    let ms: Vec<(String, Json)> = vec![
        ("id".to_string(), Json::Str(r.id.clone())),
        ("name".to_string(), Json::Str(r.name.clone())),
        ("output".to_string(), opt_json(&r.output)),
        ("error".to_string(), opt_json(&r.error)),
    ];
    assert(forall|i: int| 0 <= i < 4 ==> #[trigger] ms@[i].0@ == result_names()[i]);
    Json::Object(ms)
}

fn read_result(j: &Json) -> (r: Option<ToolResultRec>)
    ensures
        match result_of(*j) {
            None => r is None,
            Some(v) => r matches Some(x) && x@ == v,
        },
{
    let names: [&str; 4] = ["id", "name", "output", "error"];
    assert(names@.map_values(|n: &str| n@) =~= result_names());
    let f = match record_refs(j, names.as_slice(), 4) {
        Some(f) => f,
        None => return None,
    };
    let id = match read_str(f[0]) {
        Some(x) => x,
        None => return None,
    };
    let name = match read_str(f[1]) {
        Some(x) => x,
        None => return None,
    };
    let output = match read_opt_str(f[2]) {
        Some(x) => x,
        None => return None,
    };
    let error = match read_opt_str(f[3]) {
        Some(x) => x,
        None => return None,
    };
    Some(ToolResultRec { id, name, output, error })
}

proof fn lemma_result_round_trip(r: ToolResultRec, j: Json)
    requires
        result_tree(j, r),
    ensures
        result_of(j) == Some(r@),
{
    reveal_strlit("id");
    reveal_strlit("name");
    reveal_strlit("output");
    reveal_strlit("error");
    let n = result_names();
    assert(n[0].len() == 2);
    assert(n[1].len() == 4);
    assert(n[2].len() == 6);
    assert(n[3].len() == 5);
    lemma_distinct_names(n);
    lemma_members_in_order(j, n);
    let f = record_fields(j, n, 4)->0;
    assert forall|i: int| 0 <= i < 4 implies f[i] == Some(j->Object_0@[i].1) by {
        assert(f[i] == field(j, n[i]));
    }
}

// ----------------------------------------------------------------- lists

/// The stored tree of the pending calls.
pub open spec fn call_list_tree(j: Json, v: Seq<ToolCallSpec>) -> bool {
    j matches Json::Array(items) && items@.len() == v.len() && forall|i: int|
        0 <= i < v.len() ==> call_tree(#[trigger] items@[i], v[i])
}

/// The calls a stored list decodes to: every entry must be a call.
pub open spec fn calls_of(j: Json) -> Option<Seq<(Seq<char>, Seq<char>, Seq<char>)>> {
    match j {
        Json::Array(items) => if forall|i: int| 0 <= i < items@.len() ==> (#[trigger] call_of(items@[i])) is Some {
            Some(items@.map_values(|x: Json| call_of(x)->0))
        } else {
            None
        },
        _ => None,
    }
}

/// The stored tree of the collected results.
pub open spec fn result_list_tree(j: Json, v: Seq<ToolResultRec>) -> bool {
    j matches Json::Array(items) && items@.len() == v.len() && forall|i: int|
        0 <= i < v.len() ==> result_tree(#[trigger] items@[i], v[i])
}

pub open spec fn results_of(j: Json) -> Option<Seq<(Seq<char>, Seq<char>, Option<Seq<char>>, Option<Seq<char>>)>> {
    match j {
        Json::Array(items) => if forall|i: int| 0 <= i < items@.len() ==> (#[trigger] result_of(items@[i])) is Some {
            Some(items@.map_values(|x: Json| result_of(x)->0))
        } else {
            None
        },
        _ => None,
    }
}

fn call_list(v: &Vec<ToolCallSpec>) -> (j: Json)
    ensures
        call_list_tree(j, v@),
{
    let mut items: Vec<Json> = Vec::new();
    let mut i: usize = 0;
    while i < v.len()
        invariant
            i <= v@.len(),
            items@.len() == i,
            forall|k: int| 0 <= k < i ==> call_tree(#[trigger] items@[k], v@[k]),
        decreases v.len() - i,
    {
        items.push(call_record(&v[i]));
        i += 1;
    }
    Json::Array(items)
}

fn result_list(v: &Vec<ToolResultRec>) -> (j: Json)
    ensures
        result_list_tree(j, v@),
{
    let mut items: Vec<Json> = Vec::new();
    let mut i: usize = 0;
    while i < v.len()
        invariant
            i <= v@.len(),
            items@.len() == i,
            forall|k: int| 0 <= k < i ==> result_tree(#[trigger] items@[k], v@[k]),
        decreases v.len() - i,
    {
        items.push(result_record(&v[i]));
        i += 1;
    }
    Json::Array(items)
}

fn read_calls(j: Option<&Json>) -> (r: Option<Vec<ToolCallSpec>>)
    ensures
        match j {
            None => r matches Some(v) && v@.len() == 0,
            Some(x) => match calls_of(*x) {
                None => r is None,
                Some(cs) => r matches Some(v) && calls_view(v@) == cs,
            },
        },
{
    match j {
        None => Some(Vec::new()),
        Some(Json::Array(items)) => {
            let mut out: Vec<ToolCallSpec> = Vec::new();
            let mut i: usize = 0;
            while i < items.len()
                invariant
                    i <= items@.len(),
                    out@.len() == i,
                    match j {
                        Some(x) => *x == Json::Array(*items),
                        None => false,
                    },
                    forall|k: int| 0 <= k < i ==> (#[trigger] call_of(items@[k])) is Some,
                    forall|k: int| 0 <= k < i ==> Some((#[trigger] out@[k])@) == call_of(items@[k]),
                decreases items.len() - i,
            {
                match read_call(&items[i]) {
                    Some(c) => out.push(c),
                    None => return None,
                }
                i += 1;
            }
            assert(calls_view(out@) =~= items@.map_values(|x: Json| call_of(x)->0));
            Some(out)
        },
        Some(_) => None,
    }
}

fn read_results(j: Option<&Json>) -> (r: Option<Vec<ToolResultRec>>)
    ensures
        match j {
            None => r matches Some(v) && v@.len() == 0,
            Some(x) => match results_of(*x) {
                None => r is None,
                Some(rs) => r matches Some(v) && results_view(v@) == rs,
            },
        },
{
    match j {
        None => Some(Vec::new()),
        Some(Json::Array(items)) => {
            let mut out: Vec<ToolResultRec> = Vec::new();
            let mut i: usize = 0;
            while i < items.len()
                invariant
                    i <= items@.len(),
                    out@.len() == i,
                    match j {
                        Some(x) => *x == Json::Array(*items),
                        None => false,
                    },
                    forall|k: int| 0 <= k < i ==> (#[trigger] result_of(items@[k])) is Some,
                    forall|k: int| 0 <= k < i ==> Some((#[trigger] out@[k])@) == result_of(items@[k]),
                decreases items.len() - i,
            {
                match read_result(&items[i]) {
                    Some(c) => out.push(c),
                    None => return None,
                }
                i += 1;
            }
            assert(results_view(out@) =~= items@.map_values(|x: Json| result_of(x)->0));
            Some(out)
        },
        Some(_) => None,
    }
}

// ------------------------------------------------------------ task state

pub open spec fn state_names() -> Seq<Seq<char>> {
    seq![
        "task"@,
        "status"@,
        "output"@,
        "error"@,
        "step"@,
        "pending_tool_calls"@,
        "tool_results"@,
        "progress_message_id"@,
        "chat_id"@,
        "max_steps"@,
        "run_id"@,
    ]
}

pub type StateView = (
    (Seq<char>, Seq<char>, Seq<char>, Seq<char>, Seq<char>),
    RunStatus,
    Option<Seq<char>>,
    Option<Seq<char>>,
    u32,
    Seq<(Seq<char>, Seq<char>, Seq<char>)>,
    Seq<(Seq<char>, Seq<char>, Option<Seq<char>>, Option<Seq<char>>)>,
    i64,
    Seq<char>,
    u32,
    Seq<char>,
);

/// The characters of a task state.
pub open spec fn state_view(s: TaskState) -> StateView {
    (
        task_view(s.task),
        s.status,
        opt_str(s.output),
        opt_str(s.error),
        s.step,
        calls_view(s.pending_tool_calls@),
        results_view(s.tool_results@),
        s.progress_message_id,
        s.chat_id@,
        s.max_steps,
        s.run_id@,
    )
}

/// The stored tree of a task state: the task, the status by name, output
/// and error (`null` when none), the step, the pending calls, the collected
/// results, the progress message, the chat, the step budget and the run.
pub open spec fn state_tree(j: Json, s: TaskState) -> bool {
    &&& j matches Json::Object(ms) && ms@.len() == 11
        && (forall|i: int| 0 <= i < 11 ==> #[trigger] ms@[i].0@ == state_names()[i])
        && task_tree(ms@[0].1, s.task) && is_str(ms@[1].1, status_name(s.status))
        && is_opt_str(ms@[2].1, opt_str(s.output)) && is_opt_str(ms@[3].1, opt_str(s.error))
        && is_u32(ms@[4].1, s.step) && call_list_tree(ms@[5].1, s.pending_tool_calls@)
        && result_list_tree(ms@[6].1, s.tool_results@) && is_i64(ms@[7].1, s.progress_message_id)
        && is_str(ms@[8].1, s.chat_id@) && is_u32(ms@[9].1, s.max_steps) && is_str(ms@[10].1, s.run_id@)
}

/// A list field that defaults to empty.
pub open spec fn calls_or_empty(f: Option<Json>) -> Option<Seq<(Seq<char>, Seq<char>, Seq<char>)>> {
    match f {
        None => Some(Seq::empty()),
        Some(x) => calls_of(x),
    }
}

pub open spec fn results_or_empty(f: Option<Json>) -> Option<Seq<(Seq<char>, Seq<char>, Option<Seq<char>>, Option<Seq<char>>)>> {
    match f {
        None => Some(Seq::empty()),
        Some(x) => results_of(x),
    }
}

/// A required task field.
pub open spec fn req_task(f: Option<Json>) -> Option<(Seq<char>, Seq<char>, Seq<char>, Seq<char>, Seq<char>)> {
    match f {
        Some(x) => task_of(x),
        None => None,
    }
}

/// A required status field: one of the four names the executor writes.
pub open spec fn req_status(f: Option<Json>) -> Option<RunStatus> {
    match req_str(f) {
        Some(n) => status_of_name(n),
        None => None,
    }
}

/// The task state a stored tree decodes to: task, status, output and error
/// are required (output and error may be `null`, and in an object may be
/// missing); the rest default to zero, empty lists and empty strings.
pub open spec fn state_of(j: Json) -> Option<StateView> {
    match record_fields(j, state_names(), 4) {
        None => None,
        Some(f) => {
            let task = req_task(f[0]);
            let status = req_status(f[1]);
            let output = opt_str_field(f[2]);
            let error = opt_str_field(f[3]);
            let step = u32_or_zero(f[4]);
            let pending = calls_or_empty(f[5]);
            let results = results_or_empty(f[6]);
            let progress = i64_field_or_zero(f[7]);
            let chat = str_field_or(f[8], Seq::empty());
            let max = u32_or_zero(f[9]);
            let run = str_field_or(f[10], Seq::empty());
            if task is Some && status is Some && output is Some && error is Some && step is Some && pending is Some
                && results is Some && progress is Some && chat is Some && max is Some && run is Some {
                Some(
                    (
                        task->0,
                        status->0,
                        output->0,
                        error->0,
                        step->0,
                        pending->0,
                        results->0,
                        progress->0,
                        chat->0,
                        max->0,
                        run->0,
                    ),
                )
            } else {
                None
            }
        },
    }
}

/// The stored tree of a task state.
pub fn state_record(s: &TaskState) -> (j: Json)
    ensures
        state_tree(j, *s),
{
    let ms: Vec<(String, Json)> = vec![
        ("task".to_string(), task_record(&s.task)),
        ("status".to_string(), Json::Str(status_str(s.status).to_string())),
        ("output".to_string(), opt_json(&s.output)),
        ("error".to_string(), opt_json(&s.error)),
        ("step".to_string(), u32_json(s.step)),
        ("pending_tool_calls".to_string(), call_list(&s.pending_tool_calls)),
        ("tool_results".to_string(), result_list(&s.tool_results)),
        ("progress_message_id".to_string(), i64_json(s.progress_message_id)),
        ("chat_id".to_string(), Json::Str(s.chat_id.clone())),
        ("max_steps".to_string(), u32_json(s.max_steps)),
        ("run_id".to_string(), Json::Str(s.run_id.clone())),
    ];
    assert(forall|i: int| 0 <= i < 11 ==> #[trigger] ms@[i].0@ == state_names()[i]);
    Json::Object(ms)
}

/// Reads a stored task state.
#[verifier::rlimit(60)]
pub fn read_state(j: &Json) -> (r: Option<TaskState>)
    ensures
        match state_of(*j) {
            None => r is None,
            Some(v) => r matches Some(s) && state_view(s) == v,
        },
{
    let names: [&str; 11] = [
        "task",
        "status",
        "output",
        "error",
        "step",
        "pending_tool_calls",
        "tool_results",
        "progress_message_id",
        "chat_id",
        "max_steps",
        "run_id",
    ];
    assert(names@.map_values(|n: &str| n@) =~= state_names());
    let f = match record_refs(j, names.as_slice(), 4) {
        Some(f) => f,
        None => return None,
    };
    let task = match f[0] {
        Some(x) => match read_task(x) {
            Some(t) => t,
            None => return None,
        },
        None => return None,
    };
    let status = match read_str(f[1]) {
        Some(n) => match status_from_str(n.as_str()) {
            Some(st) => st,
            None => return None,
        },
        None => return None,
    };
    let output = match read_opt_str(f[2]) {
        Some(x) => x,
        None => return None,
    };
    let error = match read_opt_str(f[3]) {
        Some(x) => x,
        None => return None,
    };
    let step = match read_u32_or_zero(f[4]) {
        Some(x) => x,
        None => return None,
    };
    let pending_tool_calls = match read_calls(f[5]) {
        Some(x) => x,
        None => return None,
    };
    let tool_results = match read_results(f[6]) {
        Some(x) => x,
        None => return None,
    };
    let progress_message_id = match read_i64_or_zero(f[7]) {
        Some(x) => x,
        None => return None,
    };
    let chat_id = match read_str_or_empty(f[8]) {
        Some(x) => x,
        None => return None,
    };
    let max_steps = match read_u32_or_zero(f[9]) {
        Some(x) => x,
        None => return None,
    };
    let run_id = match read_str_or_empty(f[10]) {
        Some(x) => x,
        None => return None,
    };
    proof {
        assert(calls_or_empty(match f[5] {
            Some(x) => Some(*x),
            None => None,
        }) == Some(calls_view(pending_tool_calls@)));
        assert(results_or_empty(match f[6] {
            Some(x) => Some(*x),
            None => None,
        }) == Some(results_view(tool_results@)));
    }
    Some(
        TaskState {
            task,
            status,
            output,
            error,
            step,
            pending_tool_calls,
            tool_results,
            progress_message_id,
            chat_id,
            max_steps,
            run_id,
        },
    )
}

proof fn lemma_call_list_round_trip(j: Json, v: Seq<ToolCallSpec>)
    requires
        call_list_tree(j, v),
    ensures
        calls_of(j) == Some(calls_view(v)),
{
    let items = j->Array_0@;
    assert forall|i: int| 0 <= i < items.len() implies #[trigger] call_of(items[i]) == Some(v[i]@) by {
        lemma_call_round_trip(v[i], items[i]);
    }
    assert(items.map_values(|x: Json| call_of(x)->0) =~= calls_view(v));
}

proof fn lemma_result_list_round_trip(j: Json, v: Seq<ToolResultRec>)
    requires
        result_list_tree(j, v),
    ensures
        results_of(j) == Some(results_view(v)),
{
    let items = j->Array_0@;
    assert forall|i: int| 0 <= i < items.len() implies #[trigger] result_of(items[i]) == Some(v[i]@) by {
        lemma_result_round_trip(v[i], items[i]);
    }
    assert(items.map_values(|x: Json| result_of(x)->0) =~= results_view(v));
}

/// Law: a task state read back from the tree written for it is the same
/// state: its task, status, output, error, step, pending calls, collected
/// results, progress message, chat, budget and run.
pub proof fn lemma_state_round_trip(s: TaskState, j: Json)
    requires
        state_tree(j, s),
    ensures
        state_of(j) == Some(state_view(s)),
{
    reveal_strlit("task");
    reveal_strlit("status");
    reveal_strlit("output");
    reveal_strlit("error");
    reveal_strlit("step");
    reveal_strlit("pending_tool_calls");
    reveal_strlit("tool_results");
    reveal_strlit("progress_message_id");
    reveal_strlit("chat_id");
    reveal_strlit("max_steps");
    reveal_strlit("run_id");
    let n = state_names();
    assert(n[0].len() == 4 && n[0][0] == 't');
    assert(n[1].len() == 6 && n[1][0] == 's');
    assert(n[2].len() == 6 && n[2][0] == 'o');
    assert(n[3].len() == 5);
    assert(n[4].len() == 4 && n[4][0] == 's');
    assert(n[5].len() == 18);
    assert(n[6].len() == 12);
    assert(n[7].len() == 19);
    assert(n[8].len() == 7);
    assert(n[9].len() == 9);
    assert(n[10].len() == 6 && n[10][0] == 'r');
    lemma_distinct_names(n);
    lemma_members_in_order(j, n);
    let ms = j->Object_0@;
    let f = record_fields(j, n, 4)->0;
    assert forall|i: int| 0 <= i < 11 implies f[i] == Some(ms[i].1) by {
        assert(f[i] == field(j, n[i]));
    }
    lemma_task_round_trip(s.task, ms[0].1);
    lemma_status_round_trip(s.status);
    lemma_u32_text(ms[4].1, s.step);
    lemma_call_list_round_trip(ms[5].1, s.pending_tool_calls@);
    lemma_result_list_round_trip(ms[6].1, s.tool_results@);
    lemma_i64_text(ms[7].1, s.progress_message_id);
    lemma_u32_text(ms[9].1, s.max_steps);
    assert(f[0] == Some(ms[0].1));
    assert(f[1] == Some(ms[1].1));
    assert(f[4] == Some(ms[4].1));
    assert(f[5] == Some(ms[5].1));
    assert(f[6] == Some(ms[6].1));
    assert(f[7] == Some(ms[7].1));
    assert(f[8] == Some(ms[8].1));
    assert(f[9] == Some(ms[9].1));
    assert(f[10] == Some(ms[10].1));
}

} // verus!
