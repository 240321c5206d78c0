//! Built-in tool plumbing: argument checks against a tool's JSON schema,
//! error results, and the todo-list tool's records.

use vstd::prelude::*;
use crate::json::{field, get, json_quote, quoted, str_of, text_of, to_text, Json};
use crate::text::{decimal, decimal_chars, parse_u64, parse_u64_spec, push_all, push_str, string_from_chars};
use crate::types::{ToolCallRequest, ToolCallResult};

verus! {

/// The first name listed under `required` in `schema` that `args` lacks.
pub open spec fn first_missing(required: Seq<Json>, args: Json) -> Option<Seq<char>>
    decreases required.len(),
{
    if required.len() == 0 {
        None
    } else {
        match required[0] {
            Json::Str(name) => if field(args, name@) is None {
                Some(name@)
            } else {
                first_missing(required.drop_first(), args)
            },
            _ => first_missing(required.drop_first(), args),
        }
    }
}

/// The names a schema requires, when its `required` member is an array.
pub open spec fn required_list(schema: Json) -> Seq<Json> {
    match field(schema, "required"@) {
        Some(Json::Array(v)) => v@,
        _ => Seq::empty(),
    }
}

/// Checks that every field a schema requires is present in the
/// arguments; the first missing one is named in the error.
pub fn validate_args_json(schema: &Json, args: &Json) -> (r: Result<(), String>)
    ensures
        match first_missing(required_list(*schema), *args) {
            None => r is Ok,
            Some(name) => r matches Err(m) && m@ == "missing required field: "@ + name,
        },
{
    let req = get(schema, "required");
    let list: &Vec<Json> = match req {
        Some(Json::Array(v)) => v,
        _ => {
            return Ok(());
        },
    };
    let ghost rl = required_list(*schema);
    assert(rl == list@);
    let mut i: usize = 0;
    assert(list@.skip(0) == list@);
    while i < list.len()
        invariant
            i <= list@.len(),
            list@ == required_list(*schema),
            first_missing(list@, *args) == first_missing(list@.skip(i as int), *args),
        decreases list.len() - i,
    {
        assert(list@.skip(i as int)[0] == list@[i as int]);
        assert(list@.skip(i as int).drop_first() == list@.skip(i + 1));
        match &list[i] {
            Json::Str(name) => {
                if get(args, name.as_str()).is_none() {
                    let mut v: Vec<char> = Vec::new();
                    push_str(&mut v, "missing required field: ");
                    push_str(&mut v, name.as_str());
                    return Err(string_from_chars(v.as_slice()));
                }
            },
            _ => {},
        }
        i += 1;
    }
    Ok(())
}

/// Checks the arguments of a tool call, both given as JSON texts: a schema
/// that does not parse fails with its parse error, then arguments that do
/// not parse with theirs; else every field the schema requires must be
/// present, the first missing one named in the error.
pub fn validate_args(schema_json: &str, args_json: &str) -> (r: Result<(), String>)
    ensures
        match (crate::json::json_of_text(schema_json@), crate::json::json_of_text(args_json@)) {
            (Err(e), _) => r matches Err(m) && m@ == e,
            (Ok(_), Err(e)) => r matches Err(m) && m@ == e,
            (Ok(schema), Ok(args)) => match first_missing(required_list(schema), args) {
                None => r is Ok,
                Some(name) => r matches Err(m) && m@ == "missing required field: "@ + name,
            },
        },
{
    let schema = match crate::json::decode_json_text(schema_json) {
        Ok(j) => j,
        Err(e) => return Err(e),
    };
    let args = match crate::json::decode_json_text(args_json) {
        Ok(j) => j,
        Err(e) => return Err(e),
    };
    validate_args_json(&schema, &args)
}

/// The output of a failed tool call: `{"error":"<message>"}`.
pub open spec fn error_json(msg: Seq<char>) -> Seq<char> {
    "{\"error\":"@ + quoted(msg) + "}"@
}

fn error_object(msg: &str) -> (s: String)
    ensures
        s@ == error_json(msg@),
{
    let mut v: Vec<char> = Vec::new();
    push_str(&mut v, "{\"error\":");
    let q = json_quote(msg);
    push_str(&mut v, q.as_str());
    push_str(&mut v, "}");
    string_from_chars(v.as_slice())
}

/// The error result of a tool call that failed with `err`.
pub fn error_result(call: &ToolCallRequest, err: &str) -> (r: ToolCallResult)
    ensures
        r.call_id@ == call.call_id@,
        r.tool_id@ == call.tool_id@,
        r.output_json@ == error_json(err@),
        r.is_error,
{
    ToolCallResult {
        call_id: call.call_id.clone(),
        tool_id: call.tool_id.clone(),
        output_json: error_object(err),
        is_error: true,
    }
}

/// The id handed to the next todo: one past the stored counter (0 when
/// absent or unreadable).
pub fn next_todo_id(stored: Option<&[u8]>) -> (n: u64)
    requires
        crate::telegram::stored_offset(match stored {
            Some(b) => Some(b@),
            None => None,
        }) < u64::MAX,
    ensures
        n == crate::telegram::stored_offset(match stored {
            Some(b) => Some(b@),
            None => None,
        }) + 1,
{
    crate::telegram::read_offset(stored) + 1
}

/// Store key of a todo.
pub fn todo_key(id: &str) -> (k: String)
    ensures
        k@ == "todo/"@ + id@,
{
    let mut v: Vec<char> = Vec::new();
    push_str(&mut v, "todo/");
    push_str(&mut v, id);
    string_from_chars(v.as_slice())
}

/// The creation stamp of a todo: seconds, a dot, nanoseconds padded to
/// nine digits.
pub fn todo_stamp(seconds: u64, nanoseconds: u32) -> (s: String)
    ensures
        s@ == decimal(seconds as nat) + "."@ + crate::text::zero_pad(decimal(nanoseconds as nat), 9),
{
    let mut v: Vec<char> = Vec::new();
    push_all(&mut v, decimal_chars(seconds).as_slice());
    push_str(&mut v, ".");
    push_all(&mut v, crate::text::padded_decimal_chars(nanoseconds as u64, 9).as_slice());
    string_from_chars(v.as_slice())
}

/// A new todo record, members in serde_json's (sorted) order.
pub open spec fn todo_record(id: Seq<char>, title: Seq<char>, description: Seq<char>, created_at: Seq<char>) -> Seq<char> {
    "{\"created_at\":"@ + quoted(created_at) + ",\"description\":"@ + quoted(description) + ",\"id\":"@ + quoted(id)
        + ",\"status\":\"pending\",\"title\":"@ + quoted(title) + "}"@
}

/// Creates a todo from the call arguments: `title` is required,
/// `description` defaults to empty. Returns the record's JSON text.
pub fn todo_create(args: &Json, id: u64, created_at: &str) -> (r: Result<String, String>)
    ensures
        match str_of(field(*args, "title"@)) {
            None => r matches Err(m) && m@ == "missing required field: title"@,
            Some(t) => r matches Ok(s) && s@ == todo_record(
                decimal(id as nat),
                t,
                match str_of(field(*args, "description"@)) {
                    Some(d) => d,
                    None => Seq::empty(),
                },
                created_at@,
            ),
        },
{
    let title = match crate::json::as_str(get(args, "title")) {
        Some(t) => t,
        None => {
            return Err("missing required field: title".to_string());
        },
    };
    let description = match crate::json::as_str(get(args, "description")) {
        Some(d) => d,
        None => String::new(),
    };
    let id_s = crate::text::decimal_string(id);
    let mut v: Vec<char> = Vec::new();
    push_str(&mut v, "{\"created_at\":");
    push_str(&mut v, json_quote(created_at).as_str());
    push_str(&mut v, ",\"description\":");
    push_str(&mut v, json_quote(description.as_str()).as_str());
    push_str(&mut v, ",\"id\":");
    push_str(&mut v, json_quote(id_s.as_str()).as_str());
    push_str(&mut v, ",\"status\":\"pending\",\"title\":");
    push_str(&mut v, json_quote(title.as_str()).as_str());
    push_str(&mut v, "}");
    Ok(string_from_chars(v.as_slice()))
}

/// Which todos `todo-list` shows.
#[derive(Clone, Copy, Debug, PartialEq, Eq, Structural)]
pub enum TodoFilter {
    Pending,
    Done,
    All,
}

/// The filter named in the call arguments: `pending`, `done`, anything
/// else (or nothing) lists all.
pub fn todo_filter(args: &Json) -> (f: TodoFilter)
    ensures
        f == match str_of(field(*args, "status"@)) {
            Some(s) => if s == "pending"@ {
                TodoFilter::Pending
            } else if s == "done"@ {
                TodoFilter::Done
            } else {
                TodoFilter::All
            },
            None => TodoFilter::All,
        },
{
    match crate::json::as_str(get(args, "status")) {
        Some(s) => if crate::text::str_eq(s.as_str(), "pending") {
            TodoFilter::Pending
        } else if crate::text::str_eq(s.as_str(), "done") {
            TodoFilter::Done
        } else {
            TodoFilter::All
        },
        None => TodoFilter::All,
    }
}

/// A todo's status: its `status` string, `pending` when it has none.
pub open spec fn todo_status(item: Json) -> Seq<char> {
    match str_of(field(item, "status"@)) {
        Some(s) => s,
        None => "pending"@,
    }
}

pub open spec fn shown(f: TodoFilter, item: Json) -> bool {
    match f {
        TodoFilter::Pending => todo_status(item) == "pending"@,
        TodoFilter::Done => todo_status(item) == "done"@,
        TodoFilter::All => true,
    }
}

pub open spec fn shown_items(f: TodoFilter, items: Seq<Json>) -> Seq<Json>
    decreases items.len(),
{
    if items.len() == 0 {
        Seq::empty()
    } else if shown(f, items.last()) {
        shown_items(f, items.drop_last()).push(items.last())
    } else {
        shown_items(f, items.drop_last())
    }
}

/// The `todo-list` answer: `{"todos":[...]}` with the todos the filter
/// shows, in store order.
pub fn todo_list(f: TodoFilter, items: Vec<Json>) -> (s: String)
    ensures
        s@ == "{\"todos\":["@ + crate::json::items_text(shown_items(f, items@)) + "]}"@,
{
    let ghost src = items@;
    let mut kept: Vec<Json> = Vec::new();
    for item in it: items
        invariant
            it.seq() == src,
            kept@ == shown_items(f, src.take(it.index() as int)),
    {
        let ghost n = it.index();
        assert(src.take(n + 1).drop_last() =~= src.take(n as int));
        assert(src.take(n + 1).last() == item);
        let keep = match f {
            TodoFilter::All => true,
            TodoFilter::Pending => is_status(&item, "pending"),
            TodoFilter::Done => is_status(&item, "done"),
        };
        if keep {
            kept.push(item);
        }
    }
    assert(src.take(src.len() as int) =~= src);
    let arr = Json::Array(kept);
    let mut v: Vec<char> = Vec::new();
    push_str(&mut v, "{\"todos\":");
    crate::json::render(&arr, &mut v);
    push_str(&mut v, "}");
    proof {
        reveal_strlit("{\"todos\":");
        reveal_strlit("{\"todos\":[");
        reveal_strlit("]}");
        reveal_strlit("}");
    }
    string_from_chars(v.as_slice())
}

fn is_status(item: &Json, status: &str) -> (r: bool)
    ensures
        r == (todo_status(*item) == status@),
{
    let st = match crate::json::as_str(get(item, "status")) {
        Some(s) => s,
        None => "pending".to_string(),
    };
    crate::text::str_eq(st.as_str(), status)
}

/// The `todo-delete` answer: `{"deleted":"<id>"}`.
pub fn todo_deleted(id: &str) -> (s: String)
    ensures
        s@ == "{\"deleted\":"@ + quoted(id@) + "}"@,
{
    let mut v: Vec<char> = Vec::new();
    push_str(&mut v, "{\"deleted\":");
    push_str(&mut v, json_quote(id).as_str());
    push_str(&mut v, "}");
    string_from_chars(v.as_slice())
}

/// The todo id named in the call arguments (required).
pub fn todo_id_arg(args: &Json) -> (r: Result<String, String>)
    ensures
        match str_of(field(*args, "id"@)) {
            Some(id) => r matches Ok(s) && s@ == id,
            None => r matches Err(m) && m@ == "missing required field: id"@,
        },
{
    match crate::json::as_str(get(args, "id")) {
        Some(id) => Ok(id),
        None => Err("missing required field: id".to_string()),
    }
}

/// Marks a stored todo done: its `status` member becomes `"done"` (added
/// last when it had none).
pub fn mark_done(item: &mut Json)
    ensures
        match *old(item) {
            Json::Object(_) => str_of(field(*final(item), "status"@)) == Some("done"@),
            _ => *final(item) == *old(item),
        },
{
    let mut taken = Json::Null;
    std::mem::swap(&mut taken, item);
    match taken {
        Json::Object(mut ms) => {
            let mut i: usize = 0;
            let mut at: Option<usize> = None;
            while i < ms.len()
                invariant_except_break
                    at is None,
                invariant
                    i <= ms@.len(),
                    forall|j: int| 0 <= j < i ==> (#[trigger] ms@[j]).0@ != "status"@,
                ensures
                    match at {
                        Some(k) => k < ms@.len() && ms@[k as int].0@ == "status"@ && forall|j: int| 0 <= j < k ==> (#[trigger] ms@[j]).0@ != "status"@,
                        None => forall|j: int| 0 <= j < ms@.len() ==> (#[trigger] ms@[j]).0@ != "status"@,
                    },
                decreases ms.len() - i,
            {
                if crate::text::str_eq(ms[i].0.as_str(), "status") {
                    at = Some(i);
                    break;
                }
                i += 1;
            }
            match at {
                Some(k) => {
                    let key = ms[k].0.clone();
                    ms.set(k, (key, Json::Str("done".to_string())));
                    proof {
                        lemma_member_prefix(ms@, k as int, "status"@);
                    }
                },
                None => {
                    let n = ms.len();
                    let ghost before = ms@;
                    ms.push(("status".to_string(), Json::Str("done".to_string())));
                    assert forall|j: int| 0 <= j < n implies (#[trigger] ms@[j]).0@ != "status"@ by {
                        assert(ms@[j] == before[j]);
                    }
                    proof {
                        lemma_member_prefix(ms@, n as int, "status"@);
                    }
                },
            }
            *item = Json::Object(ms);
        },
        other => {
            *item = other;
        },
    }
}

proof fn lemma_member_prefix(ms: Seq<(String, Json)>, i: int, key: Seq<char>)
    requires
        0 <= i < ms.len(),
        ms[i].0@ == key,
        forall|j: int| 0 <= j < i ==> (#[trigger] ms[j]).0@ != key,
    ensures
        crate::json::member(ms, key) == Some(ms[i].1),
    decreases i,
{
    if i > 0 {
        assert forall|j: int| 0 <= j < i - 1 implies (#[trigger] ms.drop_first()[j]).0@ != key by {
            assert(ms.drop_first()[j] == ms[j + 1]);
        }
        lemma_member_prefix(ms.drop_first(), i - 1, key);
    }
}

} // verus!
