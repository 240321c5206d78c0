//! The bundled skills' answers: the clock, the web fetcher, the demo text
//! tools and the calculator's result message.

use vstd::prelude::*;
use crate::json::{field, get, json_quote, quoted, str_of, Json};
use crate::text::{push_str, string_from_chars};
use crate::types::{ToolCallRequest, ToolCallResult};

verus! {

/// The clock skill's answer: `{"now":"<timestamp>"}`.
pub fn time_result(call: &ToolCallRequest, ts: &str) -> (r: ToolCallResult)
    ensures
        r.call_id@ == call.call_id@,
        r.tool_id@ == call.tool_id@,
        r.output_json@ == "{\"now\":"@ + quoted(ts@) + "}"@,
        !r.is_error,
{
    let mut v: Vec<char> = Vec::new();
    push_str(&mut v, "{\"now\":");
    push_str(&mut v, json_quote(ts).as_str());
    push_str(&mut v, "}");
    ToolCallResult {
        call_id: call.call_id.clone(),
        tool_id: call.tool_id.clone(),
        output_json: string_from_chars(v.as_slice()),
        is_error: false,
    }
}

/// What `std::string::String::from_utf8_lossy` makes of bytes.
pub uninterp spec fn lossy_text(b: Seq<u8>) -> Seq<char>;

/// Trusted: `String::from_utf8_lossy` (std) replaces invalid sequences by
/// U+FFFD; valid UTF-8 is decoded unchanged, per its documentation.
#[verifier::external_body]
pub fn utf8_lossy(b: &[u8]) -> (s: String)
    ensures
        s@ == lossy_text(b@),
        vstd::utf8::valid_utf8(b@) ==> s@ == vstd::utf8::decode_utf8(b@),
{
    String::from_utf8_lossy(b).to_string()
}

/// At most the first 4096 bytes of a fetched body, as text.
pub fn body_text(buf: &[u8]) -> (s: String)
    ensures
        s@ == lossy_text(if buf@.len() <= 4096 { buf@ } else { buf@.take(4096) }),
{
    let n = if buf.len() <= 4096 { buf.len() } else { 4096 };
    let mut v: Vec<u8> = Vec::new();
    let mut i: usize = 0;
    while i < n
        invariant
            i <= n <= buf@.len(),
            n == if buf@.len() <= 4096 { buf@.len() } else { 4096 },
            v@ == buf@.take(i as int),
        decreases n - i,
    {
        v.push(buf[i]);
        assert(buf@.take(i + 1) == buf@.take(i as int).push(buf@[i as int]));
        i += 1;
    }
    assert(buf@.len() <= 4096 ==> buf@.take(n as int) == buf@);
    utf8_lossy(v.as_slice())
}

/// The web fetcher's url argument, empty when absent.
pub open spec fn url_arg(args: Option<Json>) -> Seq<char> {
    match args {
        Some(j) => match str_of(field(j, "url"@)) {
            Some(u) => u,
            None => Seq::empty(),
        },
        None => Seq::empty(),
    }
}

pub fn fetch_url(args: &Option<Json>) -> (u: String)
    ensures
        u@ == url_arg(*args),
{
    proof {
        reveal_strlit("");
    }
    match args {
        Some(j) => match crate::json::as_str(get(j, "url")) {
            Some(u) => u,
            None => "".to_string(),
        },
        None => "".to_string(),
    }
}

/// The web fetcher's answer: the body as `{"body":..}`, an error as
/// `{"error":..}`; a call without a url is refused before fetching.
pub fn fetch_result(call: &ToolCallRequest, url: &str, fetched: Result<String, String>) -> (r: ToolCallResult)
    ensures
        r.call_id@ == call.call_id@,
        r.tool_id@ == call.tool_id@,
        url@.len() == 0 ==> r.is_error && r.output_json@ == crate::tools::error_json("missing url argument"@),
        url@.len() > 0 ==> match fetched {
            Ok(t) => !r.is_error && r.output_json@ == "{\"body\":"@ + quoted(t@) + "}"@,
            Err(e) => r.is_error && r.output_json@ == crate::tools::error_json(e@),
        },
{
    let mut v: Vec<char> = Vec::new();
    let is_error;
    if url.is_empty() {
        push_str(&mut v, "{\"error\":");
        push_str(&mut v, json_quote("missing url argument").as_str());
        push_str(&mut v, "}");
        is_error = true;
    } else {
        match fetched {
            Ok(t) => {
                push_str(&mut v, "{\"body\":");
                push_str(&mut v, json_quote(t.as_str()).as_str());
                push_str(&mut v, "}");
                is_error = false;
            },
            Err(e) => {
                push_str(&mut v, "{\"error\":");
                push_str(&mut v, json_quote(e.as_str()).as_str());
                push_str(&mut v, "}");
                is_error = true;
            },
        }
    }
    ToolCallResult {
        call_id: call.call_id.clone(),
        tool_id: call.tool_id.clone(),
        output_json: string_from_chars(v.as_slice()),
        is_error,
    }
}

/// What `str::to_uppercase` (std) makes of a text.
pub uninterp spec fn upper_of(s: Seq<char>) -> Seq<char>;

/// Trusted: `str::to_uppercase` (std, full Unicode case mapping); its
/// result is a function of the text alone.
#[verifier::external_body]
fn to_upper(s: &str) -> (u: String)
    ensures
        u@ == upper_of(s@),
{
    s.to_uppercase()
}

/// A text with its characters in reverse order.
pub fn reversed(s: &str) -> (r: String)
    ensures
        r@ == s@.reverse(),
{
    let c = crate::text::chars_of(s);
    let mut v: Vec<char> = Vec::new();
    let mut i: usize = c.len();
    while i > 0
        invariant
            i <= c@.len(),
            c@ == s@,
            v@ == c@.skip(i as int).reverse(),
        decreases i,
    {
        assert(c@.skip(i - 1).reverse() =~= c@.skip(i as int).reverse().push(c@[i - 1]));
        v.push(c[i - 1]);
        i -= 1;
    }
    assert(c@.skip(0) == c@);
    string_from_chars(v.as_slice())
}

/// The demo text tools: `text-upper` and `text-reverse` over the required
/// `text` argument, answered as `{"result":..}`.
pub fn demo_call(name: &str, args: &Json) -> (r: Result<String, String>)
    ensures
        match str_of(field(*args, "text"@)) {
            None => r matches Err(m) && m@ == "missing required field: text"@,
            Some(t) => if name@ == "text-upper"@ {
                r matches Ok(o) && o@ == "{\"result\":"@ + quoted(upper_of(t)) + "}"@
            } else if name@ == "text-reverse"@ {
                r matches Ok(o) && o@ == "{\"result\":"@ + quoted(t.reverse()) + "}"@
            } else {
                r matches Err(m) && m@ == "unknown tool: "@ + name@
            },
        },
{
    let text = match crate::json::as_str(get(args, "text")) {
        Some(t) => t,
        None => {
            return Err("missing required field: text".to_string());
        },
    };
    let result = if crate::text::str_eq(name, "text-upper") {
        to_upper(text.as_str())
    } else if crate::text::str_eq(name, "text-reverse") {
        reversed(text.as_str())
    } else {
        let mut v: Vec<char> = Vec::new();
        push_str(&mut v, "unknown tool: ");
        push_str(&mut v, name);
        return Err(string_from_chars(v.as_slice()));
    };
    let mut v: Vec<char> = Vec::new();
    push_str(&mut v, "{\"result\":");
    push_str(&mut v, json_quote(result.as_str()).as_str());
    push_str(&mut v, "}");
    Ok(string_from_chars(v.as_slice()))
}

/// The calculator's published result, members in sorted order: the value
/// text or the error, the other `null`.
pub fn calc_result(task_id: &str, call_id: &str, outcome: &Result<String, String>) -> (s: String)
    ensures
        s@ == "{\"call_id\":"@ + quoted(call_id@) + ",\"error\":"@ + match outcome {
            Ok(_) => "null"@,
            Err(e) => quoted(e@),
        } + ",\"output\":"@ + match outcome {
            Ok(o) => quoted(o@),
            Err(_) => "null"@,
        } + ",\"task_id\":"@ + quoted(task_id@) + "}"@,
{
    let mut v: Vec<char> = Vec::new();
    push_str(&mut v, "{\"call_id\":");
    push_str(&mut v, json_quote(call_id).as_str());
    push_str(&mut v, ",\"error\":");
    match outcome {
        Ok(_) => push_str(&mut v, "null"),
        Err(e) => push_str(&mut v, json_quote(e.as_str()).as_str()),
    }
    push_str(&mut v, ",\"output\":");
    match outcome {
        Ok(o) => push_str(&mut v, json_quote(o.as_str()).as_str()),
        Err(_) => push_str(&mut v, "null"),
    }
    push_str(&mut v, ",\"task_id\":");
    push_str(&mut v, json_quote(task_id).as_str());
    push_str(&mut v, "}");
    string_from_chars(v.as_slice())
}

/// The calculator's request fields: task id and call id (empty when
/// absent) and the raw arguments (`{}` when absent).
pub fn calc_request(req: &Json) -> (r: (String, String, String))
    ensures
        r.0@ == crate::dispatch::str_or(*req, "task_id"@, Seq::empty()),
        r.1@ == crate::dispatch::str_or(*req, "call_id"@, Seq::empty()),
        r.2@ == crate::dispatch::str_or(*req, "arguments"@, "{}"@),
{
    crate::dispatch::call_envelope(req)
}

/// The expression argument of a calculator call, empty when absent or
/// when the arguments did not parse.
pub fn expr_arg(args: &Option<Json>) -> (e: String)
    ensures
        e@ == match args {
            Some(j) => match str_of(field(*j, "expr"@)) {
                Some(x) => x,
                None => Seq::empty(),
            },
            None => Seq::empty(),
        },
{
    proof {
        reveal_strlit("");
    }
    match args {
        Some(j) => match crate::json::as_str(get(j, "expr")) {
            Some(x) => x,
            None => "".to_string(),
        },
        None => "".to_string(),
    }
}

} // verus!
