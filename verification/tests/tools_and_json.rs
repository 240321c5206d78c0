use mycelium::calc::{parse, Expr, Parser};
use mycelium::compaction::{compacted_history, plan_compaction, rewrite_history, summary_request, total_chars, transcript, usable_summary, CompactionPlan};
use mycelium::json::{as_i64, as_u64, get, json_quote, to_text, Json};
use mycelium::store::new_message;
use mycelium::tools::{
    error_result, mark_done, next_todo_id, todo_create, todo_deleted, todo_filter, todo_id_arg, todo_key, todo_list,
    todo_stamp, validate_args, validate_args_json, TodoFilter,
};
use mycelium::types::{MessageRole, ToolCallRequest};

fn s(x: &str) -> Json {
    Json::Str(x.to_string())
}

fn obj(ms: Vec<(&str, Json)>) -> Json {
    Json::Object(ms.into_iter().map(|(k, v)| (k.to_string(), v)).collect())
}

#[test]
fn json_strings_are_escaped_like_serde_json() {
    assert_eq!(json_quote("a\"b\n\u{1}/é"), "\"a\\\"b\\n\\u0001/é\"");
    assert_eq!(json_quote("tab\there"), serde_json::to_string("tab\there").unwrap());
}

#[test]
fn json_rendering_and_lookup() {
    let j = obj(vec![("a", Json::Number("1".into())), ("b", Json::Array(vec![Json::Null, Json::Bool(true), s("x")])), ("c", obj(vec![]))]);
    assert_eq!(to_text(&j), "{\"a\":1,\"b\":[null,true,\"x\"],\"c\":{}}");
    assert_eq!(as_u64(get(&j, "a")), Some(1));
    assert_eq!(as_u64(get(&j, "zz")), None);
    assert_eq!(as_i64(Some(&Json::Number("-12".into()))), Some(-12));
    assert_eq!(as_i64(Some(&Json::Number("-9223372036854775808".into()))), Some(i64::MIN));
    assert_eq!(as_i64(Some(&Json::Number("1.5".into()))), None);
    assert_eq!(as_u64(Some(&Json::Number("-1".into()))), None);
}

#[test]
fn required_arguments() {
    let schema = obj(vec![("required", Json::Array(vec![s("title"), Json::Number("3".into()), s("id")]))]);
    assert!(validate_args_json(&schema, &obj(vec![("title", s("t")), ("id", s("1"))])).is_ok());
    assert_eq!(validate_args_json(&schema, &obj(vec![("title", s("t"))])).unwrap_err(), "missing required field: id");
    assert!(validate_args_json(&obj(vec![]), &Json::Null).is_ok());
    let schema_text = "{\"type\":\"object\",\"required\":[\"title\",\"id\"]}";
    assert!(validate_args(schema_text, "{\"title\":\"t\",\"id\":1}").is_ok());
    assert_eq!(validate_args(schema_text, "{\"title\":\"t\"}").unwrap_err(), "missing required field: id");
    let bad_schema = validate_args("{", "{}").unwrap_err();
    assert_eq!(bad_schema, serde_json::from_str::<serde_json::Value>("{").unwrap_err().to_string());
    let bad_args = validate_args(schema_text, "[1,").unwrap_err();
    assert_eq!(bad_args, serde_json::from_str::<serde_json::Value>("[1,").unwrap_err().to_string());
    assert!(validate_args("{}", "null").is_ok());
}

#[test]
fn tool_error_result() {
    let call = ToolCallRequest { call_id: "c".into(), tool_id: "t".into(), args_json: "{}".into() };
    let r = error_result(&call, "boom \"x\"");
    assert_eq!(r.output_json, "{\"error\":\"boom \\\"x\\\"\"}");
    assert!(r.is_error);
    assert_eq!(r.call_id, "c");
}

#[test]
fn todos() {
    assert_eq!(next_todo_id(None), 1);
    assert_eq!(next_todo_id(Some(b"41")), 42);
    assert_eq!(todo_key("3"), "todo/3");
    assert_eq!(todo_stamp(12, 5), "12.000000005");
    let t = todo_create(&obj(vec![("title", s("milk"))]), 3, "12.000000005").unwrap();
    assert_eq!(t, "{\"created_at\":\"12.000000005\",\"description\":\"\",\"id\":\"3\",\"status\":\"pending\",\"title\":\"milk\"}");
    let parsed: serde_json::Value = serde_json::from_str(&t).unwrap();
    assert_eq!(serde_json::to_string(&parsed).unwrap(), t);
    assert_eq!(todo_create(&obj(vec![]), 1, "x").unwrap_err(), "missing required field: title");
    assert_eq!(todo_filter(&obj(vec![("status", s("done"))])), TodoFilter::Done);
    assert_eq!(todo_filter(&obj(vec![("status", s("weird"))])), TodoFilter::All);
    let items = vec![obj(vec![("id", s("1")), ("status", s("done"))]), obj(vec![("id", s("2"))])];
    assert_eq!(todo_list(TodoFilter::Pending, items), "{\"todos\":[{\"id\":\"2\"}]}");
    assert_eq!(todo_list(TodoFilter::All, vec![]), "{\"todos\":[]}");
    assert_eq!(todo_deleted("7"), "{\"deleted\":\"7\"}");
    assert_eq!(todo_id_arg(&obj(vec![])).unwrap_err(), "missing required field: id");
    let mut item = obj(vec![("id", s("1")), ("status", s("pending"))]);
    mark_done(&mut item);
    assert_eq!(to_text(&item), "{\"id\":\"1\",\"status\":\"done\"}");
    let mut item = obj(vec![("id", s("1"))]);
    mark_done(&mut item);
    assert_eq!(to_text(&item), "{\"id\":\"1\",\"status\":\"done\"}");
}

fn shape(e: &Expr) -> String {
    match e {
        Expr::Num(b) => String::from_utf8(b.clone()).unwrap(),
        Expr::Neg(a) => format!("(-{})", shape(a)),
        Expr::Add(a, b) => format!("({}+{})", shape(a), shape(b)),
        Expr::Sub(a, b) => format!("({}-{})", shape(a), shape(b)),
        Expr::Mul(a, b) => format!("({}*{})", shape(a), shape(b)),
        Expr::Div(a, b) => format!("({}/{})", shape(a), shape(b)),
        Expr::Sqrt(a) => format!("sqrt{}", shape(a)),
    }
}

#[test]
fn calculator_grammar() {
    assert_eq!(shape(&parse("1 + 2*3").unwrap()), "(1+(2*3))");
    assert_eq!(shape(&parse("8 / 4 / 2").unwrap()), "((8/4)/2)");
    assert_eq!(shape(&parse(" - -3 ").unwrap()), "(-(-3))");
    assert_eq!(shape(&parse("+(1.5)").unwrap()), "1.5");
    assert_eq!(shape(&parse("sqrt(16) - sqrt ( 4 )").unwrap()), "(sqrt16-sqrt4)");
    assert_eq!(parse("abs(4)").err(), Some("unknown fn abs".to_string()));
    assert_eq!(parse("(1").unwrap_err(), "expected )");
    assert_eq!(parse("foo(1)").unwrap_err(), "unknown fn foo");
    assert_eq!(parse("sqrt 2").unwrap_err(), "expected ( after sqrt");
    assert_eq!(parse("1.2.3").unwrap_err(), "invalid float literal");
    assert_eq!(parse(".").unwrap_err(), "invalid float literal");
    assert_eq!(shape(&parse("1.").unwrap()), "1.");
    assert_eq!(parse("1 2").unwrap_err(), "trailing input at pos 2");
    assert_eq!(parse("#").unwrap_err(), "unexpected '#'");
    assert_eq!(parse("").unwrap_err(), "unexpected '\u{0}'");
}

#[test]
fn parser_cursor() {
    let mut p = Parser::new("  x");
    assert_eq!(p.peek(), b' ');
    p.skip();
    assert_eq!(p.i, 2);
    assert_eq!(p.peek(), b'x');
}

#[test]
fn compaction() {
    assert_eq!(plan_compaction(5, 100, 40), CompactionPlan::Keep);
    assert_eq!(plan_compaction(45, 0, 40), CompactionPlan::Compact { split: 35 });
    assert_eq!(plan_compaction(8, 9000, 40), CompactionPlan::TooShort);
    assert_eq!(plan_compaction(40, 8000, 40), CompactionPlan::Keep);
    assert_eq!(plan_compaction(41, 0, 40), CompactionPlan::Compact { split: 31 });
    assert_eq!(plan_compaction(20, 8001, 40), CompactionPlan::Compact { split: 10 });
    let h: Vec<_> = (0..12).map(|i| new_message(i.to_string(), MessageRole::User, format!("m{i}"), None, "t".into())).collect();
    assert_eq!(total_chars(&h), 2 * 10 + 3 * 2);
    assert_eq!(transcript(&h[..2]), "user: m0\nuser: m1\n");
    assert_eq!(summary_request("x"), "Compress this transcript:\n\nx");
    assert!(!usable_summary("  \n"));
    assert!(usable_summary(" ok "));
    let out = rewrite_history(&h, 2, "sum", "id".into(), "now".into());
    assert_eq!(out.len(), 11);
    assert_eq!(out[0].content, "context summary: sum");
    assert_eq!(out[0].role, MessageRole::System);
    assert_eq!(out[1].id, "2");
    assert_eq!(out[10].id, "11");
    let fresh = compacted_history(&h, 2, "sum");
    assert_eq!(fresh.len(), 11);
    assert_eq!(fresh[0].content, "context summary: sum");
    assert_eq!(&fresh[0].id[14..15], "7");
    assert!(fresh[0].created_at.ends_with('Z'));
    assert_eq!(fresh[1].id, "2");
}
