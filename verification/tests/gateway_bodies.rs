use mycelium::gateway::{read_agent_req, read_append, read_create_conv};
use mycelium::json::Json;
use serde_json::Value;

fn tree(v: &Value) -> Json {
    match v {
        Value::Null => Json::Null,
        Value::Bool(b) => Json::Bool(*b),
        Value::Number(n) => Json::Number(n.to_string()),
        Value::String(s) => Json::Str(s.clone()),
        Value::Array(items) => Json::Array(items.iter().map(tree).collect()),
        Value::Object(ms) => Json::Object(ms.iter().map(|(k, v)| (k.clone(), tree(v))).collect()),
    }
}

fn parsed(text: &str) -> Json {
    tree(&serde_json::from_str::<Value>(text).unwrap())
}

#[test]
fn agent_body_defaults_and_forms() {
    let a = read_agent_req(&parsed("{\"id\":\"a\",\"model\":\"m\"}")).unwrap();
    assert_eq!(a.id, "a");
    assert_eq!(a.model, "m");
    assert_eq!(a.name, None);
    assert_eq!(a.system_prompt, None);
    assert!(a.tools.is_empty());
    assert_eq!(a.max_steps, 4);

    let b = read_agent_req(&parsed(
        "{\"id\":\"b\",\"name\":\"Bee\",\"system_prompt\":null,\"model\":\"m\",\"tools\":[\"calc\"],\"max_steps\":9,\"x\":1}",
    ))
    .unwrap();
    assert_eq!(b.name.as_deref(), Some("Bee"));
    assert_eq!(b.system_prompt, None);
    assert_eq!(b.tools, vec!["calc".to_string()]);
    assert_eq!(b.max_steps, 9);

    let c = read_agent_req(&parsed("[\"c\",null,\"be brief\",\"m\"]")).unwrap();
    assert_eq!(c.id, "c");
    assert_eq!(c.system_prompt.as_deref(), Some("be brief"));
    assert_eq!(c.max_steps, 4);
    let d = read_agent_req(&parsed("[\"d\",null,null,\"m\",[\"x\",\"y\"],2]")).unwrap();
    assert_eq!(d.tools.len(), 2);
    assert_eq!(d.max_steps, 2);
}

#[test]
fn agent_body_refusals() {
    assert!(read_agent_req(&parsed("{\"model\":\"m\"}")).is_none());
    assert!(read_agent_req(&parsed("{\"id\":\"a\",\"model\":\"m\",\"max_steps\":4294967296}")).is_none());
    assert!(read_agent_req(&parsed("{\"id\":\"a\",\"model\":\"m\",\"tools\":[1]}")).is_none());
    assert!(read_agent_req(&parsed("[\"a\",null,null]")).is_none());
    assert!(read_agent_req(&parsed("[\"a\",null,null,\"m\",[],4,7]")).is_none());
    assert!(read_agent_req(&parsed("\"a\"")).is_none());
}

#[test]
fn conversation_and_message_bodies() {
    let (agent, title) = read_create_conv(&parsed("{\"agent_id\":\"a\"}")).unwrap();
    assert_eq!(agent, "a");
    assert_eq!(title, None);
    let (_, title) = read_create_conv(&parsed("[\"a\",\"t\"]")).unwrap();
    assert_eq!(title.as_deref(), Some("t"));
    assert!(read_create_conv(&parsed("{\"title\":\"t\"}")).is_none());
    assert!(read_create_conv(&parsed("[]")).is_none());

    let (role, content, tool) = read_append(&parsed("{\"role\":\"user\",\"content\":\"hi\"}")).unwrap();
    assert_eq!((role.as_str(), content.as_str(), tool), ("user", "hi", None));
    let (_, _, tool) = read_append(&parsed("[\"tool\",\"42\",\"call-1\"]")).unwrap();
    assert_eq!(tool.as_deref(), Some("call-1"));
    assert!(read_append(&parsed("{\"role\":\"user\"}")).is_none());
    assert!(read_append(&parsed("{\"role\":\"user\",\"content\":3}")).is_none());
}
