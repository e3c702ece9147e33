use tavily_mcp::json::{Json, JsonField};

fn s(x: &str) -> String {
    String::from(x)
}

fn field(k: &str, v: Json) -> JsonField {
    JsonField { key: s(k), value: v }
}

#[test]
fn scalars_render_as_their_wire_text() {
    assert_eq!(Json::Null.to_text(), "null");
    assert_eq!(Json::Bool(true).to_text(), "true");
    assert_eq!(Json::Bool(false).to_text(), "false");
    assert_eq!(Json::Num(s("-32700")).to_text(), "-32700");
    assert_eq!(Json::Str(s("hi")).to_text(), "\"hi\"");
}

#[test]
fn strings_are_escaped() {
    assert_eq!(Json::Str(s("a\"b")).to_text(), "\"a\\\"b\"");
    assert_eq!(Json::Str(s("a\\b")).to_text(), "\"a\\\\b\"");
    assert_eq!(Json::Str(s("a\nb")).to_text(), "\"a\\u000ab\"");
    assert_eq!(Json::Str(s("a\tb")).to_text(), "\"a\\u0009b\"");
}

#[test]
fn arrays_and_objects_render_in_order() {
    let v = Json::Obj(vec![
        field("id", Json::Str(s("1"))),
        field("xs", Json::Arr(vec![Json::Num(s("1")), Json::Num(s("2")), Json::Null])),
        field("ok", Json::Bool(true)),
    ]);
    assert_eq!(v.to_text(), "{\"id\":\"1\",\"xs\":[1,2,null],\"ok\":true}");
}

#[test]
fn empty_array_and_object_render_bare() {
    assert_eq!(Json::Arr(Vec::new()).to_text(), "[]");
    assert_eq!(Json::Obj(Vec::new()).to_text(), "{}");
}

#[test]
fn rendered_responses_parse_back() {
    // A rendered envelope is well-formed JSON: serde_json accepts it and sees
    // the same structure.
    let v = Json::Obj(vec![
        field("protocol_version", Json::Str(s("2.0"))),
        field("id", Json::Str(s("a\"b"))),
        field("result", Json::Arr(vec![Json::Obj(vec![
            field("type", Json::Str(s("text"))),
            field("text", Json::Str(s("line1\nline2"))),
        ])])),
    ]);
    let text = v.to_text();
    let parsed: serde_json::Value = serde_json::from_str(&text).expect("wire text parses");
    assert_eq!(parsed["protocol_version"], "2.0");
    assert_eq!(parsed["id"], "a\"b");
    assert_eq!(parsed["result"][0]["text"], "line1\nline2");
}
