use tavily_mcp::dispatch::{finish_call, handle_payload, plan_request, Capabilities, Plan, ServerInfo};
use tavily_mcp::json::{obj_get, Json, JsonField};
use tavily_mcp::protocol::Content;
use tavily_mcp::registry::{RegistryError, ToolInfo, ToolRegistry};

fn s(x: &str) -> String {
    String::from(x)
}

fn field(k: &str, v: Json) -> JsonField {
    JsonField { key: s(k), value: v }
}

fn get<'a>(v: &'a Json, k: &str) -> Option<&'a Json> {
    match v {
        Json::Obj(fields) => obj_get(fields, k),
        _ => None,
    }
}

fn get_str<'a>(v: &'a Json, k: &str) -> &'a str {
    match get(v, k) {
        Some(Json::Str(t)) => t.as_str(),
        _ => panic!("expected a string under {}", k),
    }
}

fn make_info() -> ServerInfo {
    ServerInfo {
        name: s("tavily-mcp"),
        version: s("0.1.0"),
        capabilities: Capabilities {
            tools: Some(Json::Obj(Vec::new())),
            prompts: Some(Json::Obj(Vec::new())),
            resources: Some(Json::Obj(Vec::new())),
            notification_options: None,
            experimental_capabilities: None,
        },
    }
}

fn echo_tool() -> ToolInfo {
    ToolInfo {
        name: s("echo"),
        description: s("echoes its text argument"),
        input_schema: Json::Obj(vec![field("type", Json::Str(s("object")))]),
    }
}

fn slow_tool() -> ToolInfo {
    ToolInfo {
        name: s("slow"),
        description: s("a tool that takes its time"),
        input_schema: Json::Obj(vec![field("type", Json::Str(s("object")))]),
    }
}

fn make_registry() -> ToolRegistry {
    let mut reg = ToolRegistry::new();
    reg.register(echo_tool()).unwrap();
    reg.register(slow_tool()).unwrap();
    reg
}

fn request(id: &str, method: &str, params: Json) -> Json {
    Json::Obj(vec![
        field("protocol_version", Json::Str(s("2.0"))),
        field("id", Json::Str(s(id))),
        field("method", Json::Str(s(method))),
        field("params", params),
    ])
}

fn reply_of(plan: Plan) -> Json {
    match plan {
        Plan::Reply(r) => r,
        Plan::Invoke { .. } => panic!("expected a reply, got an invocation"),
    }
}

fn error_code(resp: &Json) -> String {
    match get(resp, "error") {
        Some(e) => match get(e, "code") {
            Some(Json::Num(n)) => n.clone(),
            _ => panic!("error without numeric code"),
        },
        None => panic!("expected an error response"),
    }
}

#[test]
fn initialize_returns_server_identity_and_capabilities() {
    let info = make_info();
    let reg = make_registry();
    let req = request("1", "initialize", Json::Obj(Vec::new()));
    let resp = reply_of(plan_request(&info, &reg, Some(req)));
    assert_eq!(get_str(&resp, "protocol_version"), "2.0");
    assert_eq!(get_str(&resp, "id"), "1");
    let result = get(&resp, "result").expect("initialize must succeed");
    assert_eq!(get_str(result, "protocol_version"), "2.0");
    let si = get(result, "server_info").expect("server_info present");
    assert_eq!(get_str(si, "name"), "tavily-mcp");
    assert_eq!(get_str(si, "version"), "0.1.0");
    let caps = get(result, "capabilities").expect("capabilities present");
    assert!(matches!(get(caps, "tools"), Some(Json::Obj(_))));
    assert!(matches!(get(caps, "prompts"), Some(Json::Obj(_))));
    assert!(matches!(get(caps, "resources"), Some(Json::Obj(_))));
    assert!(get(caps, "notification_options").is_none());
    assert!(get(caps, "experimental_capabilities").is_none());
    assert!(get(&resp, "error").is_none());
}

#[test]
fn list_tools_returns_registration_order() {
    let info = make_info();
    let reg = make_registry();
    let req = request("7", "listTools", Json::Obj(Vec::new()));
    let resp = reply_of(plan_request(&info, &reg, Some(req)));
    let result = get(&resp, "result").expect("listTools must succeed");
    let tools = match get(result, "tools") {
        Some(Json::Arr(items)) => items,
        _ => panic!("expected a tools array"),
    };
    assert_eq!(tools.len(), 2);
    assert_eq!(get_str(&tools[0], "name"), "echo");
    assert_eq!(get_str(&tools[0], "description"), "echoes its text argument");
    assert_eq!(get_str(&tools[1], "name"), "slow");
    assert!(matches!(get(&tools[0], "input_schema"), Some(Json::Obj(_))));
}

#[test]
fn duplicate_registration_fails_and_keeps_first() {
    let mut reg = ToolRegistry::new();
    reg.register(echo_tool()).unwrap();
    let mut second = echo_tool();
    second.description = s("a different description");
    let r = reg.register(second);
    assert_eq!(r, Err(RegistryError::DuplicateToolName));
    let listed = reg.list();
    assert_eq!(listed.len(), 1);
    assert_eq!(listed[0].description.as_str(), "echoes its text argument");
}

#[test]
fn call_tool_plans_invocation_with_arguments() {
    let info = make_info();
    let reg = make_registry();
    let params = Json::Obj(vec![
        field("name", Json::Str(s("echo"))),
        field("arguments", Json::Obj(vec![field("text", Json::Str(s("hi")))])),
    ]);
    let req = request("9", "callTool", params);
    match plan_request(&info, &reg, Some(req)) {
        Plan::Invoke { index, id, arguments } => {
            assert_eq!(index, 0);
            assert!(matches!(&id, Json::Str(t) if t == "9"));
            assert_eq!(get_str(&arguments, "text"), "hi");
        }
        Plan::Reply(_) => panic!("expected an invocation"),
    }
}

#[test]
fn echo_call_result_is_content_verbatim() {
    let info = make_info();
    let reg = make_registry();
    let params = Json::Obj(vec![
        field("name", Json::Str(s("echo"))),
        field("arguments", Json::Obj(vec![field("text", Json::Str(s("hi")))])),
    ]);
    let req = request("9", "callTool", params);
    let (id, arguments) = match plan_request(&info, &reg, Some(req)) {
        Plan::Invoke { id, arguments, .. } => (id, arguments),
        Plan::Reply(_) => panic!("expected an invocation"),
    };
    // The echo tool returns its text argument as one text content piece.
    let text = s(get_str(&arguments, "text"));
    let resp = finish_call(id, Ok(vec![Content::Text { text }]));
    assert_eq!(get_str(&resp, "id"), "9");
    let result = match get(&resp, "result") {
        Some(Json::Arr(items)) => items,
        _ => panic!("expected a content array"),
    };
    assert_eq!(result.len(), 1);
    assert_eq!(get_str(&result[0], "type"), "text");
    assert_eq!(get_str(&result[0], "text"), "hi");
    assert!(get(&resp, "error").is_none());
}

#[test]
fn unknown_tool_yields_tool_not_found_error() {
    let info = make_info();
    let reg = make_registry();
    let params = Json::Obj(vec![field("name", Json::Str(s("nonexistent")))]);
    let req = request("4", "callTool", params);
    let resp = reply_of(plan_request(&info, &reg, Some(req)));
    assert_eq!(get_str(&resp, "id"), "4");
    assert_eq!(error_code(&resp), "-32602");
    assert!(get(&resp, "result").is_none());
}

#[test]
fn malformed_payload_yields_exactly_one_malformed_request_error() {
    let info = make_info();
    let reg = make_registry();
    let resp = reply_of(handle_payload(&info, &reg, b"{this is not json"));
    assert_eq!(error_code(&resp), "-32700");
    assert!(matches!(get(&resp, "id"), Some(Json::Null)));
}

#[test]
fn non_object_envelope_yields_malformed_request_error() {
    let info = make_info();
    let reg = make_registry();
    let resp = reply_of(handle_payload(&info, &reg, b"[1, 2, 3]"));
    assert_eq!(error_code(&resp), "-32700");
}

#[test]
fn well_formed_payload_is_dispatched_from_bytes() {
    let info = make_info();
    let reg = make_registry();
    let payload = b"{\"protocol_version\":\"2.0\",\"id\":\"11\",\"method\":\"listTools\",\"params\":{}}";
    let resp = reply_of(handle_payload(&info, &reg, payload));
    assert_eq!(get_str(&resp, "id"), "11");
    assert!(get(&resp, "result").is_some());
}

#[test]
fn unsupported_protocol_version_is_refused() {
    let info = make_info();
    let reg = make_registry();
    let req = Json::Obj(vec![
        field("protocol_version", Json::Str(s("1.0"))),
        field("id", Json::Str(s("3"))),
        field("method", Json::Str(s("listTools"))),
    ]);
    let resp = reply_of(plan_request(&info, &reg, Some(req)));
    assert_eq!(error_code(&resp), "-32600");
    assert_eq!(get_str(&resp, "id"), "3");
}

#[test]
fn missing_protocol_version_is_accepted() {
    let info = make_info();
    let reg = make_registry();
    let req = Json::Obj(vec![
        field("id", Json::Str(s("5"))),
        field("method", Json::Str(s("listTools"))),
    ]);
    let resp = reply_of(plan_request(&info, &reg, Some(req)));
    assert!(get(&resp, "result").is_some());
    assert_eq!(get_str(&resp, "id"), "5");
}

#[test]
fn unknown_method_yields_method_not_found() {
    let info = make_info();
    let reg = make_registry();
    let req = request("6", "shutdown", Json::Obj(Vec::new()));
    let resp = reply_of(plan_request(&info, &reg, Some(req)));
    assert_eq!(error_code(&resp), "-32601");
}

#[test]
fn missing_method_yields_malformed_request() {
    let info = make_info();
    let reg = make_registry();
    let req = Json::Obj(vec![field("id", Json::Str(s("8")))]);
    let resp = reply_of(plan_request(&info, &reg, Some(req)));
    assert_eq!(error_code(&resp), "-32700");
}

#[test]
fn call_tool_without_name_yields_malformed_request() {
    let info = make_info();
    let reg = make_registry();
    let req = request("10", "callTool", Json::Obj(Vec::new()));
    let resp = reply_of(plan_request(&info, &reg, Some(req)));
    assert_eq!(error_code(&resp), "-32700");
}

#[test]
fn failing_tool_yields_execution_failure_with_message_verbatim() {
    let resp = finish_call(Json::Str(s("12")), Err(s("the upstream API timed out")));
    assert_eq!(get_str(&resp, "id"), "12");
    assert_eq!(error_code(&resp), "-32000");
    let e = get(&resp, "error").unwrap();
    assert_eq!(get_str(e, "message"), "the upstream API timed out");
}

#[test]
fn correlation_id_round_trips_on_success_and_error() {
    let info = make_info();
    let reg = make_registry();
    let ok_req = request("abc-123", "listTools", Json::Obj(Vec::new()));
    let ok_resp = reply_of(plan_request(&info, &reg, Some(ok_req)));
    assert_eq!(get_str(&ok_resp, "id"), "abc-123");
    let err_req = request("abc-124", "noSuchMethod", Json::Obj(Vec::new()));
    let err_resp = reply_of(plan_request(&info, &reg, Some(err_req)));
    assert_eq!(get_str(&err_resp, "id"), "abc-124");
}

#[test]
fn tool_contents_wraps_one_text_piece() {
    let contents = tavily_mcp::protocol::tool_contents(s("formatted output"));
    assert_eq!(contents.len(), 1);
    let tavily_mcp::protocol::Content::Text { text } = &contents[0];
    assert_eq!(text.as_str(), "formatted output");
}

#[test]
fn lifecycle_runs_from_built_and_stops_terminally() {
    let mut state = tavily_mcp::runtime::ServerState::Built;
    assert!(!state.accepts_messages());
    assert!(state.start());
    assert!(state.accepts_messages());
    assert!(!state.start());
    assert!(state.stop());
    assert!(!state.accepts_messages());
    assert!(!state.start());
    assert!(!state.stop());
    assert_eq!(state, tavily_mcp::runtime::ServerState::Stopped);
}

#[test]
fn two_tools_are_dispatched_independently() {
    let info = make_info();
    let reg = make_registry();
    let slow_req = request(
        "s1",
        "callTool",
        Json::Obj(vec![field("name", Json::Str(s("slow")))]),
    );
    let fast_req = request(
        "f1",
        "callTool",
        Json::Obj(vec![field("name", Json::Str(s("echo")))]),
    );
    let slow_plan = plan_request(&info, &reg, Some(slow_req));
    let fast_plan = plan_request(&info, &reg, Some(fast_req));
    // The fast call completes regardless of the slow one still being open.
    let fast_id = match fast_plan {
        Plan::Invoke { id, .. } => id,
        Plan::Reply(_) => panic!("expected an invocation"),
    };
    let fast_resp = finish_call(fast_id, Ok(vec![Content::Text { text: s("done") }]));
    assert_eq!(get_str(&fast_resp, "id"), "f1");
    match slow_plan {
        Plan::Invoke { id, .. } => assert!(matches!(&id, Json::Str(t) if t == "s1")),
        Plan::Reply(_) => panic!("expected an invocation"),
    }
}
