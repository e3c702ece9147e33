//! The request dispatcher: parses an inbound payload, validates the envelope,
//! routes by method, and either answers at once or hands back a tool
//! invocation for the runtime to perform. Every request yields exactly one
//! plan, and every reply echoes the request's correlation id.
use vstd::prelude::*;

verus! {

use vstd::string::StringExecFns;
use crate::json::{jeq, lemma_jeq_refl, obj_get, obj_lookup, push_field, Json, JsonField};
use crate::protocol::{
    err_response, is_err_response, is_response_envelope, is_text_content, lemma_distinct_keys,
    lemma_err_response_id, lemma_envelope_id, ok_response, protocol_version, response_error,
    response_result, Content, ErrorKind,
};
use crate::registry::{has_name, ToolInfo, ToolRegistry};

/// The optional protocol feature groups this server advertises, plus the
/// free-form extension slots, each returned verbatim on `initialize`.
pub struct Capabilities {
    pub tools: Option<Json>,
    pub prompts: Option<Json>,
    pub resources: Option<Json>,
    pub notification_options: Option<Json>,
    pub experimental_capabilities: Option<Json>,
}

/// The build-time identity of the server: its name, its version, and the
/// capabilities it negotiates at handshake.
pub struct ServerInfo {
    pub name: String,
    pub version: String,
    pub capabilities: Capabilities,
}

/// What the dispatcher decides for one inbound message: answer at once, or
/// invoke the tool at `index` with `arguments` and answer with its outcome.
pub enum Plan {
    Reply(Json),
    Invoke { index: usize, id: Json, arguments: Json },
}

/// The correlation id of a request: the value under `id`, `null` if absent.
pub open spec fn req_id(v: Json) -> Json {
    match obj_lookup(v, "id"@) {
        Some(j) => j,
        None => Json::Null,
    }
}

/// Whether the request's protocol version is acceptable: absent, or the
/// supported version's text.
pub open spec fn version_ok(v: Json) -> bool {
    match obj_lookup(v, "protocol_version"@) {
        None => true,
        Some(j) => j matches Json::Str(s) && s@ == crate::protocol::protocol_version_spec(),
    }
}

/// The request's method, if it is a string.
pub open spec fn method_of(v: Json) -> Option<Seq<char>> {
    match obj_lookup(v, "method"@) {
        Some(j) => match j {
            Json::Str(s) => Some(s@),
            _ => None,
        },
        None => None,
    }
}

/// The request's `params` value, if any.
pub open spec fn params_of(v: Json) -> Option<Json> {
    obj_lookup(v, "params"@)
}

/// The tool name of a `callTool` request: `params.name`, if it is a string.
pub open spec fn call_name(v: Json) -> Option<Seq<char>> {
    match params_of(v) {
        Some(p) => match obj_lookup(p, "name"@) {
            Some(j) => match j {
                Json::Str(s) => Some(s@),
                _ => None,
            },
            None => None,
        },
        None => None,
    }
}

/// The arguments of a `callTool` request: `params.arguments`, `null` if
/// absent; they are passed to the tool untouched.
pub open spec fn call_args(v: Json) -> Json {
    match params_of(v) {
        Some(p) => match obj_lookup(p, "arguments"@) {
            Some(a) => a,
            None => Json::Null,
        },
        None => Json::Null,
    }
}

/// Whether `r` is the JSON form of `c`: each optional group present under its
/// key exactly when it was set, deep-equal to the value it was set to.
pub open spec fn is_caps_json(r: Json, c: Capabilities) -> bool {
    &&& r is Obj
    &&& (match c.tools {
        Some(j) => obj_lookup(r, "tools"@) matches Some(x) && jeq(x, j),
        None => obj_lookup(r, "tools"@) is None,
    })
    &&& (match c.prompts {
        Some(j) => obj_lookup(r, "prompts"@) matches Some(x) && jeq(x, j),
        None => obj_lookup(r, "prompts"@) is None,
    })
    &&& (match c.resources {
        Some(j) => obj_lookup(r, "resources"@) matches Some(x) && jeq(x, j),
        None => obj_lookup(r, "resources"@) is None,
    })
    &&& (match c.notification_options {
        Some(j) => obj_lookup(r, "notification_options"@) matches Some(x) && jeq(x, j),
        None => obj_lookup(r, "notification_options"@) is None,
    })
    &&& (match c.experimental_capabilities {
        Some(j) => obj_lookup(r, "experimental_capabilities"@) matches Some(x) && jeq(x, j),
        None => obj_lookup(r, "experimental_capabilities"@) is None,
    })
}

/// Whether `res` is the `initialize` result for `info`: the protocol
/// acknowledgment, the server's name and version, and its capabilities as set
/// at build time.
pub open spec fn is_initialize_result(res: Json, info: ServerInfo) -> bool {
    &&& res is Obj
    &&& obj_lookup(res, "protocol_version"@) matches Some(j) && j matches Json::Str(s) && s@
        == crate::protocol::protocol_version_spec()
    &&& obj_lookup(res, "server_info"@) matches Some(si) && si is Obj && (obj_lookup(si, "name"@)
        matches Some(n) && n matches Json::Str(s) && s@ == info.name@) && (obj_lookup(
        si,
        "version"@,
    ) matches Some(vv) && vv matches Json::Str(s) && s@ == info.version@)
    &&& obj_lookup(res, "capabilities"@) matches Some(c) && is_caps_json(c, info.capabilities)
}

/// Whether `j` is the listing entry for tool `t`: name and description with
/// the same text, schema deep-equal.
pub open spec fn is_tool_summary(j: Json, t: ToolInfo) -> bool {
    &&& j is Obj
    &&& obj_lookup(j, "name"@) matches Some(x) && x matches Json::Str(s) && s@ == t.name@
    &&& obj_lookup(j, "description"@) matches Some(x) && x matches Json::Str(s) && s@
        == t.description@
    &&& obj_lookup(j, "input_schema"@) matches Some(x) && jeq(x, t.input_schema)
}

/// Whether `res` is the `listTools` result for the registered tools `ts`:
/// `{"tools": [...]}` with one entry per tool, in registration order.
pub open spec fn is_tools_listing(res: Json, ts: Seq<ToolInfo>) -> bool {
    &&& res is Obj
    &&& obj_lookup(res, "tools"@) matches Some(a) && a matches Json::Arr(items) && items@.len()
        == ts.len() && (forall|i: int| 0 <= i < ts.len() ==> is_tool_summary(
        #[trigger] items@[i],
        ts[i],
    ))
}

/// Whether `r` is a success reply whose result satisfies nothing more than
/// being present, for correlation id `id`.
pub open spec fn is_success_reply(r: Plan, id: Json) -> bool {
    r matches Plan::Reply(resp) && is_response_envelope(resp, id) && response_error(resp) is None
        && response_result(resp) is Some
}

/// The dispatcher's whole decision, as a relation between what was parsed
/// from the payload and the plan: exactly one reply or one invocation, with
/// the errors the protocol owes on each malformed or unroutable request.
pub open spec fn plan_matches(info: ServerInfo, ts: Seq<ToolInfo>, parsed: Option<Json>, r: Plan) -> bool {
    match parsed {
        None => r matches Plan::Reply(resp) && is_err_response(
            resp,
            Json::Null,
            ErrorKind::MalformedRequest,
            "request payload is not well-formed JSON"@,
        ),
        Some(v) => if !(v is Obj) {
            r matches Plan::Reply(resp) && is_err_response(
                resp,
                Json::Null,
                ErrorKind::MalformedRequest,
                "request envelope is not a JSON object"@,
            )
        } else if !version_ok(v) {
            r matches Plan::Reply(resp) && is_err_response(
                resp,
                req_id(v),
                ErrorKind::UnsupportedProtocolVersion,
                "unsupported protocol version"@,
            )
        } else {
            match method_of(v) {
                None => r matches Plan::Reply(resp) && is_err_response(
                    resp,
                    req_id(v),
                    ErrorKind::MalformedRequest,
                    "request has no method string"@,
                ),
                Some(m) => plan_matches_method(info, ts, v, m, r),
            }
        },
    }
}

/// The routing part of the dispatcher's decision, for a well-formed envelope
/// with method `m`.
pub open spec fn plan_matches_method(
    info: ServerInfo,
    ts: Seq<ToolInfo>,
    v: Json,
    m: Seq<char>,
    r: Plan,
) -> bool {
    if m == "initialize"@ {
        is_success_reply(r, req_id(v)) && (r matches Plan::Reply(resp) && response_result(resp)
            matches Some(res) && is_initialize_result(res, info))
    } else if m == "listTools"@ {
        is_success_reply(r, req_id(v)) && (r matches Plan::Reply(resp) && response_result(resp)
            matches Some(res) && is_tools_listing(res, ts))
    } else if m == "callTool"@ {
        plan_matches_method_call(ts, v, r)
    } else {
        r matches Plan::Reply(resp) && is_err_response(
            resp,
            req_id(v),
            ErrorKind::MethodNotFound,
            "unknown method"@,
        )
    }
}

/// The keys of the `initialize` result and the tool listing are pairwise
/// distinct texts.
pub proof fn lemma_dispatch_keys()
    ensures
        "tools"@ != "prompts"@,
        "tools"@ != "resources"@,
        "tools"@ != "notification_options"@,
        "tools"@ != "experimental_capabilities"@,
        "prompts"@ != "resources"@,
        "prompts"@ != "notification_options"@,
        "prompts"@ != "experimental_capabilities"@,
        "resources"@ != "notification_options"@,
        "resources"@ != "experimental_capabilities"@,
        "notification_options"@ != "experimental_capabilities"@,
        "name"@ != "version"@,
        "name"@ != "description"@,
        "name"@ != "input_schema"@,
        "description"@ != "input_schema"@,
        "protocol_version"@ != "server_info"@,
        "protocol_version"@ != "capabilities"@,
        "server_info"@ != "capabilities"@,
{
    reveal_strlit("tools");
    reveal_strlit("prompts");
    reveal_strlit("resources");
    reveal_strlit("notification_options");
    reveal_strlit("experimental_capabilities");
    reveal_strlit("name");
    reveal_strlit("version");
    reveal_strlit("description");
    reveal_strlit("input_schema");
    reveal_strlit("protocol_version");
    reveal_strlit("server_info");
    reveal_strlit("capabilities");
    assert("tools"@.len() == 5);
    assert("prompts"@.len() == 7);
    assert("resources"@.len() == 9);
    assert("notification_options"@.len() == 20);
    assert("experimental_capabilities"@.len() == 25);
    assert("name"@.len() == 4);
    assert("version"@.len() == 7);
    assert("description"@.len() == 11);
    assert("input_schema"@.len() == 12);
    assert("protocol_version"@.len() == 16);
    assert("server_info"@.len() == 11);
    assert("capabilities"@.len() == 12);
    assert("description"@[0] == 'd' && "server_info"@[0] == 's');
    assert("input_schema"@[0] == 'i' && "capabilities"@[0] == 'c');
}

impl Capabilities {
    /// This capability set as wire JSON: one key per group that was set.
    #[verifier::loop_isolation(false)]
    pub fn to_json(&self) -> (r: Json)
        ensures
            is_caps_json(r, *self),
    {
        proof {
            lemma_dispatch_keys();
        }
        let mut fs: Vec<JsonField> = Vec::new();
        if let Some(j) = &self.tools {
            push_field(&mut fs, "tools", j.deep_clone());
        }
        if let Some(j) = &self.prompts {
            push_field(&mut fs, "prompts", j.deep_clone());
        }
        if let Some(j) = &self.resources {
            push_field(&mut fs, "resources", j.deep_clone());
        }
        if let Some(j) = &self.notification_options {
            push_field(&mut fs, "notification_options", j.deep_clone());
        }
        if let Some(j) = &self.experimental_capabilities {
            push_field(&mut fs, "experimental_capabilities", j.deep_clone());
        }
        Json::Obj(fs)
    }
}

/// Builds the `initialize` result for `info`.
fn initialize_result(info: &ServerInfo) -> (r: Json)
    ensures
        is_initialize_result(r, *info),
{
    proof {
        lemma_dispatch_keys();
        lemma_distinct_keys();
    }
    let mut si: Vec<JsonField> = Vec::new();
    push_field(&mut si, "name", Json::Str(info.name.clone()));
    push_field(&mut si, "version", Json::Str(info.version.clone()));
    let caps = info.capabilities.to_json();
    let mut fs: Vec<JsonField> = Vec::new();
    push_field(&mut fs, "protocol_version", Json::Str(String::from_str(protocol_version())));
    push_field(&mut fs, "server_info", Json::Obj(si));
    push_field(&mut fs, "capabilities", caps);
    Json::Obj(fs)
}

/// Builds the `listTools` result: the registered tools in registration order.
#[verifier::loop_isolation(false)]
fn list_tools_result(reg: &ToolRegistry) -> (r: Json)
    ensures
        is_tools_listing(r, reg@),
{
    proof {
        lemma_dispatch_keys();
    }
    let mut items: Vec<Json> = Vec::new();
    let mut i: usize = 0;
    while i < reg.len()
        invariant
            i <= reg@.len(),
            items@.len() == i,
            forall|j: int| 0 <= j < i ==> is_tool_summary(#[trigger] items@[j], reg@[j]),
        decreases reg@.len() - i,
    {
        let t = reg.get(i);
        let mut fs: Vec<JsonField> = Vec::new();
        push_field(&mut fs, "name", Json::Str(t.name.clone()));
        push_field(&mut fs, "description", Json::Str(t.description.clone()));
        push_field(&mut fs, "input_schema", t.input_schema.deep_clone());
        items.push(Json::Obj(fs));
        i += 1;
    }
    let mut fs: Vec<JsonField> = Vec::new();
    push_field(&mut fs, "tools", Json::Arr(items));
    Json::Obj(fs)
}

/// Decides one inbound request: parses nothing itself, takes what the payload
/// parsed to (or `None` for a malformed payload) and returns exactly one plan,
/// as `plan_matches` states.
pub fn plan_request(info: &ServerInfo, reg: &ToolRegistry, parsed: Option<Json>) -> (r: Plan)
    ensures
        plan_matches(*info, reg@, parsed, r),
{
    let v = match parsed {
        Some(v) => v,
        None => {
            return Plan::Reply(
                err_response(
                    Json::Null,
                    ErrorKind::MalformedRequest,
                    String::from_str("request payload is not well-formed JSON"),
                ),
            );
        }
    };
    let ghost gv = v;
    let fields = match v {
        Json::Obj(fields) => fields,
        _ => {
            return Plan::Reply(
                err_response(
                    Json::Null,
                    ErrorKind::MalformedRequest,
                    String::from_str("request envelope is not a JSON object"),
                ),
            );
        }
    };
    proof {
        assert(gv == Json::Obj(fields));
    }
    let id = match obj_get(&fields, "id") {
        Some(j) => j.deep_clone(),
        None => Json::Null,
    };
    proof {
        assert(jeq(id, req_id(gv))) by {
            lemma_jeq_refl(req_id(gv));
        }
    }
    let version_accepted = match obj_get(&fields, "protocol_version") {
        None => true,
        Some(j) => match j {
            Json::Str(s) => str_eq_version(s),
            _ => false,
        },
    };
    if !version_accepted {
        let resp = err_response(
            id,
            ErrorKind::UnsupportedProtocolVersion,
            String::from_str("unsupported protocol version"),
        );
        proof {
            lemma_err_response_id(
                resp,
                id,
                req_id(gv),
                ErrorKind::UnsupportedProtocolVersion,
                "unsupported protocol version"@,
            );
        }
        return Plan::Reply(resp);
    }
    let method = match obj_get(&fields, "method") {
        Some(j) => match j {
            Json::Str(s) => Some(s),
            _ => None,
        },
        None => None,
    };
    let m = match method {
        Some(m) => m,
        None => {
            let resp = err_response(
                id,
                ErrorKind::MalformedRequest,
                String::from_str("request has no method string"),
            );
            proof {
                lemma_err_response_id(
                    resp,
                    id,
                    req_id(gv),
                    ErrorKind::MalformedRequest,
                    "request has no method string"@,
                );
            }
            return Plan::Reply(resp);
        }
    };
    if crate::json::str_is(m, "initialize") {
        let res = initialize_result(info);
        let resp = ok_response(id, res);
        proof {
            lemma_envelope_id(resp, id, req_id(gv));
        }
        Plan::Reply(resp)
    } else if crate::json::str_is(m, "listTools") {
        let res = list_tools_result(reg);
        let resp = ok_response(id, res);
        proof {
            lemma_envelope_id(resp, id, req_id(gv));
        }
        Plan::Reply(resp)
    } else if crate::json::str_is(m, "callTool") {
        call_tool_plan(reg, Ghost(gv), id, &fields)
    } else {
        let resp = err_response(id, ErrorKind::MethodNotFound, String::from_str("unknown method"));
        proof {
            lemma_err_response_id(resp, id, req_id(gv), ErrorKind::MethodNotFound, "unknown method"@);
        }
        Plan::Reply(resp)
    }
}

/// Whether `s` is the supported protocol version's text.
fn str_eq_version(s: &String) -> (r: bool)
    ensures
        r == (s@ == crate::protocol::protocol_version_spec()),
{
    crate::json::str_is(s, "2.0")
}

/// The `callTool` branch: reads `params.name` and `params.arguments`, looks
/// the tool up, and plans its invocation or the owed error.
fn call_tool_plan(reg: &ToolRegistry, Ghost(gv): Ghost<Json>, id: Json, fields: &Vec<JsonField>) -> (r: Plan)
    requires
        gv == Json::Obj(*fields),
        jeq(id, req_id(gv)),
    ensures
        plan_matches_method_call(reg@, gv, r),
{
    let params = match obj_get(fields, "params") {
        Some(p) => p,
        None => {
            return missing_name_reply(Ghost(gv), id);
        }
    };
    let pf = match params {
        Json::Obj(pf) => pf,
        _ => {
            return missing_name_reply(Ghost(gv), id);
        }
    };
    let name = match obj_get(pf, "name") {
        Some(j) => match j {
            Json::Str(s) => s,
            _ => {
                return missing_name_reply(Ghost(gv), id);
            }
        },
        None => {
            return missing_name_reply(Ghost(gv), id);
        }
    };
    let index = match reg.lookup_index(name.as_str()) {
        Some(i) => i,
        None => {
            let resp = err_response(
                id,
                ErrorKind::ToolNotFound,
                String::from_str("no tool registered under the requested name"),
            );
            proof {
                lemma_err_response_id(
                    resp,
                    id,
                    req_id(gv),
                    ErrorKind::ToolNotFound,
                    "no tool registered under the requested name"@,
                );
            }
            return Plan::Reply(resp);
        }
    };
    let arguments = match obj_get(pf, "arguments") {
        Some(a) => a.deep_clone(),
        None => Json::Null,
    };
    proof {
        assert(jeq(arguments, call_args(gv))) by {
            lemma_jeq_refl(call_args(gv));
        }
    }
    Plan::Invoke { index, id, arguments }
}

/// The `callTool` part of `plan_matches_method`, shared by its helpers.
pub open spec fn plan_matches_method_call(ts: Seq<ToolInfo>, v: Json, r: Plan) -> bool {
    match call_name(v) {
        None => r matches Plan::Reply(resp) && is_err_response(
            resp,
            req_id(v),
            ErrorKind::MalformedRequest,
            "callTool params need a tool name"@,
        ),
        Some(n) => if !has_name(ts, n) {
            r matches Plan::Reply(resp) && is_err_response(
                resp,
                req_id(v),
                ErrorKind::ToolNotFound,
                "no tool registered under the requested name"@,
            )
        } else {
            r matches Plan::Invoke { index, id, arguments } && index < ts.len()
                && ts[index as int].name@ == n && jeq(id, req_id(v)) && jeq(
                arguments,
                call_args(v),
            )
        },
    }
}

/// The reply owed when a `callTool` request names no tool.
fn missing_name_reply(Ghost(gv): Ghost<Json>, id: Json) -> (r: Plan)
    requires
        jeq(id, req_id(gv)),
        call_name(gv) is None,
    ensures
        r matches Plan::Reply(resp) && is_err_response(
            resp,
            req_id(gv),
            ErrorKind::MalformedRequest,
            "callTool params need a tool name"@,
        ),
{
    let resp = err_response(
        id,
        ErrorKind::MalformedRequest,
        String::from_str("callTool params need a tool name"),
    );
    proof {
        lemma_err_response_id(
            resp,
            id,
            req_id(gv),
            ErrorKind::MalformedRequest,
            "callTool params need a tool name"@,
        );
    }
    Plan::Reply(resp)
}

/// Whether `res` is the content list of a successful tool call: one text
/// entry per content piece, in order, each text unchanged.
pub open spec fn is_content_list(res: Json, cs: Seq<Content>) -> bool {
    res matches Json::Arr(items) && items@.len() == cs.len() && (forall|i: int|
        0 <= i < cs.len() ==> is_text_content(#[trigger] items@[i], cs[i].text_spec()))
}

/// Builds the one response owed for a finished tool invocation: the content
/// list on success, a `ToolExecutionFailure` carrying the tool's message
/// verbatim on failure. The tool's outcome is taken as a value, so a failing
/// tool yields a response and never a crash of the dispatch loop.
#[verifier::loop_isolation(false)]
pub fn finish_call(id: Json, outcome: Result<Vec<Content>, String>) -> (r: Json)
    ensures
        outcome matches Ok(cs) ==> (is_response_envelope(r, id) && response_error(r) is None && (
        response_result(r) matches Some(res) && is_content_list(res, cs@))),
        outcome matches Err(m) ==> is_err_response(r, id, ErrorKind::ToolExecutionFailure, m@),
{
    match outcome {
        Ok(cs) => {
            let mut items: Vec<Json> = Vec::new();
            let mut i: usize = 0;
            while i < cs.len()
                invariant
                    i <= cs@.len(),
                    items@.len() == i,
                    forall|j: int| 0 <= j < i ==> is_text_content(
                        #[trigger] items@[j],
                        cs@[j].text_spec(),
                    ),
                decreases cs@.len() - i,
            {
                let c = cs[i].to_json();
                items.push(c);
                i += 1;
            }
            ok_response(id, Json::Arr(items))
        }
        Err(m) => err_response(id, ErrorKind::ToolExecutionFailure, m),
    }
}

/// Declares serde_json's value type so the parse wrapper can hand it around.
#[verifier::external_type_specification]
#[verifier::external_body]
pub struct ExValue(serde_json::Value);

/// What a payload parses to: some JSON value or nothing, a function of the
/// bytes alone.
pub uninterp spec fn parsed_json(payload: Seq<u8>) -> Option<Json>;

/// Relies on serde_json::Value's variants: each maps one-for-one onto this
/// crate's JSON model, numbers as the text serde_json renders its parsed
/// value to.
#[verifier::external_body]
fn json_of_value(v: serde_json::Value) -> Json {
    match v {
        serde_json::Value::Null => Json::Null,
        serde_json::Value::Bool(b) => Json::Bool(b),
        serde_json::Value::Number(n) => Json::Num(n.to_string()),
        serde_json::Value::String(s) => Json::Str(s),
        serde_json::Value::Array(a) => Json::Arr(a.into_iter().map(json_of_value).collect()),
        serde_json::Value::Object(m) => Json::Obj(
            m.into_iter().map(|p| JsonField { key: p.0, value: json_of_value(p.1) }).collect(),
        ),
    }
}

/// Relies on serde_json::from_slice: whether bytes are well-formed JSON, and
/// what value they denote, depends on the bytes alone.
#[verifier::external_body]
fn parse_payload(payload: &[u8]) -> (r: Option<Json>)
    ensures
        r == parsed_json(payload@),
{
    match serde_json::from_slice::<serde_json::Value>(payload) {
        Ok(v) => Some(json_of_value(v)),
        Err(_) => None,
    }
}

/// Dispatches one inbound payload: parses it and plans the one response or
/// tool invocation it is owed. A payload that is not well-formed JSON yields
/// exactly one `MalformedRequest` error reply.
pub fn handle_payload(info: &ServerInfo, reg: &ToolRegistry, payload: &[u8]) -> (r: Plan)
    ensures
        plan_matches(*info, reg@, parsed_json(payload@), r),
{
    let parsed = parse_payload(payload);
    plan_request(info, reg, parsed)
}

/// Round trip of the correlation id: whatever a request's envelope held under
/// `id`, the reply planned for it echoes that value, and a planned invocation
/// carries it for `finish_call` to echo.
pub proof fn lemma_correlation_round_trip(info: ServerInfo, ts: Seq<ToolInfo>, v: Json, r: Plan)
    requires
        plan_matches(info, ts, Some(v), r),
    ensures
        r matches Plan::Reply(resp) ==> obj_lookup(resp, "id"@) matches Some(x) && jeq(
            x,
            req_id(v),
        ),
        r matches Plan::Invoke { id, .. } ==> jeq(id, req_id(v)),
{
    if !(v is Obj) {
        assert(req_id(v) == Json::Null);
    }
}

} // verus!
