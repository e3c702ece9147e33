//! The wire envelopes: the supported protocol version, the error taxonomy,
//! what a response envelope looks like, and verified builders for success and
//! error responses.
use vstd::prelude::*;

verus! {

use vstd::string::StringExecFns;
use crate::json::{field_lookup, jeq, lemma_lookup_push, obj_lookup, Json, JsonField};

/// The one protocol version this server speaks.
pub open spec fn protocol_version_spec() -> Seq<char> {
    "2.0"@
}

/// The supported protocol version, as text.
pub fn protocol_version() -> (r: &'static str)
    ensures
        r@ == protocol_version_spec(),
{
    "2.0"
}

/// The errors a request can be answered with, and the build-time and
/// transport failures that never become responses.
#[derive(Clone, Copy, Debug, PartialEq, Eq, Structural)]
pub enum ErrorKind {
    MalformedRequest,
    UnsupportedProtocolVersion,
    MethodNotFound,
    ToolNotFound,
    ToolExecutionFailure,
}

/// The numeric code of an error, as the literal text it is sent as.
pub open spec fn code_spec(k: ErrorKind) -> Seq<char> {
    match k {
        ErrorKind::MalformedRequest => "-32700"@,
        ErrorKind::UnsupportedProtocolVersion => "-32600"@,
        ErrorKind::MethodNotFound => "-32601"@,
        ErrorKind::ToolNotFound => "-32602"@,
        ErrorKind::ToolExecutionFailure => "-32000"@,
    }
}

impl ErrorKind {
    /// The error code, as the literal text it is sent as.
    pub fn code_text(&self) -> (r: &'static str)
        ensures
            r@ == code_spec(*self),
    {
        match self {
            ErrorKind::MalformedRequest => "-32700",
            ErrorKind::UnsupportedProtocolVersion => "-32600",
            ErrorKind::MethodNotFound => "-32601",
            ErrorKind::ToolNotFound => "-32602",
            ErrorKind::ToolExecutionFailure => "-32000",
        }
    }
}

/// One piece of tool output. Text is the only content kind today; the tagged
/// shape leaves room for more.
pub enum Content {
    Text { text: String },
}

/// Whether `v` is the JSON form of one text content piece:
/// `{"type": "text", "text": ...}` with the given text.
pub open spec fn is_text_content(v: Json, text: Seq<char>) -> bool {
    &&& v is Obj
    &&& obj_lookup(v, "type"@) matches Some(t) && t matches Json::Str(s) && s@ == "text"@
    &&& obj_lookup(v, "text"@) matches Some(t) && t matches Json::Str(s) && s@ == text
}

impl Content {
    /// The text this content carries.
    pub open spec fn text_spec(&self) -> Seq<char> {
        match self {
            Content::Text { text } => text@,
        }
    }

    /// This content as wire JSON.
    pub fn to_json(&self) -> (r: Json)
        ensures
            is_text_content(r, self.text_spec()),
    {
        match self {
            Content::Text { text } => {
                let mut fields: Vec<JsonField> = Vec::new();
                let tyv = Json::Str(String::from_str("text"));
                let tyf = JsonField { key: String::from_str("type"), value: tyv };
                proof {
                    lemma_lookup_push(fields@, tyf);
                }
                fields.push(tyf);
                let txf = JsonField { key: String::from_str("text"), value: Json::Str(text.clone()) };
                proof {
                    lemma_lookup_push(fields@, txf);
                    lemma_distinct_keys();
                }
                fields.push(txf);
                Json::Obj(fields)
            }
        }
    }
}

/// The content list of one successful tool run: exactly one text piece
/// holding the tool's output unchanged.
pub fn tool_contents(text: String) -> (r: Vec<Content>)
    ensures
        r@.len() == 1,
        r@[0].text_spec() == text@,
{
    let mut out: Vec<Content> = Vec::new();
    out.push(Content::Text { text });
    out
}

/// Whether `r` is a response envelope for correlation id `id`: an object with
/// the protocol version and a deep-equal copy of the id.
pub open spec fn is_response_envelope(r: Json, id: Json) -> bool {
    &&& r is Obj
    &&& obj_lookup(r, "protocol_version"@) matches Some(v) && v matches Json::Str(s) && s@
        == protocol_version_spec()
    &&& obj_lookup(r, "id"@) matches Some(v) && jeq(v, id)
}

/// The payload under `result` of a response, if any.
pub open spec fn response_result(r: Json) -> Option<Json> {
    obj_lookup(r, "result"@)
}

/// The payload under `error` of a response, if any.
pub open spec fn response_error(r: Json) -> Option<Json> {
    obj_lookup(r, "error"@)
}

/// Whether `r` is a success response for `id` whose `result` is `result`, with
/// no `error` field.
pub open spec fn is_ok_response(r: Json, id: Json, result: Json) -> bool {
    &&& is_response_envelope(r, id)
    &&& response_result(r) == Some(result)
    &&& response_error(r) is None
}

/// Whether `r` is an error response for `id` carrying the code of `kind` and
/// the message `msg`, with no `result` field.
pub open spec fn is_err_response(r: Json, id: Json, kind: ErrorKind, msg: Seq<char>) -> bool {
    &&& is_response_envelope(r, id)
    &&& response_result(r) is None
    &&& response_error(r) matches Some(e) && e is Obj && (obj_lookup(e, "code"@) matches Some(c)
        && c matches Json::Num(n) && n@ == code_spec(kind)) && (obj_lookup(e, "message"@)
        matches Some(m) && m matches Json::Str(s) && s@ == msg)
}

/// A response envelope for id `a` is one for any id deep-equal to `a`.
pub proof fn lemma_envelope_id(r: Json, a: Json, b: Json)
    requires
        is_response_envelope(r, a),
        jeq(a, b),
    ensures
        is_response_envelope(r, b),
{
    let x = obj_lookup(r, "id"@)->Some_0;
    crate::json::lemma_jeq_trans(x, a, b);
}

/// An error response for id `a` is one for any id deep-equal to `a`.
pub proof fn lemma_err_response_id(r: Json, a: Json, b: Json, kind: ErrorKind, msg: Seq<char>)
    requires
        is_err_response(r, a, kind, msg),
        jeq(a, b),
    ensures
        is_err_response(r, b, kind, msg),
{
    lemma_envelope_id(r, a, b);
}

/// The envelope and error keys are pairwise distinct texts.
pub proof fn lemma_distinct_keys()
    ensures
        "protocol_version"@ != "id"@,
        "protocol_version"@ != "result"@,
        "protocol_version"@ != "error"@,
        "id"@ != "result"@,
        "id"@ != "error"@,
        "result"@ != "error"@,
        "type"@ != "text"@,
        "code"@ != "message"@,
        "method"@ != "params"@,
{
    reveal_strlit("protocol_version");
    reveal_strlit("id");
    reveal_strlit("result");
    reveal_strlit("error");
    reveal_strlit("type");
    reveal_strlit("text");
    reveal_strlit("code");
    reveal_strlit("message");
    reveal_strlit("method");
    reveal_strlit("params");
    assert("protocol_version"@.len() == 16);
    assert("id"@.len() == 2);
    assert("result"@.len() == 6);
    assert("error"@.len() == 5);
    assert("type"@.len() == 4);
    assert("text"@.len() == 4);
    assert("code"@.len() == 4);
    assert("message"@.len() == 7);
    assert("method"@.len() == 6);
    assert("params"@.len() == 6);
    assert("type"@[0] == 't' && "text"@[1] == 'e' && "type"@[1] == 'y');
    assert("method"@[0] == 'm' && "params"@[0] == 'p' && "result"@[0] == 'r');
}

/// The common first two fields of every response envelope.
fn envelope_fields(id: Json) -> (r: Vec<JsonField>)
    ensures
        field_lookup(r@, "protocol_version"@) matches Some(v) && v matches Json::Str(s) && s@
            == protocol_version_spec(),
        field_lookup(r@, "id"@) matches Some(v) && jeq(v, id),
        field_lookup(r@, "result"@) is None,
        field_lookup(r@, "error"@) is None,
{
    let mut fields: Vec<JsonField> = Vec::new();
    let pvf = JsonField {
        key: String::from_str("protocol_version"),
        value: Json::Str(String::from_str(protocol_version())),
    };
    proof {
        lemma_lookup_push(fields@, pvf);
    }
    fields.push(pvf);
    let idf = JsonField { key: String::from_str("id"), value: id };
    proof {
        lemma_lookup_push(fields@, idf);
        lemma_distinct_keys();
        crate::json::lemma_jeq_refl(idf.value);
    }
    fields.push(idf);
    fields
}

/// Builds the success response `{protocol_version, id, result}`.
pub fn ok_response(id: Json, result: Json) -> (r: Json)
    ensures
        is_ok_response(r, id, result),
{
    let mut fields = envelope_fields(id);
    let rf = JsonField { key: String::from_str("result"), value: result };
    proof {
        lemma_lookup_push(fields@, rf);
        lemma_distinct_keys();
    }
    fields.push(rf);
    Json::Obj(fields)
}

/// Builds the error response `{protocol_version, id, error: {code, message}}`.
pub fn err_response(id: Json, kind: ErrorKind, msg: String) -> (r: Json)
    ensures
        is_err_response(r, id, kind, msg@),
{
    let mut err_fields: Vec<JsonField> = Vec::new();
    let cf = JsonField { key: String::from_str("code"), value: Json::Num(String::from_str(kind.code_text())) };
    proof {
        lemma_lookup_push(err_fields@, cf);
    }
    err_fields.push(cf);
    let mf = JsonField { key: String::from_str("message"), value: Json::Str(msg) };
    proof {
        lemma_lookup_push(err_fields@, mf);
        lemma_distinct_keys();
    }
    err_fields.push(mf);

    let mut fields = envelope_fields(id);
    let ef = JsonField { key: String::from_str("error"), value: Json::Obj(err_fields) };
    proof {
        lemma_lookup_push(fields@, ef);
        lemma_distinct_keys();
    }
    fields.push(ef);
    Json::Obj(fields)
}

} // verus!
