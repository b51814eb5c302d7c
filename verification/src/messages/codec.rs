//! JSON-RPC messages as JSON documents: the object each message is written
//! as, and how a JSON document is read as a message, trying a request, then
//! a response, then a notification.
use vstd::prelude::*;
use crate::json::{JsonNumber, JsonObject, JsonValue, JsonView, jview, jv_field, ov_lookup, lemma_oview_lookup};
use crate::messages::jsonrpc::{JsonRpcError, JsonRpcMessage, JsonRpcNotification, JsonRpcRequest, JsonRpcResponse, RequestId};
use crate::text::owned;

verus! {

/// The content of a request identifier.
pub enum IdView {
    Str(Seq<char>),
    Num(i64),
    Null,
}

/// The content of a JSON-RPC error object.
pub struct ErrorView {
    pub code: i32,
    pub message: Seq<char>,
    pub data: Option<JsonView>,
}

/// The content of a JSON-RPC message.
pub enum MessageView {
    Request { jsonrpc: Seq<char>, id: IdView, method: Seq<char>, params: Option<JsonView> },
    Response { jsonrpc: Seq<char>, id: IdView, result: Option<JsonView>, error: Option<ErrorView> },
    Notification { jsonrpc: Seq<char>, method: Seq<char>, params: Option<JsonView> },
}

/// The content of an identifier.
pub open spec fn id_view(id: RequestId) -> IdView {
    match id {
        RequestId::String(s) => IdView::Str(s@),
        RequestId::Number(n) => IdView::Num(n),
        RequestId::Null => IdView::Null,
    }
}

/// The content of an optional JSON value.
pub open spec fn opt_jview(v: Option<JsonValue>) -> Option<JsonView> {
    match v {
        Some(x) => Some(jview(x)),
        None => None,
    }
}

/// The content of an error object.
pub open spec fn error_view(e: JsonRpcError) -> ErrorView {
    ErrorView { code: e.code, message: e.message@, data: opt_jview(e.data) }
}

/// The content of a message.
pub open spec fn message_view(m: JsonRpcMessage) -> MessageView {
    match m {
        JsonRpcMessage::Request(q) => MessageView::Request {
            jsonrpc: q.jsonrpc@, id: id_view(q.id), method: q.method@, params: opt_jview(q.params),
        },
        JsonRpcMessage::Response(r) => MessageView::Response {
            jsonrpc: r.jsonrpc@, id: id_view(r.id), result: opt_jview(r.result),
            error: match r.error {
                Some(e) => Some(error_view(e)),
                None => None,
            },
        },
        JsonRpcMessage::Notification(n) => MessageView::Notification {
            jsonrpc: n.jsonrpc@, method: n.method@, params: opt_jview(n.params),
        },
    }
}

/// The JSON an identifier is written as.
pub open spec fn encode_id(id: IdView) -> JsonView {
    match id {
        IdView::Str(s) => JsonView::Str(s),
        IdView::Num(n) => JsonView::Int(n),
        IdView::Null => JsonView::Null,
    }
}

/// A member that is written only when present.
pub open spec fn member_if(name: Seq<char>, v: Option<JsonView>) -> Seq<(Seq<char>, JsonView)> {
    match v {
        Some(x) => seq![(name, x)],
        None => Seq::empty(),
    }
}

/// The JSON an error object is written as: code, message, and the data when
/// present.
pub open spec fn encode_error(e: ErrorView) -> JsonView {
    JsonView::Object(seq![("code"@, JsonView::Int(e.code as i64)), ("message"@, JsonView::Str(e.message))]
        + member_if("data"@, e.data))
}

/// The JSON a message is written as: the fields of the message in order,
/// absent optional fields left out.
pub open spec fn encode_view(m: MessageView) -> JsonView {
    match m {
        MessageView::Request { jsonrpc, id, method, params } => JsonView::Object(
            seq![("jsonrpc"@, JsonView::Str(jsonrpc)), ("id"@, encode_id(id)), ("method"@, JsonView::Str(method))]
                + member_if("params"@, params)),
        MessageView::Response { jsonrpc, id, result, error } => JsonView::Object(
            seq![("jsonrpc"@, JsonView::Str(jsonrpc)), ("id"@, encode_id(id))]
                + member_if("result"@, result)
                + member_if("error"@, match error {
                    Some(e) => Some(encode_error(e)),
                    None => None,
                })),
        MessageView::Notification { jsonrpc, method, params } => JsonView::Object(
            seq![("jsonrpc"@, JsonView::Str(jsonrpc)), ("method"@, JsonView::Str(method))]
                + member_if("params"@, params)),
    }
}

/// An optional member as it is read: absent and null are both nothing.
pub open spec fn read_optional(v: Option<JsonView>) -> Option<JsonView> {
    match v {
        Some(JsonView::Null) => None,
        Some(x) => Some(x),
        None => None,
    }
}

/// An identifier as it is read: a string, an integer within `i64`, or null.
pub open spec fn read_id(v: Option<JsonView>) -> Option<IdView> {
    match v {
        Some(JsonView::Str(s)) => Some(IdView::Str(s)),
        Some(JsonView::Int(n)) => Some(IdView::Num(n)),
        Some(JsonView::Null) => Some(IdView::Null),
        _ => None,
    }
}

/// A text member as it is read.
pub open spec fn read_text(v: Option<JsonView>) -> Option<Seq<char>> {
    match v {
        Some(JsonView::Str(s)) => Some(s),
        _ => None,
    }
}

/// An error member as it is read: nothing when absent or null; an object
/// with an integer code within `i32` and a text message; anything else
/// does not read.
pub open spec fn read_error(v: Option<JsonView>) -> Option<Option<ErrorView>> {
    match v {
        None => Some(None),
        Some(JsonView::Null) => Some(None),
        Some(e) => match (jv_field(e, "code"@), read_text(jv_field(e, "message"@))) {
            (Some(JsonView::Int(c)), Some(msg)) => if i32::MIN <= c <= i32::MAX {
                Some(Some(ErrorView { code: c as i32, message: msg, data: read_optional(jv_field(e, "data"@)) }))
            } else {
                None
            },
            _ => None,
        },
    }
}

/// A JSON document as it is read as a message: a request when it has a
/// version, an identifier and a method; otherwise a response when it has a
/// version, an identifier and a readable error; otherwise a notification
/// when it has a version and a method; otherwise nothing. Other members are
/// ignored.
pub open spec fn decode_view(v: JsonView) -> Option<MessageView> {
    match v {
        JsonView::Object(_) => {
            let jsonrpc = read_text(jv_field(v, "jsonrpc"@));
            let id = read_id(jv_field(v, "id"@));
            let method = read_text(jv_field(v, "method"@));
            let error = read_error(jv_field(v, "error"@));
            if jsonrpc is Some && id is Some && method is Some {
                Some(MessageView::Request {
                    jsonrpc: jsonrpc->0, id: id->0, method: method->0, params: read_optional(jv_field(v, "params"@)),
                })
            } else if jsonrpc is Some && id is Some && error is Some {
                Some(MessageView::Response {
                    jsonrpc: jsonrpc->0, id: id->0, result: read_optional(jv_field(v, "result"@)), error: error->0,
                })
            } else if jsonrpc is Some && method is Some {
                Some(MessageView::Notification {
                    jsonrpc: jsonrpc->0, method: method->0, params: read_optional(jv_field(v, "params"@)),
                })
            } else {
                None
            }
        },
        _ => None,
    }
}

/// The member `key` of a value, with the lookup of its content.
proof fn lemma_field(v: JsonValue, key: Seq<char>)
    ensures
        match v.field(key) {
            Some(x) => jv_field(jview(v), key) == Some(jview(x)),
            None => jv_field(jview(v), key) is None,
        },
{
    match v {
        JsonValue::Object(o) => lemma_oview_lookup(o, key),
        _ => {},
    }
}

/// An identifier read from a member.
fn read_id_exec(v: Option<&JsonValue>) -> (r: Option<RequestId>)
    ensures
        match read_id(opt_jview(match v { Some(x) => Some(*x), None => None })) {
            Some(i) => r matches Some(x) && id_view(x) == i,
            None => r is None,
        },
{
    match v {
        Some(JsonValue::String(s)) => Some(RequestId::String(s.clone())),
        Some(JsonValue::Number(JsonNumber::Int(n))) => Some(RequestId::Number(*n)),
        Some(JsonValue::Null) => Some(RequestId::Null),
        _ => None,
    }
}

/// An optional member as it is read.
fn read_optional_exec(v: Option<&JsonValue>) -> (r: Option<JsonValue>)
    ensures
        opt_jview(r) == read_optional(opt_jview(match v { Some(x) => Some(*x), None => None })),
{
    match v {
        Some(JsonValue::Null) => None,
        Some(x) => Some(x.duplicate()),
        None => None,
    }
}

/// A text member as it is read.
fn read_text_exec(v: Option<&JsonValue>) -> (r: Option<String>)
    ensures
        match read_text(opt_jview(match v { Some(x) => Some(*x), None => None })) {
            Some(t) => r matches Some(s) && s@ == t,
            None => r is None,
        },
{
    match v {
        Some(JsonValue::String(s)) => Some(s.clone()),
        _ => None,
    }
}

/// An error member as it is read.
fn read_error_exec(v: Option<&JsonValue>) -> (r: Option<Option<JsonRpcError>>)
    ensures
        match read_error(opt_jview(match v { Some(x) => Some(*x), None => None })) {
            Some(Some(e)) => r matches Some(Some(x)) && error_view(x) == e,
            Some(None) => r matches Some(None),
            None => r is None,
        },
{
    match v {
        None => Some(None),
        Some(JsonValue::Null) => Some(None),
        Some(e) => {
            proof {
                lemma_field(*e, "code"@);
                lemma_field(*e, "message"@);
                lemma_field(*e, "data"@);
            }
            let code = match e.get("code") {
                Some(JsonValue::Number(JsonNumber::Int(c))) => {
                    if -2147483648i64 <= *c && *c <= 2147483647i64 {
                        *c as i32
                    } else {
                        return None;
                    }
                },
                _ => return None,
            };
            let message = match read_text_exec(e.get("message")) {
                Some(m) => m,
                None => return None,
            };
            let data = read_optional_exec(e.get("data"));
            Some(Some(JsonRpcError { code, message, data }))
        },
    }
}

/// Reads a JSON document as a message.
pub fn message_from_json(v: &JsonValue) -> (r: Option<JsonRpcMessage>)
    ensures
        match decode_view(jview(*v)) {
            Some(mv) => r matches Some(m) && message_view(m) == mv,
            None => r is None,
        },
{
    if !v.is_object() {
        return None;
    }
    proof {
        lemma_field(*v, "jsonrpc"@);
        lemma_field(*v, "id"@);
        lemma_field(*v, "method"@);
        lemma_field(*v, "error"@);
        lemma_field(*v, "params"@);
        lemma_field(*v, "result"@);
    }
    let jsonrpc = read_text_exec(v.get("jsonrpc"));
    let id = read_id_exec(v.get("id"));
    let method = read_text_exec(v.get("method"));
    match (jsonrpc, id, method) {
        (Some(j), Some(i), Some(m)) => {
            return Some(JsonRpcMessage::Request(JsonRpcRequest {
                jsonrpc: j,
                id: i,
                method: m,
                params: read_optional_exec(v.get("params")),
            }));
        },
        (Some(j), Some(i), None) => {
            match read_error_exec(v.get("error")) {
                Some(error) => {
                    return Some(JsonRpcMessage::Response(JsonRpcResponse {
                        jsonrpc: j,
                        id: i,
                        result: read_optional_exec(v.get("result")),
                        error,
                    }));
                },
                None => return None,
            }
        },
        (Some(j), None, Some(m)) => {
            Some(JsonRpcMessage::Notification(JsonRpcNotification {
                jsonrpc: j,
                method: m,
                params: read_optional_exec(v.get("params")),
            }))
        },
        _ => None,
    }
}

/// The JSON of an identifier.
fn id_to_json(id: &RequestId) -> (r: JsonValue)
    ensures
        jview(r) == encode_id(id_view(*id)),
{
    match id {
        RequestId::String(s) => JsonValue::String(s.clone()),
        RequestId::Number(n) => JsonValue::Number(JsonNumber::Int(*n)),
        RequestId::Null => JsonValue::Null,
    }
}

/// The JSON of an error object.
fn error_to_json(e: &JsonRpcError) -> (r: JsonValue)
    ensures
        jview(r) == encode_error(error_view(*e)),
{
    let mut entries: Vec<(String, JsonValue)> = Vec::new();
    entries.push((owned("code"), JsonValue::Number(JsonNumber::Int(e.code as i64))));
    entries.push((owned("message"), JsonValue::String(e.message.clone())));
    match &e.data {
        Some(d) => entries.push((owned("data"), d.duplicate())),
        None => {},
    }
    let r = JsonValue::object(entries);
    proof {
        crate::json::lemma_members_oview(r->Object_0);
        assert(crate::json::oview(r->Object_0) =~= seq![("code"@, JsonView::Int(e.code as i64)), ("message"@, JsonView::Str(e.message@))]
            + member_if("data"@, opt_jview(e.data)));
    }
    r
}

/// Writes a message as a JSON document.
pub fn message_to_json(m: &JsonRpcMessage) -> (r: JsonValue)
    ensures
        jview(r) == encode_view(message_view(*m)),
{
    let mut entries: Vec<(String, JsonValue)> = Vec::new();
    match m {
        JsonRpcMessage::Request(q) => {
            entries.push((owned("jsonrpc"), JsonValue::String(q.jsonrpc.clone())));
            entries.push((owned("id"), id_to_json(&q.id)));
            entries.push((owned("method"), JsonValue::String(q.method.clone())));
            match &q.params {
                Some(p) => entries.push((owned("params"), p.duplicate())),
                None => {},
            }
        },
        JsonRpcMessage::Response(s) => {
            entries.push((owned("jsonrpc"), JsonValue::String(s.jsonrpc.clone())));
            entries.push((owned("id"), id_to_json(&s.id)));
            match &s.result {
                Some(p) => entries.push((owned("result"), p.duplicate())),
                None => {},
            }
            match &s.error {
                Some(e) => entries.push((owned("error"), error_to_json(e))),
                None => {},
            }
        },
        JsonRpcMessage::Notification(n) => {
            entries.push((owned("jsonrpc"), JsonValue::String(n.jsonrpc.clone())));
            entries.push((owned("method"), JsonValue::String(n.method.clone())));
            match &n.params {
                Some(p) => entries.push((owned("params"), p.duplicate())),
                None => {},
            }
        },
    }
    let ghost ev = entries@;
    let r = JsonValue::object(entries);
    proof {
        crate::json::lemma_members_oview(r->Object_0);
        let members = crate::json::oview(r->Object_0);
        match m {
            JsonRpcMessage::Request(q) => {
                assert(members =~= seq![("jsonrpc"@, JsonView::Str(q.jsonrpc@)), ("id"@, encode_id(id_view(q.id))),
                    ("method"@, JsonView::Str(q.method@))] + member_if("params"@, opt_jview(q.params)));
            },
            JsonRpcMessage::Response(s) => {
                assert(members =~= seq![("jsonrpc"@, JsonView::Str(s.jsonrpc@)), ("id"@, encode_id(id_view(s.id)))]
                    + member_if("result"@, opt_jview(s.result))
                    + member_if("error"@, match s.error {
                        Some(e) => Some(encode_error(error_view(e))),
                        None => None,
                    }));
            },
            JsonRpcMessage::Notification(n) => {
                assert(members =~= seq![("jsonrpc"@, JsonView::Str(n.jsonrpc@)), ("method"@, JsonView::Str(n.method@))]
                    + member_if("params"@, opt_jview(n.params)));
            },
        }
    }
    r
}

/// Whether every optional part of a message is written back as it was:
/// parameters, results and error data that are present are not null.
pub open spec fn round_trips(m: MessageView) -> bool {
    match m {
        MessageView::Request { params, .. } => params != Some(JsonView::Null),
        MessageView::Response { result, error, .. } => result != Some(JsonView::Null) && match error {
            Some(e) => e.data != Some(JsonView::Null),
            None => true,
        },
        MessageView::Notification { params, .. } => params != Some(JsonView::Null),
    }
}

/// Looking up a name in members that start with given pairs.
proof fn lemma_lookup_prefix(a: Seq<(Seq<char>, JsonView)>, b: Seq<(Seq<char>, JsonView)>, key: Seq<char>)
    ensures
        ov_lookup(a + b, key) == match ov_lookup(a, key) {
            Some(x) => Some(x),
            None => ov_lookup(b, key),
        },
    decreases a.len(),
{
    if a.len() > 0 {
        assert((a + b).drop_first() =~= a.drop_first() + b);
        assert((a + b)[0] == a[0]);
        lemma_lookup_prefix(a.drop_first(), b, key);
    } else {
        assert(a + b =~= b);
    }
}

/// Looking up a name in the members written for an optional part.
proof fn lemma_lookup_member_if(name: Seq<char>, v: Option<JsonView>, key: Seq<char>)
    ensures
        ov_lookup(member_if(name, v), key) == if key == name { v } else { None },
{
    match v {
        Some(x) => {
            assert(member_if(name, v).drop_first() =~= Seq::<(Seq<char>, JsonView)>::empty());
            assert(member_if(name, v)[0] == (name, x));
            assert(ov_lookup(Seq::<(Seq<char>, JsonView)>::empty(), key) is None);
        },
        None => {},
    }
}

/// Reading back what a message was written as gives the message, when its
/// optional parts are not null (a null part is read as an absent one).
pub proof fn lemma_decode_encode(m: MessageView)
    requires
        round_trips(m),
    ensures
        decode_view(encode_view(m)) == Some(m),
{
    reveal_strlit("jsonrpc");
    reveal_strlit("id");
    reveal_strlit("method");
    reveal_strlit("params");
    reveal_strlit("result");
    reveal_strlit("error");
    reveal_strlit("code");
    reveal_strlit("message");
    reveal_strlit("data");
    let keys = seq!["jsonrpc"@, "id"@, "method"@, "params"@, "result"@, "error"@];
    assert forall|i: int, j: int| 0 <= i < j < 6 implies keys[i] != keys[j] by {
        if keys[i][0] == keys[j][0] {
            assert(keys[i][1] != keys[j][1]);
        }
    }
    assert("code"@ != "message"@ && "code"@ != "data"@ && "message"@ != "data"@) by {
        assert("code"@[0] != "message"@[0]);
        assert("code"@[0] != "data"@[0]);
        assert("message"@[0] != "data"@[0]);
    }
    match m {
        MessageView::Request { jsonrpc, id, method, params } => {
            let head = seq![("jsonrpc"@, JsonView::Str(jsonrpc)), ("id"@, encode_id(id)), ("method"@, JsonView::Str(method))];
            reveal_with_fuel(ov_lookup, 4);
            assert(keys[0] != keys[3] && keys[1] != keys[3] && keys[2] != keys[3]);
            lemma_lookup_prefix(head, member_if("params"@, params), "jsonrpc"@);
            lemma_lookup_prefix(head, member_if("params"@, params), "id"@);
            lemma_lookup_prefix(head, member_if("params"@, params), "method"@);
            lemma_lookup_prefix(head, member_if("params"@, params), "params"@);
            lemma_lookup_member_if("params"@, params, "params"@);
            assert(keys[0] != keys[1] && keys[0] != keys[2] && keys[1] != keys[2]);
        },
        MessageView::Response { jsonrpc, id, result, error } => {
            let head = seq![("jsonrpc"@, JsonView::Str(jsonrpc)), ("id"@, encode_id(id))];
            let ev = match error {
                Some(e) => Some(encode_error(e)),
                None => None,
            };
            let tail = member_if("result"@, result) + member_if("error"@, ev);
            reveal_with_fuel(ov_lookup, 3);
            assert(keys[0] != keys[1] && keys[0] != keys[2] && keys[1] != keys[2]);
            assert(keys[0] != keys[4] && keys[1] != keys[4] && keys[2] != keys[4] && keys[3] != keys[4]);
            assert(keys[0] != keys[5] && keys[1] != keys[5] && keys[2] != keys[5] && keys[4] != keys[5]);
            assert(head + member_if("result"@, result) + member_if("error"@, ev) =~= head + tail);
            let ks = seq!["jsonrpc"@, "id"@, "method"@, "result"@, "error"@];
            assert forall|k: int| 0 <= k < 5 implies #[trigger] ov_lookup(head + tail, ks[k]) == match ov_lookup(head, ks[k]) {
                Some(x) => Some(x),
                None => ov_lookup(tail, ks[k]),
            } by {
                lemma_lookup_prefix(head, tail, ks[k]);
            }
            assert(ov_lookup(head + tail, ks[0]) == ov_lookup(head, ks[0]));
            assert(ov_lookup(head + tail, ks[1]) == ov_lookup(head, ks[1]));
            assert(ov_lookup(head + tail, ks[2]) == ov_lookup(tail, ks[2]));
            assert(ov_lookup(head + tail, ks[3]) == ov_lookup(tail, ks[3]));
            assert(ov_lookup(head + tail, ks[4]) == ov_lookup(tail, ks[4]));
            lemma_lookup_prefix(member_if("result"@, result), member_if("error"@, ev), "method"@);
            lemma_lookup_prefix(member_if("result"@, result), member_if("error"@, ev), "result"@);
            lemma_lookup_prefix(member_if("result"@, result), member_if("error"@, ev), "error"@);
            lemma_lookup_member_if("result"@, result, "method"@);
            lemma_lookup_member_if("result"@, result, "result"@);
            lemma_lookup_member_if("result"@, result, "error"@);
            lemma_lookup_member_if("error"@, ev, "method"@);
            lemma_lookup_member_if("error"@, ev, "result"@);
            lemma_lookup_member_if("error"@, ev, "error"@);
            match error {
                Some(e) => {
                    let eh = seq![("code"@, JsonView::Int(e.code as i64)), ("message"@, JsonView::Str(e.message))];
                    lemma_lookup_prefix(eh, member_if("data"@, e.data), "code"@);
                    lemma_lookup_prefix(eh, member_if("data"@, e.data), "message"@);
                    lemma_lookup_prefix(eh, member_if("data"@, e.data), "data"@);
                    lemma_lookup_member_if("data"@, e.data, "data"@);
                    assert(read_error(Some(encode_error(e))) == Some(Some(e)));
                },
                None => {},
            }
        },
        MessageView::Notification { jsonrpc, method, params } => {
            let head = seq![("jsonrpc"@, JsonView::Str(jsonrpc)), ("method"@, JsonView::Str(method))];
            reveal_with_fuel(ov_lookup, 3);
            assert(keys[0] != keys[1] && keys[0] != keys[2] && keys[1] != keys[2]);
            assert(keys[0] != keys[3] && keys[1] != keys[3] && keys[2] != keys[3]);
            lemma_lookup_prefix(head, member_if("params"@, params), "jsonrpc"@);
            lemma_lookup_prefix(head, member_if("params"@, params), "id"@);
            lemma_lookup_prefix(head, member_if("params"@, params), "method"@);
            lemma_lookup_prefix(head, member_if("params"@, params), "params"@);
            lemma_lookup_member_if("params"@, params, "params"@);
            lemma_lookup_member_if("params"@, params, "id"@);
        },
    }
}

} // verus!
