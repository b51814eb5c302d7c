//! Core JSON-RPC 2.0 message structures for MCP communication.
use vstd::prelude::*;
use vstd::std_specs::convert::FromSpecImpl;
use crate::json::JsonValue;
use crate::text::{owned, push_str, i64_to_decimal, int_decimal};

verus! {

/// Request ID for JSON-RPC messages: a string, a number or null.
#[derive(Debug, Clone)]
pub enum RequestId {
    String(String),
    Number(i64),
    Null,
}

/// Type alias for request IDs.
pub type JsonRpcId = RequestId;

/// The text that a request ID displays as.
pub open spec fn request_id_text(id: RequestId) -> Seq<char> {
    match id {
        RequestId::String(s) => s@,
        RequestId::Number(n) => int_decimal(n as int),
        RequestId::Null => "null"@,
    }
}

impl RequestId {
    /// The text of the ID: the string itself, the decimal number, or `null`.
    pub fn to_string(&self) -> (r: String)
        ensures
            r@ == request_id_text(*self),
    {
        match self {
            RequestId::String(s) => s.clone(),
            RequestId::Number(n) => i64_to_decimal(*n),
            RequestId::Null => owned("null"),
        }
    }

    /// A copy of this ID.
    pub fn duplicate(&self) -> (r: RequestId)
        ensures
            r == *self,
    {
        match self {
            RequestId::String(s) => RequestId::String(s.clone()),
            RequestId::Number(n) => RequestId::Number(*n),
            RequestId::Null => RequestId::Null,
        }
    }
}

impl From<String> for RequestId {
    fn from(s: String) -> (r: RequestId)
        ensures
            r == RequestId::String(s),
    {
        RequestId::String(s)
    }
}

impl FromSpecImpl<String> for RequestId {
    open spec fn obeys_from_spec() -> bool {
        true
    }

    open spec fn from_spec(v: String) -> RequestId {
        RequestId::String(v)
    }
}

impl From<&str> for RequestId {
    fn from(s: &str) -> (r: RequestId)
        ensures
            r is String,
            r->String_0@ == s@,
    {
        RequestId::String(owned(s))
    }
}

impl FromSpecImpl<&str> for RequestId {
    /// A `String` cannot be named in a specification by its characters
    /// alone, so the conversion states its result in its own `ensures`.
    open spec fn obeys_from_spec() -> bool {
        false
    }

    open spec fn from_spec(v: &str) -> RequestId {
        RequestId::Null
    }
}

impl From<i64> for RequestId {
    fn from(n: i64) -> (r: RequestId)
        ensures
            r == RequestId::Number(n),
    {
        RequestId::Number(n)
    }
}

impl FromSpecImpl<i64> for RequestId {
    open spec fn obeys_from_spec() -> bool {
        true
    }

    open spec fn from_spec(v: i64) -> RequestId {
        RequestId::Number(v)
    }
}

impl From<i32> for RequestId {
    fn from(n: i32) -> (r: RequestId)
        ensures
            r == RequestId::Number(n as i64),
    {
        RequestId::Number(n as i64)
    }
}

impl FromSpecImpl<i32> for RequestId {
    open spec fn obeys_from_spec() -> bool {
        true
    }

    open spec fn from_spec(v: i32) -> RequestId {
        RequestId::Number(v as i64)
    }
}

/// JSON-RPC 2.0 request message: a client-to-server message that expects a
/// response.
#[derive(Debug)]
pub struct JsonRpcRequest {
    /// JSON-RPC version (always "2.0")
    pub jsonrpc: String,
    /// Identifier for request/response correlation
    pub id: RequestId,
    /// Method name being invoked
    pub method: String,
    /// Parameters for the method
    pub params: Option<JsonValue>,
}

/// JSON-RPC 2.0 response message: either a result or an error.
#[derive(Debug)]
pub struct JsonRpcResponse {
    pub jsonrpc: String,
    pub id: RequestId,
    pub result: Option<JsonValue>,
    pub error: Option<JsonRpcError>,
}

/// JSON-RPC 2.0 notification message: a one-way message.
#[derive(Debug)]
pub struct JsonRpcNotification {
    pub jsonrpc: String,
    pub method: String,
    pub params: Option<JsonValue>,
}

/// JSON-RPC 2.0 error object.
#[derive(Debug)]
pub struct JsonRpcError {
    /// Numeric error code
    pub code: i32,
    /// Human-readable error message
    pub message: String,
    /// Additional error data
    pub data: Option<JsonValue>,
}

/// Any JSON-RPC message.
#[derive(Debug)]
pub enum JsonRpcMessage {
    Request(JsonRpcRequest),
    Response(JsonRpcResponse),
    Notification(JsonRpcNotification),
}

/// The version tag every message carries.
pub fn jsonrpc_version() -> (r: String)
    ensures
        r@ == "2.0"@,
{
    owned("2.0")
}

impl JsonRpcRequest {
    /// A request with the given ID, method and parameters.
    pub fn new(id: RequestId, method: &str, params: JsonValue) -> (r: Self)
        ensures
            r.jsonrpc@ == "2.0"@,
            r.id == id,
            r.method@ == method@,
            r.params == Some(params),
    {
        JsonRpcRequest { jsonrpc: jsonrpc_version(), id, method: owned(method), params: Some(params) }
    }

    /// A request without parameters.
    pub fn without_params(id: RequestId, method: &str) -> (r: Self)
        ensures
            r.jsonrpc@ == "2.0"@,
            r.id == id,
            r.method@ == method@,
            r.params is None,
    {
        JsonRpcRequest { jsonrpc: jsonrpc_version(), id, method: owned(method), params: None }
    }

    /// A request whose ID is a fresh random UUID, in its 36-character
    /// hyphenated text form.
    pub fn with_random_id(method: &str, params: JsonValue) -> (r: Self)
        ensures
            r.jsonrpc@ == "2.0"@,
            r.id matches RequestId::String(s) && s@.len() == 36
                && forall|i: int| 0 <= i < 36 ==> crate::ids::uuid_char_at(i, #[trigger] s@[i]),
            r.method@ == method@,
            r.params == Some(params),
    {
        let id = crate::ids::new_uuid_string();
        Self::new(RequestId::String(id), method, params)
    }

    /// Whether this request has parameters.
    pub fn has_params(&self) -> (r: bool)
        ensures
            r == self.params is Some,
    {
        self.params.is_some()
    }

    /// A copy of this request.
    pub fn duplicate(&self) -> (r: Self)
        ensures
            r == *self,
    {
        JsonRpcRequest {
            jsonrpc: self.jsonrpc.clone(),
            id: self.id.duplicate(),
            method: self.method.clone(),
            params: duplicate_option(&self.params),
        }
    }
}

/// A copy of an optional JSON value.
pub fn duplicate_option(v: &Option<JsonValue>) -> (r: Option<JsonValue>)
    ensures
        r == *v,
{
    match v {
        Some(x) => Some(x.duplicate()),
        None => None,
    }
}

impl JsonRpcResponse {
    /// A successful response carrying `result`.
    pub fn success(id: RequestId, result: JsonValue) -> (r: Self)
        ensures
            r.jsonrpc@ == "2.0"@,
            r.id == id,
            r.result == Some(result),
            r.error is None,
    {
        JsonRpcResponse { jsonrpc: jsonrpc_version(), id, result: Some(result), error: None }
    }

    /// An error response carrying `error`.
    pub fn error(id: RequestId, error: JsonRpcError) -> (r: Self)
        ensures
            r.jsonrpc@ == "2.0"@,
            r.id == id,
            r.result is None,
            r.error == Some(error),
    {
        JsonRpcResponse { jsonrpc: jsonrpc_version(), id, result: None, error: Some(error) }
    }

    /// Whether this response is a success: a result and no error.
    pub fn is_success(&self) -> (r: bool)
        ensures
            r == (self.result is Some && self.error is None),
    {
        self.result.is_some() && self.error.is_none()
    }

    /// Whether this response carries an error.
    pub fn is_error(&self) -> (r: bool)
        ensures
            r == self.error is Some,
    {
        self.error.is_some()
    }

    /// A copy of this response.
    pub fn duplicate(&self) -> (r: Self)
        ensures
            r == *self,
    {
        JsonRpcResponse {
            jsonrpc: self.jsonrpc.clone(),
            id: self.id.duplicate(),
            result: duplicate_option(&self.result),
            error: match &self.error {
                Some(e) => Some(e.duplicate()),
                None => None,
            },
        }
    }
}

impl JsonRpcNotification {
    /// A notification with the given method and parameters.
    pub fn new(method: &str, params: JsonValue) -> (r: Self)
        ensures
            r.jsonrpc@ == "2.0"@,
            r.method@ == method@,
            r.params == Some(params),
    {
        JsonRpcNotification { jsonrpc: jsonrpc_version(), method: owned(method), params: Some(params) }
    }

    /// A notification without parameters.
    pub fn without_params(method: &str) -> (r: Self)
        ensures
            r.jsonrpc@ == "2.0"@,
            r.method@ == method@,
            r.params is None,
    {
        JsonRpcNotification { jsonrpc: jsonrpc_version(), method: owned(method), params: None }
    }

    /// Whether this notification has parameters.
    pub fn has_params(&self) -> (r: bool)
        ensures
            r == self.params is Some,
    {
        self.params.is_some()
    }

    /// A copy of this notification.
    pub fn duplicate(&self) -> (r: Self)
        ensures
            r == *self,
    {
        JsonRpcNotification {
            jsonrpc: self.jsonrpc.clone(),
            method: self.method.clone(),
            params: duplicate_option(&self.params),
        }
    }
}

/// Whether an error code is one of the standard JSON-RPC codes
/// (-32700 to -32600).
pub open spec fn is_standard_code(code: i32) -> bool {
    -32700 <= code <= -32600
}

/// Whether an error code is in the application range (-32099 to -32000).
pub open spec fn is_application_code(code: i32) -> bool {
    -32099 <= code <= -32000
}

impl JsonRpcError {
    /// An error with the given code, message and data.
    pub fn new(code: i32, message: &str, data: Option<JsonValue>) -> (r: Self)
        ensures
            r.code == code,
            r.message@ == message@,
            r.data == data,
    {
        JsonRpcError { code, message: owned(message), data }
    }

    /// "Parse error" (-32700), without data.
    pub fn parse_error() -> (r: Self)
        ensures
            r.code == -32700,
            r.message@ == "Parse error"@,
            r.data is None,
    {
        Self::new(-32700, "Parse error", None)
    }

    /// "Invalid Request" (-32600) with the details as string data.
    pub fn invalid_request(details: &str) -> (r: Self)
        ensures
            r.code == -32600,
            r.message@ == "Invalid Request"@,
            r.data is Some && r.data->0 is String && r.data->0->String_0@ == details@,
    {
        Self::new(-32600, "Invalid Request", Some(JsonValue::string(details)))
    }

    /// "Method not found" (-32601) with data "Method '<method>' not found".
    pub fn method_not_found(method: &str) -> (r: Self)
        ensures
            r.code == -32601,
            r.message@ == "Method not found"@,
            r.data is Some && r.data->0 is String,
            r.data->0->String_0@ == "Method '"@ + method@ + "' not found"@,
    {
        let mut text = owned("Method '");
        push_str(&mut text, method);
        push_str(&mut text, "' not found");
        Self::new(-32601, "Method not found", Some(JsonValue::String(text)))
    }

    /// "Invalid params" (-32602) with the details as string data.
    pub fn invalid_params(details: &str) -> (r: Self)
        ensures
            r.code == -32602,
            r.message@ == "Invalid params"@,
            r.data is Some && r.data->0 is String && r.data->0->String_0@ == details@,
    {
        Self::new(-32602, "Invalid params", Some(JsonValue::string(details)))
    }

    /// "Internal error" (-32603) with the details as string data.
    pub fn internal_error(details: &str) -> (r: Self)
        ensures
            r.code == -32603,
            r.message@ == "Internal error"@,
            r.data is Some && r.data->0 is String && r.data->0->String_0@ == details@,
    {
        Self::new(-32603, "Internal error", Some(JsonValue::string(details)))
    }

    /// An application error with the given code and message, and the details
    /// as string data.
    pub fn application_error(code: i32, message: &str, details: &str) -> (r: Self)
        ensures
            r.code == code,
            r.message@ == message@,
            r.data is Some && r.data->0 is String && r.data->0->String_0@ == details@,
    {
        Self::new(code, message, Some(JsonValue::string(details)))
    }

    /// Whether this is a standard JSON-RPC error (-32700 to -32600).
    pub fn is_standard_error(&self) -> (r: bool)
        ensures
            r == is_standard_code(self.code),
    {
        -32700 <= self.code && self.code <= -32600
    }

    /// Whether this is an application error (-32099 to -32000).
    pub fn is_application_error(&self) -> (r: bool)
        ensures
            r == is_application_code(self.code),
    {
        -32099 <= self.code && self.code <= -32000
    }

    /// A copy of this error.
    pub fn duplicate(&self) -> (r: Self)
        ensures
            r == *self,
    {
        JsonRpcError { code: self.code, message: self.message.clone(), data: duplicate_option(&self.data) }
    }
}

impl JsonRpcMessage {
    /// The method of a request or notification.
    pub fn method(&self) -> (r: Option<&str>)
        ensures
            match *self {
                JsonRpcMessage::Request(req) => r is Some && r->0@ == req.method@,
                JsonRpcMessage::Notification(n) => r is Some && r->0@ == n.method@,
                JsonRpcMessage::Response(_) => r is None,
            },
    {
        match self {
            JsonRpcMessage::Request(req) => Some(req.method.as_str()),
            JsonRpcMessage::Notification(n) => Some(n.method.as_str()),
            JsonRpcMessage::Response(_) => None,
        }
    }

    /// The ID of a request or response.
    pub fn id(&self) -> (r: Option<&RequestId>)
        ensures
            match *self {
                JsonRpcMessage::Request(req) => r is Some && *r->0 == req.id,
                JsonRpcMessage::Response(resp) => r is Some && *r->0 == resp.id,
                JsonRpcMessage::Notification(_) => r is None,
            },
    {
        match self {
            JsonRpcMessage::Request(req) => Some(&req.id),
            JsonRpcMessage::Response(resp) => Some(&resp.id),
            JsonRpcMessage::Notification(_) => None,
        }
    }

    /// Whether this message expects a response: only requests do.
    pub fn expects_response(&self) -> (r: bool)
        ensures
            r == (*self is Request),
    {
        match self {
            JsonRpcMessage::Request(_) => true,
            _ => false,
        }
    }

    /// The version tag of the message.
    pub fn jsonrpc(&self) -> (r: &str)
        ensures
            r@ == message_version(*self),
    {
        match self {
            JsonRpcMessage::Request(req) => req.jsonrpc.as_str(),
            JsonRpcMessage::Response(resp) => resp.jsonrpc.as_str(),
            JsonRpcMessage::Notification(n) => n.jsonrpc.as_str(),
        }
    }

    /// A copy of this message.
    pub fn duplicate(&self) -> (r: Self)
        ensures
            r == *self,
    {
        match self {
            JsonRpcMessage::Request(req) => JsonRpcMessage::Request(req.duplicate()),
            JsonRpcMessage::Response(resp) => JsonRpcMessage::Response(resp.duplicate()),
            JsonRpcMessage::Notification(n) => JsonRpcMessage::Notification(n.duplicate()),
        }
    }
}

/// The version tag that a message carries.
pub open spec fn message_version(m: JsonRpcMessage) -> Seq<char> {
    match m {
        JsonRpcMessage::Request(req) => req.jsonrpc@,
        JsonRpcMessage::Response(resp) => resp.jsonrpc@,
        JsonRpcMessage::Notification(n) => n.jsonrpc@,
    }
}

impl From<JsonRpcRequest> for JsonRpcMessage {
    fn from(req: JsonRpcRequest) -> (r: JsonRpcMessage)
        ensures
            r == JsonRpcMessage::Request(req),
    {
        JsonRpcMessage::Request(req)
    }
}

impl FromSpecImpl<JsonRpcRequest> for JsonRpcMessage {
    open spec fn obeys_from_spec() -> bool {
        true
    }

    open spec fn from_spec(v: JsonRpcRequest) -> JsonRpcMessage {
        JsonRpcMessage::Request(v)
    }
}

impl From<JsonRpcResponse> for JsonRpcMessage {
    fn from(resp: JsonRpcResponse) -> (r: JsonRpcMessage)
        ensures
            r == JsonRpcMessage::Response(resp),
    {
        JsonRpcMessage::Response(resp)
    }
}

impl FromSpecImpl<JsonRpcResponse> for JsonRpcMessage {
    open spec fn obeys_from_spec() -> bool {
        true
    }

    open spec fn from_spec(v: JsonRpcResponse) -> JsonRpcMessage {
        JsonRpcMessage::Response(v)
    }
}

impl From<JsonRpcNotification> for JsonRpcMessage {
    fn from(n: JsonRpcNotification) -> (r: JsonRpcMessage)
        ensures
            r == JsonRpcMessage::Notification(n),
    {
        JsonRpcMessage::Notification(n)
    }
}

impl FromSpecImpl<JsonRpcNotification> for JsonRpcMessage {
    open spec fn obeys_from_spec() -> bool {
        true
    }

    open spec fn from_spec(v: JsonRpcNotification) -> JsonRpcMessage {
        JsonRpcMessage::Notification(v)
    }
}

} // verus!
