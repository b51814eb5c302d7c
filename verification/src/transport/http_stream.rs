//! The decisions of the Streamable HTTP transport (MCP 2025-03-26): one
//! endpoint for every message, the session announced by the server on
//! initialization, and responses that come either as JSON or as an event
//! stream. Sending requests and reading bodies is left to the caller.
use vstd::prelude::*;
use std::time::Duration;
use crate::client::PendingRequests;
use crate::error::{McpError, TransportError};
use crate::json::{JsonNumber, JsonValue, JsonView, json_u64_view, jview};
use crate::messages::jsonrpc::{JsonRpcMessage, JsonRpcRequest, JsonRpcResponse, RequestId};
use crate::strmap::StringMap;
use crate::text::{contains_str, is_prefix, lines, owned, push_str, starts_with, str_equal, contains_seq, lines_of};
use crate::time::{duration_debug, duration_debug_text, duration_from_secs, duration_millis};
use crate::transport::TransportInfo;
use crate::transport::config::{AuthConfig, HttpStreamConfig, TransportConfig};
use crate::weburl::WebUrl;

verus! {

/// The transport's error of the given variant: 0 not connected, 1 network,
/// 2 serialization, 3 timeout, 4 invalid configuration.
pub open spec fn is_stream_error(e: McpError, kind: nat, reason: Seq<char>) -> bool {
    match e {
        McpError::Transport(TransportError::NotConnected { transport_type: t, reason: r }) => kind == 0
            && t@ == "http-stream"@ && r@ == reason,
        McpError::Transport(TransportError::NetworkError { transport_type: t, reason: r }) => kind == 1
            && t@ == "http-stream"@ && r@ == reason,
        McpError::Transport(TransportError::SerializationError { transport_type: t, reason: r }) => kind == 2
            && t@ == "http-stream"@ && r@ == reason,
        McpError::Transport(TransportError::TimeoutError { transport_type: t, reason: r }) => kind == 3
            && t@ == "http-stream"@ && r@ == reason,
        McpError::Transport(TransportError::InvalidConfig { transport_type: t, reason: r }) => kind == 4
            && t@ == "http-stream"@ && r@ == reason,
        _ => false,
    }
}

/// An HTTP error with the given status and reason.
pub open spec fn is_http_error(e: McpError, status: u16, reason: Seq<char>) -> bool {
    e matches McpError::Transport(TransportError::HttpError { status_code, reason: r }) && status_code == status && r@ == reason
}

/// A POST to the endpoint: where it goes and its headers, in order. The
/// body is the serialized message.
#[derive(Debug)]
pub struct HttpRequestPlan {
    pub url: String,
    pub headers: Vec<(String, String)>,
    /// Whether this is the initialization request, whose response
    /// announces the session
    pub initialize: bool,
}

/// The header pairs, as texts.
pub open spec fn header_view(h: Seq<(String, String)>) -> Seq<(Seq<char>, Seq<char>)> {
    h.map_values(|p: (String, String)| (p.0@, p.1@))
}

/// What a JSON body says.
#[derive(Debug)]
pub enum JsonResponseOutcome {
    /// A result for a request
    Response(JsonRpcResponse),
    /// An error object sent by the server
    ServerError(JsonValue),
    /// Neither a result nor an error
    Invalid,
}

/// Whether `id` is the request identifier that a response body carries: its
/// `id` when that is a string, an integer within `i64`, or null; null
/// otherwise.
pub open spec fn id_from_body(id: RequestId, body: JsonValue) -> bool {
    match body.field("id"@) {
        Some(JsonValue::String(s)) => id matches RequestId::String(t) && t@ == s@,
        Some(JsonValue::Number(JsonNumber::Int(i))) => id == RequestId::Number(i),
        _ => id == RequestId::Null,
    }
}

/// Whether an outcome is what a JSON body says: a response when it has a
/// `result`, the server's error when it has an `error`, and invalid
/// otherwise.
pub open spec fn outcome_of_body(r: JsonResponseOutcome, body: JsonValue) -> bool {
    match body.field("result"@) {
        Some(res) => r matches JsonResponseOutcome::Response(resp) && resp.jsonrpc@ == "2.0"@
            && resp.result == Some(res) && resp.error is None && id_from_body(resp.id, body),
        None => match body.field("error"@) {
            Some(e) => r == JsonResponseOutcome::ServerError(e),
            None => r is Invalid,
        },
    }
}

/// The payloads of the `data: ` lines of an event stream, in order.
pub open spec fn data_payloads(ls: Seq<Seq<char>>) -> Seq<Seq<char>>
    decreases ls.len(),
{
    if ls.len() == 0 {
        Seq::empty()
    } else {
        let rest = data_payloads(ls.drop_last());
        if is_prefix("data: "@, ls.last()) {
            rest.push(ls.last().skip(6))
        } else {
            rest
        }
    }
}

/// The first parsed payload that carries an `id`.
pub open spec fn first_with_id(p: Seq<Option<JsonValue>>) -> Option<JsonValue>
    decreases p.len(),
{
    if p.len() == 0 {
        None
    } else {
        match p[0] {
            Some(v) => if v.field("id"@) is Some { Some(v) } else { first_with_id(p.drop_first()) },
            None => first_with_id(p.drop_first()),
        }
    }
}

/// The endpoint under a base URL: `mcp` appended after one slash.
pub open spec fn mcp_url_of(base: Seq<char>) -> Seq<char> {
    if base.len() > 0 && base.last() == '/' { base + "mcp"@ } else { base + "/mcp"@ }
}

/// The headers of a POST: JSON content, JSON or event-stream accepted, the
/// authorization if any, and the session if one is to be sent.
pub open spec fn post_headers(auth: Option<Seq<char>>, session: Option<Seq<char>>) -> Seq<(Seq<char>, Seq<char>)> {
    seq![("Content-Type"@, "application/json"@), ("Accept"@, "application/json, text/event-stream"@)]
        + (match auth {
            Some(a) => seq![("Authorization"@, a)],
            None => Seq::empty(),
        })
        + (match session {
            Some(s) => seq![("mcp-session-id"@, s)],
            None => Seq::empty(),
        })
}

/// The text of an optional string.
pub open spec fn opt_view(s: Option<String>) -> Option<Seq<char>> {
    match s {
        Some(t) => Some(t@),
        None => None,
    }
}

/// State of a Streamable HTTP transport.
#[derive(Debug)]
pub struct HttpStreamTransport {
    /// Base URL of the server
    pub base_url: String,
    /// Value of the Authorization header, if any
    pub auth_header: Option<String>,
    pub config: TransportConfig,
    /// Session announced by the server
    pub session_id: Option<String>,
    pub info: TransportInfo,
    /// Requests waiting for a response
    pub pending_requests: PendingRequests,
    pub connected: bool,
}

/// Where every message goes: the endpoint of the transport's base URL.
pub fn mcp_url(base_url: &str) -> (r: String)
    ensures
        r@ == mcp_url_of(base_url@),
{
    let n = base_url.unicode_len();
    let ends_with_slash = n > 0 && base_url.get_char(n - 1) == '/';
    let mut r = owned(base_url);
    if ends_with_slash {
        push_str(&mut r, "mcp");
    } else {
        push_str(&mut r, "/mcp");
    }
    r
}

impl HttpStreamTransport {
    /// A transport for `base_url`, not connected. Its configuration holds
    /// the URL (or http://localhost when it does not parse), a timeout of
    /// 300 seconds, no extra headers, bearer authentication with the given
    /// header, compression and a window of 65536.
    pub fn new(base_url: String, auth_header: Option<String>) -> (r: Self)
        ensures
            r.base_url@ == base_url@,
            opt_view(r.auth_header) == opt_view(auth_header),
            r.session_id is None,
            !r.connected,
            r.info.transport_type@ == "http-stream"@,
            !r.info.connected,
            r.pending_requests.wf(),
            r.pending_requests.view_ids().len() == 0,
            r.config matches TransportConfig::HttpStream(c) && {
                &&& (url_parse_ok(base_url@) ==> c.base_url.text() == crate::weburl::url_parse(base_url@)->Ok_0.0)
                &&& (!url_parse_ok(base_url@) ==> c.base_url.text() == crate::weburl::url_parse("http://localhost"@)->Ok_0.0)
                &&& duration_millis(c.timeout) == 300_000
                &&& c.headers == StringMap::Nil
                &&& (match auth_header {
                    Some(a) => c.auth matches Some(AuthConfig::Bearer { token }) && token@ == a@,
                    None => c.auth is None,
                })
                &&& c.compression
                &&& c.flow_control_window == 65536
            },
    {
        let url = match WebUrl::parse(base_url.as_str()) {
            Ok(u) => u,
            Err(_) => WebUrl::parse("http://localhost").unwrap(),
        };
        let auth = match &auth_header {
            Some(a) => Some(AuthConfig::bearer(a.as_str())),
            None => None,
        };
        let config = TransportConfig::HttpStream(HttpStreamConfig {
            base_url: url,
            timeout: duration_from_secs(300),
            headers: StringMap::new(),
            auth,
            compression: true,
            flow_control_window: 65536,
        });
        HttpStreamTransport {
            base_url,
            auth_header,
            config,
            session_id: None,
            info: TransportInfo::new("http-stream"),
            pending_requests: PendingRequests::new(),
            connected: false,
        }
    }

    /// The endpoint every message is posted to.
    pub fn get_mcp_url(&self) -> (r: String)
        ensures
            r@ == mcp_url_of(self.base_url@),
    {
        mcp_url(self.base_url.as_str())
    }

    /// Whether the transport is connected.
    pub fn is_connected(&self) -> (r: bool)
        ensures
            r == self.connected,
    {
        self.connected
    }

    /// Connects: nothing is sent until the first request.
    pub fn connect(&mut self) -> (r: Result<(), McpError>)
        ensures
            r is Ok,
            final(self).connected,
            final(self).info.connected,
            final(self).session_id == old(self).session_id,
            final(self).base_url == old(self).base_url,
            final(self).auth_header == old(self).auth_header,
    {
        self.connected = true;
        self.info.mark_connected();
        Ok(())
    }

    /// Disconnects: the session is forgotten and no request waits.
    pub fn disconnect(&mut self) -> (r: Result<(), McpError>)
        ensures
            r is Ok,
            !final(self).connected,
            !final(self).info.connected,
            final(self).session_id is None,
            final(self).pending_requests.wf(),
            final(self).pending_requests.view_ids().len() == 0,
            final(self).base_url == old(self).base_url,
            final(self).auth_header == old(self).auth_header,
    {
        self.session_id = None;
        self.connected = false;
        self.pending_requests = PendingRequests::new();
        self.info.mark_disconnected();
        Ok(())
    }

    /// The error for an operation on a transport that is not connected.
    pub fn not_connected() -> (e: McpError)
        ensures
            is_stream_error(e, 0, "Transport not connected"@),
    {
        McpError::Transport(TransportError::NotConnected {
            transport_type: owned("http-stream"),
            reason: owned("Transport not connected"),
        })
    }

    /// A POST to the endpoint, with the session header when `with_session`
    /// and a session is known.
    pub fn post_plan(&self, with_session: bool, initialize: bool) -> (r: HttpRequestPlan)
        ensures
            r.url@ == mcp_url_of(self.base_url@),
            r.initialize == initialize,
            header_view(r.headers@) == post_headers(opt_view(self.auth_header),
                if with_session { opt_view(self.session_id) } else { None }),
    {
        let mut headers: Vec<(String, String)> = Vec::new();
        headers.push((owned("Content-Type"), owned("application/json")));
        headers.push((owned("Accept"), owned("application/json, text/event-stream")));
        match &self.auth_header {
            Some(a) => headers.push((owned("Authorization"), a.clone())),
            None => {},
        }
        if with_session {
            match &self.session_id {
                Some(s) => headers.push((owned("mcp-session-id"), s.clone())),
                None => {},
            }
        }
        proof {
            assert(header_view(headers@) =~= post_headers(opt_view(self.auth_header),
                if with_session { opt_view(self.session_id) } else { None }));
        }
        HttpRequestPlan { url: self.get_mcp_url(), headers, initialize }
    }

    /// How to send a request: refused when not connected. The
    /// initialization request goes without a session header, since its
    /// response announces the session; every other request carries the
    /// session.
    pub fn begin_request(&self, request: &JsonRpcRequest) -> (r: Result<HttpRequestPlan, McpError>)
        ensures
            !self.connected ==> (r matches Err(e) && is_stream_error(e, 0, "Transport not connected"@)),
            self.connected ==> (r matches Ok(p) && {
                let init = request.method@ == "initialize"@;
                &&& p.initialize == init
                &&& p.url@ == mcp_url_of(self.base_url@)
                &&& header_view(p.headers@) == post_headers(opt_view(self.auth_header),
                    if init { None } else { opt_view(self.session_id) })
            }),
    {
        if !self.is_connected() {
            return Err(Self::not_connected());
        }
        let init = str_equal(request.method.as_str(), "initialize");
        Ok(self.post_plan(!init, init))
    }

    /// How to send a notification: refused when not connected; it carries
    /// the session.
    pub fn begin_notification(&self) -> (r: Result<HttpRequestPlan, McpError>)
        ensures
            !self.connected ==> (r matches Err(e) && is_stream_error(e, 0, "Transport not connected"@)),
            self.connected ==> (r matches Ok(p) && !p.initialize && p.url@ == mcp_url_of(self.base_url@)
                && header_view(p.headers@) == post_headers(opt_view(self.auth_header), opt_view(self.session_id))),
    {
        if !self.is_connected() {
            return Err(Self::not_connected());
        }
        Ok(self.post_plan(true, false))
    }

    /// Records the session announced in the `mcp-session-id` header of the
    /// response to initialization, if there was one.
    pub fn on_initialize_response(&mut self, session_header: Option<&str>)
        ensures
            match session_header {
                Some(s) => final(self).session_id matches Some(t) && t@ == s@,
                None => final(self).session_id == old(self).session_id,
            },
            final(self).connected == old(self).connected,
            final(self).base_url == old(self).base_url,
            final(self).auth_header == old(self).auth_header,
            final(self).info == old(self).info,
    {
        match session_header {
            Some(s) => { self.session_id = Some(owned(s)); },
            None => {},
        }
    }

    /// Counts a request that got an answer, good or bad, within its time.
    pub fn on_request_completed(&mut self)
        requires
            old(self).info.requests_sent < u64::MAX,
            old(self).info.responses_received < u64::MAX,
        ensures
            *final(self) == (HttpStreamTransport {
                info: TransportInfo {
                    requests_sent: (old(self).info.requests_sent + 1) as u64,
                    responses_received: (old(self).info.responses_received + 1) as u64,
                    ..old(self).info
                },
                ..*old(self)
            }),
    {
        self.info.increment_requests_sent();
        self.info.increment_responses_received();
    }

    /// Counts a notification the server accepted.
    pub fn on_notification_sent(&mut self)
        requires
            old(self).info.notifications_sent < u64::MAX,
        ensures
            *final(self) == (HttpStreamTransport {
                info: TransportInfo { notifications_sent: (old(self).info.notifications_sent + 1) as u64, ..old(self).info },
                ..*old(self)
            }),
    {
        self.info.increment_notifications_sent();
    }

    /// How long a request may take: the given time, or 30 seconds.
    pub fn request_timeout(given: Option<Duration>) -> (r: Duration)
        ensures
            match given {
                Some(d) => r == d,
                None => r == crate::time::duration_of_secs(30) && duration_millis(r) == 30_000,
            },
    {
        match given {
            Some(d) => d,
            None => duration_from_secs(30),
        }
    }

    /// The error for a request that took longer than `limit`.
    pub fn timeout_error(limit: &Duration) -> (e: McpError)
        ensures
            is_stream_error(e, 3, "Request timed out after "@ + duration_debug_text(*limit)),
    {
        let mut reason = owned("Request timed out after ");
        let d = duration_debug(limit);
        push_str(&mut reason, d.as_str());
        McpError::Transport(TransportError::TimeoutError { transport_type: owned("http-stream"), reason })
    }

    /// The error for a response with a failing status: its body, after
    /// "Initialization failed: " for the initialization request.
    pub fn http_failure(status: u16, body: &str, initialize: bool) -> (e: McpError)
        ensures
            is_http_error(e, status, if initialize { "Initialization failed: "@ + body@ } else { body@ }),
    {
        let mut reason = if initialize { owned("Initialization failed: ") } else { owned("") };
        proof {
            reveal_strlit("");
        }
        push_str(&mut reason, body);
        McpError::Transport(TransportError::HttpError { status_code: status, reason })
    }

    /// The error for a notification with a failing status.
    pub fn notification_failure(status: u16) -> (e: McpError)
        ensures
            is_http_error(e, status, "Notification failed"@),
    {
        McpError::Transport(TransportError::HttpError { status_code: status, reason: owned("Notification failed") })
    }

    /// The error for a request that could not be sent or read, such as
    /// ("HTTP request failed", the transport's message).
    pub fn network_failure(context: &str, detail: &str) -> (e: McpError)
        ensures
            is_stream_error(e, 1, context@ + ": "@ + detail@),
    {
        let mut reason = owned(context);
        push_str(&mut reason, ": ");
        push_str(&mut reason, detail);
        McpError::Transport(TransportError::NetworkError { transport_type: owned("http-stream"), reason })
    }

    /// The error for a message that could not be serialized, such as
    /// ("message", the serializer's message).
    pub fn serialization_failure(what: &str, detail: &str) -> (e: McpError)
        ensures
            is_stream_error(e, 2, "Failed to serialize "@ + what@ + ": "@ + detail@),
    {
        let mut reason = owned("Failed to serialize ");
        push_str(&mut reason, what);
        push_str(&mut reason, ": ");
        push_str(&mut reason, detail);
        McpError::Transport(TransportError::SerializationError { transport_type: owned("http-stream"), reason })
    }

    /// Unsolicited messages would come over an event stream that this
    /// transport does not open: receiving is always refused.
    pub fn receive_message(&mut self) -> (r: Result<JsonRpcMessage, McpError>)
        ensures
            r matches Err(e) && is_stream_error(e, 4, "Unsolicited message reception not implemented for Modern Streamable HTTP"@),
            *final(self) == *old(self),
    {
        Err(McpError::Transport(TransportError::InvalidConfig {
            transport_type: owned("http-stream"),
            reason: owned("Unsolicited message reception not implemented for Modern Streamable HTTP"),
        }))
    }

    /// The request identifier a response body carries.
    pub fn extract_request_id(body: &JsonValue) -> (r: RequestId)
        ensures
            id_from_body(r, *body),
    {
        match body.get("id") {
            Some(JsonValue::String(s)) => RequestId::String(s.clone()),
            Some(JsonValue::Number(JsonNumber::Int(i))) => RequestId::Number(*i),
            _ => RequestId::Null,
        }
    }

    /// What a JSON body says.
    pub fn classify_json_response(body: &JsonValue) -> (r: JsonResponseOutcome)
        ensures
            outcome_of_body(r, *body),
    {
        match body.get("result") {
            Some(res) => JsonResponseOutcome::Response(JsonRpcResponse {
                jsonrpc: owned("2.0"),
                id: Self::extract_request_id(body),
                result: Some(res.duplicate()),
                error: None,
            }),
            None => match body.get("error") {
                Some(e) => JsonResponseOutcome::ServerError(e.duplicate()),
                None => JsonResponseOutcome::Invalid,
            },
        }
    }

    /// The error for a body that is neither a result nor an error.
    pub fn invalid_response_format() -> (e: McpError)
        ensures
            is_stream_error(e, 2, "Invalid JSON-RPC response format"@),
    {
        McpError::Transport(TransportError::SerializationError {
            transport_type: owned("http-stream"),
            reason: owned("Invalid JSON-RPC response format"),
        })
    }

    /// The error for an error object sent by the server, given its JSON
    /// text.
    pub fn server_error(error_text: &str) -> (e: McpError)
        ensures
            is_http_error(e, 400, "Server returned error: "@ + error_text@),
    {
        let mut reason = owned("Server returned error: ");
        push_str(&mut reason, error_text);
        McpError::Transport(TransportError::HttpError { status_code: 400, reason })
    }

    /// The payloads of the `data: ` lines of an event-stream body.
    pub fn sse_data_payloads(text: &str) -> (r: Vec<String>)
        ensures
            r@.map_values(|s: String| s@) == data_payloads(lines_of(text@)),
    {
        let ls = lines(text);
        let ghost lv = ls@.map_values(|s: String| s@);
        let mut out: Vec<String> = Vec::new();
        let mut i: usize = 0;
        while i < ls.len()
            invariant
                i <= ls@.len(),
                lv == ls@.map_values(|s: String| s@),
                out@.map_values(|s: String| s@) == data_payloads(lv.take(i as int)),
            decreases ls@.len() - i,
        {
            let line = ls[i].as_str();
            proof {
                assert(lv.take(i + 1).drop_last() =~= lv.take(i as int));
                assert(lv.take(i + 1).last() == line@);
            }
            if starts_with(line, "data: ") {
                proof {
                    reveal_strlit("data: ");
                }
                let payload = line.substring_char(6, line.unicode_len());
                let ghost before = out@.map_values(|s: String| s@);
                out.push(owned(payload));
                proof {
                    assert(out@.map_values(|s: String| s@) =~= before.push(line@.skip(6)));
                }
            }
            i = i + 1;
        }
        proof {
            assert(lv.take(ls@.len() as int) =~= lv);
        }
        out
    }

    /// The outcome of the first parsed payload of an event stream that
    /// carries an `id`; an error when none does.
    pub fn parse_sse_response(payloads: &Vec<Option<JsonValue>>) -> (r: Result<JsonResponseOutcome, McpError>)
        ensures
            match first_with_id(payloads@) {
                Some(v) => r matches Ok(o) && outcome_of_body(o, v),
                None => r matches Err(e) && is_stream_error(e, 2, "No valid JSON-RPC response found in SSE data"@),
            },
    {
        let mut i: usize = 0;
        proof {
            assert(payloads@.skip(0) =~= payloads@);
        }
        while i < payloads.len()
            invariant
                i <= payloads@.len(),
                first_with_id(payloads@) == first_with_id(payloads@.skip(i as int)),
            decreases payloads@.len() - i,
        {
            proof {
                assert(payloads@.skip(i as int).drop_first() =~= payloads@.skip(i + 1));
            }
            match &payloads[i] {
                Some(v) => {
                    if v.get("id").is_some() {
                        return Ok(Self::classify_json_response(v));
                    }
                },
                None => {},
            }
            i = i + 1;
        }
        Err(McpError::Transport(TransportError::SerializationError {
            transport_type: owned("http-stream"),
            reason: owned("No valid JSON-RPC response found in SSE data"),
        }))
    }

    /// The outcome of a response body. `parsed` is the body read as JSON,
    /// if it is JSON; `payloads` are the `data: ` payloads of the body
    /// ([`Self::sse_data_payloads`]) read as JSON, where they are JSON. A
    /// JSON body is classified; otherwise a body with data lines is read as
    /// an event stream; anything else is refused.
    pub fn parse_response(text: &str, parsed: Option<&JsonValue>, payloads: &Vec<Option<JsonValue>>) -> (r: Result<JsonResponseOutcome, McpError>)
        ensures
            match parsed {
                Some(v) => r matches Ok(o) && outcome_of_body(o, *v),
                None => if contains_seq(text@, "data: "@) {
                    match first_with_id(payloads@) {
                        Some(v) => r matches Ok(o) && outcome_of_body(o, v),
                        None => r matches Err(e) && is_stream_error(e, 2, "No valid JSON-RPC response found in SSE data"@),
                    }
                } else {
                    r matches Err(e) && is_stream_error(e, 2, "Could not parse response as JSON or SSE: "@ + text@)
                },
            },
    {
        match parsed {
            Some(v) => Ok(Self::classify_json_response(v)),
            None => {
                if contains_str(text, "data: ") {
                    Self::parse_sse_response(payloads)
                } else {
                    let mut reason = owned("Could not parse response as JSON or SSE: ");
                    push_str(&mut reason, text);
                    Err(McpError::Transport(TransportError::SerializationError { transport_type: owned("http-stream"), reason }))
                }
            },
        }
    }

    /// What the transport reports about itself: its counters, plus its base
    /// URL, endpoint, whether it has authorization and a session, the
    /// protocol, the session and the number of pending requests.
    pub fn get_info(&self) -> (r: TransportInfo)
        ensures
            r.transport_type == self.info.transport_type,
            r.connected == self.info.connected,
            r.requests_sent == self.info.requests_sent,
            r.responses_received == self.info.responses_received,
            r.notifications_sent == self.info.notifications_sent,
            r.notifications_received == self.info.notifications_received,
            r.errors == self.info.errors,
            r.metadata.lookup("base_url"@) matches Some(v) && jview(v) == JsonView::Str(self.base_url@),
            r.metadata.lookup("mcp_endpoint"@) matches Some(v) && jview(v) == JsonView::Str(mcp_url_of(self.base_url@)),
            r.metadata.lookup("has_auth"@) == Some(JsonValue::Bool(self.auth_header is Some)),
            r.metadata.lookup("has_session"@) == Some(JsonValue::Bool(self.session_id is Some)),
            r.metadata.lookup("protocol"@) matches Some(v) && jview(v) == JsonView::Str("Modern Streamable HTTP (2025-03-26)"@),
            match self.session_id {
                Some(s) => r.metadata.lookup("session_id"@) matches Some(v) && jview(v) == JsonView::Str(s@),
                None => r.metadata.lookup("session_id"@) == self.info.metadata.lookup("session_id"@),
            },
            r.metadata.lookup("pending_requests"@) matches Some(v)
                && jview(v) == json_u64_view(self.pending_requests.view_ids().len() as u64),
    {
        proof {
            // The keys are told apart by their first two characters.
            reveal_strlit("base_url");
            reveal_strlit("mcp_endpoint");
            reveal_strlit("has_auth");
            reveal_strlit("has_session");
            reveal_strlit("protocol");
            reveal_strlit("session_id");
            reveal_strlit("pending_requests");
            let keys = seq!["base_url"@, "mcp_endpoint"@, "has_auth"@, "has_session"@, "protocol"@, "session_id"@, "pending_requests"@];
            assert forall|i: int, j: int| 0 <= i < j < 7 implies keys[i] != keys[j] by {
                if keys[i][0] == keys[j][0] {
                    if keys[i][1] == keys[j][1] {
                        assert(keys[i][4] != keys[j][4]);
                    }
                }
            }
        }
        let mut info = TransportInfo {
            transport_type: self.info.transport_type.clone(),
            connected: self.info.connected,
            connected_since: self.info.connected_since,
            requests_sent: self.info.requests_sent,
            responses_received: self.info.responses_received,
            notifications_sent: self.info.notifications_sent,
            notifications_received: self.info.notifications_received,
            errors: self.info.errors,
            metadata: self.info.metadata.duplicate(),
        };
        info.add_metadata("base_url", JsonValue::String(self.base_url.clone()));
        info.add_metadata("mcp_endpoint", JsonValue::String(self.get_mcp_url()));
        info.add_metadata("has_auth", JsonValue::Bool(self.auth_header.is_some()));
        info.add_metadata("has_session", JsonValue::Bool(self.session_id.is_some()));
        info.add_metadata("protocol", JsonValue::String(owned("Modern Streamable HTTP (2025-03-26)")));
        match &self.session_id {
            Some(s) => info.add_metadata("session_id", JsonValue::String(s.clone())),
            None => {},
        }
        let n = self.pending_requests.len();
        proof {
            assert(n <= usize::MAX);
        }
        info.add_metadata("pending_requests", JsonValue::from_u64(n as u64));
        info
    }

    /// The transport's configuration.
    pub fn get_config(&self) -> (r: &TransportConfig)
        ensures
            *r == self.config,
    {
        &self.config
    }
}

/// Whether a text parses as a URL.
pub open spec fn url_parse_ok(text: Seq<char>) -> bool {
    crate::weburl::url_parse(text) is Ok
}

} // verus!
