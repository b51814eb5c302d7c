//! How the Streamable HTTP / HTTP+SSE transport talks to a server: which
//! calls it makes for each protocol, how it reads the replies, what it does
//! with each streamed event, and how it matches responses to requests.
//! The calls themselves are made by the caller.
use vstd::prelude::*;
use std::time::Duration;
use crate::error::{McpError, TransportError};
use crate::messages::jsonrpc::{JsonRpcMessage, JsonRpcResponse, request_id_text};
use crate::text::{contains_seq, contains_str, first_occurrence, find_str, is_prefix, owned, push_str,
    starts_with, str_equal, u64_to_decimal, nat_decimal};
use crate::time::{duration_debug, duration_debug_text, duration_from_secs, duration_millis};
use crate::transport::sse::{HttpSseTransport, McpProtocolVersion, session_id_problem, session_in_text,
    extract_session_from_event_data_static, discovery_endpoint};
use crate::weburl::{WebUrl, url_join, url_set_query};
use crate::json::{JsonValue, JsonView, json_u64_view, jview, ov_lookup, oview};
use crate::strmap::{StringMap, keys_increasing, pair_views, pairs_lookup};
use crate::text::chars_lt;
use crate::time::duration_as_secs;
use crate::transport::TransportInfo;
use crate::transport::config::TransportConfig;

verus! {

/// This transport's error of the given variant: 0 network, 1
/// serialization, 2 timeout, 3 disconnected, 4 not connected, 5 connection,
/// 6 invalid configuration.
pub open spec fn is_sse_error(e: McpError, kind: nat, reason: Seq<char>) -> bool {
    match e {
        McpError::Transport(TransportError::NetworkError { transport_type: t, reason: r }) => kind == 0
            && t@ == "streamable-http"@ && r@ == reason,
        McpError::Transport(TransportError::SerializationError { transport_type: t, reason: r }) => kind == 1
            && t@ == "streamable-http"@ && r@ == reason,
        McpError::Transport(TransportError::TimeoutError { transport_type: t, reason: r }) => kind == 2
            && t@ == "streamable-http"@ && r@ == reason,
        McpError::Transport(TransportError::DisconnectedError { transport_type: t, reason: r }) => kind == 3
            && t@ == "streamable-http"@ && r@ == reason,
        McpError::Transport(TransportError::NotConnected { transport_type: t, reason: r }) => kind == 4
            && t@ == "streamable-http"@ && r@ == reason,
        McpError::Transport(TransportError::ConnectionError { transport_type: t, reason: r }) => kind == 5
            && t@ == "streamable-http"@ && r@ == reason,
        McpError::Transport(TransportError::InvalidConfig { transport_type: t, reason: r }) => kind == 6
            && t@ == "streamable-http"@ && r@ == reason,
        _ => false,
    }
}

/// This transport's error of the given variant and reason.
fn sse_error(kind: u8, reason: String) -> (e: McpError)
    requires
        kind <= 6,
    ensures
        is_sse_error(e, kind as nat, reason@),
{
    let t = owned("streamable-http");
    let err = if kind == 0 {
        TransportError::NetworkError { transport_type: t, reason }
    } else if kind == 1 {
        TransportError::SerializationError { transport_type: t, reason }
    } else if kind == 2 {
        TransportError::TimeoutError { transport_type: t, reason }
    } else if kind == 3 {
        TransportError::DisconnectedError { transport_type: t, reason }
    } else if kind == 4 {
        TransportError::NotConnected { transport_type: t, reason }
    } else if kind == 5 {
        TransportError::ConnectionError { transport_type: t, reason }
    } else {
        TransportError::InvalidConfig { transport_type: t, reason }
    };
    McpError::Transport(err)
}

/// `prefix` followed by `rest`, as an owned string.
fn joined(prefix: &str, rest: &str) -> (r: String)
    ensures
        r@ == prefix@ + rest@,
{
    let mut r = owned(prefix);
    push_str(&mut r, rest);
    r
}

/// An HTTP method.
#[derive(Debug, Clone, Copy, PartialEq, Eq, Structural)]
pub enum HttpMethod {
    Get,
    Post,
    Head,
    Delete,
}

/// A call to make: method, address and headers in order.
#[derive(Debug)]
pub struct HttpCall {
    pub method: HttpMethod,
    pub url: String,
    pub headers: Vec<(String, String)>,
}

/// The header pairs, as texts.
pub open spec fn headers_view(h: Seq<(String, String)>) -> Seq<(Seq<char>, Seq<char>)> {
    h.map_values(|p: (String, String)| (p.0@, p.1@))
}

/// The text of an optional string.
pub open spec fn opt_text(s: Option<String>) -> Option<Seq<char>> {
    match s {
        Some(t) => Some(t@),
        None => None,
    }
}

/// One header when a value is present, none otherwise.
pub open spec fn header_if(name: Seq<char>, v: Option<Seq<char>>) -> Seq<(Seq<char>, Seq<char>)> {
    match v {
        Some(x) => seq![(name, x)],
        None => Seq::empty(),
    }
}

/// The headers of a message posted to the server.
pub open spec fn post_headers() -> Seq<(Seq<char>, Seq<char>)> {
    seq![("Content-Type"@, "application/json"@), ("Accept"@, "application/json, text/event-stream"@)]
}

/// How a reply body is to be read.
#[derive(Debug, Clone, Copy, PartialEq, Eq, Structural)]
pub enum BodyKind {
    /// One JSON response
    Json,
    /// An event stream that will carry the response
    EventStream,
}

/// How a reply of the legacy protocol is to be handled.
#[derive(Debug, Clone, Copy, PartialEq, Eq, Structural)]
pub enum LegacyReply {
    /// Accepted: the response will come over the session's event stream
    Accepted,
    /// A body to read
    Body(BodyKind),
}

/// What to do with an event of a response stream.
#[derive(Debug)]
pub enum StreamEvent {
    /// A session announcement, not a message
    Announcement,
    /// A message for the receiver
    Deliver(JsonRpcMessage),
    /// Data that is not a message
    Unreadable,
}

/// What the session monitor does with an event.
#[derive(Debug)]
pub enum MonitorEvent {
    /// A message, for matching with requests
    Message(JsonRpcMessage),
    /// A fresh session announced by the server
    Session(String),
    /// Nothing usable
    Ignore,
}

/// How a content type reads: JSON, an event stream, or neither.
pub open spec fn body_kind_of(ct: Seq<char>) -> Option<BodyKind> {
    if contains_seq(ct, "application/json"@) {
        Some(BodyKind::Json)
    } else if contains_seq(ct, "text/event-stream"@) {
        Some(BodyKind::EventStream)
    } else {
        None
    }
}

/// A content type, or the given default when the reply has none.
pub open spec fn content_type_or(ct: Option<&str>, default: Seq<char>) -> Seq<char> {
    match ct {
        Some(t) => t@,
        None => default,
    }
}

/// How a content type reads.
fn read_body_kind(ct: &str) -> (r: Option<BodyKind>)
    ensures
        r == body_kind_of(ct@),
{
    if contains_str(ct, "application/json") {
        Some(BodyKind::Json)
    } else if contains_str(ct, "text/event-stream") {
        Some(BodyKind::EventStream)
    } else {
        None
    }
}

/// The session carried in an announcement from the session monitor: what
/// follows "sessionId=" in "/sse?sessionId=..." up to any further
/// "sessionId=", or the whole text otherwise.
pub open spec fn announced_session(info: Seq<char>) -> Seq<char> {
    if is_prefix("/sse?sessionId="@, info) {
        let rest = info.skip(15);
        match first_occurrence(rest, "sessionId="@) {
            Some(p) => rest.take(p),
            None => rest,
        }
    } else {
        info
    }
}

impl HttpSseTransport {
    /// Whether the transport is connected.
    pub fn is_connected(&self) -> (r: bool)
        ensures
            r == self.info.connected,
    {
        self.info.connected
    }

    /// The protocol to send with: the detected one, the modern protocol
    /// when detection gave nothing.
    pub fn send_protocol(&mut self) -> (r: McpProtocolVersion)
        ensures
            r != McpProtocolVersion::AutoDetect,
            final(self).session_manager.protocol_version == McpProtocolVersion::AutoDetect ==> r == McpProtocolVersion::StreamableHttp,
            final(self).session_manager.protocol_version != McpProtocolVersion::AutoDetect ==> r == final(self).session_manager.protocol_version,
            old(self).session_manager.protocol_version != McpProtocolVersion::AutoDetect ==> final(self).session_manager.protocol_version == old(self).session_manager.protocol_version,
            old(self).session_manager.protocol_version == McpProtocolVersion::AutoDetect ==> final(self).session_manager.protocol_version == (if old(self).base_url.path_text() == "/sse"@ {
                McpProtocolVersion::HttpSse
            } else {
                McpProtocolVersion::StreamableHttp
            }),
            final(self).session_id == old(self).session_id,
            final(self).base_url == old(self).base_url,
    {
        match self.detect_protocol_version() {
            McpProtocolVersion::HttpSse => McpProtocolVersion::HttpSse,
            _ => McpProtocolVersion::StreamableHttp,
        }
    }

    /// The modern protocol's POST: to the base URL, with the session and the
    /// last event identifier when known.
    pub fn streamable_post(&self) -> (r: HttpCall)
        ensures
            r.method == HttpMethod::Post,
            r.url@ == self.base_url.text(),
            headers_view(r.headers@) == post_headers() + header_if("Mcp-Session-Id"@, opt_text(self.session_id))
                + header_if("Last-Event-ID"@, opt_text(self.last_event_id)),
    {
        let mut headers: Vec<(String, String)> = Vec::new();
        headers.push((owned("Content-Type"), owned("application/json")));
        headers.push((owned("Accept"), owned("application/json, text/event-stream")));
        match &self.session_id {
            Some(s) => headers.push((owned("Mcp-Session-Id"), s.clone())),
            None => {},
        }
        match &self.last_event_id {
            Some(l) => headers.push((owned("Last-Event-ID"), l.clone())),
            None => {},
        }
        proof {
            assert(headers_view(headers@) =~= post_headers() + header_if("Mcp-Session-Id"@, opt_text(self.session_id))
                + header_if("Last-Event-ID"@, opt_text(self.last_event_id)));
        }
        HttpCall { method: HttpMethod::Post, url: self.base_url.to_string(), headers }
    }

    /// Takes the session announced in a reply's `mcp-session-id` header,
    /// after checking it.
    pub fn accept_session_header(&mut self, header: &str) -> (r: Result<(), McpError>)
        ensures
            r is Ok <==> (!old(self).security_config.validate_session_ids || session_id_problem(header@) is None),
            r is Ok ==> (final(self).session_id matches Some(s) && s@ == header@),
            r is Err ==> *final(self) == *old(self),
            final(self).base_url == old(self).base_url,
            final(self).info == old(self).info,
    {
        match self.validate_session_id(header) {
            Ok(()) => {
                self.session_id = Some(owned(header));
                Ok(())
            },
            Err(e) => Err(e),
        }
    }

    /// How to read a reply of the modern protocol: by its content type,
    /// JSON when it has none.
    pub fn streamable_body_kind(content_type: Option<&str>) -> (r: Result<BodyKind, McpError>)
        ensures
            match body_kind_of(content_type_or(content_type, "application/json"@)) {
                Some(k) => r == Ok::<BodyKind, McpError>(k),
                None => r matches Err(e) && is_sse_error(e, 0, "Unexpected Modern content type: "@ + content_type_or(content_type, "application/json"@)),
            },
    {
        let ct = match content_type {
            Some(t) => t,
            None => "application/json",
        };
        match read_body_kind(ct) {
            Some(k) => Ok(k),
            None => Err(sse_error(0, joined("Unexpected Modern content type: ", ct))),
        }
    }

    /// Whether to wait for a session before a legacy request: none is
    /// known yet and fewer than 50 tries were made.
    pub fn should_wait_for_session(&self, attempts: u32) -> (r: bool)
        ensures
            r == (self.session_id is None && attempts < 50),
    {
        self.session_id.is_none() && attempts < 50
    }

    /// The address of a legacy request: the base URL, with the session in
    /// its query when one is known.
    pub fn legacy_url(&self) -> (r: WebUrl)
        ensures
            match self.session_id {
                Some(s) => r.parts() == url_set_query(self.base_url.text(), "sessionId="@ + s@),
                None => r == self.base_url,
            },
    {
        match &self.session_id {
            Some(s) => {
                let q = joined("sessionId=", s.as_str());
                self.base_url.with_query(q.as_str())
            },
            None => self.base_url.duplicate(),
        }
    }

    /// The legacy protocol's POST of a message, to [`Self::legacy_url`].
    pub fn legacy_post(&self) -> (r: HttpCall)
        ensures
            r.method == HttpMethod::Post,
            match self.session_id {
                Some(s) => r.url@ == url_set_query(self.base_url.text(), "sessionId="@ + s@).0,
                None => r.url@ == self.base_url.text(),
            },
            headers_view(r.headers@) == post_headers(),
    {
        let u = self.legacy_url();
        let mut headers: Vec<(String, String)> = Vec::new();
        headers.push((owned("Content-Type"), owned("application/json")));
        headers.push((owned("Accept"), owned("application/json, text/event-stream")));
        proof {
            assert(headers_view(headers@) =~= post_headers());
        }
        HttpCall { method: HttpMethod::Post, url: u.to_string(), headers }
    }

    /// The legacy GET that opens the session's event stream.
    pub fn legacy_get(&self) -> (r: HttpCall)
        ensures
            r.method == HttpMethod::Get,
            match self.session_id {
                Some(s) => r.url@ == url_set_query(self.base_url.text(), "sessionId="@ + s@).0,
                None => r.url@ == self.base_url.text(),
            },
            headers_view(r.headers@) == seq![("Accept"@, "text/event-stream"@)],
    {
        let u = self.legacy_url();
        let mut headers: Vec<(String, String)> = Vec::new();
        headers.push((owned("Accept"), owned("text/event-stream")));
        proof {
            assert(headers_view(headers@) =~= seq![("Accept"@, "text/event-stream"@)]);
        }
        HttpCall { method: HttpMethod::Get, url: u.to_string(), headers }
    }

    /// How to handle a reply of the legacy protocol: 202 means the
    /// response comes over the event stream; otherwise by content type
    /// (none when absent).
    pub fn legacy_reply(status: u16, content_type: Option<&str>) -> (r: Result<LegacyReply, McpError>)
        ensures
            status == 202 ==> r == Ok::<LegacyReply, McpError>(LegacyReply::Accepted),
            status != 202 ==> match body_kind_of(content_type_or(content_type, Seq::empty())) {
                Some(k) => r == Ok::<LegacyReply, McpError>(LegacyReply::Body(k)),
                None => r matches Err(e) && is_sse_error(e, 0, "Unexpected Legacy response - Status: "@
                    + nat_decimal(status as nat) + ", Content-Type: "@ + content_type_or(content_type, Seq::empty())),
            },
    {
        if status == 202 {
            return Ok(LegacyReply::Accepted);
        }
        let ct = match content_type {
            Some(t) => t,
            None => "",
        };
        proof {
            reveal_strlit("");
            assert(""@ =~= Seq::<char>::empty());
        }
        match read_body_kind(ct) {
            Some(k) => Ok(LegacyReply::Body(k)),
            None => {
                let mut reason = owned("Unexpected Legacy response - Status: ");
                let st = u64_to_decimal(status as u64);
                push_str(&mut reason, st.as_str());
                push_str(&mut reason, ", Content-Type: ");
                push_str(&mut reason, ct);
                Err(sse_error(0, reason))
            },
        }
    }

    /// How to read the reply to a message posted to the event-stream
    /// endpoint: by content type (none when absent).
    pub fn sse_post_body_kind(content_type: Option<&str>) -> (r: Result<BodyKind, McpError>)
        ensures
            match body_kind_of(content_type_or(content_type, Seq::empty())) {
                Some(k) => r == Ok::<BodyKind, McpError>(k),
                None => r matches Err(e) && is_sse_error(e, 0, "Unexpected SSE response content type: "@ + content_type_or(content_type, Seq::empty())),
            },
    {
        let ct = match content_type {
            Some(t) => t,
            None => "",
        };
        proof {
            reveal_strlit("");
            assert(""@ =~= Seq::<char>::empty());
        }
        match read_body_kind(ct) {
            Some(k) => Ok(k),
            None => Err(sse_error(0, joined("Unexpected SSE response content type: ", ct))),
        }
    }

    /// Checks that the reply to the legacy GET is an event stream.
    pub fn sse_get_reply(content_type: Option<&str>) -> (r: Result<(), McpError>)
        ensures
            contains_seq(content_type_or(content_type, Seq::empty()), "text/event-stream"@) ==> r is Ok,
            !contains_seq(content_type_or(content_type, Seq::empty()), "text/event-stream"@) ==> (r matches Err(e)
                && is_sse_error(e, 0, "Expected SSE stream but got: "@ + content_type_or(content_type, Seq::empty()))),
    {
        let ct = match content_type {
            Some(t) => t,
            None => "",
        };
        proof {
            reveal_strlit("");
            assert(""@ =~= Seq::<char>::empty());
        }
        if contains_str(ct, "text/event-stream") {
            Ok(())
        } else {
            Err(sse_error(0, joined("Expected SSE stream but got: ", ct)))
        }
    }

    /// The identifier whose response to wait for on the event stream: that
    /// of a request; nothing for other messages.
    pub fn awaited_response_id(message: &JsonRpcMessage) -> (r: Option<String>)
        ensures
            match message {
                JsonRpcMessage::Request(q) => r matches Some(t) && t@ == request_id_text(q.id),
                _ => r is None,
            },
    {
        match message {
            JsonRpcMessage::Request(q) => Some(q.id.to_string()),
            _ => None,
        }
    }

    /// Handles an event of a response stream: its identifier, when not
    /// empty, becomes the point to resume from; a session announcement is
    /// skipped; data that reads as a message (`parsed`) is delivered.
    pub fn stream_event(&mut self, id: &str, data: &str, parsed: Option<JsonRpcMessage>) -> (r: StreamEvent)
        ensures
            id@.len() > 0 ==> (final(self).last_event_id matches Some(x) && x@ == id@),
            id@.len() == 0 ==> final(self).last_event_id == old(self).last_event_id,
            final(self).session_id == old(self).session_id,
            (is_prefix("/sse?sessionId="@, data@) || is_prefix("/mcp?sessionId="@, data@)) ==> r is Announcement,
            !(is_prefix("/sse?sessionId="@, data@) || is_prefix("/mcp?sessionId="@, data@)) ==> match parsed {
                Some(m) => r == StreamEvent::Deliver(m),
                None => r is Unreadable,
            },
    {
        self.record_event_id(id);
        if crate::transport::sse::is_session_announcement(data) {
            StreamEvent::Announcement
        } else {
            match parsed {
                Some(m) => StreamEvent::Deliver(m),
                None => StreamEvent::Unreadable,
            }
        }
    }

    /// The GET that resumes an event stream from the last event received,
    /// with the session when known; nothing when no event was received.
    pub fn resume_call(&self) -> (r: Option<HttpCall>)
        ensures
            match self.last_event_id {
                Some(l) => r matches Some(c) && c.method == HttpMethod::Get && c.url@ == self.base_url.text()
                    && headers_view(c.headers@) == seq![("Accept"@, "text/event-stream"@), ("Last-Event-ID"@, l@)]
                        + header_if("Mcp-Session-Id"@, opt_text(self.session_id)),
                None => r is None,
            },
    {
        match &self.last_event_id {
            Some(l) => {
                let mut headers: Vec<(String, String)> = Vec::new();
                headers.push((owned("Accept"), owned("text/event-stream")));
                headers.push((owned("Last-Event-ID"), l.clone()));
                match &self.session_id {
                    Some(s) => headers.push((owned("Mcp-Session-Id"), s.clone())),
                    None => {},
                }
                proof {
                    assert(headers_view(headers@) =~= seq![("Accept"@, "text/event-stream"@), ("Last-Event-ID"@, l@)]
                        + header_if("Mcp-Session-Id"@, opt_text(self.session_id)));
                }
                Some(HttpCall { method: HttpMethod::Get, url: self.base_url.to_string(), headers })
            },
            None => None,
        }
    }

    /// Checks the reply to a resume: its content type must be exactly
    /// `text/event-stream`.
    pub fn resume_reply(content_type: Option<&str>) -> (r: Result<(), McpError>)
        ensures
            (content_type matches Some(t) && t@ == "text/event-stream"@) ==> r is Ok,
            !(content_type matches Some(t) && t@ == "text/event-stream"@) ==> (r matches Err(e)
                && is_sse_error(e, 0, "Server did not respond with SSE stream for resume request"@)),
    {
        match content_type {
            Some(t) => if str_equal(t, "text/event-stream") {
                return Ok(());
            },
            None => {},
        }
        Err(sse_error(0, owned("Server did not respond with SSE stream for resume request")))
    }

    /// The endpoints at which to start monitoring sessions, in order:
    /// none when discovery is off; none for a modern /mcp endpoint, which
    /// is then known to speak the modern protocol.
    pub fn monitoring_plan(&mut self) -> (r: Vec<String>)
        ensures
            !old(self).session_manager.auto_discover ==> r@.len() == 0 && *final(self) == *old(self),
            old(self).session_manager.auto_discover && old(self).base_url.path_text() == "/mcp"@ ==> r@.len() == 0
                && final(self).session_manager.protocol_version == McpProtocolVersion::StreamableHttp,
            old(self).session_manager.auto_discover && old(self).base_url.path_text() != "/mcp"@ ==>
                r@.map_values(|s: String| s@) == old(self).session_manager.discovery_endpoints@.map_values(|s: String| s@)
                && *final(self) == *old(self),
            final(self).session_id == old(self).session_id,
            final(self).base_url == old(self).base_url,
    {
        let mut r: Vec<String> = Vec::new();
        if !self.session_manager.auto_discover {
            return r;
        }
        if str_equal(self.base_url.path(), "/mcp") {
            self.session_manager.protocol_version = McpProtocolVersion::StreamableHttp;
            return r;
        }
        let eps = &self.session_manager.discovery_endpoints;
        let mut i: usize = 0;
        while i < eps.len()
            invariant
                i <= eps@.len(),
                r@.len() == i,
                forall|j: int| 0 <= j < i ==> #[trigger] r@[j]@ == eps@[j]@,
            decreases eps@.len() - i,
        {
            r.push(eps[i].clone());
            i = i + 1;
        }
        proof {
            assert(r@.map_values(|s: String| s@) =~= eps@.map_values(|s: String| s@));
        }
        r
    }

    /// Where to monitor sessions for a discovery endpoint: "/sse" servers
    /// at "/events", others at the endpoint itself, resolved against the
    /// base URL.
    pub fn monitor_url(&self, endpoint: &str) -> (r: Result<WebUrl, McpError>)
        ensures
            ({
                let ep = if endpoint@ == "/sse"@ { "/events"@ } else { endpoint@ };
                match url_join(self.base_url.text(), ep) {
                    Ok(p) => r matches Ok(u) && u.parts() == p,
                    Err(msg) => r matches Err(e) && is_sse_error(e, 6, "Invalid discovery endpoint "@ + ep + ": "@ + msg),
                }
            }),
    {
        let ep = discovery_endpoint(endpoint);
        self.discovery_url(ep)
    }

    /// An endpoint resolved against the base URL.
    pub fn discovery_url(&self, endpoint: &str) -> (r: Result<WebUrl, McpError>)
        ensures
            match url_join(self.base_url.text(), endpoint@) {
                Ok(p) => r matches Ok(u) && u.parts() == p,
                Err(msg) => r matches Err(e) && is_sse_error(e, 6, "Invalid discovery endpoint "@ + endpoint@ + ": "@ + msg),
            },
    {
        match self.base_url.join(endpoint) {
            Ok(u) => Ok(u),
            Err(msg) => {
                let mut reason = owned("Invalid discovery endpoint ");
                push_str(&mut reason, endpoint);
                push_str(&mut reason, ": ");
                push_str(&mut reason, msg.as_str());
                Err(sse_error(6, reason))
            },
        }
    }

    /// What the session monitor does with an event: data that reads as a
    /// message (`parsed`) is passed on; otherwise a session found in the
    /// data is announced.
    pub fn monitor_event(data: &str, parsed: Option<JsonRpcMessage>) -> (r: MonitorEvent)
        ensures
            match parsed {
                Some(m) => r == MonitorEvent::Message(m),
                None => match session_in_text(data@) {
                    Some(s) => r matches MonitorEvent::Session(t) && t@ == s,
                    None => r is Ignore,
                },
            },
    {
        match parsed {
            Some(m) => MonitorEvent::Message(m),
            None => match extract_session_from_event_data_static(data) {
                Some(s) => MonitorEvent::Session(s),
                None => MonitorEvent::Ignore,
            },
        }
    }

    /// Takes a session announced by the monitor; the modern protocol takes
    /// its sessions from reply headers instead.
    pub fn take_fresh_session(&mut self, session_info: &str)
        ensures
            old(self).session_manager.protocol_version == McpProtocolVersion::StreamableHttp ==> *final(self) == *old(self),
            old(self).session_manager.protocol_version != McpProtocolVersion::StreamableHttp ==>
                (final(self).session_id matches Some(s) && s@ == announced_session(session_info@)),
            final(self).base_url == old(self).base_url,
            final(self).info == old(self).info,
    {
        if self.session_manager.protocol_version == McpProtocolVersion::StreamableHttp {
            return;
        }
        if starts_with(session_info, "/sse?sessionId=") {
            proof {
                reveal_strlit("/sse?sessionId=");
            }
            let n = session_info.unicode_len();
            let rest = session_info.substring_char(15, n);
            let id = match find_str(rest, "sessionId=") {
                Some(p) => rest.substring_char(0, p),
                None => rest,
            };
            proof {
                assert(rest@ == session_info@.skip(15));
            }
            self.session_id = Some(owned(id));
        } else {
            self.session_id = Some(owned(session_info));
        }
    }

    /// How to read a discovery reply: as an event stream, as JSON, or not
    /// at all.
    pub fn discovery_body_kind(content_type: Option<&str>) -> (r: Option<BodyKind>)
        ensures
            ({
                let ct = content_type_or(content_type, Seq::empty());
                r == if contains_seq(ct, "text/event-stream"@) {
                    Some(BodyKind::EventStream)
                } else if contains_seq(ct, "application/json"@) {
                    Some(BodyKind::Json)
                } else {
                    None
                }
            }),
    {
        let ct = match content_type {
            Some(t) => t,
            None => "",
        };
        proof {
            reveal_strlit("");
            assert(""@ =~= Seq::<char>::empty());
        }
        if contains_str(ct, "text/event-stream") {
            Some(BodyKind::EventStream)
        } else if contains_str(ct, "application/json") {
            Some(BodyKind::Json)
        } else {
            None
        }
    }

    /// The GET that looks for session information at a discovery address.
    pub fn discovery_call(url: &WebUrl) -> (r: HttpCall)
        ensures
            r.method == HttpMethod::Get,
            r.url@ == url.text(),
            headers_view(r.headers@) == seq![("Accept"@, "text/event-stream, application/json"@)],
    {
        let mut headers: Vec<(String, String)> = Vec::new();
        headers.push((owned("Accept"), owned("text/event-stream, application/json")));
        proof {
            assert(headers_view(headers@) =~= seq![("Accept"@, "text/event-stream, application/json"@)]);
        }
        HttpCall { method: HttpMethod::Get, url: url.to_string(), headers }
    }

    /// Checks a message received while waiting for the response to
    /// `request_id`: that response is taken and counted; anything else is
    /// passed over.
    pub fn match_awaited_response(&mut self, request_id: &str, message: JsonRpcMessage) -> (r: Option<JsonRpcResponse>)
        requires
            old(self).info.responses_received < u64::MAX,
        ensures
            match message {
                JsonRpcMessage::Response(resp) => if request_id_text(resp.id) == request_id@ {
                    r == Some(resp) && *final(self) == (HttpSseTransport {
                        info: TransportInfo { responses_received: (old(self).info.responses_received + 1) as u64, ..old(self).info },
                        ..*old(self)
                    })
                } else {
                    r is None && *final(self) == *old(self)
                },
                _ => r is None && *final(self) == *old(self),
            },
            final(self).session_id == old(self).session_id,
    {
        match message {
            JsonRpcMessage::Response(resp) => {
                let t = resp.id.to_string();
                if str_equal(t.as_str(), request_id) {
                    self.info.increment_responses_received();
                    Some(resp)
                } else {
                    None
                }
            },
            _ => None,
        }
    }

    /// The error for a response stream that ran out of time.
    pub fn stream_wait_timeout(request_id: &str) -> (e: McpError)
        ensures
            is_sse_error(e, 2, "SSE response timeout for request ID: "@ + request_id@),
    {
        sse_error(2, joined("SSE response timeout for request ID: ", request_id))
    }

    /// The error for a response stream that closed before the response.
    pub fn stream_closed_while_waiting() -> (e: McpError)
        ensures
            is_sse_error(e, 3, "SSE stream closed while waiting for response"@),
    {
        sse_error(3, owned("SSE stream closed while waiting for response"))
    }

    /// The error for a response that never came.
    pub fn response_wait_timeout(request_id: &str) -> (e: McpError)
        ensures
            is_sse_error(e, 2, "Timeout waiting for response to request ID: "@ + request_id@),
    {
        sse_error(2, joined("Timeout waiting for response to request ID: ", request_id))
    }

    /// The error for a request or notification on a transport that is not
    /// connected.
    pub fn not_connected() -> (e: McpError)
        ensures
            is_sse_error(e, 4, "Transport not connected"@),
    {
        sse_error(4, owned("Transport not connected"))
    }

    /// Checks that a request or notification may be sent.
    pub fn begin_send(&self) -> (r: Result<(), McpError>)
        ensures
            self.info.connected ==> r is Ok,
            !self.info.connected ==> (r matches Err(e) && is_sse_error(e, 4, "Transport not connected"@)),
    {
        if self.is_connected() {
            Ok(())
        } else {
            Err(Self::not_connected())
        }
    }

    /// How long a request may take: the given time, or 30 seconds.
    pub fn request_timeout(given: Option<Duration>) -> (r: Duration)
        ensures
            match given {
                Some(d) => r == d,
                None => r == crate::time::duration_of_secs(30) && duration_millis(r) == 30_000,
            },
    {
        match given {
            Some(d) => d,
            None => duration_from_secs(30),
        }
    }

    /// The error for a request that took longer than `limit`.
    pub fn request_timeout_error(limit: &Duration) -> (e: McpError)
        ensures
            is_sse_error(e, 2, "Request timed out after "@ + duration_debug_text(*limit)),
    {
        let d = duration_debug(limit);
        sse_error(2, joined("Request timed out after ", d.as_str()))
    }

    /// Counts a request that was sent.
    pub fn on_request_sent(&mut self)
        requires
            old(self).info.requests_sent < u64::MAX,
        ensures
            *final(self) == (HttpSseTransport {
                info: TransportInfo { requests_sent: (old(self).info.requests_sent + 1) as u64, ..old(self).info },
                ..*old(self)
            }),
    {
        self.info.increment_requests_sent();
    }

    /// Counts a response that came directly in the reply.
    pub fn on_direct_response(&mut self)
        requires
            old(self).info.responses_received < u64::MAX,
        ensures
            *final(self) == (HttpSseTransport {
                info: TransportInfo { responses_received: (old(self).info.responses_received + 1) as u64, ..old(self).info },
                ..*old(self)
            }),
    {
        self.info.increment_responses_received();
    }

    /// The POST of a notification: to the base URL, with the session when
    /// known.
    pub fn notification_post(&self) -> (r: HttpCall)
        ensures
            r.method == HttpMethod::Post,
            r.url@ == self.base_url.text(),
            headers_view(r.headers@) == post_headers() + header_if("Mcp-Session-Id"@, opt_text(self.session_id)),
    {
        let mut headers: Vec<(String, String)> = Vec::new();
        headers.push((owned("Content-Type"), owned("application/json")));
        headers.push((owned("Accept"), owned("application/json, text/event-stream")));
        match &self.session_id {
            Some(s) => headers.push((owned("Mcp-Session-Id"), s.clone())),
            None => {},
        }
        proof {
            assert(headers_view(headers@) =~= post_headers() + header_if("Mcp-Session-Id"@, opt_text(self.session_id)));
        }
        HttpCall { method: HttpMethod::Post, url: self.base_url.to_string(), headers }
    }

    /// Counts a notification that was sent.
    pub fn on_notification_sent(&mut self)
        requires
            old(self).info.notifications_sent < u64::MAX,
        ensures
            *final(self) == (HttpSseTransport {
                info: TransportInfo { notifications_sent: (old(self).info.notifications_sent + 1) as u64, ..old(self).info },
                ..*old(self)
            }),
    {
        self.info.increment_notifications_sent();
    }

    /// The error for a call that failed, such as ("HTTP notification
    /// failed", the client's message).
    pub fn network_failure(context: &str, detail: &str) -> (e: McpError)
        ensures
            is_sse_error(e, 0, context@ + ": "@ + detail@),
    {
        let mut reason = owned(context);
        push_str(&mut reason, ": ");
        push_str(&mut reason, detail);
        sse_error(0, reason)
    }

    /// The error for a body that could not be read or parsed, such as
    /// ("Failed to parse Modern JSON response", the parser's message).
    pub fn body_failure(context: &str, detail: &str) -> (e: McpError)
        ensures
            is_sse_error(e, 1, context@ + ": "@ + detail@),
    {
        let mut reason = owned(context);
        push_str(&mut reason, ": ");
        push_str(&mut reason, detail);
        sse_error(1, reason)
    }

    /// Checks that a message may be received: the transport must be
    /// connected and have an event stream.
    pub fn begin_receive(&self) -> (r: Result<(), McpError>)
        ensures
            !self.info.connected ==> (r matches Err(e) && is_sse_error(e, 4, "Transport not connected"@)),
            self.info.connected && !self.has_sse_stream ==> (r matches Err(e)
                && is_sse_error(e, 4, "No SSE stream available - server uses single JSON responses"@)),
            self.info.connected && self.has_sse_stream ==> r is Ok,
    {
        if !self.is_connected() {
            return Err(Self::not_connected());
        }
        if !self.has_sse_stream {
            return Err(sse_error(4, owned("No SSE stream available - server uses single JSON responses")));
        }
        Ok(())
    }

    /// The error for a receive that took longer than `limit`.
    pub fn receive_timeout_error(limit: &Duration) -> (e: McpError)
        ensures
            is_sse_error(e, 2, "Message receive timed out after "@ + duration_debug_text(*limit)),
    {
        let d = duration_debug(limit);
        sse_error(2, joined("Message receive timed out after ", d.as_str()))
    }

    /// The error for an event stream that closed.
    pub fn stream_closed() -> (e: McpError)
        ensures
            is_sse_error(e, 3, "SSE stream closed"@),
    {
        sse_error(3, owned("SSE stream closed"))
    }

    /// Counts a received message: responses and notifications are counted.
    pub fn on_message_received(&mut self, message: &JsonRpcMessage)
        requires
            old(self).info.responses_received < u64::MAX,
            old(self).info.notifications_received < u64::MAX,
        ensures
            *final(self) == (match *message {
                JsonRpcMessage::Response(_) => HttpSseTransport {
                    info: TransportInfo { responses_received: (old(self).info.responses_received + 1) as u64, ..old(self).info },
                    ..*old(self)
                },
                JsonRpcMessage::Notification(_) => HttpSseTransport {
                    info: TransportInfo { notifications_received: (old(self).info.notifications_received + 1) as u64, ..old(self).info },
                    ..*old(self)
                },
                JsonRpcMessage::Request(_) => *old(self),
            }),
    {
        match message {
            JsonRpcMessage::Response(_) => self.info.increment_responses_received(),
            JsonRpcMessage::Notification(_) => self.info.increment_notifications_received(),
            JsonRpcMessage::Request(_) => {},
        }
    }

    /// The HEAD call that checks the server is reachable.
    pub fn probe_call(&self) -> (r: HttpCall)
        ensures
            r.method == HttpMethod::Head,
            r.url@ == self.base_url.text(),
            r.headers@.len() == 0,
    {
        HttpCall { method: HttpMethod::Head, url: self.base_url.to_string(), headers: Vec::new() }
    }

    /// Records a successful connection.
    pub fn on_connected(&mut self)
        ensures
            final(self).info.connected,
            final(self).session_id == old(self).session_id,
            final(self).base_url == old(self).base_url,
    {
        self.connected = true;
        self.info.mark_connected();
    }

    /// The error for a server that could not be reached.
    pub fn connection_failure(detail: &str) -> (e: McpError)
        ensures
            is_sse_error(e, 5, "Failed to connect to server: "@ + detail@),
    {
        sse_error(5, joined("Failed to connect to server: ", detail))
    }

    /// The DELETE that ends the session, when there is one.
    pub fn session_end_call(&self) -> (r: Option<HttpCall>)
        ensures
            match self.session_id {
                Some(s) => r matches Some(c) && c.method == HttpMethod::Delete && c.url@ == self.base_url.text()
                    && headers_view(c.headers@) == seq![("Mcp-Session-Id"@, s@)],
                None => r is None,
            },
    {
        match &self.session_id {
            Some(s) => {
                let mut headers: Vec<(String, String)> = Vec::new();
                headers.push((owned("Mcp-Session-Id"), s.clone()));
                proof {
                    assert(headers_view(headers@) =~= seq![("Mcp-Session-Id"@, s@)]);
                }
                Some(HttpCall { method: HttpMethod::Delete, url: self.base_url.to_string(), headers })
            },
            None => None,
        }
    }

    /// Records the disconnection: no event stream, no session.
    pub fn on_disconnected(&mut self)
        ensures
            !final(self).info.connected,
            !final(self).connected,
            !final(self).has_sse_stream,
            final(self).session_id is None,
            final(self).last_event_id == old(self).last_event_id,
            final(self).base_url == old(self).base_url,
    {
        self.has_sse_stream = false;
        self.session_id = None;
        self.connected = false;
        self.info.mark_disconnected();
    }
}

/// The JSON content of an optional text: the text, or null.
pub open spec fn opt_json(s: Option<String>) -> JsonView {
    match s {
        Some(t) => JsonView::Str(t@),
        None => JsonView::Null,
    }
}

/// Whether object members list the headers of a map as a JSON object
/// does: sorted by name, each name with its value as a string.
pub open spec fn headers_object(ms: Seq<(Seq<char>, JsonView)>, h: StringMap) -> bool {
    &&& forall|i: int, j: int| 0 <= i < j < ms.len() ==> chars_lt(#[trigger] ms[i].0, #[trigger] ms[j].0)
    &&& forall|k: Seq<char>| #[trigger] ov_lookup(ms, k) == match h.lookup(k) {
        Some(v) => Some(JsonView::Str(v)),
        None => None,
    }
}

/// The members made of text pairs.
pub open spec fn text_members(s: Seq<(Seq<char>, Seq<char>)>) -> Seq<(Seq<char>, JsonView)> {
    s.map_values(|p: (Seq<char>, Seq<char>)| (p.0, JsonView::Str(p.1)))
}

/// Looking up text members is looking up the pairs.
proof fn lemma_text_members_lookup(s: Seq<(Seq<char>, Seq<char>)>, k: Seq<char>)
    ensures
        ov_lookup(text_members(s), k) == match pairs_lookup(s, k) {
            Some(v) => Some(JsonView::Str(v)),
            None => None,
        },
    decreases s.len(),
{
    if s.len() > 0 {
        assert(text_members(s).drop_first() =~= text_members(s.drop_first()));
        lemma_text_members_lookup(s.drop_first(), k);
    }
}

/// A JSON object of the headers of a map.
fn headers_json(h: &StringMap) -> (r: JsonValue)
    ensures
        jview(r) matches JsonView::Object(ms) && headers_object(ms, *h),
{
    let sorted = h.to_sorted_pairs();
    let ghost sv = pair_views(sorted@);
    let mut entries: Vec<(String, JsonValue)> = Vec::new();
    let mut i: usize = 0;
    while i < sorted.len()
        invariant
            i <= sorted@.len(),
            sv == pair_views(sorted@),
            entries@.len() == i,
            forall|j: int| 0 <= j < i ==> #[trigger] entries@[j].0@ == sv[j].0 && jview(entries@[j].1) == JsonView::Str(sv[j].1),
        decreases sorted@.len() - i,
    {
        entries.push((sorted[i].0.clone(), JsonValue::String(sorted[i].1.clone())));
        i = i + 1;
    }
    let ghost ev = entries@;
    let r = JsonValue::object(entries);
    proof {
        let ms = oview(r->Object_0);
        crate::json::lemma_members_oview(r->Object_0);
        assert(ms =~= text_members(sv));
        assert forall|k: Seq<char>| #[trigger] ov_lookup(ms, k) == match h.lookup(k) {
            Some(v) => Some(JsonView::Str(v)),
            None => None,
        } by {
            lemma_text_members_lookup(sv, k);
        }
    }
    r
}

impl HttpSseTransport {
    /// What the transport reports about itself: its counters, plus its base
    /// URL, session, whether it has an event stream, the last event and
    /// whether it can resume, whether origins are checked; for an HTTP+SSE
    /// configuration also the timeout in seconds, the extra headers,
    /// whether it authenticates, whether HTTPS is required and whether only
    /// local servers are allowed.
    pub fn get_info(&self) -> (r: TransportInfo)
        ensures
            r.transport_type == self.info.transport_type,
            r.connected == self.info.connected,
            r.requests_sent == self.info.requests_sent,
            r.responses_received == self.info.responses_received,
            r.notifications_sent == self.info.notifications_sent,
            r.notifications_received == self.info.notifications_received,
            r.errors == self.info.errors,
            r.metadata.lookup("base_url"@) matches Some(v) && jview(v) == JsonView::Str(self.base_url.text()),
            r.metadata.lookup("session_id"@) matches Some(v) && jview(v) == opt_json(self.session_id),
            r.metadata.lookup("has_sse_stream"@) == Some(JsonValue::Bool(self.has_sse_stream)),
            r.metadata.lookup("last_event_id"@) matches Some(v) && jview(v) == opt_json(self.last_event_id),
            r.metadata.lookup("can_resume"@) == Some(JsonValue::Bool(self.last_event_id is Some)),
            r.metadata.lookup("security_enabled"@) == Some(JsonValue::Bool(self.security_config.validate_origin)),
            match self.config {
                TransportConfig::HttpSse(c) => {
                    &&& (r.metadata.lookup("timeout"@) matches Some(v) && jview(v) == json_u64_view((duration_millis(c.timeout) / 1000) as u64))
                    &&& (r.metadata.lookup("headers"@) matches Some(v) && (jview(v) matches JsonView::Object(ms) && headers_object(ms, c.headers)))
                    &&& r.metadata.lookup("has_auth"@) == Some(JsonValue::Bool(c.auth is Some))
                    &&& r.metadata.lookup("enforce_https"@) == Some(JsonValue::Bool(self.security_config.require_https))
                    &&& r.metadata.lookup("localhost_only"@) == Some(JsonValue::Bool(self.security_config.enforce_localhost))
                },
                _ => true,
            },
    {
        proof {
            // The keys are told apart by their first, second, third or fifth
            // characters.
            reveal_strlit("base_url");
            reveal_strlit("session_id");
            reveal_strlit("has_sse_stream");
            reveal_strlit("last_event_id");
            reveal_strlit("can_resume");
            reveal_strlit("security_enabled");
            reveal_strlit("timeout");
            reveal_strlit("headers");
            reveal_strlit("has_auth");
            reveal_strlit("enforce_https");
            reveal_strlit("localhost_only");
            let keys = seq!["base_url"@, "session_id"@, "has_sse_stream"@, "last_event_id"@, "can_resume"@,
                "security_enabled"@, "timeout"@, "headers"@, "has_auth"@, "enforce_https"@, "localhost_only"@];
            assert forall|i: int, j: int| 0 <= i < j < 11 implies keys[i] != keys[j] by {
                if keys[i][0] == keys[j][0] && keys[i][1] == keys[j][1] && keys[i][2] == keys[j][2] {
                    assert(keys[i][4] != keys[j][4]);
                }
            }
        }
        let mut info = TransportInfo {
            transport_type: self.info.transport_type.clone(),
            connected: self.info.connected,
            connected_since: self.info.connected_since,
            requests_sent: self.info.requests_sent,
            responses_received: self.info.responses_received,
            notifications_sent: self.info.notifications_sent,
            notifications_received: self.info.notifications_received,
            errors: self.info.errors,
            metadata: self.info.metadata.duplicate(),
        };
        info.add_metadata("base_url", JsonValue::String(self.base_url.to_string()));
        let sid = match &self.session_id {
            Some(s) => JsonValue::String(s.clone()),
            None => JsonValue::Null,
        };
        info.add_metadata("session_id", sid);
        info.add_metadata("has_sse_stream", JsonValue::Bool(self.has_sse_stream));
        let lid = match &self.last_event_id {
            Some(s) => JsonValue::String(s.clone()),
            None => JsonValue::Null,
        };
        info.add_metadata("last_event_id", lid);
        info.add_metadata("can_resume", JsonValue::Bool(self.can_resume()));
        info.add_metadata("security_enabled", JsonValue::Bool(self.security_config.validate_origin));
        match &self.config {
            TransportConfig::HttpSse(c) => {
                info.add_metadata("timeout", JsonValue::from_u64(duration_as_secs(&c.timeout)));
                info.add_metadata("headers", headers_json(&c.headers));
                info.add_metadata("has_auth", JsonValue::Bool(c.auth.is_some()));
                info.add_metadata("enforce_https", JsonValue::Bool(self.security_config.require_https));
                info.add_metadata("localhost_only", JsonValue::Bool(self.security_config.enforce_localhost));
            },
            _ => {},
        }
        info
    }

    /// The transport's configuration.
    pub fn get_config(&self) -> (r: &TransportConfig)
        ensures
            *r == self.config,
    {
        &self.config
    }
}

} // verus!
