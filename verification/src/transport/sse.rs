//! The decisions of the Streamable HTTP / HTTP+SSE transport: its security
//! settings, the protocol it speaks, session identifiers and where to find
//! them in server events, and what to do with each event.
use vstd::prelude::*;
use vstd::string::StrSliceExecFns;
use std::time::Duration;
use crate::error::{McpError, TransportError};
use crate::json::{JsonValue, JsonView, jview, jv_field};
use crate::text::{byte_len, char_is_alphanumeric, char_is_whitespace, chars_of, contains_str, find_str, first_occurrence,
    is_alphanumeric, is_prefix, is_whitespace, contains_seq, occurs_at, occurs_at_exec, owned, push_char, push_str, starts_with, str_equal, utf8_len};
use crate::time::duration_from_secs;
use crate::transport::TransportInfo;
use crate::transport::config::TransportConfig;
use crate::weburl::{WebUrl, url_join, outcome_parts};

verus! {

/// The MCP protocol generation a server speaks.
#[derive(Debug, Clone, Copy, PartialEq, Eq, Structural)]
pub enum McpProtocolVersion {
    /// Modern Streamable HTTP (2025-03-26): one /mcp endpoint, Mcp-Session-Id header
    StreamableHttp,
    /// Legacy HTTP+SSE (2024-11-05): two endpoints, sessionId query parameters
    HttpSse,
    /// Decide from the endpoint
    AutoDetect,
}

/// Security settings of the transport.
#[derive(Debug, Clone)]
pub struct SecurityConfig {
    /// Validate Origin headers to prevent DNS rebinding attacks
    pub validate_origin: bool,
    /// Only allow connections to localhost for local servers
    pub enforce_localhost: bool,
    /// Require HTTPS
    pub require_https: bool,
    /// Validate session ID format
    pub validate_session_ids: bool,
    /// Allowed origins
    pub allowed_origins: Vec<String>,
}

impl Default for SecurityConfig {
    /// Origins and session identifiers checked, localhost enforced, HTTP
    /// allowed, localhost origins over http and https allowed.
    fn default() -> (r: Self)
        ensures
            r.validate_origin,
            r.enforce_localhost,
            !r.require_https,
            r.validate_session_ids,
            r.allowed_origins@.len() == 2,
            r.allowed_origins@[0]@ == "http://localhost"@,
            r.allowed_origins@[1]@ == "https://localhost"@,
    {
        let mut origins: Vec<String> = Vec::new();
        origins.push(owned("http://localhost"));
        origins.push(owned("https://localhost"));
        SecurityConfig {
            validate_origin: true,
            enforce_localhost: true,
            require_https: false,
            validate_session_ids: true,
            allowed_origins: origins,
        }
    }
}

/// Session discovery settings and state.
#[derive(Debug, Clone)]
pub struct SessionManager {
    /// Whether to discover sessions automatically
    pub auto_discover: bool,
    /// Session discovery endpoints, relative to the base URL
    pub discovery_endpoints: Vec<String>,
    /// How long a session lasts before renewal
    pub session_timeout: Duration,
    /// The session's own URL, when it differs from the base URL
    pub active_session_url: Option<WebUrl>,
    /// Detected or configured protocol
    pub protocol_version: McpProtocolVersion,
}

impl Default for SessionManager {
    /// Discovery on at /events, /session and /discover, sessions of five
    /// minutes, the protocol detected from the endpoint.
    fn default() -> (r: Self)
        ensures
            r.auto_discover,
            r.discovery_endpoints@.len() == 3,
            r.discovery_endpoints@[0]@ == "/events"@,
            r.discovery_endpoints@[1]@ == "/session"@,
            r.discovery_endpoints@[2]@ == "/discover"@,
            r.session_timeout == crate::time::duration_of_secs(300),
            crate::time::duration_millis(r.session_timeout) == 300000,
            r.active_session_url is None,
            r.protocol_version == McpProtocolVersion::AutoDetect,
    {
        let mut endpoints: Vec<String> = Vec::new();
        endpoints.push(owned("/events"));
        endpoints.push(owned("/session"));
        endpoints.push(owned("/discover"));
        SessionManager {
            auto_discover: true,
            discovery_endpoints: endpoints,
            session_timeout: duration_from_secs(300),
            active_session_url: None,
            protocol_version: McpProtocolVersion::AutoDetect,
        }
    }
}

/// A server-sent event, with its identifier for resuming.
#[derive(Debug, Clone)]
pub struct SseEvent {
    pub id: Option<String>,
    pub event_type: Option<String>,
    pub data: String,
    /// Reconnection delay the server asked for, in milliseconds
    pub retry: Option<u64>,
}

/// An event as the event-stream parser delivers it: its identifier, type,
/// data and reconnection delay in milliseconds.
pub fn parse_sse_event(id: &str, event: &str, data: &str, retry_ms: Option<u64>) -> (r: SseEvent)
    ensures
        r.id matches Some(i) && i@ == id@,
        r.event_type matches Some(t) && t@ == event@,
        r.data@ == data@,
        r.retry == retry_ms,
{
    SseEvent { id: Some(owned(id)), event_type: Some(owned(event)), data: owned(data), retry: retry_ms }
}

/// The transport error of this transport, with the given reason.
fn config_error(reason: String) -> (e: McpError)
    ensures
        e matches McpError::Transport(TransportError::InvalidConfig { transport_type, reason: r })
            && transport_type@ == "streamable-http"@ && r@ == reason@,
{
    McpError::Transport(TransportError::InvalidConfig { transport_type: owned("streamable-http"), reason })
}

/// Whether a host is one of the local ones that may be reached without
/// HTTPS.
pub open spec fn is_local_host(h: Option<Seq<char>>) -> bool {
    h == Some("localhost"@) || h == Some("127.0.0.1"@)
}

/// Whether `e` is this transport's configuration error with the given
/// reason.
pub open spec fn is_config_error(e: McpError, reason: Seq<char>) -> bool {
    e matches McpError::Transport(TransportError::InvalidConfig { transport_type, reason: r })
        && transport_type@ == "streamable-http"@ && r@ == reason
}

/// The security settings for a server at `base_url`: HTTPS is required
/// unless the host is localhost or 127.0.0.1, and a URL that needs HTTPS
/// but does not use it is refused.
pub fn build_security_config(base_url: &WebUrl) -> (r: Result<SecurityConfig, McpError>)
    ensures
        !is_local_host(base_url.host_text()) && base_url.scheme_text() != "https"@ ==> (r matches Err(e)
            && is_config_error(e, "HTTPS required for non-localhost URL: "@ + base_url.text())),
        is_local_host(base_url.host_text()) ==> (r matches Ok(c) && !c.require_https && c.validate_origin
            && c.enforce_localhost && c.validate_session_ids),
        !is_local_host(base_url.host_text()) && base_url.scheme_text() == "https"@ ==> (r matches Ok(c)
            && c.require_https && c.validate_origin && c.enforce_localhost && c.validate_session_ids),
{
    let mut config = SecurityConfig::default();
    let local = match base_url.host_str() {
        Some(h) => str_equal(h, "localhost") || str_equal(h, "127.0.0.1"),
        None => false,
    };
    if !local {
        config.require_https = true;
    }
    if config.require_https && !str_equal(base_url.scheme(), "https") {
        let mut reason = owned("HTTPS required for non-localhost URL: ");
        push_str(&mut reason, base_url.as_str());
        return Err(config_error(reason));
    }
    Ok(config)
}

/// Whether a character may appear in a session identifier.
pub open spec fn session_id_char(c: char) -> bool {
    is_alphanumeric(c) || c == '-'
}

/// Why a session identifier is refused, if it is: shorter than 16 bytes,
/// or holding a character that is neither alphanumeric nor '-'.
pub open spec fn session_id_problem(id: Seq<char>) -> Option<Seq<char>> {
    if utf8_len(id) < 16 {
        Some("Session ID too short - security risk"@)
    } else if exists|i: int| 0 <= i < id.len() && !session_id_char(#[trigger] id[i]) {
        Some("Session ID contains invalid characters"@)
    } else {
        None
    }
}

/// Endpoint path that a session is discovered at: "/sse" servers announce
/// sessions at "/events"; other endpoints at themselves.
pub fn discovery_endpoint(endpoint: &str) -> (r: &str)
    ensures
        r@ == if endpoint@ == "/sse"@ { "/events"@ } else { endpoint@ },
{
    if str_equal(endpoint, "/sse") {
        "/events"
    } else {
        endpoint
    }
}

/// Whether a response's content type announces an event stream.
pub fn is_event_stream(content_type: Option<&str>) -> (r: bool)
    ensures
        r == (content_type matches Some(t) && contains_seq(t@, "text/event-stream"@)),
{
    match content_type {
        Some(t) => contains_str(t, "text/event-stream"),
        None => false,
    }
}

/// Whether event data is a session announcement ("/sse?sessionId=..." or
/// "/mcp?sessionId=...") rather than a message.
pub fn is_session_announcement(data: &str) -> (r: bool)
    ensures
        r == (is_prefix("/sse?sessionId="@, data@) || is_prefix("/mcp?sessionId="@, data@)),
{
    starts_with(data, "/sse?sessionId=") || starts_with(data, "/mcp?sessionId=")
}

/// Whether a character belongs to the class `[a-fA-F0-9\-]`.
pub open spec fn hex_dash(c: char) -> bool {
    ('a' <= c && c <= 'f') || ('A' <= c && c <= 'F') || ('0' <= c && c <= '9') || c == '-'
}

/// Whether "sessionId=" followed by at least one `[a-fA-F0-9\-]` character
/// starts at position `p` of `s`.
pub open spec fn session_match_at(s: Seq<char>, p: int) -> bool {
    occurs_at(s, "sessionId="@, p) && p + 10 < s.len() && hex_dash(s[p + 10])
}

/// The end of the run of `[a-fA-F0-9\-]` characters that starts at `i`.
pub open spec fn hex_run_end(s: Seq<char>, i: int) -> int
    decreases s.len() - i,
{
    if 0 <= i < s.len() && hex_dash(s[i]) { hex_run_end(s, i + 1) } else { i }
}

/// What the pattern `sessionId=([a-fA-F0-9\-]+)` captures in `s`: the
/// longest run of its characters after the leftmost "sessionId=" that is
/// followed by one.
pub open spec fn session_capture(s: Seq<char>) -> Option<Seq<char>> {
    if exists|p: int| session_match_at(s, p) {
        let p = choose|p: int| session_match_at(s, p) && forall|q: int| 0 <= q < p ==> !session_match_at(s, q);
        Some(s.subrange(p + 10, hex_run_end(s, p + 10)))
    } else {
        None
    }
}

/// Whether a character belongs to the class `[a-fA-F0-9\-]`.
fn is_hex_dash(c: char) -> (r: bool)
    ensures
        r == hex_dash(c),
{
    ('a' <= c && c <= 'f') || ('A' <= c && c <= 'F') || ('0' <= c && c <= '9') || c == '-'
}

/// Copies `cs[from..to]`.
fn copy_range(cs: &Vec<char>, from: usize, to: usize) -> (r: String)
    requires
        from <= to <= cs@.len(),
    ensures
        r@ == cs@.subrange(from as int, to as int),
{
    let mut r = String::new();
    let mut i: usize = from;
    while i < to
        invariant
            from <= i <= to <= cs@.len(),
            r@ == cs@.subrange(from as int, i as int),
        decreases to - i,
    {
        push_char(&mut r, cs[i]);
        proof {
            assert(cs@.subrange(from as int, i + 1) =~= cs@.subrange(from as int, i as int).push(cs@[i as int]));
        }
        i = i + 1;
    }
    r
}

/// The session identifier that follows "sessionId=": the run of
/// `[a-fA-F0-9\-]` characters after the leftmost "sessionId=" that is
/// followed by at least one of them.
fn capture_session_id(data: &str) -> (r: Option<String>)
    ensures
        match session_capture(data@) {
            Some(t) => r matches Some(x) && x@ == t,
            None => r is None,
        },
{
    let cs = chars_of(data);
    let key = chars_of("sessionId=");
    proof {
        reveal_strlit("sessionId=");
    }
    let n = cs.len();
    let mut p: usize = 0;
    while p < n && n - p > 10
        invariant
            cs@ == data@,
            key@ == "sessionId="@,
            key@.len() == 10,
            n == cs@.len(),
            p <= n,
            forall|q: int| 0 <= q < p ==> !session_match_at(data@, q),
        decreases n - p,
    {
        if occurs_at_exec(&cs, &key, p) && is_hex_dash(cs[p + 10]) {
            let start = p + 10;
            let mut e: usize = start;
            while e < n && is_hex_dash(cs[e])
                invariant
                    start <= e <= n,
                    n == cs@.len(),
                    hex_run_end(cs@, start as int) == hex_run_end(cs@, e as int),
                decreases n - e,
            {
                e = e + 1;
            }
            proof {
                assert(session_match_at(data@, p as int));
                let j = choose|j: int| session_match_at(data@, j) && forall|q: int| 0 <= q < j ==> !session_match_at(data@, q);
                assert(j == p) by {
                    if j < p {
                        assert(!session_match_at(data@, j));
                    }
                    if j > p {
                        assert(!session_match_at(data@, p as int));
                    }
                }
                assert(hex_run_end(cs@, e as int) == e);
            }
            return Some(copy_range(&cs, start, e));
        }
        p = p + 1;
    }
    proof {
        assert forall|q: int| !session_match_at(data@, q) by {
            if 0 <= q && q >= p {
                assert(!(q + 10 < data@.len()));
            }
        }
    }
    None
}

/// The first whitespace position at or after `i`, or the end.
pub open spec fn space_from(s: Seq<char>, i: int) -> int
    decreases s.len() - i,
{
    if 0 <= i < s.len() && !is_whitespace(s[i]) { space_from(s, i + 1) } else { i }
}

/// The session path that event data announces: from the first
/// "/sse?sessionId=" up to the next whitespace, if there is one.
pub open spec fn session_path_in(s: Seq<char>) -> Option<Seq<char>> {
    match first_occurrence(s, "/sse?sessionId="@) {
        Some(p) => Some(s.subrange(p, space_from(s, p))),
        None => None,
    }
}

/// The session that event data names without looking at it as JSON: a
/// "/sse?sessionId=..." path, else the identifier after "sessionId=".
pub open spec fn session_in_text(s: Seq<char>) -> Option<Seq<char>> {
    match session_path_in(s) {
        Some(p) => Some(p),
        None => session_capture(s),
    }
}

/// Copies `cs[from..]` up to the first whitespace.
fn take_until_space(cs: &Vec<char>, from: usize) -> (r: String)
    requires
        from <= cs@.len(),
    ensures
        r@ == cs@.subrange(from as int, space_from(cs@, from as int)),
{
    let mut r = String::new();
    let mut i: usize = from;
    while i < cs.len() && !char_is_whitespace(cs[i])
        invariant
            from <= i <= cs@.len(),
            r@ == cs@.subrange(from as int, i as int),
            space_from(cs@, from as int) == space_from(cs@, i as int),
        decreases cs@.len() - i,
    {
        push_char(&mut r, cs[i]);
        proof {
            assert(cs@.subrange(from as int, i + 1) =~= cs@.subrange(from as int, i as int).push(cs@[i as int]));
        }
        i = i + 1;
    }
    r
}

/// The session that event data names, without looking at it as JSON: the
/// "/sse?sessionId=..." path up to the next whitespace if there is one,
/// else the identifier after "sessionId=".
pub fn extract_session_from_event_data_static(data: &str) -> (r: Option<String>)
    ensures
        match session_in_text(data@) {
            Some(t) => r matches Some(x) && x@ == t,
            None => r is None,
        },
{
    match find_str(data, "/sse?sessionId=") {
        Some(start) => {
            let cs = chars_of(data);
            Some(take_until_space(&cs, start))
        },
        None => capture_session_id(data),
    }
}

/// The first of `a` and `b` that is present.
pub open spec fn first_present(a: Option<JsonView>, b: Option<JsonView>) -> Option<JsonView> {
    if a is Some { a } else { b }
}

/// A text in a JSON content, if it is a string.
pub open spec fn view_str(v: Option<JsonView>) -> Option<Seq<char>> {
    match v {
        Some(JsonView::Str(s)) => Some(s),
        _ => None,
    }
}

/// The session identifier of a JSON object: its "sessionId" member, or
/// else its "session_id" member, when that member is a string.
pub open spec fn session_in_json(v: JsonView) -> Option<Seq<char>> {
    view_str(first_present(jv_field(v, "sessionId"@), jv_field(v, "session_id"@)))
}

/// The session that event data names: by its text, or else, when the data
/// is JSON (`parsed`, as the JSON parser read it), by its members.
pub open spec fn session_in_event(data: Seq<char>, parsed: Option<JsonView>) -> Option<Seq<char>> {
    match session_in_text(data) {
        Some(t) => Some(t),
        None => match parsed {
            Some(v) => session_in_json(v),
            None => None,
        },
    }
}

/// The member `key` of a JSON value, if present.
fn member<'a>(v: &'a JsonValue, key: &str) -> (r: Option<&'a JsonValue>)
    ensures
        match jv_field(jview(*v), key@) {
            Some(x) => r matches Some(y) && jview(*y) == x,
            None => r is None,
        },
{
    proof {
        if v is Object {
            crate::json::lemma_oview_lookup(v->Object_0, key@);
        }
    }
    v.get(key)
}

/// The text of a JSON string value.
fn string_of(v: Option<&JsonValue>) -> (r: Option<String>)
    ensures
        match v {
            Some(x) => match view_str(Some(jview(*x))) {
                Some(t) => r matches Some(s) && s@ == t,
                None => r is None,
            },
            None => r is None,
        },
{
    match v {
        Some(JsonValue::String(s)) => Some(s.clone()),
        _ => None,
    }
}

/// The session identifier of a JSON object: "sessionId", else
/// "session_id", when a string.
fn session_from_json_members(v: &JsonValue) -> (r: Option<String>)
    ensures
        match session_in_json(jview(*v)) {
            Some(t) => r matches Some(s) && s@ == t,
            None => r is None,
        },
{
    let first = member(v, "sessionId");
    let chosen = if first.is_some() { first } else { member(v, "session_id") };
    string_of(chosen)
}

/// The session that event data names: by its text, or else, when the data
/// parsed as JSON (`parsed`), by its "sessionId" or "session_id" member.
pub fn extract_session_from_event_data(data: &str, parsed: Option<&JsonValue>) -> (r: Option<String>)
    ensures
        match session_in_event(data@, match parsed { Some(p) => Some(jview(*p)), None => None }) {
            Some(t) => r matches Some(x) && x@ == t,
            None => r is None,
        },
{
    match extract_session_from_event_data_static(data) {
        Some(s) => Some(s),
        None => match parsed {
            Some(p) => session_from_json_members(p),
            None => None,
        },
    }
}

/// Where a JSON discovery response points to a session.
#[derive(Debug)]
pub enum JsonSessionHint {
    /// The response names the session directly
    Found(String),
    /// The response gives an endpoint, whose text may name the session
    Endpoint(String),
    /// Nothing session-like
    NotFound,
}

/// Reads a JSON discovery response: "sessionId", else "session_id", else
/// "session", when a string, names the session; otherwise "endpoint", else
/// "url", when a string, is an endpoint to look into.
pub fn parse_session_from_json(value: &JsonValue) -> (r: JsonSessionHint)
    ensures
        ({
            let v = jview(*value);
            let direct = view_str(first_present(first_present(jv_field(v, "sessionId"@), jv_field(v, "session_id"@)), jv_field(v, "session"@)));
            let endpoint = view_str(first_present(jv_field(v, "endpoint"@), jv_field(v, "url"@)));
            match direct {
                Some(t) => r matches JsonSessionHint::Found(s) && s@ == t,
                None => match endpoint {
                    Some(e) => r matches JsonSessionHint::Endpoint(s) && s@ == e,
                    None => r is NotFound,
                },
            }
        }),
{
    let a = member(value, "sessionId");
    let ab = if a.is_some() { a } else { member(value, "session_id") };
    let abc = if ab.is_some() { ab } else { member(value, "session") };
    match string_of(abc) {
        Some(s) => JsonSessionHint::Found(s),
        None => {
            let e = member(value, "endpoint");
            let eu = if e.is_some() { e } else { member(value, "url") };
            match string_of(eu) {
                Some(s) => JsonSessionHint::Endpoint(s),
                None => JsonSessionHint::NotFound,
            }
        },
    }
}

/// The first position at or after `i` whose character is neither
/// alphanumeric nor '-', or the end.
pub open spec fn id_end_from(s: Seq<char>, i: int) -> int
    decreases s.len() - i,
{
    if 0 <= i < s.len() && session_id_char(s[i]) { id_end_from(s, i + 1) } else { i }
}

/// The session identifier inside a session path: what follows the first
/// "sessionId=", up to the first character that is neither alphanumeric
/// nor '-'.
pub open spec fn id_in_session_path(s: Seq<char>) -> Option<Seq<char>> {
    match first_occurrence(s, "sessionId="@) {
        Some(p) => Some(s.subrange(p + 10, id_end_from(s, p + 10))),
        None => None,
    }
}

/// What the transport of a server at some URL knows of it.
#[derive(Debug)]
pub struct HttpSseTransport {
    pub config: TransportConfig,
    pub base_url: WebUrl,
    pub info: TransportInfo,
    pub session_id: Option<String>,
    pub last_event_id: Option<String>,
    pub has_sse_stream: bool,
    pub connected: bool,
    pub security_config: SecurityConfig,
    pub session_manager: SessionManager,
}

impl HttpSseTransport {
    /// A transport for an HTTP+SSE configuration: the base URL must pass the
    /// security settings; any other configuration is refused.
    pub fn new(config: TransportConfig) -> (r: Result<Self, McpError>)
        ensures
            match config {
                TransportConfig::HttpSse(c) => {
                    let u = c.base_url;
                    &&& (!is_local_host(u.host_text()) && u.scheme_text() != "https"@) ==> (r matches Err(e)
                        && is_config_error(e, "HTTPS required for non-localhost URL: "@ + u.text()))
                    &&& (is_local_host(u.host_text()) || u.scheme_text() == "https"@) ==> (r matches Ok(t)
                        && t.base_url.text() == u.text() && t.session_id is None && t.last_event_id is None
                        && !t.connected && t.info.transport_type@ == "streamable-http"@
                        && t.session_manager.protocol_version == McpProtocolVersion::AutoDetect
                        && t.security_config.require_https == !is_local_host(u.host_text())
                        && t.security_config.validate_origin && t.security_config.enforce_localhost
                        && t.security_config.validate_session_ids && !t.has_sse_stream)
                },
                _ => r matches Err(e) && is_config_error(e, "Invalid configuration type"@),
            },
    {
        let base_url = match &config {
            TransportConfig::HttpSse(c) => c.base_url.duplicate(),
            _ => return Err(config_error(owned("Invalid configuration type"))),
        };
        let security_config = match build_security_config(&base_url) {
            Ok(s) => s,
            Err(e) => return Err(e),
        };
        Ok(HttpSseTransport {
            config,
            base_url,
            info: TransportInfo::new("streamable-http"),
            session_id: None,
            last_event_id: None,
            has_sse_stream: false,
            connected: false,
            security_config,
            session_manager: SessionManager::default(),
        })
    }

    /// Checks a session identifier, when the security settings ask for it.
    pub fn validate_session_id(&self, session_id: &str) -> (r: Result<(), McpError>)
        ensures
            !self.security_config.validate_session_ids ==> r is Ok,
            self.security_config.validate_session_ids ==> match session_id_problem(session_id@) {
                None => r is Ok,
                Some(p) => r matches Err(e) && is_config_error(e, p),
            },
    {
        if !self.security_config.validate_session_ids {
            return Ok(());
        }
        if byte_len(session_id) < 16 {
            return Err(config_error(owned("Session ID too short - security risk")));
        }
        let cs = chars_of(session_id);
        let mut i: usize = 0;
        while i < cs.len()
            invariant
                i <= cs@.len(),
                cs@ == session_id@,
                utf8_len(session_id@) >= 16,
                self.security_config.validate_session_ids,
                forall|j: int| 0 <= j < i ==> session_id_char(#[trigger] cs@[j]),
            decreases cs@.len() - i,
        {
            if !(char_is_alphanumeric(cs[i]) || cs[i] == '-') {
                proof {
                    assert(!session_id_char(session_id@[i as int]));
                }
                return Err(config_error(owned("Session ID contains invalid characters")));
            }
            i = i + 1;
        }
        Ok(())
    }

    /// The protocol the server speaks: the one configured or detected
    /// before, or else detected from the endpoint ("/sse" is the legacy
    /// protocol, anything else the modern one) and remembered.
    pub fn detect_protocol_version(&mut self) -> (r: McpProtocolVersion)
        ensures
            old(self).session_manager.protocol_version != McpProtocolVersion::AutoDetect ==> r == old(self).session_manager.protocol_version,
            old(self).session_manager.protocol_version == McpProtocolVersion::AutoDetect ==> r == (if old(self).base_url.path_text() == "/sse"@ {
                McpProtocolVersion::HttpSse
            } else {
                McpProtocolVersion::StreamableHttp
            }),
            final(self).session_manager.protocol_version == r,
            final(self).base_url == old(self).base_url,
            final(self).session_id == old(self).session_id,
    {
        if self.session_manager.protocol_version != McpProtocolVersion::AutoDetect {
            return self.session_manager.protocol_version;
        }
        let detected = if str_equal(self.base_url.path(), "/sse") {
            McpProtocolVersion::HttpSse
        } else {
            McpProtocolVersion::StreamableHttp
        };
        self.session_manager.protocol_version = detected;
        detected
    }

    /// The current session identifier.
    pub fn session_id(&self) -> (r: Option<&str>)
        ensures
            match self.session_id {
                Some(s) => r matches Some(x) && x@ == s@,
                None => r is None,
            },
    {
        match &self.session_id {
            Some(s) => Some(s.as_str()),
            None => None,
        }
    }

    /// The identifier of the last event received.
    pub fn last_event_id(&self) -> (r: Option<&str>)
        ensures
            match self.last_event_id {
                Some(s) => r matches Some(x) && x@ == s@,
                None => r is None,
            },
    {
        match &self.last_event_id {
            Some(s) => Some(s.as_str()),
            None => None,
        }
    }

    /// Whether a broken stream can be resumed: an event identifier is known.
    pub fn can_resume(&self) -> (r: bool)
        ensures
            r == self.last_event_id is Some,
    {
        self.last_event_id.is_some()
    }

    /// Remembers the identifier of an event, unless it is empty.
    pub fn record_event_id(&mut self, id: &str)
        ensures
            id@.len() > 0 ==> (final(self).last_event_id matches Some(x) && x@ == id@),
            id@.len() == 0 ==> final(self).last_event_id == old(self).last_event_id,
            final(self).session_id == old(self).session_id,
    {
        if id.unicode_len() > 0 {
            self.last_event_id = Some(owned(id));
        }
    }

    /// Takes in discovered session information: a path mentioning "sse"
    /// becomes the new base URL (resolved against the current one) and its
    /// "sessionId=" value the session identifier; anything else is the
    /// session identifier itself. A path that does not resolve changes
    /// nothing.
    pub fn apply_discovered_session(&mut self, session_info: &str) -> (r: Result<(), McpError>)
        ensures
            r is Ok,
            ({
                let s = session_info@;
                if is_prefix("/"@, s) && contains_seq(s, "sse"@) {
                    match url_join(old(self).base_url.text(), s) {
                        Ok(p) => final(self).base_url.parts() == p
                            && (final(self).session_manager.active_session_url matches Some(a) && a.parts() == p)
                            && match id_in_session_path(s) {
                                Some(id) => (final(self).session_id matches Some(x) && x@ == id),
                                None => final(self).session_id == old(self).session_id,
                            },
                        Err(_) => final(self).base_url == old(self).base_url && final(self).session_id == old(self).session_id,
                    }
                } else {
                    (final(self).session_id matches Some(x) && x@ == s) && final(self).base_url == old(self).base_url
                }
            }),
    {
        if starts_with(session_info, "/") && contains_str(session_info, "sse") {
            match self.base_url.join(session_info) {
                Ok(new_url) => {
                    self.session_manager.active_session_url = Some(new_url.duplicate());
                    self.base_url = new_url;
                    match find_str(session_info, "sessionId=") {
                        Some(start) => {
                            proof {
                                reveal_strlit("sessionId=");
                                assert("sessionId="@.len() == 10);
                            }
                            let cs = chars_of(session_info);
                            proof {
                                assert(start + 10 <= cs@.len());
                            }
                            let mut id = String::new();
                            let mut i: usize = start + 10;
                            while i < cs.len() && (char_is_alphanumeric(cs[i]) || cs[i] == '-')
                                invariant
                                    start + 10 <= i <= cs@.len(),
                                    id@ == cs@.subrange(start + 10, i as int),
                                    id_end_from(cs@, start + 10) == id_end_from(cs@, i as int),
                                decreases cs@.len() - i,
                            {
                                push_char(&mut id, cs[i]);
                                proof {
                                    assert(cs@.subrange(start + 10, i + 1) =~= cs@.subrange(start + 10, i as int).push(cs@[i as int]));
                                }
                                i = i + 1;
                            }
                            self.session_id = Some(id);
                        },
                        None => {},
                    }
                    Ok(())
                },
                Err(_) => Ok(()),
            }
        } else {
            self.session_id = Some(owned(session_info));
            Ok(())
        }
    }
}

/// A run of `[a-fA-F0-9\-]` characters from `i` to `e` that nothing of the
/// class follows ends at `e`.
proof fn lemma_hex_run_end(s: Seq<char>, i: int, e: int)
    requires
        0 <= i <= e <= s.len(),
        forall|j: int| i <= j < e ==> hex_dash(#[trigger] s[j]),
        e == s.len() || !hex_dash(s[e]),
    ensures
        hex_run_end(s, i) == e,
    decreases e - i,
{
    if i < e {
        lemma_hex_run_end(s, i + 1, e);
    }
}

/// The identifier after "sessionId=" is captured whole, dashes included:
/// where event data is `pre`, then "sessionId=", then a non-empty `u` made
/// of hex digits (either case) and dashes, then `rest` that does not go on
/// with such a character, and "sessionId=" occurs nowhere before, the
/// captured session is exactly `u`; with no "/sse?sessionId=" path in the
/// data, it is also the session the data names.
pub proof fn lemma_session_after_key(pre: Seq<char>, u: Seq<char>, rest: Seq<char>)
    requires
        u.len() > 0,
        forall|i: int| 0 <= i < u.len() ==> ('a' <= #[trigger] u[i] <= 'f') || ('A' <= u[i] <= 'F')
            || ('0' <= u[i] <= '9') || u[i] == '-',
        rest.len() > 0 ==> !(('a' <= rest[0] <= 'f') || ('A' <= rest[0] <= 'F') || ('0' <= rest[0] <= '9')
            || rest[0] == '-'),
        forall|q: int| 0 <= q < pre.len() ==> !occurs_at(pre + "sessionId="@ + u + rest, "sessionId="@, q),
    ensures
        session_capture(pre + "sessionId="@ + u + rest) == Some(u),
        !contains_seq(pre + "sessionId="@ + u + rest, "/sse?sessionId="@)
            ==> session_in_text(pre + "sessionId="@ + u + rest) == Some(u),
{
    reveal_strlit("sessionId=");
    let key = "sessionId="@;
    let s = pre + key + u + rest;
    let p = pre.len() as int;
    let e = p + 10 + u.len();
    assert(s.subrange(p, p + 10) =~= key);
    assert(occurs_at(s, key, p));
    assert forall|j: int| p + 10 <= j < e implies hex_dash(#[trigger] s[j]) by {
        assert(s[j] == u[j - p - 10]);
    }
    if e < s.len() {
        assert(s[e] == rest[0]);
    }
    lemma_hex_run_end(s, p + 10, e);
    assert(session_match_at(s, p));
    let c = choose|c: int| session_match_at(s, c) && forall|q: int| 0 <= q < c ==> !session_match_at(s, q);
    assert(session_match_at(s, c) && forall|q: int| 0 <= q < c ==> !session_match_at(s, q));
    if c < p {
        assert(!occurs_at(s, key, c));
    }
    assert(c == p);
    assert(s.subrange(p + 10, e) =~= u);
}

} // verus!
