use mcp_probe::error::{McpError, TransportError};
use mcp_probe::json::{JsonNumber, JsonValue};
use mcp_probe::messages::jsonrpc::{JsonRpcMessage, JsonRpcNotification, JsonRpcRequest, JsonRpcResponse, RequestId};
use mcp_probe::strmap::StringMap;
use mcp_probe::transport::config::TransportConfig;
use mcp_probe::transport::http_stream::{HttpStreamTransport, JsonResponseOutcome, mcp_url};
use mcp_probe::transport::sse::{HttpSseTransport, McpProtocolVersion};
use mcp_probe::transport::sse_flow::{BodyKind, HttpMethod, LegacyReply, MonitorEvent, StreamEvent};
use mcp_probe::transport::stdio::{StdioTransport, StdoutRoute};
use std::time::Duration;

fn obj(entries: Vec<(&str, JsonValue)>) -> JsonValue {
    JsonValue::object(entries.into_iter().map(|(k, v)| (k.to_string(), v)).collect())
}

fn request(id: i64, method: &str) -> JsonRpcRequest {
    JsonRpcRequest { jsonrpc: "2.0".to_string(), id: RequestId::from(id), method: method.to_string(), params: None }
}

fn response(id: i64) -> JsonRpcResponse {
    JsonRpcResponse { jsonrpc: "2.0".to_string(), id: RequestId::from(id), result: Some(JsonValue::Null), error: None }
}

fn headers(h: &[(String, String)]) -> Vec<(&str, &str)> {
    h.iter().map(|(a, b)| (a.as_str(), b.as_str())).collect()
}

// ---- stdio ----

#[test]
fn test_stdio_transport_creation() {
    let config = TransportConfig::stdio("echo", &["hello"]);
    let transport = StdioTransport::new(config);

    assert_eq!(transport.get_info().transport_type, "stdio");
    assert!(!transport.is_connected());
}

#[test]
fn stdio_test_transport_info_metadata() {
    let config = TransportConfig::stdio("python", &["-m", "server"]);
    let transport = StdioTransport::new(config);

    let info = transport.get_info();
    assert!(info.metadata.contains_key("command"));
    assert!(info.metadata.contains_key("args"));
    assert!(info.metadata.contains_key("timeout"));
}

#[test]
fn test_drop_cleanup() {
    let config = TransportConfig::stdio("sleep", &["1"]);
    let transport = StdioTransport::new(config);
    drop(transport);
}

#[test]
fn test_environment_variables() {
    let mut config = TransportConfig::stdio("echo", &["test"]);
    if let TransportConfig::Stdio(ref mut stdio_config) = config {
        let env = std::mem::replace(&mut stdio_config.environment, StringMap::new());
        stdio_config.environment = env.insert("TEST_VAR".to_string(), "test_value".to_string());
    }
    let transport = StdioTransport::new(config);
    let info = transport.get_info();
    assert!(matches!(info.metadata.get("environment_vars"), Some(JsonValue::Number(JsonNumber::Int(1)))));
}

#[test]
fn stdio_spawn_plan_and_lines() {
    let config = TransportConfig::stdio("server", &["--port", "1"]);
    let transport = StdioTransport::new(config);
    let plan = transport.spawn_plan().unwrap();
    assert_eq!(plan.program, "server");
    assert_eq!(plan.args, vec!["--port".to_string(), "1".to_string()]);

    assert_eq!(StdioTransport::stdout_line("  {\"a\":1}\r"), Some("{\"a\":1}".to_string()));
    assert_eq!(StdioTransport::stdout_line("   "), None);
    assert_eq!(StdioTransport::frame_outbound("{}"), "{}\n");
    match StdioTransport::spawn_failure("no such file") {
        McpError::Transport(TransportError::ConnectionError { transport_type, reason }) => {
            assert_eq!(transport_type, "stdio");
            assert_eq!(reason, "Failed to spawn process: no such file");
        }
        other => panic!("unexpected {:?}", other),
    }
}

#[test]
fn stdio_requests_wait_for_their_responses() {
    let mut transport = StdioTransport::new(TransportConfig::stdio("server", &[]));
    assert!(transport.begin_request(&request(1, "ping")).is_err());
    transport.on_spawned(Some(42));
    assert!(transport.is_connected());
    transport.begin_request(&request(7, "tools/list")).unwrap();
    assert_eq!(transport.info.requests_sent, 1);

    match transport.route_stdout(JsonRpcMessage::Response(response(7))) {
        StdoutRoute::Deliver(r) => assert!(matches!(r.id, RequestId::Number(7))),
        other => panic!("expected delivery, got {:?}", other),
    }
    // The same response again is no longer awaited.
    assert!(matches!(transport.route_stdout(JsonRpcMessage::Response(response(7))), StdoutRoute::Forward(_)));
    let note = JsonRpcNotification { jsonrpc: "2.0".to_string(), method: "notifications/x".to_string(), params: None };
    assert!(matches!(transport.route_stdout(JsonRpcMessage::Notification(note)), StdoutRoute::Forward(_)));

    let info = transport.get_info();
    assert!(matches!(info.metadata.get("process_id"), Some(JsonValue::Number(JsonNumber::Int(42)))));
    transport.on_disconnected();
    assert!(!transport.is_connected());
}

// ---- Streamable HTTP (http-stream) ----

#[test]
fn test_http_stream_transport_creation() {
    let transport = HttpStreamTransport::new("http://localhost:3001".to_string(), None);
    assert_eq!(transport.base_url, "http://localhost:3001");
    assert!(!transport.is_connected());
    assert_eq!(transport.get_mcp_url(), "http://localhost:3001/mcp");
}

#[test]
fn test_mcp_url_formatting() {
    let transport1 = HttpStreamTransport::new("http://localhost:3001".to_string(), None);
    assert_eq!(transport1.get_mcp_url(), "http://localhost:3001/mcp");

    let transport2 = HttpStreamTransport::new("http://localhost:3001/".to_string(), None);
    assert_eq!(transport2.get_mcp_url(), "http://localhost:3001/mcp");
}

#[test]
fn http_stream_test_transport_info_metadata() {
    let transport =
        HttpStreamTransport::new("http://localhost:3001".to_string(), Some("Bearer token".to_string()));
    let info = transport.get_info();

    assert_eq!(info.transport_type, "http-stream");
    assert!(info.metadata.contains_key("has_auth"));
    assert!(info.metadata.contains_key("protocol"));
}

#[test]
fn test_auth_header_handling() {
    let transport_with_auth =
        HttpStreamTransport::new("http://localhost:3001".to_string(), Some("Bearer token123".to_string()));
    assert!(transport_with_auth.auth_header.is_some());

    let transport_no_auth = HttpStreamTransport::new("http://localhost:3001".to_string(), None);
    assert!(transport_no_auth.auth_header.is_none());
}

#[test]
fn http_stream_sessions_and_headers() {
    let mut t = HttpStreamTransport::new("http://h:1".to_string(), Some("Bearer x".to_string()));
    assert!(t.begin_request(&request(1, "initialize")).is_err());
    t.connect().unwrap();
    let plan = t.begin_request(&request(1, "initialize")).unwrap();
    assert!(plan.initialize);
    assert_eq!(plan.url, "http://h:1/mcp");
    assert_eq!(
        headers(&plan.headers),
        vec![("Content-Type", "application/json"), ("Accept", "application/json, text/event-stream"), ("Authorization", "Bearer x")]
    );
    t.on_initialize_response(Some("abc"));
    let plan = t.begin_request(&request(2, "tools/list")).unwrap();
    assert!(!plan.initialize);
    assert_eq!(plan.headers.last().unwrap(), &("mcp-session-id".to_string(), "abc".to_string()));
    // The initialization request never carries the session.
    let plan = t.begin_request(&request(3, "initialize")).unwrap();
    assert_eq!(plan.headers.len(), 3);
    t.disconnect().unwrap();
    assert!(t.session_id.is_none());
    assert_eq!(mcp_url(""), "/mcp");
}

#[test]
fn http_stream_response_parsing() {
    let ok = obj(vec![("jsonrpc", JsonValue::String("2.0".into())), ("id", JsonValue::Number(JsonNumber::Int(5))), ("result", JsonValue::Bool(true))]);
    match HttpStreamTransport::classify_json_response(&ok) {
        JsonResponseOutcome::Response(r) => {
            assert!(matches!(r.id, RequestId::Number(5)));
            assert!(matches!(r.result, Some(JsonValue::Bool(true))));
        }
        other => panic!("unexpected {:?}", other),
    }
    let err = obj(vec![("error", JsonValue::String("bad".into()))]);
    assert!(matches!(HttpStreamTransport::classify_json_response(&err), JsonResponseOutcome::ServerError(JsonValue::String(_))));
    assert!(matches!(HttpStreamTransport::classify_json_response(&obj(vec![])), JsonResponseOutcome::Invalid));
    let string_id = obj(vec![("id", JsonValue::String("x".into())), ("result", JsonValue::Null)]);
    assert!(matches!(HttpStreamTransport::extract_request_id(&string_id), RequestId::String(s) if s == "x"));
    let big_id = obj(vec![("id", JsonValue::Number(JsonNumber::UInt(u64::MAX)))]);
    assert!(matches!(HttpStreamTransport::extract_request_id(&big_id), RequestId::Null));

    let body = "event: message\ndata: {\"note\":1}\ndata: {\"id\":1}\r\n";
    let payloads = HttpStreamTransport::sse_data_payloads(body);
    assert_eq!(payloads, vec!["{\"note\":1}".to_string(), "{\"id\":1}".to_string()]);
    let parsed = vec![Some(obj(vec![("note", JsonValue::Null)])), Some(obj(vec![("id", JsonValue::Null), ("result", JsonValue::Null)]))];
    assert!(matches!(HttpStreamTransport::parse_response(body, None, &parsed), Ok(JsonResponseOutcome::Response(_))));
    assert!(HttpStreamTransport::parse_response(body, None, &vec![None, None]).is_err());
    match HttpStreamTransport::parse_response("garbage", None, &vec![]) {
        Err(McpError::Transport(TransportError::SerializationError { reason, .. })) => {
            assert_eq!(reason, "Could not parse response as JSON or SSE: garbage")
        }
        other => panic!("unexpected {:?}", other),
    }
    match HttpStreamTransport::timeout_error(&Duration::from_secs(30)) {
        McpError::Transport(TransportError::TimeoutError { reason, .. }) => assert_eq!(reason, "Request timed out after 30s"),
        other => panic!("unexpected {:?}", other),
    }
    match HttpStreamTransport::http_failure(500, "boom", true) {
        McpError::Transport(TransportError::HttpError { status_code, reason }) => {
            assert_eq!(status_code, 500);
            assert_eq!(reason, "Initialization failed: boom");
        }
        other => panic!("unexpected {:?}", other),
    }
}

// ---- Streamable HTTP / HTTP+SSE (http-sse) ----

fn sse_transport(url: &str) -> HttpSseTransport {
    HttpSseTransport::new(TransportConfig::http_sse(url).unwrap()).unwrap()
}

#[test]
fn test_streamable_http_transport_creation() {
    let transport = sse_transport("https://example.com/mcp");
    assert_eq!(transport.get_info().transport_type, "streamable-http");
    assert!(!transport.is_connected());
    assert!(transport.session_id().is_none());
}

#[test]
fn test_base_url_extraction() {
    let transport = sse_transport("https://example.com/mcp");
    assert_eq!(transport.base_url.to_string(), "https://example.com/mcp");
}

#[test]
fn http_sse_test_transport_info_metadata() {
    let transport = sse_transport("https://example.com/mcp");
    let info = transport.get_info();
    assert!(info.metadata.contains_key("base_url"));
    assert!(info.metadata.contains_key("session_id"));
    assert!(info.metadata.contains_key("has_sse_stream"));
    assert!(info.metadata.contains_key("last_event_id"));
    assert!(info.metadata.contains_key("can_resume"));
    assert!(info.metadata.contains_key("security_enabled"));
}

#[test]
fn test_security_config_https_enforcement() {
    let config = TransportConfig::http_sse("http://example.com/mcp").unwrap();
    assert!(HttpSseTransport::new(config).is_err());

    let config = TransportConfig::http_sse("http://localhost:3000/mcp").unwrap();
    assert!(HttpSseTransport::new(config).is_ok());
}

#[test]
fn test_session_id_validation() {
    let transport = sse_transport("http://localhost:3000/mcp");
    assert!(transport.validate_session_id("550e8400-e29b-41d4-a716-446655440000").is_ok());
    assert!(transport.validate_session_id("short").is_err());
    assert!(transport.validate_session_id("invalid@session!id").is_err());
}

#[test]
fn test_resumability_features() {
    let transport = sse_transport("http://localhost:3000/mcp");
    assert!(!transport.can_resume());
    assert!(transport.last_event_id().is_none());
}

#[test]
fn sse_protocol_routing_and_calls() {
    let mut legacy = sse_transport("http://localhost:3000/sse");
    assert_eq!(legacy.send_protocol(), McpProtocolVersion::HttpSse);
    assert!(legacy.should_wait_for_session(0));
    assert!(!legacy.should_wait_for_session(50));
    legacy.take_fresh_session("/sse?sessionId=abc-123");
    assert_eq!(legacy.session_id(), Some("abc-123"));
    let post = legacy.legacy_post();
    assert_eq!(post.method, HttpMethod::Post);
    assert_eq!(post.url, "http://localhost:3000/sse?sessionId=abc-123");
    assert!(legacy.monitoring_plan().len() == 3);

    let mut modern = sse_transport("http://localhost:3000/mcp");
    assert!(modern.monitoring_plan().is_empty());
    assert_eq!(modern.session_manager.protocol_version, McpProtocolVersion::StreamableHttp);
    assert_eq!(modern.send_protocol(), McpProtocolVersion::StreamableHttp);
    modern.take_fresh_session("ignored");
    assert!(modern.session_id().is_none());
    assert!(modern.accept_session_header("bad!").is_err());
    modern.accept_session_header("550e8400-e29b-41d4-a716-446655440000").unwrap();
    let call = modern.streamable_post();
    assert_eq!(headers(&call.headers).last().unwrap(), &("Mcp-Session-Id", "550e8400-e29b-41d4-a716-446655440000"));
    assert!(modern.resume_call().is_none());
    assert!(matches!(modern.stream_event("", "/mcp?sessionId=x", None), StreamEvent::Announcement));
    assert!(matches!(modern.stream_event("e1", "{}", None), StreamEvent::Unreadable));
    assert_eq!(modern.last_event_id(), Some("e1"));
    let resume = modern.resume_call().unwrap();
    assert_eq!(headers(&resume.headers)[1], ("Last-Event-ID", "e1"));
    assert!(modern.session_end_call().is_some());
    modern.on_disconnected();
    assert!(modern.session_end_call().is_none());
}

#[test]
fn sse_reply_classification() {
    assert_eq!(HttpSseTransport::streamable_body_kind(None).unwrap(), BodyKind::Json);
    assert_eq!(HttpSseTransport::streamable_body_kind(Some("text/event-stream")).unwrap(), BodyKind::EventStream);
    assert!(HttpSseTransport::streamable_body_kind(Some("text/html")).is_err());
    assert_eq!(HttpSseTransport::legacy_reply(202, None).unwrap(), LegacyReply::Accepted);
    match HttpSseTransport::legacy_reply(500, Some("text/html")) {
        Err(McpError::Transport(TransportError::NetworkError { reason, .. })) => {
            assert_eq!(reason, "Unexpected Legacy response - Status: 500, Content-Type: text/html")
        }
        other => panic!("unexpected {:?}", other),
    }
    assert!(HttpSseTransport::sse_get_reply(None).is_err());
    assert!(HttpSseTransport::resume_reply(Some("text/event-stream")).is_ok());
    assert!(HttpSseTransport::resume_reply(Some("text/event-stream; charset=utf-8")).is_err());
    assert_eq!(HttpSseTransport::discovery_body_kind(Some("application/json")), Some(BodyKind::Json));
    assert!(matches!(
        HttpSseTransport::monitor_event("see sessionId=abcdef", None),
        MonitorEvent::Session(s) if s == "abcdef"
    ));
    assert!(matches!(HttpSseTransport::monitor_event("nothing", None), MonitorEvent::Ignore));
}

#[test]
fn sse_matches_awaited_responses() {
    let mut t = sse_transport("http://localhost:3000/mcp");
    assert!(t.match_awaited_response("2", JsonRpcMessage::Response(response(1))).is_none());
    assert!(t.match_awaited_response("1", JsonRpcMessage::Response(response(1))).is_some());
    assert_eq!(t.info.responses_received, 1);
    assert!(t.begin_send().is_err());
    t.on_connected();
    assert!(t.begin_send().is_ok());
    assert!(t.begin_receive().is_err());
}

fn sse_reason(e: McpError) -> (String, String) {
    match e {
        McpError::Transport(TransportError::NetworkError { reason, .. }) => ("network".to_string(), reason),
        McpError::Transport(TransportError::SerializationError { reason, .. }) => ("serialization".to_string(), reason),
        McpError::Transport(TransportError::TimeoutError { reason, .. }) => ("timeout".to_string(), reason),
        McpError::Transport(TransportError::DisconnectedError { reason, .. }) => ("disconnected".to_string(), reason),
        McpError::Transport(TransportError::NotConnected { reason, .. }) => ("not_connected".to_string(), reason),
        McpError::Transport(TransportError::ConnectionError { reason, .. }) => ("connection".to_string(), reason),
        McpError::Transport(TransportError::InvalidConfig { reason, .. }) => ("config".to_string(), reason),
        other => panic!("unexpected {:?}", other),
    }
}

#[test]
fn sse_legacy_calls_and_errors() {
    let mut legacy = sse_transport("http://localhost:3000/sse");
    let get = legacy.legacy_get();
    assert_eq!(get.method, HttpMethod::Get);
    assert_eq!(get.url, "http://localhost:3000/sse");
    assert_eq!(headers(&get.headers), vec![("Accept", "text/event-stream")]);
    legacy.take_fresh_session("s-1");
    assert_eq!(legacy.legacy_get().url, "http://localhost:3000/sse?sessionId=s-1");

    let monitor = legacy.monitor_url("/sse").unwrap();
    assert_eq!(monitor.to_string(), "http://localhost:3000/events");
    let other = legacy.monitor_url("/session").unwrap();
    assert_eq!(other.to_string(), "http://localhost:3000/session");
    let call = HttpSseTransport::discovery_call(&monitor);
    assert_eq!(call.method, HttpMethod::Get);
    assert_eq!(call.url, "http://localhost:3000/events");
    assert_eq!(headers(&call.headers), vec![("Accept", "text/event-stream, application/json")]);

    assert_eq!(HttpSseTransport::sse_post_body_kind(Some("application/json")).unwrap(), BodyKind::Json);
    assert_eq!(
        sse_reason(HttpSseTransport::sse_post_body_kind(Some("text/plain")).unwrap_err()),
        ("network".to_string(), "Unexpected SSE response content type: text/plain".to_string())
    );

    let req = JsonRpcMessage::Request(request(7, "tools/list"));
    assert_eq!(HttpSseTransport::awaited_response_id(&req), Some("7".to_string()));
    assert_eq!(HttpSseTransport::awaited_response_id(&JsonRpcMessage::Response(response(7))), None);

    assert_eq!(
        sse_reason(HttpSseTransport::stream_wait_timeout("7")),
        ("timeout".to_string(), "SSE response timeout for request ID: 7".to_string())
    );
    assert_eq!(
        sse_reason(HttpSseTransport::stream_closed_while_waiting()),
        ("disconnected".to_string(), "SSE stream closed while waiting for response".to_string())
    );
    assert_eq!(
        sse_reason(HttpSseTransport::response_wait_timeout("9")),
        ("timeout".to_string(), "Timeout waiting for response to request ID: 9".to_string())
    );
    assert_eq!(
        sse_reason(HttpSseTransport::request_timeout_error(&Duration::from_secs(30))),
        ("timeout".to_string(), "Request timed out after 30s".to_string())
    );
    assert_eq!(
        sse_reason(HttpSseTransport::receive_timeout_error(&Duration::from_millis(1500))),
        ("timeout".to_string(), "Message receive timed out after 1.5s".to_string())
    );
    assert_eq!(
        sse_reason(HttpSseTransport::body_failure("Failed to parse Modern JSON response", "eof")),
        ("serialization".to_string(), "Failed to parse Modern JSON response: eof".to_string())
    );
    assert_eq!(
        sse_reason(HttpSseTransport::network_failure("HTTP notification failed", "refused")),
        ("network".to_string(), "HTTP notification failed: refused".to_string())
    );
    assert_eq!(sse_reason(HttpSseTransport::stream_closed()), ("disconnected".to_string(), "SSE stream closed".to_string()));
    assert_eq!(
        sse_reason(HttpSseTransport::connection_failure("dns")),
        ("connection".to_string(), "Failed to connect to server: dns".to_string())
    );
    assert_eq!(HttpSseTransport::request_timeout(None), Duration::from_secs(30));
    assert_eq!(HttpSseTransport::request_timeout(Some(Duration::from_secs(2))), Duration::from_secs(2));
}

#[test]
fn sse_counters_and_notification_post() {
    let mut t = sse_transport("http://localhost:3000/mcp");
    let probe = t.probe_call();
    assert_eq!(probe.method, HttpMethod::Head);
    assert_eq!(probe.url, "http://localhost:3000/mcp");
    assert!(probe.headers.is_empty());
    t.on_connected();
    t.on_request_sent();
    t.on_direct_response();
    t.on_notification_sent();
    t.on_message_received(&JsonRpcMessage::Notification(JsonRpcNotification {
        jsonrpc: "2.0".to_string(),
        method: "notifications/progress".to_string(),
        params: None,
    }));
    assert_eq!(t.info.requests_sent, 1);
    assert_eq!(t.info.responses_received, 1);
    assert_eq!(t.info.notifications_sent, 1);
    assert_eq!(t.info.notifications_received, 1);
    let post = t.notification_post();
    assert_eq!(post.method, HttpMethod::Post);
    assert_eq!(post.url, "http://localhost:3000/mcp");
    assert_eq!(
        headers(&post.headers),
        vec![("Content-Type", "application/json"), ("Accept", "application/json, text/event-stream")]
    );
    t.accept_session_header("550e8400-e29b-41d4-a716-446655440000").unwrap();
    assert_eq!(headers(&t.notification_post().headers).len(), 3);
    assert_eq!(
        sse_reason(t.begin_receive().unwrap_err()),
        ("not_connected".to_string(), "No SSE stream available - server uses single JSON responses".to_string())
    );
}

#[test]
fn http_stream_errors_and_counters() {
    let mut t = HttpStreamTransport::new("http://h:1".to_string(), None);
    t.connect().unwrap();
    t.on_request_completed();
    assert_eq!(t.get_info().requests_sent, 1);
    assert_eq!(t.get_info().responses_received, 1);
    match t.receive_message() {
        Err(McpError::Transport(TransportError::InvalidConfig { transport_type, reason })) => {
            assert_eq!(transport_type, "http-stream");
            assert_eq!(reason, "Unsolicited message reception not implemented for Modern Streamable HTTP");
        }
        other => panic!("unexpected {:?}", other),
    }
    match HttpStreamTransport::notification_failure(404) {
        McpError::Transport(TransportError::HttpError { status_code, reason }) => {
            assert_eq!(status_code, 404);
            assert_eq!(reason, "Notification failed");
        }
        other => panic!("unexpected {:?}", other),
    }
    match HttpStreamTransport::serialization_failure("request", "bad value") {
        McpError::Transport(TransportError::SerializationError { reason, .. }) => {
            assert_eq!(reason, "Failed to serialize request: bad value")
        }
        other => panic!("unexpected {:?}", other),
    }
    match HttpStreamTransport::invalid_response_format() {
        McpError::Transport(TransportError::SerializationError { reason, .. }) => {
            assert_eq!(reason, "Invalid JSON-RPC response format")
        }
        other => panic!("unexpected {:?}", other),
    }
    match HttpStreamTransport::server_error("{\"code\":-32601}") {
        McpError::Transport(TransportError::HttpError { status_code, reason }) => {
            assert_eq!(status_code, 400);
            assert_eq!(reason, "Server returned error: {\"code\":-32601}");
        }
        other => panic!("unexpected {:?}", other),
    }
}
