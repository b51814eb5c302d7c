use mcp_probe::client::{ClientConfig, ClientState, IncomingRoute, NotificationKind, PendingRequests, RetryAction, RetryState, notification_kind, request_id_for};
use mcp_probe::error::{ConfigError, McpError, TransportError};
use mcp_probe::json::JsonValue;
use mcp_probe::messages::jsonrpc::{JsonRpcMessage, JsonRpcNotification, JsonRpcRequest, JsonRpcResponse, RequestId};
use mcp_probe::transport::config::{AuthConfig, ConfigFormat, HttpSseConfig, HttpStreamConfig, StdioConfig, TransportConfig, config_format};
use mcp_probe::transport::factory::{AnyTransport, TransportFactory, base64_encode};
use mcp_probe::transport::{TransportHelper, TransportInfo};
use mcp_probe::weburl::WebUrl;
use std::time::Duration;

fn invalid_value(r: Result<(), McpError>) -> (String, String, String) {
    match r {
        Err(McpError::Config(ConfigError::InvalidValue { parameter, value, reason })) => (parameter, value, reason),
        other => panic!("expected an invalid value, got {:?}", other),
    }
}

#[test]
fn test_client_config_defaults() {
    let config = ClientConfig::default();
    assert_eq!(config.request_timeout, Duration::from_secs(30));
    assert_eq!(config.init_timeout, Duration::from_secs(10));
    assert_eq!(config.max_retries, 3);
    assert_eq!(config.retry_base_delay, Duration::from_secs(1));
    assert!(config.auto_handle_notifications);
    assert_eq!(config.message_buffer_size, 1000);
}

#[test]
fn test_supported_transports() {
    let transports = TransportFactory::supported_transports();
    assert!(!transports.is_empty());
    assert!(transports.contains(&"stdio"));
    assert!(transports.contains(&"http-sse"));
    assert!(transports.contains(&"http-stream"));
}

#[test]
fn test_base64_encode() {
    assert_eq!(base64_encode(b"hello"), "aGVsbG8=");
    assert_eq!(base64_encode(b"hello world"), "aGVsbG8gd29ybGQ=");
    assert_eq!(base64_encode(b"user:pass"), "dXNlcjpwYXNz");
    assert_eq!(base64_encode(b""), "");
}

#[test]
fn base64_pads_one_and_two_byte_tails() {
    assert_eq!(base64_encode(b"a"), "YQ==");
    assert_eq!(base64_encode(b"ab"), "YWI=");
    assert_eq!(base64_encode(&[0xff, 0xfe, 0xfd]), "//79");
}

#[test]
fn basic_auth_header_is_base64_of_credentials() {
    let basic = AuthConfig::basic("user", "pass");
    assert_eq!(TransportFactory::auth_header(&basic), "Basic dXNlcjpwYXNz");
    assert_eq!(TransportFactory::auth_header(&AuthConfig::bearer("tok")), "tok");
    assert_eq!(TransportFactory::auth_header(&AuthConfig::header("X-Key", "v")), "v");
}

#[test]
fn test_invalid_config() {
    let config = TransportConfig::stdio("", &[]);
    let result = TransportFactory::create(config);
    assert!(matches!(result, Err(McpError::Config(ConfigError::MissingParameter { ref parameter })) if parameter == "command"));
}

#[test]
fn test_transport_creation() {
    let config = TransportConfig::stdio("echo", &[]);
    assert!(TransportFactory::check_config(&config).is_ok());
    assert_eq!(config.transport_type(), "stdio");
    assert!(TransportFactory::create(config).is_ok());
}

#[test]
fn test_create_stdio_transport() {
    let config = TransportConfig::stdio("echo", &["hello"]);
    let result = TransportFactory::create(config);
    assert!(result.is_ok());
    let transport = result.unwrap();
    assert_eq!(transport.get_info().transport_type, "stdio");
}

#[test]
fn test_create_http_sse_transport() {
    let config = TransportConfig::http_sse("https://example.com/mcp").unwrap();
    let result = TransportFactory::create(config);
    assert!(result.is_ok());
    let transport = result.unwrap();
    assert_eq!(transport.get_info().transport_type, "streamable-http");
}

#[test]
fn created_stream_transport_carries_basic_auth() {
    let base = WebUrl::parse("http://localhost:8080").unwrap();
    let config = TransportConfig::HttpStream(HttpStreamConfig::new(base).auth(AuthConfig::basic("user", "pass")));
    match TransportFactory::create(config) {
        Ok(AnyTransport::HttpStream(t)) => {
            assert_eq!(t.auth_header.as_deref(), Some("Basic dXNlcjpwYXNz"));
            assert_eq!(t.get_mcp_url(), "http://localhost:8080/mcp");
        }
        other => panic!("unexpected {:?}", other),
    }
    let insecure = TransportConfig::http_sse("http://example.com/mcp").unwrap();
    assert!(TransportFactory::create(insecure).is_err());
    assert!(TransportFactory::retry_after(0, 1));
    assert!(!TransportFactory::retry_after(1, 1));
}

#[test]
fn stdio_config_builders() {
    let config = StdioConfig::new("python")
        .arg("server.py")
        .args(&["--port", "8080"])
        .env("DEBUG", "1")
        .env("DEBUG", "2")
        .timeout(Duration::from_secs(5));
    assert_eq!(config.command, "python");
    assert_eq!(config.args, vec!["server.py".to_string(), "--port".to_string(), "8080".to_string()]);
    assert_eq!(config.environment.get("DEBUG").map(|s| s.as_str()), Some("2"));
    assert_eq!(config.timeout, Duration::from_secs(5));
    assert!(config.working_dir.is_none());
}

#[test]
fn stdio_missing_working_dir_is_rejected() {
    let config = StdioConfig::new("python").working_dir("/definitely/not/a/real/dir");
    let (parameter, value, reason) = invalid_value(config.validate());
    assert_eq!(parameter, "working_dir");
    assert_eq!(value, "/definitely/not/a/real/dir");
    assert_eq!(reason, "Directory does not exist");
    assert!(StdioConfig::new("python").working_dir("/").validate().is_ok());
}

#[test]
fn http_sse_config_parses_and_validates() {
    let config = TransportConfig::http_sse("https://api.example.com/mcp").unwrap();
    assert_eq!(config.transport_type(), "http-sse");
    assert!(config.validate().is_ok());
    match &config {
        TransportConfig::HttpSse(c) => {
            assert_eq!(c.base_url.as_str(), "https://api.example.com/mcp");
            assert_eq!(c.timeout, Duration::from_secs(60));
        }
        _ => panic!("expected http-sse"),
    }
    let bad = TransportConfig::http_sse("not a url");
    match bad {
        Err(McpError::Config(ConfigError::InvalidValue { parameter, value, reason })) => {
            assert_eq!(parameter, "base_url");
            assert_eq!(value, "not a url");
            assert!(reason.starts_with("Invalid URL: "));
        }
        _ => panic!("expected an invalid base url"),
    }
}

#[test]
fn http_configs_reject_other_schemes() {
    let ftp = WebUrl::parse("ftp://example.com/").unwrap();
    let (parameter, value, reason) = invalid_value(HttpSseConfig::new(ftp.clone()).validate());
    assert_eq!(parameter, "base_url");
    assert_eq!(value, "ftp://example.com/");
    assert_eq!(reason, "URL must use http or https scheme");
    assert!(HttpStreamConfig::new(ftp).validate().is_err());
}

#[test]
fn http_stream_config_checks_window_and_auth() {
    let url = WebUrl::parse("http://localhost:8080/mcp").unwrap();
    let config = TransportConfig::http_stream("http://localhost:8080/mcp").unwrap();
    match &config {
        TransportConfig::HttpStream(c) => {
            assert!(c.compression);
            assert_eq!(c.flow_control_window, 65536);
            assert_eq!(c.timeout, Duration::from_secs(300));
        }
        _ => panic!("expected http-stream"),
    }
    let zero = HttpStreamConfig::new(url.clone()).flow_control_window(0);
    let (parameter, value, reason) = invalid_value(zero.validate());
    assert_eq!(parameter, "flow_control_window");
    assert_eq!(value, "0");
    assert_eq!(reason, "Flow control window must be greater than 0");

    let with_auth = HttpStreamConfig::new(url).auth(AuthConfig::bearer(""));
    let (parameter, value, reason) = invalid_value(with_auth.validate());
    assert_eq!((parameter.as_str(), value.as_str(), reason.as_str()), ("auth", "bearer", "Token cannot be empty"));
}

#[test]
fn auth_config_validation() {
    assert!(AuthConfig::basic("u", "p").validate().is_ok());
    let (p, v, r) = invalid_value(AuthConfig::basic("", "p").validate());
    assert_eq!((p.as_str(), v.as_str(), r.as_str()), ("auth", "basic", "Username and password cannot be empty"));
    let (p, v, r) = invalid_value(AuthConfig::header("X", "").validate());
    assert_eq!((p.as_str(), v.as_str(), r.as_str()), ("auth", "header", "Header name and value cannot be empty"));
    let http = WebUrl::parse("http://auth.example.com/token").unwrap();
    let (p, v, r) = invalid_value(AuthConfig::oauth("id", "secret", http, None).validate());
    assert_eq!((p.as_str(), v.as_str(), r.as_str()), ("token_url", "http://auth.example.com/token", "OAuth token URL must use HTTPS"));
    let (p, v, r) = invalid_value(AuthConfig::oauth("", "secret", WebUrl::parse("https://a.b/t").unwrap(), None).validate());
    assert_eq!((p.as_str(), v.as_str(), r.as_str()), ("auth", "oauth", "Client ID and secret cannot be empty"));
    assert!(AuthConfig::oauth("id", "secret", WebUrl::parse("https://a.b/t").unwrap(), Some("read".to_string())).validate().is_ok());
}

#[test]
fn test_transport_info_creation() {
    let mut info = TransportInfo::new("test");
    assert_eq!(info.transport_type, "test");
    assert!(!info.connected);
    assert_eq!(info.requests_sent, 0);

    info.mark_connected();
    assert!(info.connected);
    assert!(info.connected_since.is_some());

    info.increment_requests_sent();
    assert_eq!(info.requests_sent, 1);
}

#[test]
fn mod_test_transport_info_metadata() {
    let mut info = TransportInfo::new("test");
    info.add_metadata("version", JsonValue::string("1.0.0"));
    assert!(matches!(info.metadata.get("version"), Some(JsonValue::String(s)) if s == "1.0.0"));
}

#[test]
fn test_connection_duration() {
    let mut info = TransportInfo::new("test");
    assert!(info.connection_duration().is_none());

    info.mark_connected();
    let duration = info.connection_duration();
    assert!(duration.is_some());
    assert!(duration.unwrap().as_millis() < 100);

    info.mark_disconnected();
    assert!(info.connection_duration().is_none());
}

#[test]
fn validate_message_checks_version() {
    let good = JsonRpcMessage::Request(JsonRpcRequest::without_params(RequestId::from(1i64), "ping"));
    assert!(TransportHelper::validate_message(&good).is_ok());
    let mut bad_req = JsonRpcRequest::without_params(RequestId::from(1i64), "ping");
    bad_req.jsonrpc = "1.0".to_string();
    match TransportHelper::validate_message(&JsonRpcMessage::Request(bad_req)) {
        Err(McpError::Transport(TransportError::InvalidConfig { transport_type, reason })) => {
            assert_eq!(transport_type, "generic");
            assert_eq!(reason, "Invalid jsonrpc version: 1.0");
        }
        _ => panic!("expected an invalid version"),
    }
}

#[test]
fn client_state_and_ids() {
    assert!(ClientState::Ready.is_ready());
    assert!(!ClientState::Error("x".to_string()).is_ready());
    assert_eq!(request_id_for(1), "req_1");
    assert_eq!(request_id_for(42), "req_42");
    assert_eq!(notification_kind("notifications/tools/list_changed"), NotificationKind::ToolListChanged);
    assert_eq!(notification_kind("notifications/other"), NotificationKind::Unknown);
}

#[test]
fn retry_backoff_doubles_then_gives_up() {
    let mut s = RetryState::new(3);
    assert_eq!(s.on_failure(), RetryAction::Wait { factor: 1 });
    assert_eq!(s.on_failure(), RetryAction::Wait { factor: 2 });
    assert_eq!(s.on_failure(), RetryAction::Wait { factor: 4 });
    assert_eq!(s.retries_on_success(), 3);
    assert_eq!(s.on_failure(), RetryAction::Fail);
    assert_eq!(s.on_failure(), RetryAction::Fail);
}

#[test]
fn responses_go_to_pending_requests_once() {
    let mut pending = PendingRequests::new();
    pending.register("req_1");
    pending.register("req_1");
    assert!(pending.contains("req_1"));
    let resp = JsonRpcResponse::success(RequestId::from("req_1"), JsonValue::Null);
    assert!(matches!(pending.route(JsonRpcMessage::Response(resp)), IncomingRoute::Deliver(_)));
    assert!(!pending.contains("req_1"));
    let again = JsonRpcResponse::success(RequestId::from("req_1"), JsonValue::Null);
    assert!(matches!(pending.route(JsonRpcMessage::Response(again)), IncomingRoute::Unmatched(_)));
    let n = JsonRpcNotification::without_params("notifications/progress");
    assert!(matches!(pending.route(JsonRpcMessage::Notification(n)), IncomingRoute::Notify(NotificationKind::Progress, _)));
}

#[test]
fn configuration_files_are_read_by_extension() {
    assert_eq!(config_format("a.json", Some("json")).unwrap(), ConfigFormat::Json);
    assert_eq!(config_format("a.yml", Some("yml")).unwrap(), ConfigFormat::Yaml);
    assert_eq!(config_format("a.toml", Some("toml")).unwrap(), ConfigFormat::Toml);
    match config_format("a.ini", Some("ini")) {
        Err(McpError::Config(ConfigError::InvalidFormat { path, reason })) => {
            assert_eq!(path, "a.ini");
            assert_eq!(reason, "Unsupported file format. Use .json, .yaml, or .toml");
        }
        other => panic!("unexpected {:?}", other),
    }
    assert!(config_format("noext", None).is_err());
}

#[test]
fn base64_output_has_whole_groups_and_trailing_padding() {
    for (input, expected) in [
        (&b""[..], ""),
        (&b"f"[..], "Zg=="),
        (&b"fo"[..], "Zm8="),
        (&b"foo"[..], "Zm9v"),
        (&b"foob"[..], "Zm9vYg=="),
        (&b"\xff\xfe\xfd\xfc"[..], "//79/A=="),
    ] {
        let out = base64_encode(input);
        assert_eq!(out, expected);
        assert_eq!(out.len(), 4 * ((input.len() + 2) / 3));
        let pad = (3 - input.len() % 3) % 3;
        assert!(out[out.len() - pad..].chars().all(|c| c == '='));
        assert!(out[..out.len() - pad].chars().all(|c| c.is_ascii_alphanumeric() || c == '+' || c == '/'));
    }
}

#[test]
fn stdio_defaults_are_thirty_seconds_and_no_environment() {
    let config = StdioConfig::new("server");
    assert_eq!(config.timeout, std::time::Duration::from_secs(30));
    assert!(config.args.is_empty());
    assert!(config.working_dir.is_none());
}

#[test]
fn timeout_errors_keep_whole_milliseconds() {
    match McpError::timeout("op", std::time::Duration::from_millis(1500)) {
        McpError::Timeout { operation, duration_ms } => {
            assert_eq!(operation, "op");
            assert_eq!(duration_ms, 1500);
        }
        other => panic!("unexpected {:?}", other),
    }
}
