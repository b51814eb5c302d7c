use mcp_probe::error::{AuthError, McpError, TransportError};
use mcp_probe::json::{JsonNumber, JsonValue};
use mcp_probe::messages::initialization::{InitializeRequest, InitializeResponse, InitializedNotification, PingRequest, PongResponse};
use mcp_probe::messages::jsonrpc::{JsonRpcError, JsonRpcMessage, JsonRpcNotification, JsonRpcRequest, JsonRpcResponse, RequestId};
use mcp_probe::messages::logging::{LogLevel, LoggingNotification, ResourceUpdatedNotification, SetLevelRequest};
use mcp_probe::messages::prompts::{MessageRole, Prompt, PromptMessage};
use mcp_probe::messages::resources::{Resource, ResourceContent};
use mcp_probe::messages::sampling::{self, StopReason, CostPriority, IntelligencePriority, ModelPreferences, SamplingMessage, SpeedPriority};
use mcp_probe::messages::{Implementation, ProgressToken, ProtocolVersion};
use mcp_probe::messages::codec::{message_from_json, message_to_json};

fn obj(entries: Vec<(&str, JsonValue)>) -> JsonValue {
    JsonValue::object(entries.into_iter().map(|(k, v)| (k.to_string(), v)).collect())
}

fn is_str(v: Option<&JsonValue>, expected: &str) -> bool {
    matches!(v, Some(JsonValue::String(s)) if s == expected)
}

fn is_int(v: Option<&JsonValue>, expected: i64) -> bool {
    matches!(v, Some(JsonValue::Number(JsonNumber::Int(n))) if *n == expected)
}

fn is_string_id(id: &RequestId, expected: &str) -> bool {
    matches!(id, RequestId::String(s) if s == expected)
}

#[test]
fn test_error_display() {
    let error = McpError::timeout("test operation", std::time::Duration::from_secs(30));
    match error {
        McpError::Timeout { operation, duration_ms } => {
            assert_eq!(operation, "test operation");
            assert_eq!(duration_ms, 30000);
        }
        _ => panic!("expected a timeout"),
    }
}

#[test]
fn test_retryable_errors() {
    let timeout = McpError::timeout("test", std::time::Duration::from_secs(30));
    assert!(timeout.is_retryable());

    let auth_error = McpError::Auth(AuthError::InvalidCredentials {
        auth_type: "Bearer".to_string(),
        reason: "Invalid token".to_string(),
    });
    assert!(!auth_error.is_retryable());
}

#[test]
fn test_error_categories() {
    let timeout = McpError::timeout("test", std::time::Duration::from_secs(30));
    assert_eq!(timeout.category(), "timeout");

    let transport_error = McpError::Transport(TransportError::ConnectionFailed {
        transport_type: "stdio".to_string(),
        reason: "Process failed".to_string(),
    });
    assert_eq!(transport_error.category(), "transport");
}

#[test]
fn test_transport_error_retryable() {
    let connection_failed = TransportError::ConnectionFailed {
        transport_type: "stdio".to_string(),
        reason: "Process failed".to_string(),
    };
    assert!(connection_failed.is_retryable());

    let invalid_config = TransportError::InvalidConfig {
        transport_type: "stdio".to_string(),
        reason: "Missing command".to_string(),
    };
    assert!(!invalid_config.is_retryable());
}

#[test]
fn http_errors_retry_only_on_server_side_status() {
    let server = TransportError::HttpError { status_code: 503, reason: "busy".to_string() };
    let client = TransportError::HttpError { status_code: 404, reason: "missing".to_string() };
    assert!(server.is_retryable());
    assert!(!client.is_retryable());
    assert!(McpError::Transport(server).is_retryable());
}

#[test]
fn test_request_creation() {
    let request = JsonRpcRequest::new(RequestId::from("1"), "test_method", obj(vec![("param", JsonValue::string("value"))]));

    assert_eq!(request.jsonrpc, "2.0");
    assert!(is_string_id(&request.id, "1"));
    assert_eq!(request.method, "test_method");
    assert!(request.has_params());
}

#[test]
fn test_request_without_params() {
    let request = JsonRpcRequest::without_params(RequestId::from("1"), "test_method");

    assert!(!request.has_params());
    assert!(request.params.is_none());
}

#[test]
fn test_success_response() {
    let response = JsonRpcResponse::success(RequestId::from("1"), obj(vec![("result", JsonValue::string("ok"))]));

    assert!(response.is_success());
    assert!(!response.is_error());
    assert!(is_string_id(&response.id, "1"));
}

#[test]
fn test_error_response() {
    let error = JsonRpcError::method_not_found("unknown");
    let response = JsonRpcResponse::error(RequestId::from("1"), error);

    assert!(!response.is_success());
    assert!(response.is_error());
    assert_eq!(response.error.as_ref().unwrap().code, -32601);
}

#[test]
fn method_not_found_names_the_method() {
    let error = JsonRpcError::method_not_found("tools/run");
    assert_eq!(error.message, "Method not found");
    assert!(is_str(error.data.as_ref(), "Method 'tools/run' not found"));
}

#[test]
fn test_notification_creation() {
    let notification = JsonRpcNotification::new("event", obj(vec![("data", JsonValue::string("value"))]));

    assert_eq!(notification.method, "event");
    assert!(notification.has_params());
}

#[test]
fn test_json_rpc_error_types() {
    let parse_error = JsonRpcError::parse_error();
    assert_eq!(parse_error.code, -32700);
    assert!(parse_error.is_standard_error());

    let app_error = JsonRpcError::application_error(-32000, "App error", "Details");
    assert_eq!(app_error.code, -32000);
    assert!(app_error.is_application_error());
}

#[test]
fn test_request_id_variants() {
    let string_id = RequestId::from("test");
    let number_id = RequestId::from(42i64);
    let null_id = RequestId::Null;

    assert_eq!(string_id.to_string(), "test");
    assert_eq!(number_id.to_string(), "42");
    assert_eq!(null_id.to_string(), "null");
}

#[test]
fn negative_request_ids_print_with_sign() {
    assert_eq!(RequestId::from(-7i64).to_string(), "-7");
    assert_eq!(RequestId::from(i64::MIN).to_string(), "-9223372036854775808");
}

#[test]
fn test_generic_message_handling() {
    let request = JsonRpcMessage::Request(JsonRpcRequest::new(RequestId::from("1"), "test", obj(vec![])));
    let notification = JsonRpcMessage::Notification(JsonRpcNotification::new("event", obj(vec![])));

    assert_eq!(request.method(), Some("test"));
    assert_eq!(notification.method(), Some("event"));

    assert!(request.expects_response());
    assert!(!notification.expects_response());
}

#[test]
fn test_initialize_request_creation() {
    let request = InitializeRequest::basic("test-client", "1.0.0");

    assert!(matches!(request.protocol_version, ProtocolVersion::V2025_03_26));
    assert_eq!(request.client_info.name, "test-client");
    assert_eq!(request.client_info.version, "1.0.0");
    assert!(request.is_supported_version());
}

#[test]
fn test_initialize_request_with_metadata() {
    let request = InitializeRequest::basic("test-client", "1.0.0")
        .with_client_metadata("platform", JsonValue::string("rust"))
        .with_client_metadata("os", JsonValue::string("linux"));

    assert!(is_str(request.client_info.metadata.get("platform"), "rust"));
    assert!(is_str(request.client_info.metadata.get("os"), "linux"));
}

#[test]
fn test_initialize_response_creation() {
    let response = InitializeResponse::basic("test-server", "2.0.0")
        .with_instructions("Use tools carefully")
        .with_server_metadata("max_tools", JsonValue::Number(JsonNumber::Int(10)));

    assert_eq!(response.server_info.name, "test-server");
    assert_eq!(response.instructions, Some("Use tools carefully".to_string()));
    assert!(is_int(response.server_info.metadata.get("max_tools"), 10));
}

#[test]
fn test_initialized_notification() {
    let notification = InitializedNotification::new().add_metadata("timestamp", JsonValue::string("2024-01-15T10:30:00Z"));

    assert!(is_str(notification.metadata.get("timestamp"), "2024-01-15T10:30:00Z"));
}

#[test]
fn test_ping_pong() {
    let ping = PingRequest::with_timestamp("2024-01-15T10:30:00Z").add_metadata("sequence", JsonValue::Number(JsonNumber::Int(1)));

    let pong = PongResponse::echo(&ping).add_metadata("response_time", JsonValue::string("2024-01-15T10:30:01Z"));

    assert!(is_str(pong.metadata.get("timestamp"), "2024-01-15T10:30:00Z"));
    assert!(is_int(pong.metadata.get("sequence"), 1));
    assert!(is_str(pong.metadata.get("response_time"), "2024-01-15T10:30:01Z"));
}

#[test]
fn test_log_level_ordering() {
    assert!(LogLevel::Debug < LogLevel::Info);
    assert!(LogLevel::Info < LogLevel::Notice);
    assert!(LogLevel::Notice < LogLevel::Warning);
    assert!(LogLevel::Warning < LogLevel::Error);
    assert!(LogLevel::Error < LogLevel::Critical);

    assert!(LogLevel::Debug.is_more_verbose_than(&LogLevel::Error));
    assert!(LogLevel::Error.is_less_verbose_than(&LogLevel::Debug));
}

#[test]
fn test_set_level_request() {
    let request = SetLevelRequest::new(LogLevel::Warning);
    assert_eq!(request.level, LogLevel::Warning);
}

#[test]
fn test_logging_notification() {
    let notification = LoggingNotification::with_logger(LogLevel::Info, JsonValue::string("This is a test message"), "test_logger");

    assert_eq!(notification.level, LogLevel::Info);
    assert!(is_str(Some(&notification.data), "This is a test message"));
    assert_eq!(notification.logger, Some("test_logger".to_string()));
}

#[test]
fn test_logging_notification_helpers() {
    let debug = LoggingNotification::debug("Debug message");
    let info = LoggingNotification::info("Info message");
    let warning = LoggingNotification::warning("Warning message");
    let error = LoggingNotification::error("Error message");

    assert_eq!(debug.level, LogLevel::Debug);
    assert_eq!(info.level, LogLevel::Info);
    assert_eq!(warning.level, LogLevel::Warning);
    assert_eq!(error.level, LogLevel::Error);
}

#[test]
fn test_progress_token() {
    let string_token = ProgressToken::from("test");
    let number_token = ProgressToken::from(42i64);

    assert_eq!(string_token.to_string(), "test");
    assert_eq!(number_token.to_string(), "42");
}

#[test]
fn test_notification_with_metadata() {
    let notification = ResourceUpdatedNotification::new("file:///test.txt")
        .with_metadata("timestamp", JsonValue::string("2024-01-01T00:00:00Z"))
        .with_metadata("size", JsonValue::Number(JsonNumber::Int(1024)));

    assert_eq!(notification.uri, "file:///test.txt");
    assert!(is_str(notification.metadata.get("timestamp"), "2024-01-01T00:00:00Z"));
    assert!(is_int(notification.metadata.get("size"), 1024));
}

#[test]
fn test_resource_updated_notification() {
    let notification = ResourceUpdatedNotification::new("file:///test.txt")
        .with_metadata("timestamp", JsonValue::string("2024-01-01T00:00:00Z"));
    assert_eq!(notification.uri, "file:///test.txt");
    assert!(is_str(notification.metadata.get("timestamp"), "2024-01-01T00:00:00Z"));
}

#[test]
fn test_protocol_version_custom() {
    let custom = ProtocolVersion::Custom("2025-01-01".to_string());
    assert_eq!(custom.as_str(), "2025-01-01");
    assert!(!custom.is_supported());
}

#[test]
fn known_protocol_versions_are_supported() {
    let versions = ProtocolVersion::supported_versions();
    assert!(!versions.is_empty());
    for v in versions.iter() {
        assert!(v.is_supported());
    }
    assert_eq!(ProtocolVersion::default().as_str(), "2025-03-26");
}

#[test]
fn test_prompt_creation() {
    let prompt = Prompt::new("code_review", "Review code for best practices").with_arguments(obj(vec![
        ("type", JsonValue::string("object")),
        ("required", JsonValue::array(vec![JsonValue::string("code")])),
    ]));

    assert_eq!(prompt.name, "code_review");
    assert_eq!(prompt.description, "Review code for best practices");
    assert!(prompt.arguments.is_some());
}

#[test]
fn test_prompt_message_creation() {
    let system_msg = PromptMessage::system("You are a helpful assistant");
    let user_msg = PromptMessage::user("Hello, how are you?");
    let assistant_msg = PromptMessage::assistant("I'm doing well, thank you!");

    assert_eq!(system_msg.role, MessageRole::System);
    assert_eq!(user_msg.role, MessageRole::User);
    assert_eq!(assistant_msg.role, MessageRole::Assistant);
}

#[test]
fn test_resource_creation() {
    let resource = Resource::new("file:///path/to/file.txt", "file.txt")
        .with_description("A text file")
        .with_mime_type("text/plain");

    assert_eq!(resource.uri, "file:///path/to/file.txt");
    assert_eq!(resource.name, "file.txt");
    assert_eq!(resource.description, Some("A text file".to_string()));
    assert_eq!(resource.mime_type, Some("text/plain".to_string()));
}

#[test]
fn test_resource_content_text() {
    let content = ResourceContent::text_with_mime_type("file:///test.txt", "Hello world", "text/plain");
    assert_eq!(content.uri(), "file:///test.txt");
    assert_eq!(content.mime_type(), Some("text/plain"));
}

#[test]
fn test_resource_content_blob() {
    let content = ResourceContent::blob_with_mime_type("file:///test.png", "base64data", "image/png");
    assert_eq!(content.uri(), "file:///test.png");
    assert_eq!(content.mime_type(), Some("image/png"));
    assert_eq!(ResourceContent::blob("file:///x", "AA==").mime_type(), None);
}

#[test]
fn test_model_preferences() {
    let prefs = ModelPreferences::new()
        .with_models(vec!["model-large".to_string(), "model-fast".to_string()])
        .with_cost_priority(CostPriority::Medium)
        .with_speed_priority(SpeedPriority::High)
        .with_intelligence_priority(IntelligencePriority::High);

    assert_eq!(prefs.models, Some(vec!["model-large".to_string(), "model-fast".to_string()]));
    assert_eq!(prefs.cost_priority, Some(CostPriority::Medium));
    assert_eq!(prefs.speed_priority, Some(SpeedPriority::High));
    assert_eq!(prefs.intelligence_priority, Some(IntelligencePriority::High));
}

#[test]
fn test_sampling_message_creation() {
    let system_msg = SamplingMessage::system("You are helpful");
    let user_msg = SamplingMessage::user("Hello");
    let assistant_msg = SamplingMessage::assistant("Hi there!");

    assert_eq!(system_msg.role, sampling::MessageRole::System);
    assert_eq!(user_msg.role, sampling::MessageRole::User);
    assert_eq!(assistant_msg.role, sampling::MessageRole::Assistant);
}

#[test]
fn messages_are_read_from_json_in_request_response_notification_order() {
    let s = |t: &str| JsonValue::String(t.to_string());
    let request = obj(vec![("jsonrpc", s("2.0")), ("id", JsonValue::Number(JsonNumber::Int(3))), ("method", s("ping")), ("params", JsonValue::Null)]);
    match message_from_json(&request) {
        Some(JsonRpcMessage::Request(r)) => {
            assert_eq!(r.method, "ping");
            assert!(matches!(r.id, RequestId::Number(3)));
            assert!(r.params.is_none());
        }
        other => panic!("unexpected {:?}", other),
    }
    let response = obj(vec![
        ("jsonrpc", s("2.0")),
        ("id", s("a")),
        ("error", obj(vec![("code", JsonValue::Number(JsonNumber::Int(-32601))), ("message", s("nope"))])),
    ]);
    match message_from_json(&response) {
        Some(JsonRpcMessage::Response(r)) => {
            assert_eq!(r.error.as_ref().unwrap().code, -32601);
            assert!(r.result.is_none());
        }
        other => panic!("unexpected {:?}", other),
    }
    // An identifier that is not a string, an i64 or null makes the message a notification.
    let odd_id = obj(vec![("jsonrpc", s("2.0")), ("id", JsonValue::Number(JsonNumber::Float("1.5".into()))), ("method", s("x"))]);
    assert!(matches!(message_from_json(&odd_id), Some(JsonRpcMessage::Notification(_))));
    let bad_error = obj(vec![("jsonrpc", s("2.0")), ("id", JsonValue::Null), ("error", s("oops"))]);
    assert!(message_from_json(&bad_error).is_none());
    assert!(message_from_json(&s("not an object")).is_none());

    let note = JsonRpcMessage::Notification(JsonRpcNotification { jsonrpc: "2.0".into(), method: "n".into(), params: None });
    let written = message_to_json(&note);
    assert!(written.get("params").is_none());
    assert!(matches!(message_from_json(&written), Some(JsonRpcMessage::Notification(ref n)) if n.method == "n"));
}

#[test]
fn standard_error_constructors_carry_details() {
    let cases = vec![
        (JsonRpcError::invalid_request("no method"), -32600, "Invalid Request", "no method"),
        (JsonRpcError::invalid_params("missing uri"), -32602, "Invalid params", "missing uri"),
        (JsonRpcError::internal_error("crashed"), -32603, "Internal error", "crashed"),
    ];
    for (error, code, message, details) in cases {
        assert_eq!(error.code, code);
        assert_eq!(error.message, message);
        assert!(is_str(error.data.as_ref(), details));
        assert!(error.is_standard_error());
        assert!(!error.is_application_error());
    }
}

#[test]
fn random_request_ids_are_uuid_strings() {
    let a = JsonRpcRequest::with_random_id("ping", JsonValue::Null);
    let b = JsonRpcRequest::with_random_id("ping", JsonValue::Null);
    assert_eq!(a.method, "ping");
    assert_eq!(a.jsonrpc, "2.0");
    match (&a.id, &b.id) {
        (RequestId::String(x), RequestId::String(y)) => {
            assert_eq!(x.len(), 36);
            assert_ne!(x, y);
        }
        other => panic!("unexpected {:?}", other),
    }
}

#[test]
fn json_value_accessors() {
    let o = obj(vec![("k", JsonValue::Null)]);
    assert!(o.as_object().is_some());
    assert!(o.as_array().is_none());
    assert!(!o.is_null());
    let a = JsonValue::array(vec![JsonValue::Bool(true)]);
    assert!(a.as_array().is_some());
    assert!(a.as_object().is_none());
    assert!(JsonValue::Null.is_null());
}

#[test]
fn test_implementation_creation() {
    let impl_info = Implementation::new("mcp-probe", "0.1.0").with_metadata("platform", JsonValue::string("rust"));

    assert_eq!(impl_info.name, "mcp-probe");
    assert_eq!(impl_info.version, "0.1.0");
    assert!(is_str(impl_info.metadata.get("platform"), "rust"));
}

#[test]
fn test_prompt_content_text() {
    let content = mcp_probe::messages::prompts::PromptContent::text("Hello world");
    let json = content.to_json();
    assert!(is_str(json.get("type"), "text"));
    assert!(is_str(json.get("text"), "Hello world"));
}

#[test]
fn test_prompt_content_image() {
    let content = mcp_probe::messages::prompts::PromptContent::image("base64data", "image/png");
    let json = content.to_json();
    assert!(is_str(json.get("type"), "image"));
    assert!(is_str(json.get("data"), "base64data"));
    assert!(is_str(json.get("mimeType"), "image/png"));
}

#[test]
fn test_prompt_content_resource() {
    let content = mcp_probe::messages::prompts::PromptContent::resource_with_text("file:///test.txt", "A test file");
    let json = content.to_json();
    assert!(is_str(json.get("type"), "resource"));
    let resource = json.get("resource").expect("resource member");
    assert!(is_str(resource.get("uri"), "file:///test.txt"));
    assert!(is_str(resource.get("text"), "A test file"));
}

#[test]
fn test_sampling_content_text() {
    let content = mcp_probe::messages::sampling::SamplingContent::text("Hello world");
    let json = content.to_json();
    assert!(is_str(json.get("type"), "text"));
    assert!(is_str(json.get("text"), "Hello world"));
}

#[test]
fn test_sampling_content_image() {
    let content = mcp_probe::messages::sampling::SamplingContent::image("base64data", "image/png");
    let json = content.to_json();
    assert!(is_str(json.get("type"), "image"));
    assert!(is_str(json.get("data"), "base64data"));
    assert!(is_str(json.get("mimeType"), "image/png"));
}

#[test]
fn test_completion_result() {
    let result = mcp_probe::messages::sampling::CompletionResult::text("Generated response");
    let json = result.to_json();
    assert!(is_str(json.get("type"), "text"));
    assert!(is_str(json.get("text"), "Generated response"));
}

#[test]
fn test_message_serialization() {
    let request = JsonRpcRequest::new(RequestId::from("1"), "test", obj(vec![]));
    let json = message_to_json(&JsonRpcMessage::Request(request.duplicate()));
    match message_from_json(&json) {
        Some(JsonRpcMessage::Request(deserialized)) => {
            assert_eq!(deserialized.jsonrpc, request.jsonrpc);
            assert!(is_string_id(&deserialized.id, "1"));
            assert_eq!(deserialized.method, request.method);
            assert!(matches!(deserialized.params, Some(JsonValue::Object(_))));
        }
        other => panic!("unexpected {:?}", other),
    }
}

#[test]
fn test_log_level_serialization() {
    let levels = LogLevel::all();
    let expected = ["debug", "info", "notice", "warning", "error", "critical"];
    for (level, expected) in levels.iter().zip(expected.iter()) {
        let json = level.to_json();
        assert!(matches!(&json, JsonValue::String(s) if s == expected));
        assert_eq!(level.to_string(), *expected);
    }
}

#[test]
fn test_protocol_version_serialization() {
    let version = ProtocolVersion::V2024_11_05;
    let json = version.to_json();
    assert!(matches!(&json, JsonValue::String(s) if s == "2024-11-05"));
    let deserialized = ProtocolVersion::from_json(&json).unwrap();
    assert!(matches!(deserialized, ProtocolVersion::V2024_11_05));
    assert!(matches!(
        ProtocolVersion::from_json(&JsonValue::String("2030-01-01".to_string())),
        Some(ProtocolVersion::Custom(s)) if s == "2030-01-01"
    ));
    assert!(ProtocolVersion::from_json(&JsonValue::Null).is_none());
}

#[test]
fn test_progress_token_variants() {
    let string_token = ProgressToken::from("progress-1");
    let number_token = ProgressToken::from(42i64);
    assert_eq!(string_token.to_string(), "progress-1");
    assert_eq!(number_token.to_string(), "42");
    assert!(matches!(string_token.to_json(), JsonValue::String(s) if s == "progress-1"));
    assert!(matches!(number_token.to_json(), JsonValue::Number(JsonNumber::Int(42))));
}

#[test]
fn test_list_prompts_request() {
    let request = mcp_probe::messages::prompts::ListPromptsRequest { cursor: None };
    let json = request.to_json();
    let deserialized = mcp_probe::messages::prompts::ListPromptsRequest::from_json(&json).unwrap();
    assert_eq!(request, deserialized);
}

#[test]
fn test_get_prompt_request() {
    let request = mcp_probe::messages::prompts::GetPromptRequest {
        name: "code_review".to_string(),
        arguments: Some(obj(vec![
            ("language", JsonValue::String("rust".to_string())),
            ("code", JsonValue::String("fn main() {}".to_string())),
        ])),
    };
    let json = request.to_json();
    let deserialized = mcp_probe::messages::prompts::GetPromptRequest::from_json(&json).unwrap();
    assert_eq!(deserialized.name, request.name);
    let args = deserialized.arguments.expect("arguments");
    assert!(is_str(args.get("language"), "rust"));
    assert!(is_str(args.get("code"), "fn main() {}"));
}

#[test]
fn test_list_resources_request() {
    let request = mcp_probe::messages::resources::ListResourcesRequest { cursor: None };
    let json = request.to_json();
    let deserialized = mcp_probe::messages::resources::ListResourcesRequest::from_json(&json).unwrap();
    assert_eq!(request, deserialized);
}

#[test]
fn test_read_resource_request() {
    let request = mcp_probe::messages::resources::ReadResourceRequest { uri: "file:///path/to/file.txt".to_string() };
    let json = request.to_json();
    let deserialized = mcp_probe::messages::resources::ReadResourceRequest::from_json(&json).unwrap();
    assert_eq!(request, deserialized);
}

#[test]
fn test_message_role_serialization() {
    assert!(matches!(MessageRole::System.to_json(), JsonValue::String(s) if s == "system"));
    assert!(matches!(MessageRole::User.to_json(), JsonValue::String(s) if s == "user"));
    assert!(matches!(MessageRole::Assistant.to_json(), JsonValue::String(s) if s == "assistant"));
}

#[test]
fn test_priority_serialization() {
    assert!(matches!(CostPriority::Low.to_json(), JsonValue::String(s) if s == "low"));
    assert!(matches!(SpeedPriority::Medium.to_json(), JsonValue::String(s) if s == "medium"));
    assert!(matches!(IntelligencePriority::High.to_json(), JsonValue::String(s) if s == "high"));
}

#[test]
fn test_stop_reason_serialization() {
    let reasons = [StopReason::EndTurn, StopReason::MaxTokens, StopReason::StopSequence, StopReason::ToolUse];
    let expected = ["end_turn", "max_tokens", "stop_sequence", "tool_use"];
    for (reason, expected) in reasons.iter().zip(expected.iter()) {
        assert!(matches!(reason.to_json(), JsonValue::String(s) if s == *expected));
    }
}

#[test]
fn listing_requests_keep_their_cursor() {
    let request = mcp_probe::messages::prompts::ListPromptsRequest { cursor: Some("page-2".to_string()) };
    let json = request.to_json();
    assert!(is_str(json.get("cursor"), "page-2"));
    assert_eq!(mcp_probe::messages::prompts::ListPromptsRequest::from_json(&json).unwrap(), request);
    assert!(mcp_probe::messages::prompts::ListPromptsRequest::from_json(&JsonValue::Null).is_none());
    assert!(mcp_probe::messages::resources::ReadResourceRequest::from_json(&obj(vec![])).is_none());
}
