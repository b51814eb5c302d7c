use mcp_probe::error::McpError;
use mcp_probe::interceptor::{ChainRun, ChainStep, InterceptionResult, InterceptorChain, ManagerStats, MessageContext, MessageDirection};
use mcp_probe::interceptors::logging::LoggingInterceptor;
use mcp_probe::interceptors::manager::{AnyInterceptor, InterceptorManager};
use mcp_probe::interceptors::rate_limit::{RateLimitInterceptor, RateLimiter};
use mcp_probe::interceptors::transform::{TransformInterceptor, TransformOperation, TransformRule, split_path};
use mcp_probe::interceptors::validation::ValidationInterceptor;
use mcp_probe::json::{JsonNumber, JsonValue};
use mcp_probe::messages::jsonrpc::{JsonRpcError, JsonRpcMessage, JsonRpcNotification, JsonRpcRequest, JsonRpcResponse, RequestId};

const SEC: u64 = 1_000_000_000;

fn obj(entries: Vec<(&str, JsonValue)>) -> JsonValue {
    JsonValue::object(entries.into_iter().map(|(k, v)| (k.to_string(), v)).collect())
}

fn request(version: &str, method: &str, params: Option<JsonValue>) -> JsonRpcMessage {
    JsonRpcMessage::Request(JsonRpcRequest {
        jsonrpc: version.to_string(),
        id: RequestId::from(1i64),
        method: method.to_string(),
        params,
    })
}

fn params_of(m: &JsonRpcMessage) -> &JsonValue {
    match m {
        JsonRpcMessage::Request(r) => r.params.as_ref().unwrap(),
        _ => panic!("expected a request"),
    }
}

#[test]
fn test_validation_interceptor_valid_request() {
    let mut interceptor = ValidationInterceptor::new(true);
    let context = MessageContext::new(request("2.0", "tools/list", Some(obj(vec![]))), MessageDirection::Outgoing);
    let result = interceptor.intercept(context);
    assert!(!result.modified);
    assert!(!result.block);
}

#[test]
fn test_validation_interceptor_invalid_version() {
    let mut interceptor = ValidationInterceptor::new(true);
    let context = MessageContext::new(request("1.0", "tools/list", Some(obj(vec![]))), MessageDirection::Outgoing);
    let result = interceptor.intercept(context);
    assert!(result.block);
    assert_eq!(result.reasoning.as_deref(), Some("Protocol validation failed: Invalid JSON-RPC version: 1.0"));
}

#[test]
fn test_validation_interceptor_lenient_mode() {
    let mut interceptor = ValidationInterceptor::new(false);
    let context = MessageContext::new(request("1.0", "tools/list", Some(obj(vec![]))), MessageDirection::Outgoing);
    let result = interceptor.intercept(context);
    assert!(!result.block);
}

#[test]
fn test_validation_interceptor_response_both_result_and_error() {
    let mut interceptor = ValidationInterceptor::new(true);
    let response = JsonRpcResponse {
        jsonrpc: "2.0".to_string(),
        id: RequestId::from(1i64),
        result: Some(obj(vec![("status", JsonValue::string("ok"))])),
        error: Some(JsonRpcError { code: -1, message: "error".to_string(), data: None }),
    };
    let context = MessageContext::new(JsonRpcMessage::Response(response), MessageDirection::Incoming);
    let result = interceptor.intercept(context);
    assert!(result.block);
    assert_eq!(interceptor.stats.total_blocked, 1);
}

#[test]
fn test_validation_interceptor_notification() {
    let mut interceptor = ValidationInterceptor::new(true);
    let notification = JsonRpcNotification {
        jsonrpc: "2.0".to_string(),
        method: "notifications/message".to_string(),
        params: Some(obj(vec![("level", JsonValue::string("info")), ("message", JsonValue::string("test"))])),
    };
    let context = MessageContext::new(JsonRpcMessage::Notification(notification), MessageDirection::Incoming);
    let result = interceptor.intercept(context);
    assert!(!result.block);
    assert!(!result.modified);
}

#[test]
fn validation_messages_for_each_problem() {
    let empty = request("2.0", "", None);
    assert_eq!(ValidationInterceptor::validate_message(&empty), Err("Request method cannot be empty".to_string()));
    let neither = JsonRpcMessage::Response(JsonRpcResponse { jsonrpc: "2.0".to_string(), id: RequestId::Null, result: None, error: None });
    assert_eq!(ValidationInterceptor::validate_message(&neither), Err("Response must have either result or error".to_string()));
    let n = JsonRpcMessage::Notification(JsonRpcNotification { jsonrpc: "2.0".to_string(), method: String::new(), params: None });
    assert_eq!(ValidationInterceptor::validate_message(&n), Err("Notification method cannot be empty".to_string()));
}

#[test]
fn test_rate_limiter_allows_under_limit() {
    let mut limiter = RateLimiter::new(5, 1);
    for _ in 0..5 {
        assert!(limiter.check_and_record("test/method", 0));
    }
    assert!(!limiter.check_and_record("test/method", 0));
}

#[test]
fn test_rate_limiter_sliding_window() {
    let mut limiter = RateLimiter::new(2, 1);
    assert!(limiter.check_and_record("test/method", 0));
    assert!(limiter.check_and_record("test/method", 0));
    assert!(!limiter.check_and_record("test/method", 0));
    // 1.1 seconds later the window has slid past the first requests
    assert!(limiter.check_and_record("test/method", 1_100_000_000));
}

#[test]
fn rate_window_excludes_its_left_edge() {
    let mut limiter = RateLimiter::new(1, 1);
    assert!(limiter.check_and_record("m", 0));
    assert!(!limiter.check_and_record("m", SEC - 1));
    assert_eq!(limiter.get_current_rate("m", SEC - 1), 1);
    assert_eq!(limiter.get_current_rate("m", SEC), 0);
    assert!(limiter.check_and_record("m", SEC));
}

#[test]
fn test_rate_limiter_per_method() {
    let mut limiter = RateLimiter::new(2, 1);
    assert!(limiter.check_and_record("method1", 0));
    assert!(limiter.check_and_record("method1", 0));
    assert!(!limiter.check_and_record("method1", 0));
    assert!(limiter.check_and_record("method2", 0));
    assert!(limiter.check_and_record("method2", 0));
    assert!(!limiter.check_and_record("method2", 0));
}

#[test]
fn test_rate_limit_interceptor() {
    let mut interceptor = RateLimitInterceptor::new(3, 1);
    for i in 0..3i64 {
        let req = JsonRpcRequest { jsonrpc: "2.0".to_string(), id: RequestId::from(i), method: "tools/list".to_string(), params: None };
        let context = MessageContext::new(JsonRpcMessage::Request(req), MessageDirection::Outgoing);
        let result = interceptor.intercept(context, 0);
        assert!(!result.block, "Request {} should not be blocked", i);
    }
    let req = JsonRpcRequest { jsonrpc: "2.0".to_string(), id: RequestId::from(4i64), method: "tools/list".to_string(), params: None };
    let context = MessageContext::new(JsonRpcMessage::Request(req), MessageDirection::Outgoing);
    let result = interceptor.intercept(context, 0);
    assert!(result.block, "4th request should be blocked");
    assert_eq!(result.reasoning.as_deref(), Some("Rate limit exceeded for method 'tools/list' (3/window)"));
    assert_eq!(interceptor.stats.total_intercepted, 4);
    assert_eq!(interceptor.stats.total_blocked, 1);
}

#[test]
fn test_rate_limit_presets() {
    let permissive = RateLimitInterceptor::permissive();
    let moderate = RateLimitInterceptor::moderate();
    let strict = RateLimitInterceptor::strict();
    assert_eq!(permissive.name(), "RateLimitInterceptor");
    assert_eq!(moderate.name(), "RateLimitInterceptor");
    assert_eq!(strict.name(), "RateLimitInterceptor");
    assert_eq!(permissive.limiter.max_requests, 100);
    assert_eq!(moderate.limiter.max_requests, 30);
    assert_eq!(strict.limiter.max_requests, 10);
}

#[test]
fn rate_limit_only_outgoing_with_method() {
    let interceptor = RateLimitInterceptor::strict();
    let out = MessageContext::new(request("2.0", "tools/list", None), MessageDirection::Outgoing);
    let inc = MessageContext::new(request("2.0", "tools/list", None), MessageDirection::Incoming);
    assert!(interceptor.should_intercept(&out));
    assert!(!interceptor.should_intercept(&inc));
}

#[test]
fn test_transform_set_field() {
    let mut interceptor = TransformInterceptor::new();
    interceptor.add_rule(TransformRule::new("add-verbose", "tools/call", "arguments.verbose", TransformOperation::SetField { value: JsonValue::Bool(true) }));
    let params = obj(vec![("name", JsonValue::string("test_tool")), ("arguments", obj(vec![]))]);
    let context = MessageContext::new(request("2.0", "tools/call", Some(params)), MessageDirection::Outgoing);
    let result = interceptor.intercept(context);
    assert!(result.modified);
    let p = params_of(&result.message);
    assert!(matches!(p.get("arguments").and_then(|a| a.get("verbose")), Some(JsonValue::Bool(true))));
    assert_eq!(result.reasoning.as_deref(), Some("Applied rules: add-verbose"));
}

#[test]
fn test_transform_add_if_missing() {
    let mut interceptor = TransformInterceptor::new();
    interceptor.add_rule(TransformRule::new("default-timeout", "*", "timeout", TransformOperation::AddIfMissing { value: JsonValue::Number(JsonNumber::Int(30000)) }));
    let context = MessageContext::new(request("2.0", "tools/call", Some(obj(vec![("name", JsonValue::string("test"))]))), MessageDirection::Outgoing);
    let result = interceptor.intercept(context);
    assert!(result.modified);
    assert!(matches!(params_of(&result.message).get("timeout"), Some(JsonValue::Number(JsonNumber::Int(30000)))));
}

#[test]
fn test_transform_remove_field() {
    let mut interceptor = TransformInterceptor::new();
    interceptor.add_rule(TransformRule::new("remove-debug", "*", "debug", TransformOperation::Remove));
    let context = MessageContext::new(
        request("2.0", "test/method", Some(obj(vec![("debug", JsonValue::Bool(true)), ("data", JsonValue::string("value"))]))),
        MessageDirection::Outgoing,
    );
    let result = interceptor.intercept(context);
    assert!(result.modified);
    let p = params_of(&result.message);
    assert!(p.get("debug").is_none());
    assert!(matches!(p.get("data"), Some(JsonValue::String(s)) if s == "value"));
}

#[test]
fn test_transform_function_uppercase() {
    let mut interceptor = TransformInterceptor::new();
    interceptor.add_rule(TransformRule::new("uppercase-name", "*", "name", TransformOperation::Function { name: "uppercase".to_string(), args: vec![] }));
    let context = MessageContext::new(request("2.0", "test/method", Some(obj(vec![("name", JsonValue::string("hello"))]))), MessageDirection::Outgoing);
    let result = interceptor.intercept(context);
    assert!(result.modified);
    assert!(matches!(params_of(&result.message).get("name"), Some(JsonValue::String(s)) if s == "HELLO"));
}

#[test]
fn test_transform_no_match() {
    let mut interceptor = TransformInterceptor::new();
    interceptor.add_rule(TransformRule::new("specific-rule", "tools/call", "test", TransformOperation::SetField { value: JsonValue::Bool(true) }));
    let context = MessageContext::new(request("2.0", "other/method", Some(obj(vec![]))), MessageDirection::Outgoing);
    assert!(!interceptor.should_intercept(&context));
    let result = interceptor.intercept(context);
    assert!(!result.modified);
}

#[test]
fn transform_rename_increment_and_failures() {
    let mut interceptor = TransformInterceptor::new();
    interceptor.add_rule(TransformRule::new("rename", "*", "a.old", TransformOperation::Rename { new_name: "new".to_string() }));
    interceptor.add_rule(TransformRule::new("bump", "*", "count", TransformOperation::Function { name: "increment".to_string(), args: vec![] }));
    interceptor.add_rule(TransformRule::new("bad", "*", "count", TransformOperation::Function { name: "explode".to_string(), args: vec![] }));
    interceptor.add_rule(TransformRule::new("deep", "*", "missing.x", TransformOperation::SetField { value: JsonValue::Null }));
    let params = obj(vec![("a", obj(vec![("old", JsonValue::string("v"))])), ("count", JsonValue::Number(JsonNumber::Int(41)))]);
    let context = MessageContext::new(request("2.0", "m", Some(params)), MessageDirection::Outgoing);
    let result = interceptor.intercept(context);
    assert_eq!(result.reasoning.as_deref(), Some("Applied rules: rename, bump"));
    let p = params_of(&result.message);
    let a = p.get("a").unwrap();
    assert!(a.get("old").is_none());
    assert!(matches!(a.get("new"), Some(JsonValue::String(s)) if s == "v"));
    assert!(matches!(p.get("count"), Some(JsonValue::Number(JsonNumber::Int(42)))));
    assert_eq!(interceptor.list_rules(), vec!["rename", "bump", "bad", "deep"]);
    assert!(interceptor.remove_rule("bad"));
    assert!(!interceptor.remove_rule("bad"));
    assert_eq!(interceptor.list_rules(), vec!["rename", "bump", "deep"]);
}

#[test]
fn dotted_paths_split_like_str_split() {
    assert_eq!(split_path("a.b.c"), vec!["a", "b", "c"]);
    assert_eq!(split_path(""), vec![""]);
    assert_eq!(split_path("a..b."), vec!["a", "", "b", ""]);
}

#[test]
fn test_logging_interceptor_passes_through() {
    let mut interceptor = LoggingInterceptor::new(true);
    let context = MessageContext::new(request("2.0", "tools/list", None), MessageDirection::Outgoing);
    let result = interceptor.intercept(context);
    assert!(!result.modified);
    assert!(!result.block);
    assert_eq!(interceptor.stats.total_intercepted, 1);
    assert_eq!(interceptor.priority(), 10);
}

#[test]
fn chain_orders_by_priority_then_registration() {
    let mut chain: InterceptorChain<u32> = InterceptorChain::new();
    chain.add("transform".to_string(), 40, 4);
    chain.add("logging".to_string(), 10, 1);
    chain.add("validation".to_string(), 20, 2);
    chain.add("rate".to_string(), 30, 3);
    chain.add("logging-2".to_string(), 10, 5);
    assert_eq!(chain.names(), vec!["logging", "logging-2", "validation", "rate", "transform"]);
    assert_eq!(*chain.get(1), 5);
    assert!(chain.remove("validation"));
    assert!(!chain.remove("validation"));
    assert_eq!(chain.names(), vec!["logging", "logging-2", "rate", "transform"]);
}

#[test]
fn chain_run_combines_results() {
    let original = request("2.0", "tools/call", None);
    let run = ChainRun::start(original);
    let step1 = run.absorb(Ok(InterceptionResult::modified(request("2.0", "tools/call", Some(JsonValue::Null)), "first".to_string())));
    let run = match step1 { ChainStep::Continue(r) => r, ChainStep::Stop(_) => panic!("not blocked") };
    let step2 = run.absorb(Err(McpError::internal("ignored")));
    let run = match step2 { ChainStep::Continue(r) => r, ChainStep::Stop(_) => panic!("not blocked") };
    let step3 = run.absorb(Ok(InterceptionResult::modified(request("2.0", "tools/call", None), "second".to_string())));
    let run = match step3 { ChainStep::Continue(r) => r, ChainStep::Stop(_) => panic!("not blocked") };
    let done = run.finish();
    assert!(done.modified);
    assert_eq!(done.reasoning.as_deref(), Some("first; second"));
    let blocked = ChainRun::start(request("2.0", "x", None)).absorb(Ok(InterceptionResult::blocked("no".to_string())));
    assert!(matches!(blocked, ChainStep::Stop(r) if r.block));
}

#[test]
fn manager_stats_count_by_method() {
    let mut stats = ManagerStats::new();
    stats.record_finished(false, Some("tools/list"));
    stats.record_finished(true, Some("tools/list"));
    stats.record_blocked();
    stats.record_finished(false, None);
    assert_eq!(stats.total_messages_processed, 4);
    assert_eq!(stats.total_modifications_made, 1);
    assert_eq!(stats.total_messages_blocked, 1);
    assert_eq!(stats.count_for("tools/list"), 2);
    assert_eq!(stats.count_for("other"), 0);
}

fn numbered_request(i: i64, method: &str) -> JsonRpcMessage {
    JsonRpcMessage::Request(JsonRpcRequest {
        jsonrpc: "2.0".to_string(),
        id: RequestId::from(i),
        method: method.to_string(),
        params: None,
    })
}

#[test]
fn test_interceptor_manager_with_logging() {
    let mut manager = InterceptorManager::new();
    manager.add_interceptor(AnyInterceptor::Logging(LoggingInterceptor::new(false)));

    let interceptors = manager.list_interceptors();
    assert_eq!(interceptors.len(), 1);
    assert_eq!(interceptors[0], "LoggingInterceptor");

    let stats = manager.get_stats();
    assert_eq!(stats.total_messages_processed, 0);
}

#[test]
fn test_interceptor_chain_priority_ordering() {
    let mut manager = InterceptorManager::new();
    manager.add_interceptor(AnyInterceptor::RateLimit(RateLimitInterceptor::permissive()));
    manager.add_interceptor(AnyInterceptor::Logging(LoggingInterceptor::new(false)));
    manager.add_interceptor(AnyInterceptor::Validation(ValidationInterceptor::new(false)));

    let interceptors = manager.list_interceptors();
    assert_eq!(interceptors.len(), 3);
    assert_eq!(interceptors, vec!["LoggingInterceptor", "ValidationInterceptor", "RateLimitInterceptor"]);
}

#[test]
fn test_validation_interceptor_blocks_invalid_messages() {
    let mut manager = InterceptorManager::new();
    manager.add_interceptor(AnyInterceptor::Validation(ValidationInterceptor::new(true)));

    let bad_request = JsonRpcRequest {
        jsonrpc: "1.0".to_string(),
        id: RequestId::from(1i64),
        method: "test/method".to_string(),
        params: Some(obj(vec![])),
    };
    let result = manager.process_message(JsonRpcMessage::Request(bad_request), MessageDirection::Outgoing, 0);

    assert!(result.block);
    assert!(result.reasoning.is_some());
}

#[test]
fn test_rate_limiter_blocks_excess_requests() {
    let mut manager = InterceptorManager::new();
    manager.add_interceptor(AnyInterceptor::RateLimit(RateLimitInterceptor::new(2, 1)));

    for i in 0..2 {
        let result = manager.process_message(numbered_request(i, "tools/list"), MessageDirection::Outgoing, 0);
        assert!(!result.block, "Request {} should not be blocked", i);
    }

    let result = manager.process_message(numbered_request(3, "tools/list"), MessageDirection::Outgoing, 0);
    assert!(result.block, "3rd request should be blocked");

    let stats = manager.get_stats();
    assert_eq!(stats.total_messages_processed, 3);
    assert_eq!(stats.total_messages_blocked, 1);
}

#[test]
fn test_interceptor_manager_stats_tracking() {
    let mut manager = InterceptorManager::new();
    manager.add_interceptor(AnyInterceptor::Logging(LoggingInterceptor::new(false)));

    for i in 0..5 {
        manager.process_message(numbered_request(i, "tools/list"), MessageDirection::Outgoing, 0);
    }

    let stats = manager.get_stats();
    assert_eq!(stats.total_messages_processed, 5);
    assert_eq!(stats.total_modifications_made, 0);
    assert_eq!(stats.total_messages_blocked, 0);
    assert_eq!(stats.count_for("tools/list"), 5);
}

#[test]
fn manager_runs_modifications_in_priority_order_and_stops_at_a_block() {
    let mut manager = InterceptorManager::new();
    let mut transform = TransformInterceptor::new();
    transform.add_rule(TransformRule::new("upper", "*", "name", TransformOperation::Function { name: "uppercase".to_string(), args: vec![] }));
    manager.add_interceptor(AnyInterceptor::Transform(transform));
    manager.add_interceptor(AnyInterceptor::Logging(LoggingInterceptor::new(false)));

    let message = JsonRpcMessage::Request(JsonRpcRequest {
        jsonrpc: "2.0".to_string(),
        id: RequestId::from(1i64),
        method: "test/method".to_string(),
        params: Some(obj(vec![("name", JsonValue::String("hello".to_string()))])),
    });
    let result = manager.process_message(message, MessageDirection::Outgoing, 0);
    assert!(result.modified);
    assert!(!result.block);
    assert_eq!(result.reasoning.as_deref(), Some("Applied rules: upper"));
    match &result.message {
        JsonRpcMessage::Request(r) => {
            assert!(matches!(r.params.as_ref().and_then(|p| p.get("name")), Some(JsonValue::String(s)) if s == "HELLO"))
        }
        other => panic!("unexpected {:?}", other),
    }
    assert_eq!(manager.get_stats().total_modifications_made, 1);
}

#[test]
fn removing_an_interceptor_keeps_the_others_in_order() {
    let mut manager = InterceptorManager::new();
    manager.add_interceptor(AnyInterceptor::RateLimit(RateLimitInterceptor::new(1, 60)));
    manager.add_interceptor(AnyInterceptor::Logging(LoggingInterceptor::new(false)));
    manager.add_interceptor(AnyInterceptor::Validation(ValidationInterceptor::new(true)));
    assert!(manager.remove_interceptor("LoggingInterceptor"));
    assert!(!manager.remove_interceptor("LoggingInterceptor"));
    assert_eq!(manager.list_interceptors(), vec!["ValidationInterceptor", "RateLimitInterceptor"]);
    let message = numbered_request(1, "tools/list");
    assert!(manager.can_process(&message));
    // The rate limiter that stayed still limits: one request a minute.
    assert!(!manager.process_message(message, MessageDirection::Outgoing, 0).block);
    assert!(manager.process_message(numbered_request(2, "tools/list"), MessageDirection::Outgoing, 0).block);
}
