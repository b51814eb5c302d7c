use mcp_probe::client::{initialization_request, initialize_result, new_request, request_after_interception, response_after_interception};
use mcp_probe::common::{AppliedTransformation, MessageStatus, SessionStatus};
use mcp_probe::context::{
    ContextMessage, ContextSession, ConversationAnalyzer, ConversationContextBuilder, PredictionMetrics, ToolPredictionRecord,
};
use mcp_probe::error::{McpError, ProtocolError};
use mcp_probe::interceptor::InterceptionResult;
use mcp_probe::json::JsonValue;
use mcp_probe::messages::jsonrpc::{JsonRpcMessage, JsonRpcRequest, JsonRpcResponse, RequestId};
use mcp_probe::messages::{Implementation, ProtocolVersion};

fn message(method: &str, status: MessageStatus, elapsed_ms: Option<i64>) -> ContextMessage {
    ContextMessage {
        method: method.to_string(),
        status,
        elapsed_ms,
        parameters: None,
        llm_prediction: None,
        transformations: Vec::new(),
    }
}

#[test]
fn empty_context_says_so() {
    let text = ConversationContextBuilder::new().build();
    assert_eq!(text, "=== Conversation History ===\n(No previous messages)\n\n=== Current Request ===\n");
}

#[test]
fn context_shows_session_and_recent_messages() {
    let session = ContextSession {
        id: "s-1".to_string(),
        request_count: 4,
        status: SessionStatus::Active,
        llm_predictions: Some(PredictionMetrics {
            accuracy_percent: "75.0".to_string(),
            successful_predictions: 3,
            total_predictions: 4,
            optimization_score: "0.50".to_string(),
        }),
    };
    let mut third = message("tools/call", MessageStatus::Failed("boom".to_string()), None);
    third.parameters = Some("{}".to_string());
    third.llm_prediction = Some(ToolPredictionRecord {
        predicted_tool: "search".to_string(),
        confidence: "0.90".to_string(),
        actual_tool: Some("search".to_string()),
        was_accurate: true,
    });
    let mut t = AppliedTransformation::default();
    t.rule_name = "strip".to_string();
    third.transformations = vec![t];
    let messages = vec![
        message("initialize", MessageStatus::Completed, Some(5)),
        message("tools/list", MessageStatus::Completed, Some(12)),
        third,
    ];
    let text = ConversationContextBuilder::new()
        .with_session(session)
        .with_messages(messages)
        .max_messages(2)
        .build();
    let expected = "=== Session Context ===\nSession ID: s-1\nRequest Count: 4\nStatus: Active\n\
Prediction Accuracy: 75.0% (3/4)\nOptimization Score: 0.50\n\n\
=== Conversation History ===\n\
\n[Message 1]\nMethod: tools/list\nStatus: Completed\nDuration: 12ms\n\
\n[Message 2]\nMethod: tools/call\nStatus: Failed(\"boom\")\nDuration: 0ms\n\
Predicted Tool: search (confidence: 0.90)\nActual Tool: search ✓\nTransformations Applied: strip\n\
\n=== Current Request ===\n";
    assert_eq!(text, expected);
}

#[test]
fn conversation_patterns_and_hints() {
    let messages = vec![
        message("a", MessageStatus::Completed, Some(10_000)),
        message("b", MessageStatus::Failed("x".to_string()), Some(-5)),
        message("a", MessageStatus::Pending, None),
        message("b", MessageStatus::Completed, Some(2_000)),
        message("a", MessageStatus::InFlight, None),
    ];
    let p = ConversationAnalyzer::analyze_patterns(&messages);
    assert_eq!(p.method_frequency, vec![("a".to_string(), 3), ("b".to_string(), 2)]);
    assert_eq!(p.most_common_method.as_deref(), Some("a"));
    assert_eq!(p.completed_messages, 2);
    assert_eq!(p.total_messages, 5);
    assert_eq!(p.average_duration_ms, 6_000);
    assert_eq!(
        p.sequence_patterns,
        vec![("a -> b".to_string(), 2), ("b -> a".to_string(), 2)]
    );
    let hints = ConversationAnalyzer::get_prediction_hints(&p);
    assert_eq!(
        hints,
        vec![
            "Most frequently used method: a".to_string(),
            "Low success rate - consider error handling".to_string(),
            "High average latency detected".to_string(),
            "Common sequence: a -> b (observed 2 times)".to_string(),
        ]
    );
    let none = ConversationAnalyzer::analyze_patterns(&Vec::new());
    assert_eq!(
        ConversationAnalyzer::get_prediction_hints(&none),
        vec!["Low success rate - consider error handling".to_string()]
    );
}

#[test]
fn client_session_setup() {
    let request = initialization_request(Implementation::new("mcp-probe", "0.1.0"));
    assert!(matches!(request.protocol_version, ProtocolVersion::V2025_03_26));
    assert_eq!(request.capabilities.standard.tools.as_ref().unwrap().list_changed, Some(true));
    assert!(matches!(
        initialize_result(None),
        Err(McpError::Protocol(ProtocolError::InitializationFailed { ref reason })) if reason == "Missing result in initialize response"
    ));
    let req = new_request(7, "tools/list", JsonValue::Null);
    assert!(matches!(req.id, RequestId::String(ref s) if s == "req_7"));

    let blocked = InterceptionResult::blocked("no".to_string());
    assert!(matches!(
        request_after_interception(req, blocked),
        Err(McpError::Protocol(ProtocolError::RequestBlocked { ref reason })) if reason == "no"
    ));
    let original = JsonRpcResponse { jsonrpc: "2.0".to_string(), id: RequestId::from(1i64), result: None, error: None };
    let other = JsonRpcRequest { jsonrpc: "2.0".to_string(), id: RequestId::from(2i64), method: "m".to_string(), params: None };
    let passed = InterceptionResult::pass_through(JsonRpcMessage::Request(other));
    let kept = response_after_interception(original, passed).unwrap();
    assert!(matches!(kept.id, RequestId::Number(1)));
}
