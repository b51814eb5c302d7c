use mcp_probe::common::TransportType;
use mcp_probe::proxy::{
    TransportConfig, blocked_line_error, error_log_text, message_text, relay_line, request_log_text, response_log_text,
};

#[test]
fn cli_arguments_name_the_server() {
    let stdio = TransportConfig::from_cli_args("stdio", Some("python server.py".to_string()), None, true, None).unwrap();
    assert_eq!(stdio.transport_type(), TransportType::Stdio);
    assert_eq!(stdio.display_target(), "python server.py");
    let sse = TransportConfig::from_cli_args("http-sse", None, Some("http://h/sse".to_string()), true, Some("k".to_string())).unwrap();
    assert!(matches!(sse, TransportConfig::HttpSse { ref url, api_key: Some(ref k) } if url == "http://h/sse" && k == "k"));
    assert_eq!(
        TransportConfig::from_cli_args("stdio", None, None, true, None).unwrap_err(),
        "--command is required for stdio transport"
    );
    assert_eq!(
        TransportConfig::from_cli_args("http-stream", None, None, true, None).unwrap_err(),
        "--url is required for http-stream transport"
    );
    assert_eq!(
        TransportConfig::from_cli_args("carrier-pigeon", None, None, true, None).unwrap_err(),
        "Invalid transport type: carrier-pigeon. Must be one of: stdio, http-sse, http-stream"
    );
}

#[test]
fn relayed_lines_and_logs() {
    assert_eq!(request_log_text("  {\"id\":1}\n", false), "→ {\"id\":1}");
    assert_eq!(request_log_text("x", true), "→ [MODIFIED] x");
    assert_eq!(response_log_text("y\n", true), "← [MODIFIED] y");
    assert_eq!(error_log_text(" oops \n"), "stderr: oops");
    assert_eq!(blocked_line_error(Some("rate")), "Message blocked: rate");
    assert_eq!(blocked_line_error(None), "Message blocked: ");
    assert_eq!(relay_line("{}"), "{}\n");
    assert_eq!(message_text("\t{}\r\n"), "{}");
}

#[test]
fn proxy_stats_count_forwarded_lines_and_failures() {
    let mut stats = mcp_probe::common::ProxyStats::new();
    assert_eq!(stats.total_requests, 0);
    assert_eq!(stats.uptime, std::time::Duration::from_secs(0));
    stats.record_request("{\"id\":1}");
    stats.record_response("{\"id\":1,\"result\":{}}");
    stats.record_failure();
    stats.record_exit(true);
    stats.record_exit(false);
    assert_eq!(stats.total_requests, 1);
    assert_eq!(stats.successful_requests, 1);
    assert_eq!(stats.failed_requests, 2);
    assert_eq!(stats.bytes_transferred, 8 + 20);
    assert!(stats.can_count(10));
}
