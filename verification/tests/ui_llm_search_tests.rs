use mcp_probe::common::{LogEntry, LogLevel, ProxyInfo, ProxyStats, ProxyStatus, TransportType, AppliedTransformation, ClientConnectionType, ServerStatus};
use mcp_probe::llm::{LiteRTBackend, MessageStream, RoutingMode};
use mcp_probe::search::{SearchCategory, SearchEngine};
use mcp_probe::tui::{default_actions, App, ActivityItem, focus_index, map_key, ActivityStatus, ClientStatus, Event, FocusArea, Key, KeyInput, NavigationContext, QueryInput, ServerStatus as UiServerStatus, UiState};
use std::time::Duration;

#[test]
fn test_llm_interceptor_creation() {
    // Test would require actual predictor setup
    assert!(true);
}

#[test]
fn test_backend_types() {
    let cpu = LiteRTBackend::Cpu;
    let gpu = LiteRTBackend::Gpu;
    assert!(matches!(cpu, LiteRTBackend::Cpu));
    assert!(matches!(gpu, LiteRTBackend::Gpu));
    assert_eq!(cpu.as_str(), "cpu");
    assert_eq!(gpu.as_str(), "gpu");
}

#[test]
fn test_routing_mode_display() {
    assert_eq!(RoutingMode::Bypass.display_name(), "Bypass");
    assert_eq!(RoutingMode::Semantic.display_name(), "Semantic");
    assert_eq!(RoutingMode::Hybrid.display_name(), "Hybrid");
}

#[test]
fn test_routing_mode_icons() {
    assert_eq!(RoutingMode::Bypass.icon(), "🔓");
    assert_eq!(RoutingMode::Semantic.icon(), "🧠");
    assert_eq!(RoutingMode::Hybrid.icon(), "⚡");
}

#[test]
fn routing_mode_default_and_descriptions() {
    assert_eq!(RoutingMode::default(), RoutingMode::Hybrid);
    assert_eq!(RoutingMode::Bypass.description(), "Direct pass-through without LLM processing");
}

#[test]
fn message_stream_yields_characters_then_ends() {
    let mut s = MessageStream::new("ab".to_string());
    assert_eq!(s.next_item(), Some("a".to_string()));
    assert_eq!(s.next_item(), Some("b".to_string()));
    assert_eq!(s.next_item(), None);
    let mut wide = MessageStream::new("é".to_string());
    assert_eq!(wide.next_item(), Some("é".to_string()));
    assert_eq!(wide.next_item(), Some(" ".to_string()));
    assert_eq!(wide.next_item(), None);
}

#[test]
fn test_tokenize() {
    let engine = SearchEngine::new();
    let tokens = engine.tokenize("github.repos/create-commit-status");

    assert!(tokens.contains(&"github".to_string()));
    assert!(tokens.contains(&"repos".to_string()));
    assert!(tokens.contains(&"create".to_string()));
    assert!(tokens.contains(&"commit".to_string()));
    assert!(tokens.contains(&"status".to_string()));
}

#[test]
fn tokenize_drops_single_byte_tokens() {
    let engine = SearchEngine::new();
    assert_eq!(engine.tokenize("a bc/d_ef"), vec!["bc".to_string(), "ef".to_string()]);
}

#[test]
fn keywords_are_sorted_unique_and_skip_stopwords() {
    let engine = SearchEngine::new();
    let kws = engine.extract_keywords("Files-Server files", "The quick (listing) tool for files");
    assert_eq!(kws, vec!["files".to_string(), "listing".to_string(), "quick".to_string(), "server".to_string(), "tool".to_string()]);
    assert!(engine.is_stopword("THE"));
    assert!(!engine.is_stopword("tool"));
}

fn proxy(name: &str, t: TransportType) -> ProxyInfo {
    ProxyInfo {
        id: "p1".to_string(),
        name: name.to_string(),
        listen_address: "127.0.0.1:0".to_string(),
        target_command: vec![],
        status: ProxyStatus::Running,
        stats: ProxyStats { total_requests: 0, successful_requests: 0, failed_requests: 0, active_connections: 0, uptime: Duration::from_secs(0), bytes_transferred: 0 },
        transport_type: t,
    }
}

#[test]
fn indexing_proxies_and_logs() {
    let mut engine = SearchEngine::new();
    engine.index_proxies(&[proxy("github-tools", TransportType::Stdio), proxy("weather", TransportType::HttpSse)]);
    let log = LogEntry::new("l1".to_string(), 0, LogLevel::Warning, "github rate limited".to_string(), "p1".to_string());
    engine.index_logs(&[log]);
    assert_eq!(engine.total_items(), 3);
    let first = engine.get_item(0).unwrap();
    assert_eq!(first.name, "github-tools");
    assert_eq!(first.description, "Stdio transport");
    assert_eq!(first.category, SearchCategory::Proxy);
    assert_eq!(engine.get_item(2).unwrap().description, "Warning");
    assert!(engine.get_item(3).is_none());
    assert_eq!(engine.name_index.get("github"), vec![0, 2]);
    assert_eq!(engine.keyword_index.get("httpsse"), vec![1]);
    assert_eq!(engine.keyword_index.get("warning"), vec![2]);
}

#[test]
fn common_defaults() {
    assert!(matches!(ClientConnectionType::default(), ClientConnectionType::Custom(ref s) if s == "unknown"));
    assert!(matches!(ServerStatus::default(), ServerStatus::Starting));
    let t = AppliedTransformation::default();
    assert!(t.success);
    assert_eq!(t.duration_ms, 0);
    assert_eq!(TransportType::HttpStream.debug_name(), "HttpStream");
}

#[test]
fn status_labels() {
    assert_eq!(ClientStatus::Connected.label(), "Connected");
    assert_eq!(UiServerStatus::Degraded.label(), "Degraded");
    assert_eq!(ActivityStatus::Failed.label(), "Failed");
    assert_eq!(QueryInput::new().placeholder, "Enter a query to send to MCP…");
}

#[test]
fn default_quick_actions() {
    let actions = default_actions();
    assert_eq!(actions.len(), 3);
    assert_eq!(actions[0].command, "list_tools");
    assert_eq!(actions[1].command, "check_health");
    assert_eq!(actions[2].command, "open_session");
}

#[test]
fn focus_cycles_through_all_areas() {
    let mut ui = UiState::new();
    assert_eq!(focus_index(FocusArea::QueryInput), 4);
    for _ in 0..5 {
        ui.focus_next();
    }
    assert_eq!(ui.focus, FocusArea::Clients);
    ui.focus_prev();
    assert_eq!(ui.focus, FocusArea::QueryInput);
}

#[test]
fn navigation_moves_selection_and_focus() {
    let mut ui = UiState::new();
    let ctx = NavigationContext { client_len: 3, server_len: 0, activity_len: 2 };
    assert!(ui.handle_navigation(ctx, Event::Up));
    assert_eq!(ui.clients, Some(2));
    assert!(ui.handle_navigation(ctx, Event::Down));
    assert_eq!(ui.clients, Some(0));
    assert!(ui.handle_navigation(ctx, Event::Right));
    assert_eq!(ui.focus, FocusArea::Servers);
    assert!(ui.handle_navigation(ctx, Event::Down));
    assert_eq!(ui.servers, None);
    assert!(ui.handle_navigation(ctx, Event::Right));
    assert!(ui.handle_navigation(ctx, Event::Down));
    assert!(ui.handle_navigation(ctx, Event::Down));
    assert_eq!(ui.activity, Some(1));
    assert!(ui.handle_navigation(ctx, Event::Left));
    assert_eq!(ui.focus, FocusArea::Clients);
    assert!(!ui.handle_navigation(ctx, Event::Left));
    assert!(!ui.handle_navigation(ctx, Event::Enter));
}

#[test]
fn key_mapping() {
    let press = |key: Key, shift: bool, control: bool| KeyInput { key, shift, control, press: true };
    assert_eq!(map_key(press(Key::Esc, false, false)), Some(Event::Quit));
    assert_eq!(map_key(press(Key::Tab, true, false)), Some(Event::FocusPrev));
    assert_eq!(map_key(press(Key::Tab, false, true)), Some(Event::FocusNext));
    assert_eq!(map_key(press(Key::Char('q'), false, true)), Some(Event::Quit));
    assert_eq!(map_key(press(Key::Char('q'), false, false)), Some(Event::Input('q')));
    assert_eq!(map_key(KeyInput { key: Key::Enter, shift: false, control: false, press: false }), None);
}

#[test]
fn app_handles_typing_queries_and_quick_actions() {
    let mut app = App::new();
    assert!(app.running);
    // Focus starts on the clients list; move to the query input.
    app.handle_event(Event::FocusPrev, 2, 2, 0);
    assert_eq!(app.ui.focus, FocusArea::QueryInput);
    for c in "hi!".chars() {
        app.handle_event(Event::Input(c), 2, 2, 0);
    }
    app.handle_event(Event::Backspace, 2, 2, 0);
    assert_eq!(app.query_input, "hi");
    app.handle_event(Event::Enter, 2, 2, 42);
    assert_eq!(app.query_input, "");
    assert_eq!(app.activities.len(), 1);
    assert_eq!(app.activities[0].action, "Query: hi");
    assert_eq!(app.activities[0].timestamp_ms, 42);
    assert_eq!(app.activities[0].status, ActivityStatus::Processing);
    // Enter on an empty query does nothing.
    app.handle_event(Event::Enter, 2, 2, 43);
    assert_eq!(app.activities.len(), 1);
    // Quick access runs the selected action.
    app.handle_event(Event::FocusPrev, 2, 2, 0);
    assert_eq!(app.ui.focus, FocusArea::QuickAccess);
    app.handle_event(Event::Enter, 2, 2, 50);
    assert_eq!(app.activities[1].action, "list_tools");
    assert_eq!(app.activities[1].status, ActivityStatus::Success);
    app.handle_event(Event::Quit, 2, 2, 60);
    assert!(!app.running);
    for k in 0..101 {
        app.activities.push(ActivityItem {
            timestamp_ms: k,
            client: "c".into(),
            server: "s".into(),
            action: format!("a{}", k),
            status: ActivityStatus::Success,
        });
    }
    app.prune_activities();
    assert_eq!(app.activities.len(), 53);
}
