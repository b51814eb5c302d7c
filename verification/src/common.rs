//! Types shared by the proxy, the monitor and the gateway: statuses,
//! transports, endpoints, proxies and their log entries.
use vstd::prelude::*;
use crate::json::JsonValue;
use crate::text::{owned, utf8_len};
use crate::time::{duration_from_secs, duration_of_secs};
use std::time::Duration;

verus! {

/// The severity of a proxy log entry.
#[derive(Debug, Clone, Copy, PartialEq, Eq, Structural)]
pub enum LogLevel {
    Debug,
    Info,
    Warning,
    Error,
    Request,
    Response,
}

impl LogLevel {
    /// The variant's name, as `{:?}` prints it.
    pub fn debug_name(&self) -> (r: &'static str)
        ensures
            r@ == match *self {
                LogLevel::Debug => "Debug"@,
                LogLevel::Info => "Info"@,
                LogLevel::Warning => "Warning"@,
                LogLevel::Error => "Error"@,
                LogLevel::Request => "Request"@,
                LogLevel::Response => "Response"@,
            },
    {
        match self {
            LogLevel::Debug => "Debug",
            LogLevel::Info => "Info",
            LogLevel::Warning => "Warning",
            LogLevel::Error => "Error",
            LogLevel::Request => "Request",
            LogLevel::Response => "Response",
        }
    }
}

/// A line of a proxy's log.
#[derive(Debug)]
pub struct LogEntry {
    /// Identifier of the entry
    pub id: String,
    /// When it was logged, in milliseconds since the Unix epoch
    pub timestamp_ms: i64,
    pub level: LogLevel,
    pub message: String,
    /// The proxy that logged it
    pub proxy_id: String,
    pub request_id: Option<String>,
    pub metadata: Option<JsonValue>,
}

impl LogEntry {
    /// An entry with the given identity, time, level and message, and no
    /// request or metadata.
    pub fn new(id: String, timestamp_ms: i64, level: LogLevel, message: String, proxy_id: String) -> (r: Self)
        ensures
            r.id == id,
            r.timestamp_ms == timestamp_ms,
            r.level == level,
            r.message == message,
            r.proxy_id == proxy_id,
            r.request_id is None,
            r.metadata is None,
    {
        LogEntry { id, timestamp_ms, level, message, proxy_id, request_id: None, metadata: None }
    }

    /// The entry tied to a request.
    pub fn with_request_id(self, request_id: String) -> (r: Self)
        ensures
            r == (LogEntry { request_id: Some(request_id), ..self }),
    {
        let mut e = self;
        e.request_id = Some(request_id);
        e
    }

    /// The entry with metadata attached.
    pub fn with_metadata(self, metadata: JsonValue) -> (r: Self)
        ensures
            r == (LogEntry { metadata: Some(metadata), ..self }),
    {
        let mut e = self;
        e.metadata = Some(metadata);
        e
    }
}

/// Traffic counters of a proxy.
#[derive(Debug, Clone, Copy)]
pub struct ProxyStats {
    pub total_requests: u64,
    pub successful_requests: u64,
    pub failed_requests: u64,
    pub active_connections: u32,
    pub uptime: Duration,
    pub bytes_transferred: u64,
}

impl ProxyStats {
    /// No traffic yet, no connection, no uptime.
    pub fn new() -> (r: Self)
        ensures
            r.total_requests == 0,
            r.successful_requests == 0,
            r.failed_requests == 0,
            r.active_connections == 0,
            r.uptime == duration_of_secs(0),
            r.bytes_transferred == 0,
    {
        ProxyStats {
            total_requests: 0,
            successful_requests: 0,
            failed_requests: 0,
            active_connections: 0,
            uptime: duration_from_secs(0),
            bytes_transferred: 0,
        }
    }

    /// Whether one more forwarded line of `bytes` bytes can be counted.
    pub fn can_count(&self, bytes: usize) -> (r: bool)
        ensures
            r == (self.total_requests < u64::MAX && self.successful_requests < u64::MAX
                && self.bytes_transferred + bytes <= u64::MAX),
    {
        self.total_requests < u64::MAX && self.successful_requests < u64::MAX
            && bytes as u64 <= u64::MAX - self.bytes_transferred
    }

    /// Counts a request line forwarded to the server: one more request, and
    /// its bytes.
    pub fn record_request(&mut self, line: &str)
        requires
            old(self).total_requests < u64::MAX,
            old(self).bytes_transferred + utf8_len(line@) <= u64::MAX,
        ensures
            *final(self) == (ProxyStats {
                total_requests: (old(self).total_requests + 1) as u64,
                bytes_transferred: (old(self).bytes_transferred + utf8_len(line@)) as u64,
                ..*old(self)
            }),
    {
        let n = crate::text::byte_len(line);
        self.total_requests = self.total_requests + 1;
        self.bytes_transferred = self.bytes_transferred + n as u64;
    }

    /// Counts a response line forwarded to the client: one more success, and
    /// its bytes.
    pub fn record_response(&mut self, line: &str)
        requires
            old(self).successful_requests < u64::MAX,
            old(self).bytes_transferred + utf8_len(line@) <= u64::MAX,
        ensures
            *final(self) == (ProxyStats {
                successful_requests: (old(self).successful_requests + 1) as u64,
                bytes_transferred: (old(self).bytes_transferred + utf8_len(line@)) as u64,
                ..*old(self)
            }),
    {
        let n = crate::text::byte_len(line);
        self.successful_requests = self.successful_requests + 1;
        self.bytes_transferred = self.bytes_transferred + n as u64;
    }

    /// Counts a failure: a blocked line, a read that failed, or a server
    /// that exited unsuccessfully.
    pub fn record_failure(&mut self)
        requires
            old(self).failed_requests < u64::MAX,
        ensures
            *final(self) == (ProxyStats { failed_requests: (old(self).failed_requests + 1) as u64, ..*old(self) }),
    {
        self.failed_requests = self.failed_requests + 1;
    }

    /// Counts the server's exit: a failure unless it exited successfully.
    pub fn record_exit(&mut self, success: bool)
        requires
            old(self).failed_requests < u64::MAX,
        ensures
            success ==> *final(self) == *old(self),
            !success ==> *final(self) == (ProxyStats { failed_requests: (old(self).failed_requests + 1) as u64, ..*old(self) }),
    {
        if !success {
            self.failed_requests = self.failed_requests + 1;
        }
    }
}

/// The state of a proxy.
#[derive(Debug, Clone)]
pub enum ProxyStatus {
    Starting,
    Running,
    Stopped,
    Error(String),
}

/// The transport a proxy speaks.
#[derive(Debug, Clone, Copy, PartialEq, Eq, Structural)]
pub enum TransportType {
    Stdio,
    HttpSse,
    HttpStream,
}

impl TransportType {
    /// The variant's name, as `{:?}` prints it.
    pub fn debug_name(&self) -> (r: &'static str)
        ensures
            r@ == match *self {
                TransportType::Stdio => "Stdio"@,
                TransportType::HttpSse => "HttpSse"@,
                TransportType::HttpStream => "HttpStream"@,
            },
    {
        match self {
            TransportType::Stdio => "Stdio",
            TransportType::HttpSse => "HttpSse",
            TransportType::HttpStream => "HttpStream",
        }
    }
}

/// A running proxy, as the monitor sees it.
#[derive(Debug)]
pub struct ProxyInfo {
    pub id: String,
    pub name: String,
    pub listen_address: String,
    pub target_command: Vec<String>,
    pub status: ProxyStatus,
    pub stats: ProxyStats,
    pub transport_type: TransportType,
}

/// How a client is connected to the gateway.
#[derive(Debug, Clone, PartialEq, Eq)]
pub enum ClientConnectionType {
    WebSocket,
    Stdio,
    Http,
    HttpSse,
    Custom(String),
}

impl Default for ClientConnectionType {
    /// A custom connection named "unknown".
    fn default() -> (r: Self)
        ensures
            r matches ClientConnectionType::Custom(s) && s@ == "unknown"@,
    {
        ClientConnectionType::Custom(owned("unknown"))
    }
}

/// Where a server is reached.
#[derive(Debug, Clone)]
pub enum ServerEndpoint {
    Command { program: String, args: Vec<String> },
    Url(String),
    Socket(String),
    Custom(String),
}

impl Default for ServerEndpoint {
    /// A custom endpoint named "unknown".
    fn default() -> (r: Self)
        ensures
            r matches ServerEndpoint::Custom(s) && s@ == "unknown"@,
    {
        ServerEndpoint::Custom(owned("unknown"))
    }
}

/// The state of a server behind the gateway.
#[derive(Debug, Clone)]
pub enum ServerStatus {
    Starting,
    Running,
    Degraded(String),
    Stopped,
    Error(String),
}

impl Default for ServerStatus {
    /// A server starts out starting.
    fn default() -> (r: Self)
        ensures
            r is Starting,
    {
        ServerStatus::Starting
    }
}

/// What a server offers.
#[derive(Debug, Clone, Default)]
pub struct ServerCapabilities {
    pub tools: Vec<String>,
    pub resources: Vec<String>,
    pub prompts: Vec<String>,
    pub features: Vec<String>,
}

/// The state of a client session through the gateway.
#[derive(Debug, Clone)]
pub enum SessionStatus {
    Starting,
    Active,
    Idle,
    Completed,
    Failed(String),
}

impl Default for SessionStatus {
    /// A session starts out starting.
    fn default() -> (r: Self)
        ensures
            r is Starting,
    {
        SessionStatus::Starting
    }
}

/// Which way a transformation applies.
#[derive(Debug, Clone, Copy, PartialEq, Eq, Structural)]
pub enum TransformDirection {
    Request,
    Response,
}

impl Default for TransformDirection {
    /// Transformations apply to requests unless said otherwise.
    fn default() -> (r: Self)
        ensures
            r == TransformDirection::Request,
    {
        TransformDirection::Request
    }
}

/// A transformation applied to a message.
#[derive(Debug, Clone)]
pub struct AppliedTransformation {
    pub rule_id: String,
    pub rule_name: String,
    pub direction: TransformDirection,
    pub duration_ms: u64,
    pub success: bool,
    pub notes: Option<String>,
}

impl Default for AppliedTransformation {
    /// An unnamed, instantaneous, successful request transformation.
    fn default() -> (r: Self)
        ensures
            r.rule_id@.len() == 0,
            r.rule_name@.len() == 0,
            r.direction == TransformDirection::Request,
            r.duration_ms == 0,
            r.success,
            r.notes is None,
    {
        AppliedTransformation {
            rule_id: String::new(),
            rule_name: String::new(),
            direction: TransformDirection::Request,
            duration_ms: 0,
            success: true,
            notes: None,
        }
    }
}

/// The state of the gateway.
#[derive(Debug, Clone, Copy, PartialEq, Eq, Structural)]
pub enum GatewayStatus {
    Starting,
    Running,
    Degraded,
    Stopped,
}

impl Default for GatewayStatus {
    /// The gateway starts out starting.
    fn default() -> (r: Self)
        ensures
            r == GatewayStatus::Starting,
    {
        GatewayStatus::Starting
    }
}

/// Where a proxied message stands.
#[derive(Debug, Clone)]
pub enum MessageStatus {
    Pending,
    InFlight,
    Completed,
    Failed(String),
}

impl Default for MessageStatus {
    /// A message starts out pending.
    fn default() -> (r: Self)
        ensures
            r is Pending,
    {
        MessageStatus::Pending
    }
}

} // verus!
