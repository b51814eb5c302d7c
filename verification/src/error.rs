//! Error types for MCP operations and their classification.
use vstd::prelude::*;
use vstd::std_specs::convert::FromSpecImpl;

verus! {

/// `serde_json::Error`, carried as the source of serialization errors.
#[verifier::external_type_specification]
#[verifier::external_body]
pub struct ExSerdeJsonError(serde_json::Error);

/// `std::io::Error`, carried as the source of I/O errors.
#[verifier::external_type_specification]
#[verifier::external_body]
pub struct ExIoError(std::io::Error);

/// The main error type for all MCP operations.
#[derive(Debug)]
pub enum McpError {
    /// Transport-related errors
    Transport(TransportError),
    /// Protocol-level errors
    Protocol(ProtocolError),
    /// Validation errors
    Validation(ValidationError),
    /// Authentication and authorization errors
    Auth(AuthError),
    /// An operation exceeded its time limit
    Timeout { operation: String, duration_ms: u64 },
    /// Configuration errors
    Config(ConfigError),
    /// Serialization errors
    Serialization { source: serde_json::Error },
    /// I/O errors
    Io { source: std::io::Error },
    /// Errors not covered by another variant
    Internal { message: String },
}

/// Whether an error is worth retrying: retryable transport errors, timeouts
/// and I/O errors are.
pub open spec fn mcp_error_retryable(e: McpError) -> bool {
    match e {
        McpError::Transport(t) => transport_error_retryable(t),
        McpError::Timeout { .. } => true,
        McpError::Io { .. } => true,
        _ => false,
    }
}

/// The category name of an error.
pub open spec fn mcp_error_category(e: McpError) -> Seq<char> {
    match e {
        McpError::Transport(_) => "transport"@,
        McpError::Protocol(_) => "protocol"@,
        McpError::Validation(_) => "validation"@,
        McpError::Auth(_) => "auth"@,
        McpError::Timeout { .. } => "timeout"@,
        McpError::Config(_) => "config"@,
        McpError::Serialization { .. } => "serialization"@,
        McpError::Io { .. } => "io"@,
        McpError::Internal { .. } => "internal"@,
    }
}

impl McpError {
    /// An internal error with the given message.
    pub fn internal(message: &str) -> (r: McpError)
        ensures
            r is Internal && r->Internal_message@ == message@,
    {
        McpError::Internal { message: crate::text::owned(message) }
    }

    /// A timeout error for `operation` after `duration`, in whole
    /// milliseconds, kept to their low 64 bits as `as u64` keeps them.
    pub fn timeout(operation: &str, duration: std::time::Duration) -> (r: McpError)
        ensures
            r is Timeout,
            r->Timeout_operation@ == operation@,
            r->Timeout_duration_ms == crate::time::duration_millis(duration) % 0x1_0000_0000_0000_0000,
    {
        let ms = crate::time::duration_as_millis(&duration);
        let low = ms as u64;
        assert(low == ms % 0x1_0000_0000_0000_0000) by (bit_vector)
            requires
                low == ms as u64;
        McpError::Timeout { operation: crate::text::owned(operation), duration_ms: low }
    }

    /// Whether this error is worth retrying.
    pub fn is_retryable(&self) -> (r: bool)
        ensures
            r == mcp_error_retryable(*self),
    {
        match self {
            McpError::Transport(transport_err) => transport_err.is_retryable(),
            McpError::Timeout { .. } => true,
            McpError::Io { .. } => true,
            McpError::Auth(_) => false,
            McpError::Protocol(_) => false,
            McpError::Validation(_) => false,
            McpError::Config(_) => false,
            McpError::Serialization { .. } => false,
            McpError::Internal { .. } => false,
        }
    }

    /// The category name of this error, for reporting and metrics.
    pub fn category(&self) -> (r: &'static str)
        ensures
            r@ == mcp_error_category(*self),
    {
        match self {
            McpError::Transport(_) => "transport",
            McpError::Protocol(_) => "protocol",
            McpError::Validation(_) => "validation",
            McpError::Auth(_) => "auth",
            McpError::Timeout { .. } => "timeout",
            McpError::Config(_) => "config",
            McpError::Serialization { .. } => "serialization",
            McpError::Io { .. } => "io",
            McpError::Internal { .. } => "internal",
        }
    }
}

impl From<TransportError> for McpError {
    fn from(e: TransportError) -> (r: McpError)
        ensures
            r == McpError::Transport(e),
    {
        McpError::Transport(e)
    }
}

impl FromSpecImpl<TransportError> for McpError {
    open spec fn obeys_from_spec() -> bool {
        true
    }

    open spec fn from_spec(v: TransportError) -> McpError {
        McpError::Transport(v)
    }
}

impl From<ProtocolError> for McpError {
    fn from(e: ProtocolError) -> (r: McpError)
        ensures
            r == McpError::Protocol(e),
    {
        McpError::Protocol(e)
    }
}

impl FromSpecImpl<ProtocolError> for McpError {
    open spec fn obeys_from_spec() -> bool {
        true
    }

    open spec fn from_spec(v: ProtocolError) -> McpError {
        McpError::Protocol(v)
    }
}

impl From<ConfigError> for McpError {
    fn from(e: ConfigError) -> (r: McpError)
        ensures
            r == McpError::Config(e),
    {
        McpError::Config(e)
    }
}

impl FromSpecImpl<ConfigError> for McpError {
    open spec fn obeys_from_spec() -> bool {
        true
    }

    open spec fn from_spec(v: ConfigError) -> McpError {
        McpError::Config(v)
    }
}

/// Protocol-level errors related to MCP message handling.
#[derive(Debug, Clone)]
pub enum ProtocolError {
    InvalidJsonRpc { reason: String },
    UnsupportedVersion { version: String, supported: Vec<String> },
    MessageIdMismatch { expected: String, actual: String },
    UnexpectedMessageType { expected: String, actual: String },
    MissingField { field: String, message_type: String },
    InvalidMethod { method: String },
    ServerError { code: i32, message: String },
    StateViolation { reason: String },
    InitializationFailed { reason: String },
    NotInitialized { reason: String },
    InvalidResponse { reason: String },
    InvalidConfig { reason: String },
    TimeoutError { operation: String, timeout: std::time::Duration },
    RequestFailed { reason: String },
    RequestTimeout { timeout: std::time::Duration },
    RequestBlocked { reason: String },
    ResponseBlocked { reason: String },
}

/// Validation errors for MCP capabilities and schemas.
#[derive(Debug, Clone)]
pub enum ValidationError {
    SchemaValidation { object_type: String, reason: String },
    UnsupportedCapability { capability: String },
    InvalidToolParameter { tool: String, parameter: String, reason: String },
    InvalidResource { resource: String, reason: String },
    InvalidPrompt { prompt: String, reason: String },
    ConstraintViolation { constraint: String, reason: String },
}

/// Authentication and authorization errors.
#[derive(Debug, Clone)]
pub enum AuthError {
    MissingCredentials { auth_type: String },
    InvalidCredentials { auth_type: String, reason: String },
    Expired { auth_type: String },
    AccessDenied { reason: String },
    OAuth { error_code: String, description: String },
    Jwt { reason: String },
}

/// Configuration-related errors.
#[derive(Debug, Clone)]
pub enum ConfigError {
    FileNotFound { path: String },
    InvalidFormat { path: String, reason: String },
    MissingParameter { parameter: String },
    InvalidValue { parameter: String, value: String, reason: String },
    Conflict { reason: String },
}

/// Transport-specific errors for the different MCP transport mechanisms.
#[derive(Debug, Clone)]
pub enum TransportError {
    ConnectionFailed { transport_type: String, reason: String },
    ConnectionLost { transport_type: String, reason: String },
    SendFailed { transport_type: String, reason: String },
    ReceiveFailed { transport_type: String, reason: String },
    InvalidConfig { transport_type: String, reason: String },
    ProcessError { reason: String },
    HttpError { status_code: u16, reason: String },
    SseError { reason: String },
    StreamingError { reason: String },
    NotConnected { transport_type: String, reason: String },
    NetworkError { transport_type: String, reason: String },
    SerializationError { transport_type: String, reason: String },
    TimeoutError { transport_type: String, reason: String },
    DisconnectedError { transport_type: String, reason: String },
    ConnectionError { transport_type: String, reason: String },
}

/// Whether a transport error is worth retrying: failures of the connection,
/// of sending and receiving, of the network, of timing, of streaming, and
/// HTTP errors with a 5xx status are; process, configuration, connection
/// state and serialization errors are not.
pub open spec fn transport_error_retryable(e: TransportError) -> bool {
    match e {
        TransportError::ProcessError { .. } => false,
        TransportError::InvalidConfig { .. } => false,
        TransportError::NotConnected { .. } => false,
        TransportError::SerializationError { .. } => false,
        TransportError::HttpError { status_code, .. } => status_code >= 500,
        _ => true,
    }
}

impl TransportError {
    /// Check if this transport error is retryable.
    pub fn is_retryable(&self) -> (r: bool)
        ensures
            r == transport_error_retryable(*self),
    {
        match self {
            TransportError::ConnectionFailed { .. } => true,
            TransportError::ConnectionLost { .. } => true,
            TransportError::ConnectionError { .. } => true,
            TransportError::SendFailed { .. } => true,
            TransportError::ReceiveFailed { .. } => true,
            TransportError::NetworkError { .. } => true,
            TransportError::TimeoutError { .. } => true,
            TransportError::DisconnectedError { .. } => true,
            TransportError::HttpError { status_code, .. } => *status_code >= 500,
            TransportError::SseError { .. } => true,
            TransportError::StreamingError { .. } => true,
            TransportError::ProcessError { .. } => false,
            TransportError::InvalidConfig { .. } => false,
            TransportError::NotConnected { .. } => false,
            TransportError::SerializationError { .. } => false,
        }
    }
}

} // verus!
