//! Logging messages: log levels, log notifications and change notifications.
use vstd::prelude::*;
use crate::json::{JsonObject, JsonValue, JsonView, jview};
use crate::text::owned;

pub use super::ProgressToken;

verus! {

/// Log level for MCP logging, from most to least verbose.
#[derive(Debug, Clone, Copy, PartialEq, Eq, PartialOrd, Ord, Hash, Structural)]
pub enum LogLevel {
    Debug,
    Info,
    Notice,
    Warning,
    Error,
    Critical,
}

/// Position of a level in the order from most to least verbose.
pub open spec fn level_rank(l: LogLevel) -> int {
    match l {
        LogLevel::Debug => 0,
        LogLevel::Info => 1,
        LogLevel::Notice => 2,
        LogLevel::Warning => 3,
        LogLevel::Error => 4,
        LogLevel::Critical => 5,
    }
}

/// The lower-case name of a level.
pub open spec fn level_name(l: LogLevel) -> Seq<char> {
    match l {
        LogLevel::Debug => "debug"@,
        LogLevel::Info => "info"@,
        LogLevel::Notice => "notice"@,
        LogLevel::Warning => "warning"@,
        LogLevel::Error => "error"@,
        LogLevel::Critical => "critical"@,
    }
}

impl LogLevel {
    /// Position of this level from most (0) to least (5) verbose.
    pub fn rank(&self) -> (r: u8)
        ensures
            r as int == level_rank(*self),
    {
        match self {
            LogLevel::Debug => 0,
            LogLevel::Info => 1,
            LogLevel::Notice => 2,
            LogLevel::Warning => 3,
            LogLevel::Error => 4,
            LogLevel::Critical => 5,
        }
    }

    /// All log levels, from most to least verbose.
    pub fn all() -> (r: Vec<LogLevel>)
        ensures
            r@ == seq![LogLevel::Debug, LogLevel::Info, LogLevel::Notice, LogLevel::Warning, LogLevel::Error, LogLevel::Critical],
    {
        let mut v = Vec::new();
        v.push(LogLevel::Debug);
        v.push(LogLevel::Info);
        v.push(LogLevel::Notice);
        v.push(LogLevel::Warning);
        v.push(LogLevel::Error);
        v.push(LogLevel::Critical);
        v
    }

    /// Whether this level is more verbose than `other`.
    pub fn is_more_verbose_than(&self, other: &LogLevel) -> (r: bool)
        ensures
            r == (level_rank(*self) < level_rank(*other)),
    {
        self.rank() < other.rank()
    }

    /// Whether this level is less verbose than `other`.
    pub fn is_less_verbose_than(&self, other: &LogLevel) -> (r: bool)
        ensures
            r == (level_rank(*self) > level_rank(*other)),
    {
        self.rank() > other.rank()
    }

    /// The lower-case name of the level.
    pub fn to_string(&self) -> (r: String)
        ensures
            r@ == level_name(*self),
    {
        match self {
            LogLevel::Debug => owned("debug"),
            LogLevel::Info => owned("info"),
            LogLevel::Notice => owned("notice"),
            LogLevel::Warning => owned("warning"),
            LogLevel::Error => owned("error"),
            LogLevel::Critical => owned("critical"),
        }
    }
}

impl LogLevel {
    /// The level as JSON: its lower-case name, as a string.
    pub fn to_json(&self) -> (r: JsonValue)
        ensures
            jview(r) == JsonView::Str(level_name(*self)),
    {
        JsonValue::String(self.to_string())
    }
}

/// Request to set the server's logging level.
#[derive(Debug, Clone, PartialEq, Eq)]
pub struct SetLevelRequest {
    pub level: LogLevel,
}

impl SetLevelRequest {
    /// A request for `level`.
    pub fn new(level: LogLevel) -> (r: Self)
        ensures
            r.level == level,
    {
        SetLevelRequest { level }
    }
}

/// Notification carrying a log message from the server.
#[derive(Debug)]
pub struct LoggingNotification {
    pub level: LogLevel,
    pub data: JsonValue,
    pub logger: Option<String>,
}

impl LoggingNotification {
    /// A log notification without a logger name.
    pub fn new(level: LogLevel, data: JsonValue) -> (r: Self)
        ensures
            r.level == level,
            r.data == data,
            r.logger is None,
    {
        LoggingNotification { level, data, logger: None }
    }

    /// A log notification with a logger name.
    pub fn with_logger(level: LogLevel, data: JsonValue, logger: &str) -> (r: Self)
        ensures
            r.level == level,
            r.data == data,
            r.logger is Some && r.logger->0@ == logger@,
    {
        LoggingNotification { level, data, logger: Some(owned(logger)) }
    }

    /// A notification at `level` whose data is the string `message`.
    fn text_at(level: LogLevel, message: &str) -> (r: Self)
        ensures
            r.level == level,
            r.data is String && r.data->String_0@ == message@,
            r.logger is None,
    {
        Self::new(level, JsonValue::string(message))
    }

    /// A debug-level notification carrying `message`.
    pub fn debug(message: &str) -> (r: Self)
        ensures
            r.level == LogLevel::Debug,
            r.data is String && r.data->String_0@ == message@,
            r.logger is None,
    {
        Self::text_at(LogLevel::Debug, message)
    }

    /// An info-level notification carrying `message`.
    pub fn info(message: &str) -> (r: Self)
        ensures
            r.level == LogLevel::Info,
            r.data is String && r.data->String_0@ == message@,
            r.logger is None,
    {
        Self::text_at(LogLevel::Info, message)
    }

    /// A notice-level notification carrying `message`.
    pub fn notice(message: &str) -> (r: Self)
        ensures
            r.level == LogLevel::Notice,
            r.data is String && r.data->String_0@ == message@,
            r.logger is None,
    {
        Self::text_at(LogLevel::Notice, message)
    }

    /// A warning-level notification carrying `message`.
    pub fn warning(message: &str) -> (r: Self)
        ensures
            r.level == LogLevel::Warning,
            r.data is String && r.data->String_0@ == message@,
            r.logger is None,
    {
        Self::text_at(LogLevel::Warning, message)
    }

    /// An error-level notification carrying `message`.
    pub fn error(message: &str) -> (r: Self)
        ensures
            r.level == LogLevel::Error,
            r.data is String && r.data->String_0@ == message@,
            r.logger is None,
    {
        Self::text_at(LogLevel::Error, message)
    }

    /// A critical-level notification carrying `message`.
    pub fn critical(message: &str) -> (r: Self)
        ensures
            r.level == LogLevel::Critical,
            r.data is String && r.data->String_0@ == message@,
            r.logger is None,
    {
        Self::text_at(LogLevel::Critical, message)
    }
}

/// Notification that a resource has been updated.
#[derive(Debug)]
pub struct ResourceUpdatedNotification {
    pub uri: String,
    pub metadata: JsonObject,
}

impl ResourceUpdatedNotification {
    /// A notification for `uri` without metadata.
    pub fn new(uri: &str) -> (r: Self)
        ensures
            r.uri@ == uri@,
            r.metadata == JsonObject::Nil,
    {
        ResourceUpdatedNotification { uri: owned(uri), metadata: JsonObject::Nil }
    }

    /// The same notification with metadata `key` set to `value`.
    pub fn with_metadata(self, key: &str, value: JsonValue) -> (r: Self)
        ensures
            r.uri == self.uri,
            exists|k: String| k@ == key@ && r.metadata == self.metadata.insert(k, value),
    {
        let k = owned(key);
        let ghost kk = k;
        let metadata = self.metadata.set(k, value);
        proof { assert(kk@ == key@ && metadata == self.metadata.insert(kk, value)); }
        ResourceUpdatedNotification { uri: self.uri, metadata }
    }
}

/// Notification that the list of resources has changed.
#[derive(Debug)]
pub struct ResourceListChangedNotification {
    pub metadata: JsonObject,
}

impl ResourceListChangedNotification {
    /// A notification without metadata.
    pub fn new() -> (r: Self)
        ensures
            r.metadata == JsonObject::Nil,
    {
        ResourceListChangedNotification { metadata: JsonObject::Nil }
    }

    /// The same notification with metadata `key` set to `value`.
    pub fn with_metadata(self, key: &str, value: JsonValue) -> (r: Self)
        ensures
            exists|k: String| k@ == key@ && r.metadata == self.metadata.insert(k, value),
    {
        let k = owned(key);
        let ghost kk = k;
        let metadata = self.metadata.set(k, value);
        proof { assert(kk@ == key@ && metadata == self.metadata.insert(kk, value)); }
        ResourceListChangedNotification { metadata }
    }
}

/// Notification that the list of tools has changed.
#[derive(Debug)]
pub struct ToolListChangedNotification {
    pub metadata: JsonObject,
}

impl ToolListChangedNotification {
    /// A notification without metadata.
    pub fn new() -> (r: Self)
        ensures
            r.metadata == JsonObject::Nil,
    {
        ToolListChangedNotification { metadata: JsonObject::Nil }
    }

    /// The same notification with metadata `key` set to `value`.
    pub fn with_metadata(self, key: &str, value: JsonValue) -> (r: Self)
        ensures
            exists|k: String| k@ == key@ && r.metadata == self.metadata.insert(k, value),
    {
        let k = owned(key);
        let ghost kk = k;
        let metadata = self.metadata.set(k, value);
        proof { assert(kk@ == key@ && metadata == self.metadata.insert(kk, value)); }
        ToolListChangedNotification { metadata }
    }
}

/// Notification that the list of prompts has changed.
#[derive(Debug)]
pub struct PromptListChangedNotification {
    pub metadata: JsonObject,
}

impl PromptListChangedNotification {
    /// A notification without metadata.
    pub fn new() -> (r: Self)
        ensures
            r.metadata == JsonObject::Nil,
    {
        PromptListChangedNotification { metadata: JsonObject::Nil }
    }

    /// The same notification with metadata `key` set to `value`.
    pub fn with_metadata(self, key: &str, value: JsonValue) -> (r: Self)
        ensures
            exists|k: String| k@ == key@ && r.metadata == self.metadata.insert(k, value),
    {
        let k = owned(key);
        let ghost kk = k;
        let metadata = self.metadata.set(k, value);
        proof { assert(kk@ == key@ && metadata == self.metadata.insert(kk, value)); }
        PromptListChangedNotification { metadata }
    }
}

} // verus!
