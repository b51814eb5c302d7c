//! Transport configuration, statistics and message checks shared by the
//! MCP transports.
use vstd::prelude::*;
use std::time::{Duration, SystemTime};
use crate::error::{McpError, TransportError};
use crate::json::{JsonObject, JsonValue};
use crate::messages::jsonrpc::{JsonRpcMessage, message_version};
use crate::text::{owned, push_str, str_equal};

pub mod config;
pub mod factory;
pub mod sse;
pub mod stdio;
pub mod http_stream;
pub mod sse_flow;

verus! {

/// `std::time::SystemTime`, a point on the wall clock.
#[verifier::external_type_specification]
#[verifier::external_body]
pub struct ExSystemTime(SystemTime);

/// `SystemTime::now`: the current wall-clock time. Nothing is claimed of
/// the value, which depends on the clock.
#[verifier::external_body]
fn system_now() -> (t: SystemTime) {
    SystemTime::now()
}

/// `SystemTime::now().duration_since(since)`, or a zero duration when the
/// clock went backwards. Nothing is claimed of the value, which depends on
/// the clock.
#[verifier::external_body]
fn elapsed_since(since: &SystemTime) -> (d: Duration) {
    SystemTime::now().duration_since(*since).unwrap_or_default()
}

/// Transport information and statistics.
#[derive(Debug)]
pub struct TransportInfo {
    /// Type of transport (stdio, http-sse, http-stream)
    pub transport_type: String,
    /// Whether the transport is currently connected
    pub connected: bool,
    /// Connection establishment time (if connected)
    pub connected_since: Option<SystemTime>,
    /// Number of requests sent
    pub requests_sent: u64,
    /// Number of responses received
    pub responses_received: u64,
    /// Number of notifications sent
    pub notifications_sent: u64,
    /// Number of notifications received
    pub notifications_received: u64,
    /// Number of errors encountered
    pub errors: u64,
    /// Transport-specific metadata
    pub metadata: JsonObject,
}

impl TransportInfo {
    /// A disconnected transport of the given type, with all counters at
    /// zero and no metadata.
    pub fn new(transport_type: &str) -> (r: Self)
        ensures
            r.transport_type@ == transport_type@,
            !r.connected,
            r.connected_since is None,
            r.requests_sent == 0,
            r.responses_received == 0,
            r.notifications_sent == 0,
            r.notifications_received == 0,
            r.errors == 0,
            r.metadata == JsonObject::Nil,
    {
        TransportInfo {
            transport_type: owned(transport_type),
            connected: false,
            connected_since: None,
            requests_sent: 0,
            responses_received: 0,
            notifications_sent: 0,
            notifications_received: 0,
            errors: 0,
            metadata: JsonObject::Nil,
        }
    }

    /// Marks the transport connected, from now on.
    pub fn mark_connected(&mut self)
        ensures
            final(self).connected,
            final(self).connected_since is Some,
            final(self).transport_type == old(self).transport_type,
            final(self).requests_sent == old(self).requests_sent,
            final(self).responses_received == old(self).responses_received,
            final(self).notifications_sent == old(self).notifications_sent,
            final(self).notifications_received == old(self).notifications_received,
            final(self).errors == old(self).errors,
            final(self).metadata == old(self).metadata,
    {
        self.connected = true;
        self.connected_since = Some(system_now());
    }

    /// Marks the transport disconnected.
    pub fn mark_disconnected(&mut self)
        ensures
            !final(self).connected,
            final(self).connected_since is None,
            final(self).transport_type == old(self).transport_type,
            final(self).requests_sent == old(self).requests_sent,
            final(self).responses_received == old(self).responses_received,
            final(self).notifications_sent == old(self).notifications_sent,
            final(self).notifications_received == old(self).notifications_received,
            final(self).errors == old(self).errors,
            final(self).metadata == old(self).metadata,
    {
        self.connected = false;
        self.connected_since = None;
    }

    /// Counts one more request sent.
    pub fn increment_requests_sent(&mut self)
        requires
            old(self).requests_sent < u64::MAX,
        ensures
            *final(self) == (TransportInfo { requests_sent: (old(self).requests_sent + 1) as u64, ..*old(self) }),
    {
        self.requests_sent = self.requests_sent + 1;
    }

    /// Counts one more response received.
    pub fn increment_responses_received(&mut self)
        requires
            old(self).responses_received < u64::MAX,
        ensures
            *final(self) == (TransportInfo { responses_received: (old(self).responses_received + 1) as u64, ..*old(self) }),
    {
        self.responses_received = self.responses_received + 1;
    }

    /// Counts one more notification sent.
    pub fn increment_notifications_sent(&mut self)
        requires
            old(self).notifications_sent < u64::MAX,
        ensures
            *final(self) == (TransportInfo { notifications_sent: (old(self).notifications_sent + 1) as u64, ..*old(self) }),
    {
        self.notifications_sent = self.notifications_sent + 1;
    }

    /// Counts one more notification received.
    pub fn increment_notifications_received(&mut self)
        requires
            old(self).notifications_received < u64::MAX,
        ensures
            *final(self) == (TransportInfo { notifications_received: (old(self).notifications_received + 1) as u64, ..*old(self) }),
    {
        self.notifications_received = self.notifications_received + 1;
    }

    /// Counts one more error.
    pub fn increment_errors(&mut self)
        requires
            old(self).errors < u64::MAX,
        ensures
            *final(self) == (TransportInfo { errors: (old(self).errors + 1) as u64, ..*old(self) }),
    {
        self.errors = self.errors + 1;
    }

    /// Records a metadata entry, replacing an earlier one under the same key.
    pub fn add_metadata(&mut self, key: &str, value: JsonValue)
        ensures
            final(self).metadata.lookup(key@) == Some(value),
            forall|k: Seq<char>| k != key@ ==> #[trigger] final(self).metadata.lookup(k) == old(self).metadata.lookup(k),
            *final(self) == (TransportInfo { metadata: final(self).metadata, ..*old(self) }),
    {
        let mut md = JsonObject::Nil;
        std::mem::swap(&mut md, &mut self.metadata);
        let k = owned(key);
        proof {
            crate::json::lemma_insert_lookup(md, k, value);
        }
        self.metadata = md.set(k, value);
    }

    /// How long the transport has been connected; `None` when it is not.
    pub fn connection_duration(&self) -> (r: Option<Duration>)
        ensures
            r is Some <==> self.connected_since is Some,
    {
        match &self.connected_since {
            Some(since) => Some(elapsed_since(since)),
            None => None,
        }
    }
}

/// Checks shared by the transport implementations.
pub struct TransportHelper;

impl TransportHelper {
    /// Checks that a JSON-RPC message carries version "2.0"; otherwise an
    /// invalid-configuration transport error of the "generic" transport whose
    /// reason names the version found.
    pub fn validate_message(message: &JsonRpcMessage) -> (r: Result<(), McpError>)
        ensures
            r is Ok <==> message_version(*message) == "2.0"@,
            r matches Err(e) ==> (e matches McpError::Transport(TransportError::InvalidConfig { transport_type, reason })
                && transport_type@ == "generic"@
                && reason@ == "Invalid jsonrpc version: "@ + message_version(*message)),
    {
        let version = message.jsonrpc();
        if str_equal(version, "2.0") {
            Ok(())
        } else {
            let mut reason = owned("Invalid jsonrpc version: ");
            push_str(&mut reason, version);
            Err(McpError::Transport(TransportError::InvalidConfig {
                transport_type: owned("generic"),
                reason,
            }))
        }
    }
}

} // verus!
