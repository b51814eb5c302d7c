//! Initialization: version negotiation, capability exchange, ping/pong.
use vstd::prelude::*;
use crate::json::{JsonObject, JsonValue};
use crate::text::owned;
use super::{Capabilities, Implementation, ProtocolVersion, protocol_version_supported};

verus! {

/// Initialize request from client to server.
#[derive(Debug)]
pub struct InitializeRequest {
    pub protocol_version: ProtocolVersion,
    pub capabilities: Capabilities,
    pub client_info: Implementation,
}

impl InitializeRequest {
    /// A request with the given version, capabilities and client information.
    pub fn new(protocol_version: ProtocolVersion, capabilities: Capabilities, client_info: Implementation) -> (r: Self)
        ensures
            r.protocol_version == protocol_version,
            r.capabilities == capabilities,
            r.client_info == client_info,
    {
        InitializeRequest { protocol_version, capabilities, client_info }
    }

    /// A request with the default version, no capabilities, and the client's
    /// name and version.
    pub fn basic(client_name: &str, client_version: &str) -> (r: Self)
        ensures
            r.protocol_version == ProtocolVersion::V2025_03_26,
            r.capabilities.standard.tools is None,
            r.capabilities.standard.resources is None,
            r.capabilities.standard.prompts is None,
            r.capabilities.standard.sampling is None,
            r.capabilities.standard.logging is None,
            r.capabilities.standard.roots is None,
            r.capabilities.custom == JsonObject::Nil,
            r.client_info.name@ == client_name@,
            r.client_info.version@ == client_version@,
            r.client_info.metadata == JsonObject::Nil,
    {
        Self::new(ProtocolVersion::default(), Capabilities::default(), Implementation::new(client_name, client_version))
    }

    /// The same request with client metadata `key` set to `value`.
    pub fn with_client_metadata(self, key: &str, value: JsonValue) -> (r: Self)
        ensures
            r.protocol_version == self.protocol_version,
            r.capabilities == self.capabilities,
            r.client_info.name == self.client_info.name,
            r.client_info.version == self.client_info.version,
            exists|k: String| k@ == key@ && r.client_info.metadata == self.client_info.metadata.insert(k, value),
    {
        InitializeRequest {
            protocol_version: self.protocol_version,
            capabilities: self.capabilities,
            client_info: self.client_info.with_metadata(key, value),
        }
    }

    /// Whether the requested version is supported.
    pub fn is_supported_version(&self) -> (r: bool)
        ensures
            r == protocol_version_supported(self.protocol_version),
    {
        self.protocol_version.is_supported()
    }
}

/// Initialize response from server to client.
#[derive(Debug)]
pub struct InitializeResponse {
    pub protocol_version: ProtocolVersion,
    pub capabilities: Capabilities,
    pub server_info: Implementation,
    pub instructions: Option<String>,
}

impl InitializeResponse {
    /// A response with all fields given.
    pub fn new(
        protocol_version: ProtocolVersion,
        capabilities: Capabilities,
        server_info: Implementation,
        instructions: Option<String>,
    ) -> (r: Self)
        ensures
            r.protocol_version == protocol_version,
            r.capabilities == capabilities,
            r.server_info == server_info,
            r.instructions == instructions,
    {
        InitializeResponse { protocol_version, capabilities, server_info, instructions }
    }

    /// A response with the default version, no capabilities, the server's
    /// name and version, and no instructions.
    pub fn basic(server_name: &str, server_version: &str) -> (r: Self)
        ensures
            r.protocol_version == ProtocolVersion::V2025_03_26,
            r.capabilities.standard.tools is None,
            r.capabilities.standard.resources is None,
            r.capabilities.standard.prompts is None,
            r.capabilities.standard.sampling is None,
            r.capabilities.standard.logging is None,
            r.capabilities.standard.roots is None,
            r.capabilities.custom == JsonObject::Nil,
            r.server_info.name@ == server_name@,
            r.server_info.version@ == server_version@,
            r.server_info.metadata == JsonObject::Nil,
            r.instructions is None,
    {
        Self::new(ProtocolVersion::default(), Capabilities::default(), Implementation::new(server_name, server_version), None)
    }

    /// The same response with instructions.
    pub fn with_instructions(self, instructions: &str) -> (r: Self)
        ensures
            r.protocol_version == self.protocol_version,
            r.capabilities == self.capabilities,
            r.server_info == self.server_info,
            r.instructions is Some && r.instructions->0@ == instructions@,
    {
        InitializeResponse { instructions: Some(owned(instructions)), ..self }
    }

    /// The same response with server metadata `key` set to `value`.
    pub fn with_server_metadata(self, key: &str, value: JsonValue) -> (r: Self)
        ensures
            r.protocol_version == self.protocol_version,
            r.capabilities == self.capabilities,
            r.server_info.name == self.server_info.name,
            r.server_info.version == self.server_info.version,
            exists|k: String| k@ == key@ && r.server_info.metadata == self.server_info.metadata.insert(k, value),
            r.instructions == self.instructions,
    {
        InitializeResponse {
            protocol_version: self.protocol_version,
            capabilities: self.capabilities,
            server_info: self.server_info.with_metadata(key, value),
            instructions: self.instructions,
        }
    }
}

/// Sets `key` to `value` in `metadata`.
fn metadata_with(metadata: JsonObject, key: &str, value: JsonValue) -> (r: JsonObject)
    ensures
        exists|k: String| k@ == key@ && r == metadata.insert(k, value),
{
    let k = owned(key);
    let ghost kk = k;
    let r = metadata.set(k, value);
    proof { assert(kk@ == key@ && r == metadata.insert(kk, value)); }
    r
}

/// Notification sent by the client after initialization.
#[derive(Debug)]
pub struct InitializedNotification {
    pub metadata: JsonObject,
}

impl InitializedNotification {
    /// A notification without metadata.
    pub fn new() -> (r: Self)
        ensures
            r.metadata == JsonObject::Nil,
    {
        InitializedNotification { metadata: JsonObject::Nil }
    }

    /// A notification with the given metadata.
    pub fn with_metadata(metadata: JsonObject) -> (r: Self)
        ensures
            r.metadata == metadata,
    {
        InitializedNotification { metadata }
    }

    /// The same notification with metadata `key` set to `value`.
    pub fn add_metadata(self, key: &str, value: JsonValue) -> (r: Self)
        ensures
            exists|k: String| k@ == key@ && r.metadata == self.metadata.insert(k, value),
    {
        InitializedNotification { metadata: metadata_with(self.metadata, key, value) }
    }
}

impl Default for InitializedNotification {
    fn default() -> (r: Self)
        ensures
            r.metadata == JsonObject::Nil,
    {
        Self::new()
    }
}

/// Ping request for connectivity checks.
#[derive(Debug)]
pub struct PingRequest {
    pub metadata: JsonObject,
}

impl PingRequest {
    /// A ping without metadata.
    pub fn new() -> (r: Self)
        ensures
            r.metadata == JsonObject::Nil,
    {
        PingRequest { metadata: JsonObject::Nil }
    }

    /// A ping whose metadata holds `timestamp` as a string.
    pub fn with_timestamp(timestamp: &str) -> (r: Self)
        ensures
            r.metadata.lookup("timestamp"@) is Some,
            r.metadata.lookup("timestamp"@)->0 is String,
            r.metadata.lookup("timestamp"@)->0->String_0@ == timestamp@,
    {
        let v = JsonValue::string(timestamp);
        let ghost gv = v;
        let r = PingRequest { metadata: metadata_with(JsonObject::Nil, "timestamp", v) };
        proof {
            let k = choose|k: String| k@ == "timestamp"@ && r.metadata == JsonObject::Nil.insert(k, gv);
            crate::json::lemma_insert_lookup(JsonObject::Nil, k, gv);
        }
        r
    }

    /// The same ping with metadata `key` set to `value`.
    pub fn add_metadata(self, key: &str, value: JsonValue) -> (r: Self)
        ensures
            exists|k: String| k@ == key@ && r.metadata == self.metadata.insert(k, value),
    {
        PingRequest { metadata: metadata_with(self.metadata, key, value) }
    }
}

impl Default for PingRequest {
    fn default() -> (r: Self)
        ensures
            r.metadata == JsonObject::Nil,
    {
        Self::new()
    }
}

/// Pong response to a ping.
#[derive(Debug)]
pub struct PongResponse {
    pub metadata: JsonObject,
}

impl PongResponse {
    /// A pong without metadata.
    pub fn new() -> (r: Self)
        ensures
            r.metadata == JsonObject::Nil,
    {
        PongResponse { metadata: JsonObject::Nil }
    }

    /// A pong carrying a copy of the ping's metadata.
    pub fn echo(ping: &PingRequest) -> (r: Self)
        ensures
            r.metadata == ping.metadata,
    {
        PongResponse { metadata: ping.metadata.duplicate() }
    }

    /// The same pong with metadata `key` set to `value`.
    pub fn add_metadata(self, key: &str, value: JsonValue) -> (r: Self)
        ensures
            exists|k: String| k@ == key@ && r.metadata == self.metadata.insert(k, value),
    {
        PongResponse { metadata: metadata_with(self.metadata, key, value) }
    }
}

impl Default for PongResponse {
    fn default() -> (r: Self)
        ensures
            r.metadata == JsonObject::Nil,
    {
        Self::new()
    }
}

} // verus!
