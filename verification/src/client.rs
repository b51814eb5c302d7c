//! Client-side protocol decisions: configuration defaults, connection state,
//! request identifiers, retry scheduling, routing of incoming messages and
//! correlation of responses with pending requests.
use vstd::prelude::*;
use std::time::Duration;
use crate::error::{McpError, ProtocolError};
use crate::messages::jsonrpc::{JsonRpcMessage, JsonRpcRequest, JsonRpcResponse, RequestId, request_id_text};
use crate::text::{owned, push_str, str_equal, u64_to_decimal, nat_decimal};
use crate::time::{duration_from_secs, duration_millis, duration_of_secs};
use crate::interceptor::InterceptionResult;
use crate::json::{JsonObject, JsonValue};
use crate::messages::{Capabilities, Implementation, ProtocolVersion, PromptCapabilities, ResourceCapabilities,
    StandardCapabilities, ToolCapabilities};
use crate::messages::initialization::InitializeRequest;

verus! {

/// Configuration for MCP client behavior.
#[derive(Debug, Clone)]
pub struct ClientConfig {
    /// Timeout for individual requests (default: 30 seconds)
    pub request_timeout: Duration,
    /// Timeout for the initialization process (default: 10 seconds)
    pub init_timeout: Duration,
    /// Maximum number of retry attempts for failed operations
    pub max_retries: u32,
    /// Base delay for exponential backoff retries
    pub retry_base_delay: Duration,
    /// Whether to automatically handle server notifications
    pub auto_handle_notifications: bool,
    /// Buffer size for incoming messages
    pub message_buffer_size: usize,
}

impl Default for ClientConfig {
    /// Requests time out after 30 seconds and initialization after 10; up to
    /// 3 retries, starting 1 second apart; notifications handled; a buffer
    /// of 1000 messages.
    fn default() -> (r: Self)
        ensures
            r.request_timeout == duration_of_secs(30),
            duration_millis(r.request_timeout) == 30000,
            r.init_timeout == duration_of_secs(10),
            duration_millis(r.init_timeout) == 10000,
            r.max_retries == 3,
            r.retry_base_delay == duration_of_secs(1),
            duration_millis(r.retry_base_delay) == 1000,
            r.auto_handle_notifications,
            r.message_buffer_size == 1000,
    {
        ClientConfig {
            request_timeout: duration_from_secs(30),
            init_timeout: duration_from_secs(10),
            max_retries: 3,
            retry_base_delay: duration_from_secs(1),
            auto_handle_notifications: true,
            message_buffer_size: 1000,
        }
    }
}

/// State of the MCP client connection and protocol negotiation.
#[derive(Debug, Clone, PartialEq, Eq)]
pub enum ClientState {
    /// Client is disconnected
    Disconnected,
    /// Client is connecting to server
    Connecting,
    /// Client is performing protocol initialization
    Initializing,
    /// Client is ready for operations
    Ready,
    /// Client encountered an error
    Error(String),
}

impl ClientState {
    /// Whether the client is ready for requests and notifications.
    pub fn is_ready(&self) -> (r: bool)
        ensures
            r == (*self is Ready),
    {
        match self {
            ClientState::Ready => true,
            _ => false,
        }
    }
}

/// Statistics about client operations.
#[derive(Debug, Clone, Default)]
pub struct ClientStats {
    /// Number of requests sent
    pub requests_sent: u64,
    /// Number of responses received
    pub responses_received: u64,
    /// Number of notifications sent
    pub notifications_sent: u64,
    /// Number of notifications received
    pub notifications_received: u64,
    /// Number of errors encountered
    pub errors: u64,
    /// Number of retries performed
    pub retries: u64,
    /// Number of connection attempts
    pub connection_attempts: u64,
}

/// The notification handler that only logs what it receives.
#[derive(Debug, Default)]
pub struct DefaultNotificationHandler;

/// The kinds of server notification a client handles.
#[derive(Debug, Clone, Copy, PartialEq, Eq, Structural)]
pub enum NotificationKind {
    Progress,
    ResourceUpdated,
    ResourceListChanged,
    ToolListChanged,
    PromptListChanged,
    Unknown,
}

/// The kind of notification that a method name announces.
pub open spec fn notification_kind_of(method: Seq<char>) -> NotificationKind {
    if method == "notifications/progress"@ {
        NotificationKind::Progress
    } else if method == "notifications/resources/updated"@ {
        NotificationKind::ResourceUpdated
    } else if method == "notifications/resources/list_changed"@ {
        NotificationKind::ResourceListChanged
    } else if method == "notifications/tools/list_changed"@ {
        NotificationKind::ToolListChanged
    } else if method == "notifications/prompts/list_changed"@ {
        NotificationKind::PromptListChanged
    } else {
        NotificationKind::Unknown
    }
}

/// Each notification method of the protocol has a kind of its own, and
/// every other method is of the unknown kind: a method is of the progress,
/// resource-updated, resource-list-changed, tool-list-changed or
/// prompt-list-changed kind exactly when it is that notification's method.
pub proof fn lemma_notification_kinds(method: Seq<char>)
    ensures
        (notification_kind_of(method) == NotificationKind::Progress) <==> method == "notifications/progress"@,
        (notification_kind_of(method) == NotificationKind::ResourceUpdated)
            <==> method == "notifications/resources/updated"@,
        (notification_kind_of(method) == NotificationKind::ResourceListChanged)
            <==> method == "notifications/resources/list_changed"@,
        (notification_kind_of(method) == NotificationKind::ToolListChanged)
            <==> method == "notifications/tools/list_changed"@,
        (notification_kind_of(method) == NotificationKind::PromptListChanged)
            <==> method == "notifications/prompts/list_changed"@,
        (notification_kind_of(method) == NotificationKind::Unknown) <==> {
            &&& method != "notifications/progress"@
            &&& method != "notifications/resources/updated"@
            &&& method != "notifications/resources/list_changed"@
            &&& method != "notifications/tools/list_changed"@
            &&& method != "notifications/prompts/list_changed"@
        },
{
    reveal_strlit("notifications/progress");
    reveal_strlit("notifications/resources/updated");
    reveal_strlit("notifications/resources/list_changed");
    reveal_strlit("notifications/tools/list_changed");
    reveal_strlit("notifications/prompts/list_changed");
    assert("notifications/progress"@.len() == 22);
    assert("notifications/resources/updated"@.len() == 31);
    assert("notifications/resources/list_changed"@.len() == 36);
    assert("notifications/tools/list_changed"@.len() == 32);
    assert("notifications/prompts/list_changed"@.len() == 34);
}

/// The kind of notification that a method name announces.
pub fn notification_kind(method: &str) -> (k: NotificationKind)
    ensures
        k == notification_kind_of(method@),
{
    if str_equal(method, "notifications/progress") {
        NotificationKind::Progress
    } else if str_equal(method, "notifications/resources/updated") {
        NotificationKind::ResourceUpdated
    } else if str_equal(method, "notifications/resources/list_changed") {
        NotificationKind::ResourceListChanged
    } else if str_equal(method, "notifications/tools/list_changed") {
        NotificationKind::ToolListChanged
    } else if str_equal(method, "notifications/prompts/list_changed") {
        NotificationKind::PromptListChanged
    } else {
        NotificationKind::Unknown
    }
}

/// The request identifier for the given value of the request counter:
/// "req_" and the counter in decimal.
pub fn request_id_for(counter: u64) -> (r: String)
    ensures
        r@ == "req_"@ + nat_decimal(counter as nat),
{
    let mut r = owned("req_");
    let digits = u64_to_decimal(counter);
    push_str(&mut r, digits.as_str());
    r
}

/// `2` raised to `n`.
pub open spec fn pow2(n: nat) -> nat
    decreases n,
{
    if n == 0 {
        1
    } else {
        2 * pow2((n - 1) as nat)
    }
}

/// What to do after a failed attempt.
#[derive(Debug, Clone, Copy, PartialEq, Eq, Structural)]
pub enum RetryAction {
    /// Wait `factor` times the base delay, then try again
    Wait { factor: u32 },
    /// Give up and report the last error
    Fail,
}

/// Where a request stands in its series of attempts: attempt `attempt`
/// (counted from 0) is under way, and at most `max_retries` retries follow
/// the first attempt.
#[derive(Debug, Clone, Copy, PartialEq, Eq, Structural)]
pub struct RetryState {
    pub attempt: u32,
    pub max_retries: u32,
}

impl RetryState {
    /// The invariant: the attempt under way is within the allowed number.
    pub open spec fn wf(self) -> bool {
        self.attempt <= self.max_retries
    }

    /// The first attempt of a series allowing `max_retries` retries.
    pub fn new(max_retries: u32) -> (r: Self)
        ensures
            r.wf(),
            r.attempt == 0,
            r.max_retries == max_retries,
    {
        RetryState { attempt: 0, max_retries }
    }

    /// After a failed attempt: while retries are left, wait `2^attempt`
    /// times the base delay and go on to the next attempt; otherwise fail.
    pub fn on_failure(&mut self) -> (a: RetryAction)
        requires
            old(self).wf(),
            old(self).attempt < old(self).max_retries ==> old(self).attempt < 32,
        ensures
            final(self).wf(),
            final(self).max_retries == old(self).max_retries,
            old(self).attempt < old(self).max_retries ==> (a == (RetryAction::Wait { factor: pow2(old(self).attempt as nat) as u32 })
                && final(self).attempt == old(self).attempt + 1),
            old(self).attempt == old(self).max_retries ==> a == RetryAction::Fail && *final(self) == *old(self),
    {
        if self.attempt < self.max_retries {
            let mut factor: u32 = 1;
            let mut k: u32 = 0;
            proof {
                reveal_with_fuel(pow2, 32);
                assert(pow2(31) == 0x80000000);
                lemma_pow2_monotone(0, 31);
            }
            while k < self.attempt
                invariant
                    k <= self.attempt,
                    self.attempt < 32,
                    factor == pow2(k as nat),
                    pow2(31) == 0x80000000,
                decreases self.attempt - k,
            {
                proof {
                    lemma_pow2_monotone((k + 1) as nat, 31);
                    assert(pow2((k + 1) as nat) == 2 * pow2(k as nat));
                }
                factor = factor * 2;
                k = k + 1;
            }
            self.attempt = self.attempt + 1;
            RetryAction::Wait { factor }
        } else {
            RetryAction::Fail
        }
    }

    /// The number of retries a success on the current attempt took.
    pub fn retries_on_success(&self) -> (r: u64)
        ensures
            r == self.attempt,
    {
        self.attempt as u64
    }
}

/// `pow2` grows with its argument.
pub proof fn lemma_pow2_monotone(a: nat, b: nat)
    requires
        a <= b,
    ensures
        pow2(a) <= pow2(b),
    decreases b,
{
    if a < b {
        lemma_pow2_monotone(a, (b - 1) as nat);
    }
}

/// What the message-processing loop does with an incoming message.
#[derive(Debug)]
pub enum IncomingRoute {
    /// Hand the response to the request waiting for it
    Deliver(JsonRpcResponse),
    /// A response that no request waits for
    Unmatched(JsonRpcResponse),
    /// A server notification of the given kind
    Notify(NotificationKind, crate::messages::jsonrpc::JsonRpcNotification),
    /// A request from the server, which clients ignore
    IgnoreRequest,
}

/// The identifiers of the requests waiting for a response; each appears
/// once.
#[derive(Debug)]
pub struct PendingRequests {
    ids: Vec<String>,
}

impl PendingRequests {
    /// The identifiers, in the order they were registered.
    pub closed spec fn view_ids(self) -> Seq<Seq<char>> {
        self.ids@.map_values(|s: String| s@)
    }

    /// Each identifier appears once.
    pub open spec fn wf(self) -> bool {
        self.view_ids().no_duplicates()
    }

    /// No request is pending.
    pub fn new() -> (r: Self)
        ensures
            r.wf(),
            r.view_ids() == Seq::<Seq<char>>::empty(),
    {
        let r = PendingRequests { ids: Vec::new() };
        proof {
            assert(r.view_ids() =~= Seq::<Seq<char>>::empty());
        }
        r
    }

    /// The number of pending requests.
    pub fn len(&self) -> (r: usize)
        ensures
            r == self.view_ids().len(),
    {
        self.ids.len()
    }

    /// Whether a request with this identifier is pending.
    pub fn contains(&self, id: &str) -> (r: bool)
        ensures
            r == self.view_ids().contains(id@),
    {
        let mut i: usize = 0;
        while i < self.ids.len()
            invariant
                i <= self.ids@.len(),
                forall|j: int| 0 <= j < i ==> self.ids@[j]@ != id@,
            decreases self.ids@.len() - i,
        {
            if str_equal(self.ids[i].as_str(), id) {
                proof {
                    assert(self.view_ids()[i as int] == id@);
                }
                return true;
            }
            i = i + 1;
        }
        proof {
            if self.view_ids().contains(id@) {
                let j = choose|j: int| 0 <= j < self.view_ids().len() && self.view_ids()[j] == id@;
                assert(self.ids@[j]@ == id@);
            }
        }
        false
    }

    /// Registers a request as pending; an identifier already pending is not
    /// added twice.
    pub fn register(&mut self, id: &str)
        requires
            old(self).wf(),
        ensures
            final(self).wf(),
            final(self).view_ids().to_set() == old(self).view_ids().to_set().insert(id@),
    {
        if !self.contains(id) {
            let ghost before = self.view_ids();
            self.ids.push(owned(id));
            proof {
                assert(self.view_ids() =~= before.push(id@));
                assert(self.view_ids().to_set() =~= before.to_set().insert(id@)) by {
                    assert forall|x: Seq<char>| self.view_ids().to_set().contains(x) <==> before.to_set().insert(id@).contains(x) by {
                        if x == id@ {
                            assert(self.view_ids()[before.len() as int] == x);
                        } else if before.contains(x) {
                            let j = choose|j: int| 0 <= j < before.len() && before[j] == x;
                            assert(self.view_ids()[j] == x);
                        }
                    }
                }
                assert(self.view_ids().no_duplicates());
            }
        }
    }

    /// Removes a pending request and tells whether it was pending.
    pub fn take(&mut self, id: &str) -> (found: bool)
        requires
            old(self).wf(),
        ensures
            final(self).wf(),
            found == old(self).view_ids().contains(id@),
            final(self).view_ids().to_set() == old(self).view_ids().to_set().remove(id@),
    {
        let ghost before = self.view_ids();
        let mut i: usize = 0;
        while i < self.ids.len()
            invariant
                i <= self.ids@.len(),
                self.view_ids() == before,
                before == old(self).view_ids(),
                before.no_duplicates(),
                forall|j: int| 0 <= j < i ==> self.ids@[j]@ != id@,
            decreases self.ids@.len() - i,
        {
            if str_equal(self.ids[i].as_str(), id) {
                let ghost at = i as int;
                let ghost old_ids = self.ids@;
                self.ids.remove(i);
                proof {
                    assert(before[at] == id@);
                    assert(before.contains(id@));
                    assert(self.view_ids() =~= before.remove(at));
                    assert forall|x: Seq<char>| self.view_ids().to_set().contains(x) <==> before.to_set().remove(id@).contains(x) by {
                        if self.view_ids().contains(x) {
                            let j = choose|j: int| 0 <= j < self.view_ids().len() && self.view_ids()[j] == x;
                            if j < at {
                                assert(before[j] == x);
                            } else {
                                assert(before[j + 1] == x);
                            }
                            assert(x != id@);
                        }
                        if before.contains(x) && x != id@ {
                            let j = choose|j: int| 0 <= j < before.len() && before[j] == x;
                            assert(j != at);
                            if j < at {
                                assert(self.view_ids()[j] == x);
                            } else {
                                assert(self.view_ids()[j - 1] == x);
                            }
                        }
                    }
                    assert(self.view_ids().to_set() =~= before.to_set().remove(id@));
                    assert(self.view_ids().no_duplicates());
                }
                return true;
            }
            i = i + 1;
        }
        proof {
            if before.contains(id@) {
                let j = choose|j: int| 0 <= j < before.len() && before[j] == id@;
                assert(self.ids@[j]@ == id@);
            }
            assert(before.to_set().remove(id@) =~= before.to_set());
        }
        false
    }

    /// Routes an incoming message: a response goes to the request waiting
    /// for it, which stops waiting; a notification goes to the handler for
    /// its kind; a request from the server is ignored.
    pub fn route(&mut self, message: JsonRpcMessage) -> (r: IncomingRoute)
        requires
            old(self).wf(),
        ensures
            final(self).wf(),
            match message {
                JsonRpcMessage::Response(resp) => {
                    let key = request_id_text(resp.id);
                    &&& final(self).view_ids().to_set() == old(self).view_ids().to_set().remove(key)
                    &&& (old(self).view_ids().contains(key) ==> r == IncomingRoute::Deliver(resp))
                    &&& (!old(self).view_ids().contains(key) ==> r == IncomingRoute::Unmatched(resp))
                },
                JsonRpcMessage::Notification(n) => r == IncomingRoute::Notify(notification_kind_of(n.method@), n)
                    && final(self).view_ids() == old(self).view_ids(),
                JsonRpcMessage::Request(_) => r is IgnoreRequest && final(self).view_ids() == old(self).view_ids(),
            },
    {
        match message {
            JsonRpcMessage::Response(resp) => {
                let key = resp.id.to_string();
                if self.take(key.as_str()) {
                    IncomingRoute::Deliver(resp)
                } else {
                    IncomingRoute::Unmatched(resp)
                }
            },
            JsonRpcMessage::Notification(n) => {
                let k = notification_kind(n.method.as_str());
                IncomingRoute::Notify(k, n)
            },
            JsonRpcMessage::Request(_) => IncomingRoute::IgnoreRequest,
        }
    }
}

/// A response that was delivered is no longer awaited: routing the same
/// response again finds no request for it.
pub proof fn lemma_delivered_not_pending(before: PendingRequests, after: PendingRequests, key: Seq<char>)
    requires
        after.view_ids().to_set() == before.view_ids().to_set().remove(key),
    ensures
        !after.view_ids().contains(key),
{
    if after.view_ids().contains(key) {
        let j = choose|j: int| 0 <= j < after.view_ids().len() && after.view_ids()[j] == key;
        assert(after.view_ids().to_set().contains(key));
    }
}

/// The capabilities the client announces: notification of changed tool,
/// resource and prompt lists, and resource subscriptions.
pub fn client_capabilities() -> (r: Capabilities)
    ensures
        r.standard.tools == Some(ToolCapabilities { list_changed: Some(true) }),
        r.standard.resources == Some(ResourceCapabilities { subscribe: Some(true), list_changed: Some(true) }),
        r.standard.prompts == Some(PromptCapabilities { list_changed: Some(true) }),
        r.standard.sampling is None,
        r.standard.logging is None,
        r.standard.roots is None,
        r.custom == JsonObject::Nil,
{
    Capabilities {
        standard: StandardCapabilities {
            tools: Some(ToolCapabilities { list_changed: Some(true) }),
            resources: Some(ResourceCapabilities { subscribe: Some(true), list_changed: Some(true) }),
            prompts: Some(PromptCapabilities { list_changed: Some(true) }),
            sampling: None,
            logging: None,
            roots: None,
        },
        custom: JsonObject::Nil,
    }
}

/// The request that opens a session: the current protocol version, the
/// client's capabilities and its description.
pub fn initialization_request(client_info: Implementation) -> (r: InitializeRequest)
    ensures
        r.protocol_version == ProtocolVersion::V2025_03_26,
        r.capabilities.standard.tools == Some(ToolCapabilities { list_changed: Some(true) }),
        r.capabilities.standard.resources == Some(ResourceCapabilities { subscribe: Some(true), list_changed: Some(true) }),
        r.capabilities.standard.prompts == Some(PromptCapabilities { list_changed: Some(true) }),
        r.capabilities.standard.sampling is None,
        r.capabilities.standard.logging is None,
        r.capabilities.standard.roots is None,
        r.capabilities.custom == JsonObject::Nil,
        r.client_info == client_info,
{
    InitializeRequest { protocol_version: ProtocolVersion::default(), capabilities: client_capabilities(), client_info }
}

/// The result of the answer to initialization; an answer without one
/// means initialization failed.
pub fn initialize_result(result: Option<JsonValue>) -> (r: Result<JsonValue, McpError>)
    ensures
        match result {
            Some(v) => r == Ok::<JsonValue, McpError>(v),
            None => r matches Err(McpError::Protocol(ProtocolError::InitializationFailed { reason }))
                && reason@ == "Missing result in initialize response"@,
        },
{
    match result {
        Some(v) => Ok(v),
        None => Err(McpError::Protocol(ProtocolError::InitializationFailed {
            reason: owned("Missing result in initialize response"),
        })),
    }
}

/// A request with the identifier for the given counter value.
pub fn new_request(counter: u64, method: &str, params: JsonValue) -> (r: JsonRpcRequest)
    ensures
        r.jsonrpc@ == "2.0"@,
        r.id matches RequestId::String(s) && s@ == "req_"@ + nat_decimal(counter as nat),
        r.method@ == method@,
        r.params == Some(params),
{
    JsonRpcRequest {
        jsonrpc: owned("2.0"),
        id: RequestId::String(request_id_for(counter)),
        method: owned(method),
        params: Some(params),
    }
}

/// The reason given for blocking, or the default one.
pub open spec fn block_reason(result: InterceptionResult, default: Seq<char>) -> Seq<char> {
    match result.reasoning {
        Some(r) => r@,
        None => default,
    }
}

/// The request to send after the interceptors saw it: refused when they
/// block it; their request when they give one back; the original when
/// they give back another kind of message.
pub fn request_after_interception(original: JsonRpcRequest, result: InterceptionResult) -> (r: Result<JsonRpcRequest, McpError>)
    ensures
        result.block ==> (r matches Err(McpError::Protocol(ProtocolError::RequestBlocked { reason }))
            && reason@ == block_reason(result, "Request blocked by interceptor"@)),
        !result.block ==> match result.message {
            JsonRpcMessage::Request(q) => r == Ok::<JsonRpcRequest, McpError>(q),
            _ => r == Ok::<JsonRpcRequest, McpError>(original),
        },
{
    if result.block {
        let reason = match result.reasoning {
            Some(t) => t,
            None => owned("Request blocked by interceptor"),
        };
        return Err(McpError::Protocol(ProtocolError::RequestBlocked { reason }));
    }
    match result.message {
        JsonRpcMessage::Request(q) => Ok(q),
        _ => Ok(original),
    }
}

/// The response to hand over after the interceptors saw it: refused when
/// they block it; their response when they give one back; the original
/// when they give back another kind of message.
pub fn response_after_interception(original: JsonRpcResponse, result: InterceptionResult) -> (r: Result<JsonRpcResponse, McpError>)
    ensures
        result.block ==> (r matches Err(McpError::Protocol(ProtocolError::ResponseBlocked { reason }))
            && reason@ == block_reason(result, "Response blocked by interceptor"@)),
        !result.block ==> match result.message {
            JsonRpcMessage::Response(q) => r == Ok::<JsonRpcResponse, McpError>(q),
            _ => r == Ok::<JsonRpcResponse, McpError>(original),
        },
{
    if result.block {
        let reason = match result.reasoning {
            Some(t) => t,
            None => owned("Response blocked by interceptor"),
        };
        return Err(McpError::Protocol(ProtocolError::ResponseBlocked { reason }));
    }
    match result.message {
        JsonRpcMessage::Response(q) => Ok(q),
        _ => Ok(original),
    }
}

} // verus!
