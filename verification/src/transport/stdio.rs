//! The decisions of the stdio transport: how the server process is
//! started, which lines of its output are messages, where responses go,
//! when the transport counts as connected, and what it reports about
//! itself. Starting the process and moving bytes is left to the caller.
use vstd::prelude::*;
use crate::client::{PendingRequests, notification_kind_of};
use crate::error::{McpError, TransportError};
use crate::json::{JsonObject, JsonValue, JsonView, json_u64_view, jview};
use crate::messages::jsonrpc::{JsonRpcMessage, JsonRpcRequest, JsonRpcResponse, request_id_text};
use crate::strmap::StringMap;
use crate::text::{owned, push_str, trim, trim_ws};
use crate::time::{duration_as_secs, duration_millis};
use crate::transport::TransportInfo;
use crate::transport::config::TransportConfig;

verus! {

/// How to start the server process.
#[derive(Debug)]
pub struct SpawnPlan {
    pub program: String,
    pub args: Vec<String>,
    pub working_dir: Option<String>,
    /// Environment variables to set, in order
    pub env: Vec<(String, String)>,
}

/// The stdio transport's error of the given kind.
pub open spec fn is_stdio_error(e: McpError, kind: nat, reason: Seq<char>) -> bool {
    match e {
        McpError::Transport(TransportError::InvalidConfig { transport_type, reason: r }) => kind == 0
            && transport_type@ == "stdio"@ && r@ == reason,
        McpError::Transport(TransportError::ConnectionError { transport_type, reason: r }) => kind == 1
            && transport_type@ == "stdio"@ && r@ == reason,
        McpError::Transport(TransportError::NotConnected { transport_type, reason: r }) => kind == 2
            && transport_type@ == "stdio"@ && r@ == reason,
        _ => false,
    }
}

/// What to do with a message read from the process.
#[derive(Debug)]
pub enum StdoutRoute {
    /// A response that a request is waiting for
    Deliver(JsonRpcResponse),
    /// Anything else: for the message handler
    Forward(JsonRpcMessage),
}

/// State of a transport that talks to a local process over its standard
/// streams.
#[derive(Debug)]
pub struct StdioTransport {
    pub config: TransportConfig,
    pub info: TransportInfo,
    /// Whether a process is running
    pub has_process: bool,
    /// Its process identifier, if known
    pub process_id: Option<u32>,
    /// Whether the message channels are open
    pub channels_open: bool,
    /// Requests waiting for a response
    pub pending: PendingRequests,
}

impl StdioTransport {
    /// A transport for the given configuration, not yet connected.
    pub fn new(config: TransportConfig) -> (r: Self)
        ensures
            r.config == config,
            r.info.transport_type@ == "stdio"@,
            !r.info.connected,
            !r.has_process,
            !r.channels_open,
            r.pending.wf(),
            r.pending.view_ids().len() == 0,
    {
        StdioTransport {
            config,
            info: TransportInfo::new("stdio"),
            has_process: false,
            process_id: None,
            channels_open: false,
            pending: PendingRequests::new(),
        }
    }

    /// How to start the server: its command, arguments, working directory
    /// and environment, for a stdio configuration; any other configuration
    /// is refused.
    pub fn spawn_plan(&self) -> (r: Result<SpawnPlan, McpError>)
        ensures
            match self.config {
                TransportConfig::Stdio(c) => r matches Ok(p) && p.program@ == c.command@
                    && p.args@.map_values(|a: String| a@) == c.args@.map_values(|a: String| a@)
                    && p.working_dir == c.working_dir
                    && p.env@.map_values(|e: (String, String)| (e.0@, e.1@)) == c.environment.pairs(),
                _ => r matches Err(e) && is_stdio_error(e, 0, "Invalid configuration type"@),
            },
    {
        match &self.config {
            TransportConfig::Stdio(c) => {
                let mut args: Vec<String> = Vec::new();
                let mut i: usize = 0;
                while i < c.args.len()
                    invariant
                        i <= c.args@.len(),
                        args@.len() == i,
                        forall|j: int| 0 <= j < i ==> #[trigger] args@[j]@ == c.args@[j]@,
                    decreases c.args@.len() - i,
                {
                    args.push(c.args[i].clone());
                    i = i + 1;
                }
                proof {
                    assert(args@.map_values(|a: String| a@) =~= c.args@.map_values(|a: String| a@));
                }
                let working_dir = match &c.working_dir {
                    Some(d) => Some(d.clone()),
                    None => None,
                };
                Ok(SpawnPlan { program: c.command.clone(), args, working_dir, env: c.environment.to_pairs() })
            },
            _ => Err(McpError::Transport(TransportError::InvalidConfig {
                transport_type: owned("stdio"),
                reason: owned("Invalid configuration type"),
            })),
        }
    }

    /// The error for a process that could not be started.
    pub fn spawn_failure(reason: &str) -> (e: McpError)
        ensures
            is_stdio_error(e, 1, "Failed to spawn process: "@ + reason@),
    {
        let mut r = owned("Failed to spawn process: ");
        push_str(&mut r, reason);
        McpError::Transport(TransportError::ConnectionError { transport_type: owned("stdio"), reason: r })
    }

    /// The error for a standard stream of the process that is not
    /// available ("stdin", "stdout" or "stderr").
    pub fn stream_unavailable(stream: &str) -> (e: McpError)
        ensures
            is_stdio_error(e, 1, "Failed to get "@ + stream@),
    {
        let mut r = owned("Failed to get ");
        push_str(&mut r, stream);
        McpError::Transport(TransportError::ConnectionError { transport_type: owned("stdio"), reason: r })
    }

    /// Records that the process runs and its streams are connected.
    pub fn on_spawned(&mut self, process_id: Option<u32>)
        ensures
            final(self).has_process,
            final(self).channels_open,
            final(self).process_id == process_id,
            final(self).info.connected,
            final(self).config == old(self).config,
            final(self).pending == old(self).pending,
    {
        self.has_process = true;
        self.channels_open = true;
        self.process_id = process_id;
        self.info.mark_connected();
    }

    /// Whether the transport is connected: marked so, with a running
    /// process and open channels.
    pub fn is_connected(&self) -> (r: bool)
        ensures
            r == (self.info.connected && self.has_process && self.channels_open),
    {
        self.info.connected && self.has_process && self.channels_open
    }

    /// The error for an operation on a transport that is not connected.
    pub fn not_connected() -> (e: McpError)
        ensures
            is_stdio_error(e, 2, "Transport not connected"@),
    {
        McpError::Transport(TransportError::NotConnected { transport_type: owned("stdio"), reason: owned("Transport not connected") })
    }

    /// Prepares to send a request: refused when not connected; otherwise
    /// the request waits for its response and is counted.
    pub fn begin_request(&mut self, request: &JsonRpcRequest) -> (r: Result<(), McpError>)
        requires
            old(self).pending.wf(),
            old(self).info.requests_sent < u64::MAX,
        ensures
            final(self).pending.wf(),
            !old(self).is_connected_spec() ==> (r matches Err(e) && is_stdio_error(e, 2, "Transport not connected"@))
                && *final(self) == *old(self),
            old(self).is_connected_spec() ==> r is Ok
                && final(self).pending.view_ids().to_set() == old(self).pending.view_ids().to_set().insert(request_id_text(request.id))
                && final(self).info.requests_sent == old(self).info.requests_sent + 1
                && final(self).config == old(self).config
                && final(self).is_connected_spec(),
    {
        if !self.is_connected() {
            return Err(Self::not_connected());
        }
        let id = request.id.to_string();
        self.pending.register(id.as_str());
        self.info.increment_requests_sent();
        Ok(())
    }

    /// Whether the transport is connected.
    pub open spec fn is_connected_spec(self) -> bool {
        self.info.connected && self.has_process && self.channels_open
    }

    /// Prepares to send a notification: refused when not connected;
    /// otherwise counted.
    pub fn begin_notification(&mut self) -> (r: Result<(), McpError>)
        requires
            old(self).info.notifications_sent < u64::MAX,
        ensures
            !old(self).is_connected_spec() ==> (r matches Err(e) && is_stdio_error(e, 2, "Transport not connected"@))
                && *final(self) == *old(self),
            old(self).is_connected_spec() ==> r is Ok
                && *final(self) == (StdioTransport {
                    info: TransportInfo { notifications_sent: (old(self).info.notifications_sent + 1) as u64, ..old(self).info },
                    ..*old(self)
                }),
    {
        if !self.is_connected() {
            return Err(Self::not_connected());
        }
        self.info.increment_notifications_sent();
        Ok(())
    }

    /// Counts a response that reached its request.
    pub fn on_response_received(&mut self)
        requires
            old(self).info.responses_received < u64::MAX,
        ensures
            *final(self) == (StdioTransport {
                info: TransportInfo { responses_received: (old(self).info.responses_received + 1) as u64, ..old(self).info },
                ..*old(self)
            }),
    {
        self.info.increment_responses_received();
    }

    /// The text of a line of the process's output that may be a message:
    /// the line trimmed of whitespace, unless nothing is left.
    pub fn stdout_line(line: &str) -> (r: Option<String>)
        ensures
            trim_ws(line@).len() == 0 ==> r is None,
            trim_ws(line@).len() > 0 ==> (r matches Some(t) && t@ == trim_ws(line@)),
    {
        let t = trim(line);
        if t.as_str().unicode_len() == 0 {
            None
        } else {
            Some(t)
        }
    }

    /// Where a message read from the process goes: a response that a
    /// request is waiting for goes to it, and stops being awaited; every
    /// other message goes to the message handler.
    pub fn route_stdout(&mut self, message: JsonRpcMessage) -> (r: StdoutRoute)
        requires
            old(self).pending.wf(),
        ensures
            final(self).pending.wf(),
            match message {
                JsonRpcMessage::Response(resp) => {
                    let key = request_id_text(resp.id);
                    &&& final(self).pending.view_ids().to_set() == old(self).pending.view_ids().to_set().remove(key)
                    &&& old(self).pending.view_ids().contains(key) ==> r == StdoutRoute::Deliver(resp)
                    &&& !old(self).pending.view_ids().contains(key) ==> r == StdoutRoute::Forward(message)
                },
                _ => r == StdoutRoute::Forward(message) && final(self).pending == old(self).pending,
            },
            final(self).info == old(self).info,
            final(self).config == old(self).config,
    {
        match message {
            JsonRpcMessage::Response(resp) => {
                let key = resp.id.to_string();
                if self.pending.take(key.as_str()) {
                    StdoutRoute::Deliver(resp)
                } else {
                    StdoutRoute::Forward(JsonRpcMessage::Response(resp))
                }
            },
            other => StdoutRoute::Forward(other),
        }
    }

    /// Counts a message handed to the caller: notifications are counted.
    pub fn on_message_received(&mut self, message: &JsonRpcMessage)
        requires
            old(self).info.notifications_received < u64::MAX,
        ensures
            *final(self) == (if message is Notification {
                StdioTransport {
                    info: TransportInfo { notifications_received: (old(self).info.notifications_received + 1) as u64, ..old(self).info },
                    ..*old(self)
                }
            } else {
                *old(self)
            }),
    {
        match message {
            JsonRpcMessage::Notification(_) => self.info.increment_notifications_received(),
            _ => {},
        }
    }

    /// Records that the transport is disconnected: channels closed, the
    /// process gone and no request waiting.
    pub fn on_disconnected(&mut self)
        ensures
            !final(self).is_connected_spec(),
            !final(self).info.connected,
            !final(self).has_process,
            !final(self).channels_open,
            final(self).pending.wf(),
            final(self).pending.view_ids().len() == 0,
            final(self).config == old(self).config,
    {
        self.channels_open = false;
        self.has_process = false;
        self.process_id = None;
        self.pending = PendingRequests::new();
        self.info.mark_disconnected();
    }

    /// The line written to the process for a serialized message.
    pub fn frame_outbound(json_line: &str) -> (r: String)
        ensures
            r@ == json_line@ + "\n"@,
    {
        let mut r = owned(json_line);
        push_str(&mut r, "\n");
        r
    }

    /// What the transport reports about itself: its counters, plus the
    /// command, arguments, working directory, timeout in seconds and
    /// number of environment variables of a stdio configuration, whether a
    /// process runs and its identifier.
    pub fn get_info(&self) -> (r: TransportInfo)
        requires
            match self.config {
                TransportConfig::Stdio(c) => c.environment.size() <= usize::MAX,
                _ => true,
            },
        ensures
            r.transport_type == self.info.transport_type,
            r.connected == self.info.connected,
            r.requests_sent == self.info.requests_sent,
            r.responses_received == self.info.responses_received,
            r.notifications_sent == self.info.notifications_sent,
            r.notifications_received == self.info.notifications_received,
            r.errors == self.info.errors,
            r.metadata.lookup("has_process"@) == Some(JsonValue::Bool(self.has_process)),
            match self.config {
                TransportConfig::Stdio(c) => {
                    &&& (r.metadata.lookup("command"@) matches Some(v) && jview(v) == JsonView::Str(c.command@))
                    &&& (r.metadata.lookup("args"@) matches Some(v) && jview(v) == JsonView::Array(c.args@.map_values(|a: String| JsonView::Str(a@))))
                    &&& (r.metadata.lookup("working_dir"@) matches Some(v) && jview(v) == match c.working_dir {
                        Some(d) => JsonView::Str(d@),
                        None => JsonView::Null,
                    })
                    &&& (r.metadata.lookup("timeout"@) matches Some(v) && jview(v) == json_u64_view((duration_millis(c.timeout) / 1000) as u64))
                    &&& (r.metadata.lookup("environment_vars"@) matches Some(v) && jview(v) == json_u64_view(c.environment.size() as u64))
                },
                _ => true,
            },
            match self.process_id {
                Some(pid) => r.metadata.lookup("process_id"@) matches Some(v) && jview(v) == JsonView::Int(pid as i64),
                None => r.metadata.lookup("process_id"@) == self.info.metadata.lookup("process_id"@),
            },
    {
        proof {
            // The keys are told apart by their first characters.
            reveal_strlit("command");
            reveal_strlit("args");
            reveal_strlit("working_dir");
            reveal_strlit("timeout");
            reveal_strlit("environment_vars");
            reveal_strlit("has_process");
            reveal_strlit("process_id");
            let keys = seq!["command"@, "args"@, "working_dir"@, "timeout"@, "environment_vars"@, "has_process"@, "process_id"@];
            assert forall|i: int, j: int| 0 <= i < j < 7 implies keys[i] != keys[j] by {
                assert(keys[i][0] != keys[j][0]);
            }
        }
        let mut info = TransportInfo {
            transport_type: self.info.transport_type.clone(),
            connected: self.info.connected,
            connected_since: self.info.connected_since,
            requests_sent: self.info.requests_sent,
            responses_received: self.info.responses_received,
            notifications_sent: self.info.notifications_sent,
            notifications_received: self.info.notifications_received,
            errors: self.info.errors,
            metadata: self.info.metadata.duplicate(),
        };
        match &self.config {
            TransportConfig::Stdio(c) => {
                info.add_metadata("command", JsonValue::String(c.command.clone()));
                let mut items: Vec<JsonValue> = Vec::new();
                let mut i: usize = 0;
                while i < c.args.len()
                    invariant
                        i <= c.args@.len(),
                        items@.len() == i,
                        forall|j: int| 0 <= j < i ==> #[trigger] jview(items@[j]) == JsonView::Str(c.args@[j]@),
                    decreases c.args@.len() - i,
                {
                    items.push(JsonValue::String(c.args[i].clone()));
                    i = i + 1;
                }
                let arr = JsonValue::array(items);
                proof {
                    lemma_aview_of_elements(arr->Array_0, items@);
                    assert(items@.map_values(|x: JsonValue| jview(x)) =~= c.args@.map_values(|a: String| JsonView::Str(a@)));
                }
                info.add_metadata("args", arr);
                let wd = match &c.working_dir {
                    Some(d) => JsonValue::String(d.clone()),
                    None => JsonValue::Null,
                };
                info.add_metadata("working_dir", wd);
                info.add_metadata("timeout", JsonValue::from_u64(duration_as_secs(&c.timeout)));
                info.add_metadata("environment_vars", JsonValue::from_u64(c.environment.len() as u64));
            },
            _ => {},
        }
        info.add_metadata("has_process", JsonValue::Bool(self.has_process));
        match self.process_id {
            Some(pid) => {
                info.add_metadata("process_id", JsonValue::Number(crate::json::JsonNumber::Int(pid as i64)));
            },
            None => {},
        }
        info
    }
}

/// The contents of an array's elements are the contents of its elements.
proof fn lemma_aview_of_elements(a: crate::json::JsonArray, items: Seq<JsonValue>)
    requires
        a.elements() == items,
    ensures
        crate::json::aview(a) == items.map_values(|x: JsonValue| jview(x)),
    decreases a,
{
    match a {
        crate::json::JsonArray::Nil => {
            assert(items.map_values(|x: JsonValue| jview(x)) =~= Seq::<JsonView>::empty());
        },
        crate::json::JsonArray::Cons(h, t) => {
            assert(t.elements() =~= items.drop_first());
            lemma_aview_of_elements(*t, items.drop_first());
            assert(items.map_values(|x: JsonValue| jview(x)) =~= seq![jview(*h)] + items.drop_first().map_values(|x: JsonValue| jview(x)));
        },
    }
}

} // verus!
