//! The proxy between an MCP client and a server: which server it reaches,
//! from the command line, and how it relays and logs the lines it passes.
use vstd::prelude::*;
use crate::common::TransportType;
use crate::text::{owned, push_str, str_equal, trim, trim_ws};

verus! {

/// The server a proxy reaches.
#[derive(Debug)]
pub enum TransportConfig {
    /// A local command, possibly run through the shell
    Stdio { command: String, use_shell: bool },
    /// An HTTP+SSE server
    HttpSse { url: String, api_key: Option<String> },
    /// A Streamable HTTP server
    HttpStream { url: String, api_key: Option<String> },
}

/// The message for a command line that does not name a server properly.
pub open spec fn cli_problem(transport: Seq<char>, command: Option<String>, url: Option<String>) -> Option<Seq<char>> {
    if transport == "stdio"@ {
        if command is None { Some("--command is required for stdio transport"@) } else { None }
    } else if transport == "http-sse"@ {
        if url is None { Some("--url is required for http-sse transport"@) } else { None }
    } else if transport == "http-stream"@ {
        if url is None { Some("--url is required for http-stream transport"@) } else { None }
    } else {
        Some("Invalid transport type: "@ + transport + ". Must be one of: stdio, http-sse, http-stream"@)
    }
}

impl TransportConfig {
    /// The kind of transport.
    pub fn transport_type(&self) -> (r: TransportType)
        ensures
            r == match *self {
                TransportConfig::Stdio { .. } => TransportType::Stdio,
                TransportConfig::HttpSse { .. } => TransportType::HttpSse,
                TransportConfig::HttpStream { .. } => TransportType::HttpStream,
            },
    {
        match self {
            TransportConfig::Stdio { .. } => TransportType::Stdio,
            TransportConfig::HttpSse { .. } => TransportType::HttpSse,
            TransportConfig::HttpStream { .. } => TransportType::HttpStream,
        }
    }

    /// What the proxy reaches: the command or the URL.
    pub fn display_target(&self) -> (r: String)
        ensures
            r@ == match *self {
                TransportConfig::Stdio { command, .. } => command@,
                TransportConfig::HttpSse { url, .. } => url@,
                TransportConfig::HttpStream { url, .. } => url@,
            },
    {
        match self {
            TransportConfig::Stdio { command, .. } => command.clone(),
            TransportConfig::HttpSse { url, .. } => url.clone(),
            TransportConfig::HttpStream { url, .. } => url.clone(),
        }
    }

    /// The server named on the command line: a command for "stdio", a URL
    /// (and a key) for "http-sse" and "http-stream"; the message of the
    /// problem otherwise.
    pub fn from_cli_args(transport: &str, command: Option<String>, url: Option<String>, use_shell: bool,
        api_key: Option<String>) -> (r: Result<Self, String>)
        ensures
            match cli_problem(transport@, command, url) {
                Some(m) => r matches Err(e) && e@ == m,
                None => r is Ok && if transport@ == "stdio"@ {
                    r == Ok::<TransportConfig, String>(TransportConfig::Stdio { command: command->0, use_shell })
                } else if transport@ == "http-sse"@ {
                    r == Ok::<TransportConfig, String>(TransportConfig::HttpSse { url: url->0, api_key })
                } else {
                    r == Ok::<TransportConfig, String>(TransportConfig::HttpStream { url: url->0, api_key })
                },
            },
    {
        if str_equal(transport, "stdio") {
            match command {
                Some(command) => Ok(TransportConfig::Stdio { command, use_shell }),
                None => Err(owned("--command is required for stdio transport")),
            }
        } else if str_equal(transport, "http-sse") {
            match url {
                Some(url) => Ok(TransportConfig::HttpSse { url, api_key }),
                None => Err(owned("--url is required for http-sse transport")),
            }
        } else if str_equal(transport, "http-stream") {
            match url {
                Some(url) => Ok(TransportConfig::HttpStream { url, api_key }),
                None => Err(owned("--url is required for http-stream transport")),
            }
        } else {
            let mut m = owned("Invalid transport type: ");
            push_str(&mut m, transport);
            push_str(&mut m, ". Must be one of: stdio, http-sse, http-stream");
            Err(m)
        }
    }
}

/// The log line for a request passed to the server.
pub fn request_log_text(content: &str, modified: bool) -> (r: String)
    ensures
        r@ == (if modified { "→ [MODIFIED]"@ } else { "→"@ }) + " "@ + trim_ws(content@),
{
    let mut r = if modified { owned("→ [MODIFIED]") } else { owned("→") };
    push_str(&mut r, " ");
    let t = trim(content);
    push_str(&mut r, t.as_str());
    r
}

/// The log line for a response passed to the client.
pub fn response_log_text(content: &str, modified: bool) -> (r: String)
    ensures
        r@ == (if modified { "← [MODIFIED]"@ } else { "←"@ }) + " "@ + trim_ws(content@),
{
    let mut r = if modified { owned("← [MODIFIED]") } else { owned("←") };
    push_str(&mut r, " ");
    let t = trim(content);
    push_str(&mut r, t.as_str());
    r
}

/// The log line for what the server wrote to its error stream.
pub fn error_log_text(content: &str) -> (r: String)
    ensures
        r@ == "stderr: "@ + trim_ws(content@),
{
    let mut r = owned("stderr: ");
    let t = trim(content);
    push_str(&mut r, t.as_str());
    r
}

/// The message with which a line blocked by the interceptors is refused.
pub fn blocked_line_error(reasoning: Option<&str>) -> (r: String)
    ensures
        r@ == "Message blocked: "@ + match reasoning {
            Some(t) => t@,
            None => Seq::empty(),
        },
{
    let mut r = owned("Message blocked: ");
    match reasoning {
        Some(t) => push_str(&mut r, t),
        None => {},
    }
    proof {
        assert(r@ =~= "Message blocked: "@ + match reasoning {
            Some(t) => t@,
            None => Seq::<char>::empty(),
        });
    }
    r
}

/// The line relayed for a message the interceptors passed: its JSON text
/// and a line feed.
pub fn relay_line(json_text: &str) -> (r: String)
    ensures
        r@ == json_text@ + "\n"@,
{
    let mut r = owned(json_text);
    push_str(&mut r, "\n");
    r
}

/// The text that is read as a message: the line without surrounding
/// whitespace.
pub fn message_text(line: &str) -> (r: String)
    ensures
        r@ == trim_ws(line@),
{
    trim(line)
}

} // verus!
