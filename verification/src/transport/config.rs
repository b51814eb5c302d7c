//! Transport configuration for all MCP transport types, with the checks that
//! each configuration must pass before a transport is built from it.
use vstd::prelude::*;
use vstd::string::StrSliceExecFns;
use std::time::Duration;
use crate::error::{ConfigError, McpError};
use crate::strmap::StringMap;
use crate::text::{owned, push_str, str_equal};
use crate::time::{duration_from_secs, duration_millis, duration_of_secs};
use crate::weburl::{WebUrl, url_parse};

verus! {

/// Whether `e` is the configuration error "invalid value" with the given
/// parameter, value and reason.
pub open spec fn is_invalid_value(e: McpError, parameter: Seq<char>, value: Seq<char>, reason: Seq<char>) -> bool {
    e matches McpError::Config(ConfigError::InvalidValue { parameter: p, value: v, reason: r })
        && p@ == parameter && v@ == value && r@ == reason
}

/// Whether `e` is the configuration error "missing parameter" for `parameter`.
pub open spec fn is_missing_parameter(e: McpError, parameter: Seq<char>) -> bool {
    e matches McpError::Config(ConfigError::MissingParameter { parameter: p }) && p@ == parameter
}

/// The configuration error "invalid value".
fn invalid_value(parameter: &str, value: String, reason: &str) -> (e: McpError)
    ensures
        is_invalid_value(e, parameter@, value@, reason@),
{
    McpError::Config(ConfigError::InvalidValue {
        parameter: owned(parameter),
        value,
        reason: owned(reason),
    })
}

/// Whether a string is empty.
fn is_empty(s: &String) -> (r: bool)
    ensures
        r == (s@.len() == 0),
{
    s.as_str().unicode_len() == 0
}

/// `Path::exists` on `path`: whether something exists there on disk.
/// Nothing is claimed of the answer, which depends on the file system.
#[verifier::external_body]
fn path_exists(path: &str) -> (r: bool) {
    std::path::Path::new(path).exists()
}

/// Transport configuration, one variant per transport type.
#[derive(Debug)]
pub enum TransportConfig {
    /// Local process communication via stdio
    Stdio(StdioConfig),
    /// Remote HTTP server with Server-Sent Events
    HttpSse(HttpSseConfig),
    /// Full-duplex HTTP streaming
    HttpStream(HttpStreamConfig),
}

/// The name of each transport type.
pub open spec fn transport_type_name(c: TransportConfig) -> Seq<char> {
    match c {
        TransportConfig::Stdio(_) => "stdio"@,
        TransportConfig::HttpSse(_) => "http-sse"@,
        TransportConfig::HttpStream(_) => "http-stream"@,
    }
}

/// The error for a base URL that does not parse.
pub open spec fn is_bad_base_url(e: McpError, text: Seq<char>, message: Seq<char>) -> bool {
    is_invalid_value(e, "base_url"@, text, "Invalid URL: "@ + message)
}

/// The configuration error for a base URL that does not parse.
fn bad_base_url(text: &str, message: String) -> (e: McpError)
    ensures
        is_bad_base_url(e, text@, message@),
{
    let mut reason = owned("Invalid URL: ");
    push_str(&mut reason, message.as_str());
    McpError::Config(ConfigError::InvalidValue {
        parameter: owned("base_url"),
        value: owned(text),
        reason,
    })
}

impl TransportConfig {
    /// A stdio configuration running `command` with `args`, a 30 second
    /// timeout, no working directory and no extra environment.
    pub fn stdio(command: &str, args: &[&str]) -> (r: Self)
        ensures
            r matches TransportConfig::Stdio(c) && c.command@ == command@
                && c.args@.len() == args@.len()
                && (forall|i: int| 0 <= i < args@.len() ==> #[trigger] c.args@[i]@ == args@[i]@)
                && c.working_dir is None
                && duration_millis(c.timeout) == 30000
                && c.environment == StringMap::Nil,
    {
        let mut v: Vec<String> = Vec::new();
        let mut i: usize = 0;
        while i < args.len()
            invariant
                i <= args@.len(),
                v@.len() == i,
                forall|j: int| 0 <= j < i ==> #[trigger] v@[j]@ == args@[j]@,
            decreases args@.len() - i,
        {
            v.push(owned(args[i]));
            i = i + 1;
        }
        TransportConfig::Stdio(StdioConfig {
            command: owned(command),
            args: v,
            working_dir: None,
            timeout: duration_from_secs(30),
            environment: StringMap::Nil,
        })
    }

    /// An HTTP+SSE configuration for `base_url`, with a 60 second timeout,
    /// no extra headers and no authentication; an error when the URL does
    /// not parse.
    pub fn http_sse(base_url: &str) -> (r: Result<Self, McpError>)
        ensures
            match url_parse(base_url@) {
                Ok(p) => r matches Ok(TransportConfig::HttpSse(c)) && c.base_url.text() == p.0
                    && c.base_url.scheme_text() == p.1
                    && duration_millis(c.timeout) == 60000
                    && c.headers == StringMap::Nil
                    && c.auth is None,
                Err(m) => r matches Err(e) && is_bad_base_url(e, base_url@, m),
            },
    {
        match WebUrl::parse(base_url) {
            Ok(url) => Ok(TransportConfig::HttpSse(HttpSseConfig {
                base_url: url,
                timeout: duration_from_secs(60),
                headers: StringMap::Nil,
                auth: None,
            })),
            Err(message) => Err(bad_base_url(base_url, message)),
        }
    }

    /// An HTTP streaming configuration for `base_url`, with a 300 second
    /// timeout, no extra headers, no authentication, compression on and a
    /// flow control window of 65536; an error when the URL does not parse.
    pub fn http_stream(base_url: &str) -> (r: Result<Self, McpError>)
        ensures
            match url_parse(base_url@) {
                Ok(p) => r matches Ok(TransportConfig::HttpStream(c)) && c.base_url.text() == p.0
                    && c.base_url.scheme_text() == p.1
                    && duration_millis(c.timeout) == 300000
                    && c.headers == StringMap::Nil
                    && c.auth is None
                    && c.compression
                    && c.flow_control_window == 65536,
                Err(m) => r matches Err(e) && is_bad_base_url(e, base_url@, m),
            },
    {
        match WebUrl::parse(base_url) {
            Ok(url) => Ok(TransportConfig::HttpStream(HttpStreamConfig {
                base_url: url,
                timeout: duration_from_secs(300),
                headers: StringMap::Nil,
                auth: None,
                compression: true,
                flow_control_window: 65536,
            })),
            Err(message) => Err(bad_base_url(base_url, message)),
        }
    }

    /// The name of this transport type: "stdio", "http-sse" or "http-stream".
    pub fn transport_type(&self) -> (r: &'static str)
        ensures
            r@ == transport_type_name(*self),
    {
        match self {
            TransportConfig::Stdio(_) => "stdio",
            TransportConfig::HttpSse(_) => "http-sse",
            TransportConfig::HttpStream(_) => "http-stream",
        }
    }

    /// Validates the configuration of whichever transport this is.
    pub fn validate(&self) -> (r: Result<(), McpError>)
        ensures
            match *self {
                TransportConfig::Stdio(c) => stdio_outcome(c, r),
                TransportConfig::HttpSse(c) => outcome_matches(http_sse_problem(c), r),
                TransportConfig::HttpStream(c) => outcome_matches(http_stream_problem(c), r),
            },
    {
        match self {
            TransportConfig::Stdio(c) => c.validate(),
            TransportConfig::HttpSse(c) => c.validate(),
            TransportConfig::HttpStream(c) => c.validate(),
        }
    }
}

/// Whether a check's outcome agrees with the problem it should report: none
/// gives `Ok`, and a problem (parameter, value, reason) gives that
/// "invalid value" error.
pub open spec fn outcome_matches(problem: Option<(Seq<char>, Seq<char>, Seq<char>)>, r: Result<(), McpError>) -> bool {
    match problem {
        None => r is Ok,
        Some(p) => r matches Err(e) && is_invalid_value(e, p.0, p.1, p.2),
    }
}

/// Configuration for stdio (local process) transport.
#[derive(Debug)]
pub struct StdioConfig {
    /// Command to execute (e.g., "python", "/usr/bin/node")
    pub command: String,
    /// Arguments to pass to the command
    pub args: Vec<String>,
    /// Working directory for the process (optional)
    pub working_dir: Option<String>,
    /// Timeout for process operations
    pub timeout: Duration,
    /// Environment variables to set for the process
    pub environment: StringMap,
}

/// What checking a stdio configuration gives, once it is known whether
/// its working directory exists.
pub open spec fn stdio_check(c: StdioConfig, working_dir_exists: bool, r: Result<(), McpError>) -> bool {
    if c.command@.len() == 0 {
        r matches Err(e) && is_missing_parameter(e, "command"@)
    } else {
        match c.working_dir {
            None => r is Ok,
            Some(dir) => if working_dir_exists {
                r is Ok
            } else {
                r matches Err(e) && is_invalid_value(e, "working_dir"@, dir@, "Directory does not exist"@)
            },
        }
    }
}

/// What holds of validating a stdio configuration whatever the file system
/// says of its working directory.
pub open spec fn stdio_outcome(c: StdioConfig, r: Result<(), McpError>) -> bool {
    stdio_check(c, true, r) || stdio_check(c, false, r)
}

impl StdioConfig {
    /// A configuration running `command` with no arguments, no working
    /// directory, a 30 second timeout and no extra environment.
    pub fn new(command: &str) -> (r: Self)
        ensures
            r.command@ == command@,
            r.args@.len() == 0,
            r.working_dir is None,
            r.timeout == duration_of_secs(30),
            duration_millis(r.timeout) == 30000,
            r.environment == StringMap::Nil,
    {
        StdioConfig {
            command: owned(command),
            args: Vec::new(),
            working_dir: None,
            timeout: duration_from_secs(30),
            environment: StringMap::Nil,
        }
    }

    /// The configuration with `arg` added after the other arguments.
    pub fn arg(self, arg: &str) -> (r: Self)
        ensures
            r.args@.len() == self.args@.len() + 1,
            forall|i: int| 0 <= i < self.args@.len() ==> #[trigger] r.args@[i] == self.args@[i],
            r.args@.last()@ == arg@,
            r.command == self.command,
            r.working_dir == self.working_dir,
            r.timeout == self.timeout,
            r.environment == self.environment,
    {
        let mut c = self;
        c.args.push(owned(arg));
        c
    }

    /// The configuration with `args` added, in order, after the other
    /// arguments.
    pub fn args(self, args: &[&str]) -> (r: Self)
        ensures
            r.args@.len() == self.args@.len() + args@.len(),
            forall|i: int| 0 <= i < self.args@.len() ==> #[trigger] r.args@[i] == self.args@[i],
            forall|i: int| 0 <= i < args@.len() ==> #[trigger] r.args@[self.args@.len() + i]@ == args@[i]@,
            r.command == self.command,
            r.working_dir == self.working_dir,
            r.timeout == self.timeout,
            r.environment == self.environment,
    {
        let mut c = self;
        let ghost before = c.args@;
        let mut i: usize = 0;
        while i < args.len()
            invariant
                i <= args@.len(),
                c.args@.len() == before.len() + i,
                forall|j: int| 0 <= j < before.len() ==> #[trigger] c.args@[j] == before[j],
                forall|j: int| 0 <= j < i ==> #[trigger] c.args@[before.len() + j]@ == args@[j]@,
                c.command == self.command,
                c.working_dir == self.working_dir,
                c.timeout == self.timeout,
                c.environment == self.environment,
                before == self.args@,
            decreases args@.len() - i,
        {
            c.args.push(owned(args[i]));
            i = i + 1;
        }
        c
    }

    /// The configuration with the given working directory.
    pub fn working_dir(self, dir: &str) -> (r: Self)
        ensures
            r.working_dir matches Some(d) && d@ == dir@,
            r.command == self.command,
            r.args == self.args,
            r.timeout == self.timeout,
            r.environment == self.environment,
    {
        let mut c = self;
        c.working_dir = Some(owned(dir));
        c
    }

    /// The configuration with the given timeout.
    pub fn timeout(self, timeout: Duration) -> (r: Self)
        ensures
            r == (StdioConfig { timeout, ..self }),
    {
        let mut c = self;
        c.timeout = timeout;
        c
    }

    /// The configuration with environment variable `key` set to `value`.
    pub fn env(self, key: &str, value: &str) -> (r: Self)
        ensures
            r.environment.lookup(key@) == Some(value@),
            forall|k: Seq<char>| k != key@ ==> #[trigger] r.environment.lookup(k) == self.environment.lookup(k),
            r.command == self.command,
            r.args == self.args,
            r.working_dir == self.working_dir,
            r.timeout == self.timeout,
    {
        let mut c = self;
        let mut e = StringMap::Nil;
        std::mem::swap(&mut e, &mut c.environment);
        c.environment = e.insert(owned(key), owned(value));
        c
    }

    /// Checks the configuration given whether its working directory exists:
    /// the command must not be empty, and a working directory, if set, must
    /// exist.
    pub fn check(&self, working_dir_exists: bool) -> (r: Result<(), McpError>)
        ensures
            stdio_check(*self, working_dir_exists, r),
    {
        if is_empty(&self.command) {
            return Err(McpError::Config(ConfigError::MissingParameter { parameter: owned("command") }));
        }
        match &self.working_dir {
            None => Ok(()),
            Some(dir) => {
                if working_dir_exists {
                    Ok(())
                } else {
                    Err(invalid_value("working_dir", dir.clone(), "Directory does not exist"))
                }
            },
        }
    }

    /// Validates the configuration, looking up the working directory, if
    /// any, on disk.
    pub fn validate(&self) -> (r: Result<(), McpError>)
        ensures
            stdio_outcome(*self, r),
            self.command@.len() == 0 ==> stdio_check(*self, false, r),
            self.working_dir is None ==> stdio_check(*self, false, r),
    {
        let exists = match &self.working_dir {
            Some(dir) => path_exists(dir.as_str()),
            None => false,
        };
        self.check(exists)
    }
}

/// Configuration for HTTP+SSE (Server-Sent Events) transport.
#[derive(Debug)]
pub struct HttpSseConfig {
    /// Base URL for the MCP server
    pub base_url: WebUrl,
    /// Timeout for HTTP requests
    pub timeout: Duration,
    /// Additional HTTP headers to include
    pub headers: StringMap,
    /// Authentication configuration
    pub auth: Option<AuthConfig>,
}

/// The problem with a base URL: one whose scheme is neither http nor https.
pub open spec fn base_url_problem(u: WebUrl) -> Option<(Seq<char>, Seq<char>, Seq<char>)> {
    if u.scheme_text() != "http"@ && u.scheme_text() != "https"@ {
        Some(("base_url"@, u.text(), "URL must use http or https scheme"@))
    } else {
        None
    }
}

/// The first problem of an optional authentication configuration.
pub open spec fn optional_auth_problem(a: Option<AuthConfig>) -> Option<(Seq<char>, Seq<char>, Seq<char>)> {
    match a {
        None => None,
        Some(auth) => auth_problem(auth),
    }
}

/// The first problem of an HTTP+SSE configuration: its base URL, then its
/// authentication.
pub open spec fn http_sse_problem(c: HttpSseConfig) -> Option<(Seq<char>, Seq<char>, Seq<char>)> {
    if base_url_problem(c.base_url) is Some {
        base_url_problem(c.base_url)
    } else {
        optional_auth_problem(c.auth)
    }
}

/// Checks the scheme of a base URL.
fn check_base_url(u: &WebUrl) -> (r: Result<(), McpError>)
    ensures
        outcome_matches(base_url_problem(*u), r),
{
    let scheme = u.scheme();
    if !str_equal(scheme, "http") && !str_equal(scheme, "https") {
        Err(invalid_value("base_url", u.to_string(), "URL must use http or https scheme"))
    } else {
        Ok(())
    }
}

/// Checks an optional authentication configuration.
fn check_optional_auth(a: &Option<AuthConfig>) -> (r: Result<(), McpError>)
    ensures
        outcome_matches(optional_auth_problem(*a), r),
{
    match a {
        Some(auth) => auth.validate(),
        None => Ok(()),
    }
}

impl HttpSseConfig {
    /// A configuration for `base_url` with a 60 second timeout, no extra
    /// headers and no authentication.
    pub fn new(base_url: WebUrl) -> (r: Self)
        ensures
            r.base_url == base_url,
            r.timeout == duration_of_secs(60),
            duration_millis(r.timeout) == 60000,
            r.headers == StringMap::Nil,
            r.auth is None,
    {
        HttpSseConfig { base_url, timeout: duration_from_secs(60), headers: StringMap::Nil, auth: None }
    }

    /// The configuration with the given timeout.
    pub fn timeout(self, timeout: Duration) -> (r: Self)
        ensures
            r == (HttpSseConfig { timeout, ..self }),
    {
        let mut c = self;
        c.timeout = timeout;
        c
    }

    /// The configuration with HTTP header `key` set to `value`.
    pub fn header(self, key: &str, value: &str) -> (r: Self)
        ensures
            r.headers.lookup(key@) == Some(value@),
            forall|k: Seq<char>| k != key@ ==> #[trigger] r.headers.lookup(k) == self.headers.lookup(k),
            r.base_url == self.base_url,
            r.timeout == self.timeout,
            r.auth == self.auth,
    {
        let mut c = self;
        let mut h = StringMap::Nil;
        std::mem::swap(&mut h, &mut c.headers);
        c.headers = h.insert(owned(key), owned(value));
        c
    }

    /// The configuration with the given authentication.
    pub fn auth(self, auth: AuthConfig) -> (r: Self)
        ensures
            r == (HttpSseConfig { auth: Some(auth), ..self }),
    {
        let mut c = self;
        c.auth = Some(auth);
        c
    }

    /// Validates the configuration: the base URL must use http or https,
    /// and the authentication, if any, must be valid.
    pub fn validate(&self) -> (r: Result<(), McpError>)
        ensures
            outcome_matches(http_sse_problem(*self), r),
    {
        match check_base_url(&self.base_url) {
            Err(e) => Err(e),
            Ok(()) => check_optional_auth(&self.auth),
        }
    }
}

/// Configuration for HTTP streaming transport.
#[derive(Debug)]
pub struct HttpStreamConfig {
    /// Base URL for the MCP server
    pub base_url: WebUrl,
    /// Timeout for streaming operations
    pub timeout: Duration,
    /// Additional HTTP headers to include
    pub headers: StringMap,
    /// Authentication configuration
    pub auth: Option<AuthConfig>,
    /// Enable compression for the stream
    pub compression: bool,
    /// Flow control window size
    pub flow_control_window: u32,
}

/// The first problem of an HTTP streaming configuration: its base URL, then
/// its flow control window, then its authentication.
pub open spec fn http_stream_problem(c: HttpStreamConfig) -> Option<(Seq<char>, Seq<char>, Seq<char>)> {
    if base_url_problem(c.base_url) is Some {
        base_url_problem(c.base_url)
    } else if c.flow_control_window == 0 {
        Some(("flow_control_window"@, "0"@, "Flow control window must be greater than 0"@))
    } else {
        optional_auth_problem(c.auth)
    }
}

impl HttpStreamConfig {
    /// A configuration for `base_url` with a 300 second timeout, no extra
    /// headers, no authentication, compression on and a flow control window
    /// of 65536.
    pub fn new(base_url: WebUrl) -> (r: Self)
        ensures
            r.base_url == base_url,
            r.timeout == duration_of_secs(300),
            duration_millis(r.timeout) == 300000,
            r.headers == StringMap::Nil,
            r.auth is None,
            r.compression,
            r.flow_control_window == 65536,
    {
        HttpStreamConfig {
            base_url,
            timeout: duration_from_secs(300),
            headers: StringMap::Nil,
            auth: None,
            compression: true,
            flow_control_window: 65536,
        }
    }

    /// The configuration with the given timeout.
    pub fn timeout(self, timeout: Duration) -> (r: Self)
        ensures
            r == (HttpStreamConfig { timeout, ..self }),
    {
        let mut c = self;
        c.timeout = timeout;
        c
    }

    /// The configuration with HTTP header `key` set to `value`.
    pub fn header(self, key: &str, value: &str) -> (r: Self)
        ensures
            r.headers.lookup(key@) == Some(value@),
            forall|k: Seq<char>| k != key@ ==> #[trigger] r.headers.lookup(k) == self.headers.lookup(k),
            r.base_url == self.base_url,
            r.timeout == self.timeout,
            r.auth == self.auth,
            r.compression == self.compression,
            r.flow_control_window == self.flow_control_window,
    {
        let mut c = self;
        let mut h = StringMap::Nil;
        std::mem::swap(&mut h, &mut c.headers);
        c.headers = h.insert(owned(key), owned(value));
        c
    }

    /// The configuration with the given authentication.
    pub fn auth(self, auth: AuthConfig) -> (r: Self)
        ensures
            r == (HttpStreamConfig { auth: Some(auth), ..self }),
    {
        let mut c = self;
        c.auth = Some(auth);
        c
    }

    /// The configuration with compression switched on or off.
    pub fn compression(self, enabled: bool) -> (r: Self)
        ensures
            r == (HttpStreamConfig { compression: enabled, ..self }),
    {
        let mut c = self;
        c.compression = enabled;
        c
    }

    /// The configuration with the given flow control window size.
    pub fn flow_control_window(self, size: u32) -> (r: Self)
        ensures
            r == (HttpStreamConfig { flow_control_window: size, ..self }),
    {
        let mut c = self;
        c.flow_control_window = size;
        c
    }

    /// Validates the configuration: the base URL must use http or https,
    /// the flow control window must be positive, and the authentication, if
    /// any, must be valid.
    pub fn validate(&self) -> (r: Result<(), McpError>)
        ensures
            outcome_matches(http_stream_problem(*self), r),
    {
        match check_base_url(&self.base_url) {
            Err(e) => Err(e),
            Ok(()) => {
                if self.flow_control_window == 0 {
                    Err(invalid_value("flow_control_window", owned("0"), "Flow control window must be greater than 0"))
                } else {
                    check_optional_auth(&self.auth)
                }
            },
        }
    }
}

/// Authentication configuration for HTTP-based transports.
#[derive(Debug)]
pub enum AuthConfig {
    /// HTTP Basic Authentication
    Basic { username: String, password: String },
    /// Bearer token authentication
    Bearer { token: String },
    /// OAuth 2.0 authentication
    OAuth { client_id: String, client_secret: String, token_url: WebUrl, scope: Option<String> },
    /// Custom header-based authentication
    Header { name: String, value: String },
}

/// The problem with an authentication configuration, as (parameter, value,
/// reason): empty credentials, or an OAuth token URL that is not https.
pub open spec fn auth_problem(a: AuthConfig) -> Option<(Seq<char>, Seq<char>, Seq<char>)> {
    match a {
        AuthConfig::Basic { username, password } => if username@.len() == 0 || password@.len() == 0 {
            Some(("auth"@, "basic"@, "Username and password cannot be empty"@))
        } else {
            None
        },
        AuthConfig::Bearer { token } => if token@.len() == 0 {
            Some(("auth"@, "bearer"@, "Token cannot be empty"@))
        } else {
            None
        },
        AuthConfig::OAuth { client_id, client_secret, token_url, .. } => if client_id@.len() == 0
            || client_secret@.len() == 0 {
            Some(("auth"@, "oauth"@, "Client ID and secret cannot be empty"@))
        } else if token_url.scheme_text() != "https"@ {
            Some(("token_url"@, token_url.text(), "OAuth token URL must use HTTPS"@))
        } else {
            None
        },
        AuthConfig::Header { name, value } => if name@.len() == 0 || value@.len() == 0 {
            Some(("auth"@, "header"@, "Header name and value cannot be empty"@))
        } else {
            None
        },
    }
}

impl AuthConfig {
    /// HTTP Basic authentication with the given credentials.
    pub fn basic(username: &str, password: &str) -> (r: Self)
        ensures
            r matches AuthConfig::Basic { username: u, password: p } && u@ == username@ && p@ == password@,
    {
        AuthConfig::Basic { username: owned(username), password: owned(password) }
    }

    /// Bearer token authentication.
    pub fn bearer(token: &str) -> (r: Self)
        ensures
            r matches AuthConfig::Bearer { token: t } && t@ == token@,
    {
        AuthConfig::Bearer { token: owned(token) }
    }

    /// OAuth 2.0 authentication.
    pub fn oauth(client_id: &str, client_secret: &str, token_url: WebUrl, scope: Option<String>) -> (r: Self)
        ensures
            r matches AuthConfig::OAuth { client_id: i, client_secret: s, token_url: u, scope: sc }
                && i@ == client_id@ && s@ == client_secret@ && u == token_url && sc == scope,
    {
        AuthConfig::OAuth { client_id: owned(client_id), client_secret: owned(client_secret), token_url, scope }
    }

    /// Authentication by a custom header.
    pub fn header(name: &str, value: &str) -> (r: Self)
        ensures
            r matches AuthConfig::Header { name: n, value: v } && n@ == name@ && v@ == value@,
    {
        AuthConfig::Header { name: owned(name), value: owned(value) }
    }

    /// Validates the authentication configuration: credentials must not be
    /// empty, and an OAuth token URL must use https.
    pub fn validate(&self) -> (r: Result<(), McpError>)
        ensures
            outcome_matches(auth_problem(*self), r),
    {
        match self {
            AuthConfig::Basic { username, password } => {
                if is_empty(username) || is_empty(password) {
                    return Err(invalid_value("auth", owned("basic"), "Username and password cannot be empty"));
                }
            },
            AuthConfig::Bearer { token } => {
                if is_empty(token) {
                    return Err(invalid_value("auth", owned("bearer"), "Token cannot be empty"));
                }
            },
            AuthConfig::OAuth { client_id, client_secret, token_url, .. } => {
                if is_empty(client_id) || is_empty(client_secret) {
                    return Err(invalid_value("auth", owned("oauth"), "Client ID and secret cannot be empty"));
                }
                if !str_equal(token_url.scheme(), "https") {
                    return Err(invalid_value("token_url", token_url.to_string(), "OAuth token URL must use HTTPS"));
                }
            },
            AuthConfig::Header { name, value } => {
                if is_empty(name) || is_empty(value) {
                    return Err(invalid_value("auth", owned("header"), "Header name and value cannot be empty"));
                }
            },
        }
        Ok(())
    }
}

/// The formats a configuration file can be written in.
#[derive(Debug, Clone, Copy, PartialEq, Eq, Structural)]
pub enum ConfigFormat {
    Json,
    Yaml,
    Toml,
}

/// The format of a configuration file, chosen by its extension: .json,
/// .yaml or .yml, .toml; any other extension, or none, is refused with the
/// file's path.
pub fn config_format(path: &str, extension: Option<&str>) -> (r: Result<ConfigFormat, McpError>)
    ensures
        match extension {
            Some(e) => if e@ == "json"@ {
                r == Ok::<ConfigFormat, McpError>(ConfigFormat::Json)
            } else if e@ == "yaml"@ || e@ == "yml"@ {
                r == Ok::<ConfigFormat, McpError>(ConfigFormat::Yaml)
            } else if e@ == "toml"@ {
                r == Ok::<ConfigFormat, McpError>(ConfigFormat::Toml)
            } else {
                r matches Err(McpError::Config(ConfigError::InvalidFormat { path: p, reason })) && p@ == path@
                    && reason@ == "Unsupported file format. Use .json, .yaml, or .toml"@
            },
            None => r matches Err(McpError::Config(ConfigError::InvalidFormat { path: p, reason })) && p@ == path@
                && reason@ == "Unsupported file format. Use .json, .yaml, or .toml"@,
        },
{
    let known = match extension {
        Some(e) => if str_equal(e, "json") {
            Some(ConfigFormat::Json)
        } else if str_equal(e, "yaml") || str_equal(e, "yml") {
            Some(ConfigFormat::Yaml)
        } else if str_equal(e, "toml") {
            Some(ConfigFormat::Toml)
        } else {
            None
        },
        None => None,
    };
    match known {
        Some(f) => Ok(f),
        None => Err(McpError::Config(ConfigError::InvalidFormat {
            path: owned(path),
            reason: owned("Unsupported file format. Use .json, .yaml, or .toml"),
        })),
    }
}

/// The error for a configuration file that could not be read.
pub fn config_file_missing(path: &str) -> (r: McpError)
    ensures
        r matches McpError::Config(ConfigError::FileNotFound { path: p }) && p@ == path@,
{
    McpError::Config(ConfigError::FileNotFound { path: owned(path) })
}

/// The error for a configuration file whose text does not parse.
pub fn config_file_invalid(path: &str, reason: &str) -> (r: McpError)
    ensures
        r matches McpError::Config(ConfigError::InvalidFormat { path: p, reason: why }) && p@ == path@ && why@ == reason@,
{
    McpError::Config(ConfigError::InvalidFormat { path: owned(path), reason: owned(reason) })
}

} // verus!
