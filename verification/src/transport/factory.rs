//! Which transports this build offers, and the pieces of transport creation
//! that are computed from the configuration alone.
use vstd::prelude::*;
use vstd::string::StrSliceExecFns;
use crate::error::McpError;
use crate::text::{owned, push_char, push_str};
use crate::transport::config::{AuthConfig, TransportConfig, outcome_matches, http_stream_problem, http_sse_problem, stdio_outcome};
use crate::transport::http_stream::{HttpStreamTransport, opt_view};
use crate::transport::sse::{HttpSseTransport, is_config_error, is_local_host};
use crate::transport::stdio::StdioTransport;

verus! {

/// The base64 alphabet (standard, with `+` and `/`).
pub open spec fn b64_alphabet() -> Seq<char> {
    "ABCDEFGHIJKLMNOPQRSTUVWXYZabcdefghijklmnopqrstuvwxyz0123456789+/"@
}

/// The character for a 6-bit value.
pub open spec fn b64_char(v: int) -> char {
    if 0 <= v < 26 {
        ('A' as int + v) as char
    } else if 26 <= v < 52 {
        ('a' as int + (v - 26)) as char
    } else if 52 <= v < 62 {
        ('0' as int + (v - 52)) as char
    } else if v == 62 {
        '+'
    } else {
        '/'
    }
}

/// The base64 encoding of one group of up to three bytes: four characters,
/// with `=` where a group of fewer than three bytes has no data.
pub open spec fn b64_group(g: Seq<u8>) -> Seq<char>
    recommends
        1 <= g.len() <= 3,
{
    let b0 = g[0] as int;
    let b1 = if g.len() > 1 { g[1] as int } else { 0 };
    let b2 = if g.len() > 2 { g[2] as int } else { 0 };
    let n = b0 * 65536 + b1 * 256 + b2;
    seq![
        b64_char(n / 262144),
        b64_char((n / 4096) % 64),
        if g.len() > 1 { b64_char((n / 64) % 64) } else { '=' },
        if g.len() > 2 { b64_char(n % 64) } else { '=' },
    ]
}

/// The standard base64 encoding of `input`, with `=` padding.
pub open spec fn b64_encode(input: Seq<u8>) -> Seq<char>
    decreases input.len(),
{
    if input.len() == 0 {
        Seq::empty()
    } else if input.len() <= 3 {
        b64_group(input)
    } else {
        b64_group(input.take(3)) + b64_encode(input.skip(3))
    }
}

/// How many `=` end the encoding of `n` bytes: none when `n` is a
/// multiple of three, else one or two.
pub open spec fn b64_pad(n: nat) -> nat {
    ((3 - n % 3) % 3) as nat
}

/// The character of a 6-bit value is in the alphabet, and is not `=`.
proof fn lemma_b64_char_in_alphabet(v: int)
    requires
        0 <= v < 64,
    ensures
        b64_alphabet().contains(b64_char(v)),
        b64_char(v) != '=',
{
    reveal_strlit("ABCDEFGHIJKLMNOPQRSTUVWXYZabcdefghijklmnopqrstuvwxyz0123456789+/");
    assert(b64_alphabet()[v] == b64_char(v));
}

/// The encoding of a group: four characters, of the alphabet but for the
/// trailing `=` of a short group.
proof fn lemma_b64_group_shape(g: Seq<u8>)
    requires
        1 <= g.len() <= 3,
    ensures
        b64_group(g).len() == 4,
        forall|i: int| 0 <= i < 4 - b64_pad(g.len()) ==> b64_alphabet().contains(#[trigger] b64_group(g)[i]),
        forall|i: int| 4 - b64_pad(g.len()) <= i < 4 ==> #[trigger] b64_group(g)[i] == '=',
{
    let b0 = g[0] as int;
    let b1 = if g.len() > 1 { g[1] as int } else { 0 };
    let b2 = if g.len() > 2 { g[2] as int } else { 0 };
    let n = b0 * 65536 + b1 * 256 + b2;
    assert(0 <= n < 16777216);
    lemma_b64_char_in_alphabet(n / 262144);
    lemma_b64_char_in_alphabet((n / 4096) % 64);
    lemma_b64_char_in_alphabet((n / 64) % 64);
    lemma_b64_char_in_alphabet(n % 64);
}

/// The shape of a base64 encoding: four characters for every group of up
/// to three bytes; all of them from the alphabet, except that the last
/// one or two are `=` when the input's length is not a multiple of three
/// (two `=` after one left-over byte, one after two).
#[verifier::spinoff_prover]
pub proof fn lemma_base64_shape(input: Seq<u8>)
    ensures
        b64_encode(input).len() == 4 * ((input.len() + 2) / 3),
        forall|i: int| 0 <= i < b64_encode(input).len() - b64_pad(input.len())
            ==> b64_alphabet().contains(#[trigger] b64_encode(input)[i]),
        forall|i: int| b64_encode(input).len() - b64_pad(input.len()) <= i < b64_encode(input).len()
            ==> #[trigger] b64_encode(input)[i] == '=',
    decreases input.len(),
{
    if input.len() == 0 {
    } else if input.len() <= 3 {
        lemma_b64_group_shape(input);
    } else {
        let g = input.take(3);
        let rest = input.skip(3);
        lemma_b64_group_shape(g);
        lemma_base64_shape(rest);
        let e = b64_encode(input);
        assert(e == b64_group(g) + b64_encode(rest));
        assert(rest.len() % 3 == input.len() % 3);
        assert forall|i: int| 0 <= i < e.len() - b64_pad(input.len()) implies b64_alphabet().contains(#[trigger] e[i]) by {
            if i < 4 {
                assert(e[i] == b64_group(g)[i]);
            } else {
                assert(e[i] == b64_encode(rest)[i - 4]);
            }
        }
        assert forall|i: int| e.len() - b64_pad(input.len()) <= i < e.len() implies #[trigger] e[i] == '=' by {
            assert(e[i] == b64_encode(rest)[i - 4]);
        }
    }
}

/// The 6-bit value of a base64 character; `=` and characters outside the
/// alphabet count as 0.
pub open spec fn b64_value(c: char) -> int {
    if 'A' <= c && c <= 'Z' {
        c as int - 65
    } else if 'a' <= c && c <= 'z' {
        c as int - 71
    } else if '0' <= c && c <= '9' {
        c as int + 4
    } else if c == '+' {
        62
    } else if c == '/' {
        63
    } else {
        0
    }
}

/// The bytes of a group of four base64 characters: three, less one for each
/// trailing `=`.
pub open spec fn b64_decode_group(g: Seq<char>) -> Seq<int> {
    let n = b64_value(g[0]) * 262144 + b64_value(g[1]) * 4096 + b64_value(g[2]) * 64 + b64_value(g[3]);
    let bytes = seq![n / 65536, (n / 256) % 256, n % 256];
    if g[2] == '=' {
        bytes.take(1)
    } else if g[3] == '=' {
        bytes.take(2)
    } else {
        bytes
    }
}

/// Standard base64 decoding of a text made of whole groups of four.
pub open spec fn b64_decode(s: Seq<char>) -> Seq<int>
    decreases s.len(),
{
    if s.len() < 4 {
        Seq::empty()
    } else {
        b64_decode_group(s.take(4)) + b64_decode(s.skip(4))
    }
}

/// A character of the alphabet gives back its value.
proof fn lemma_b64_value_of_char(v: int)
    requires
        0 <= v < 64,
    ensures
        b64_value(b64_char(v)) == v,
{
}

/// The base-64 digits of a 24-bit group put back together give the group,
/// and its bytes can be read off it again.
proof fn lemma_b64_digits(b0: int, b1: int, b2: int)
    by (nonlinear_arith)
    requires
        0 <= b0 < 256,
        0 <= b1 < 256,
        0 <= b2 < 256,
    ensures
        ({
            let n = b0 * 65536 + b1 * 256 + b2;
            &&& (n / 262144) * 262144 + ((n / 4096) % 64) * 4096 + ((n / 64) % 64) * 64 + n % 64 == n
            &&& 0 <= n / 262144 < 64
            &&& n / 65536 == b0
            &&& (n / 256) % 256 == b1
            &&& n % 256 == b2
            &&& (b2 == 0 ==> n % 64 == 0)
            &&& (b1 == 0 && b2 == 0 ==> (n / 64) % 64 == 0)
        }),
{
}

/// Decoding the encoding of a group of one to three bytes gives the bytes.
proof fn lemma_b64_group_round_trip(g: Seq<u8>)
    requires
        1 <= g.len() <= 3,
    ensures
        b64_decode_group(b64_group(g)) == g.map_values(|b: u8| b as int),
{
    let b0 = g[0] as int;
    let b1 = if g.len() > 1 { g[1] as int } else { 0 };
    let b2 = if g.len() > 2 { g[2] as int } else { 0 };
    let n = b0 * 65536 + b1 * 256 + b2;
    lemma_b64_digits(b0, b1, b2);
    lemma_b64_value_of_char(n / 262144);
    lemma_b64_value_of_char((n / 4096) % 64);
    lemma_b64_value_of_char((n / 64) % 64);
    lemma_b64_value_of_char(n % 64);
    lemma_b64_char_in_alphabet((n / 64) % 64);
    lemma_b64_char_in_alphabet(n % 64);
    let e = b64_group(g);
    assert(b64_value('=') == 0);
    assert(b64_decode_group(e) =~= g.map_values(|b: u8| b as int));
}

/// Decoding what `base64_encode` writes gives back the input bytes.
pub proof fn lemma_base64_round_trip(input: Seq<u8>)
    ensures
        b64_decode(b64_encode(input)) == input.map_values(|b: u8| b as int),
    decreases input.len(),
{
    if input.len() == 0 {
        assert(input.map_values(|b: u8| b as int) =~= Seq::<int>::empty());
    } else if input.len() <= 3 {
        lemma_b64_group_shape(input);
        lemma_b64_group_round_trip(input);
        let e = b64_group(input);
        assert(e.take(4) =~= e);
        assert(e.skip(4) =~= Seq::<char>::empty());
        assert(b64_decode(e.skip(4)) =~= Seq::<int>::empty());
        assert(b64_decode(e) == b64_decode_group(e.take(4)) + b64_decode(e.skip(4)));
        assert(b64_decode(e) =~= b64_decode_group(e));
    } else {
        let g = input.take(3);
        let rest = input.skip(3);
        lemma_b64_group_shape(g);
        lemma_b64_group_round_trip(g);
        lemma_base64_round_trip(rest);
        let e = b64_encode(input);
        assert(e == b64_group(g) + b64_encode(rest));
        assert(e.take(4) =~= b64_group(g));
        assert(e.skip(4) =~= b64_encode(rest));
        assert(input.map_values(|b: u8| b as int) =~= g.map_values(|b: u8| b as int) + rest.map_values(|b: u8| b as int));
    }
}

/// The character for a 6-bit value.
fn b64_digit(v: u32) -> (c: char)
    requires
        v < 64,
    ensures
        c == b64_char(v as int),
{
    if v < 26 {
        ((65 + v) as u8) as char
    } else if v < 52 {
        ((97 + (v - 26)) as u8) as char
    } else if v < 62 {
        ((48 + (v - 52)) as u8) as char
    } else if v == 62 {
        '+'
    } else {
        '/'
    }
}

/// The encoding of the first `n` groups is the first part of the encoding.
proof fn lemma_b64_split(input: Seq<u8>, i: int)
    requires
        0 <= i <= input.len(),
        i % 3 == 0,
    ensures
        b64_encode(input) == b64_encode(input.take(i)) + b64_encode(input.skip(i)),
    decreases i,
{
    if i == 0 {
        assert(input.take(0) =~= Seq::<u8>::empty());
        assert(input.skip(0) =~= input);
        assert(b64_encode(input.take(0)) =~= Seq::<char>::empty());
        assert(b64_encode(input) == Seq::<char>::empty() + b64_encode(input));
    } else {
        lemma_b64_split(input, i - 3);
        let a = input.take(i - 3);
        let rest = input.skip(i - 3);
        assert(rest.len() >= 3);
        if rest.len() == 3 {
            assert(rest.take(3) =~= rest);
            assert(rest.skip(3) =~= Seq::<u8>::empty());
            assert(input.skip(i) =~= Seq::<u8>::empty());
            assert(input.take(i) =~= input);
            assert(b64_encode(input.skip(i)) =~= Seq::<char>::empty());
            assert(b64_encode(input.take(i)) + Seq::<char>::empty() =~= b64_encode(input.take(i)));
            lemma_b64_prefix_step(input, i - 3);
        } else {
            assert(rest.take(3) =~= input.subrange(i - 3, i));
            assert(rest.skip(3) =~= input.skip(i));
            assert(b64_encode(rest) == b64_group(input.subrange(i - 3, i)) + b64_encode(input.skip(i)));
            lemma_b64_prefix_step(input, i - 3);
            assert(b64_encode(input) == b64_encode(a) + b64_group(input.subrange(i - 3, i)) + b64_encode(input.skip(i)));
        }
    }
}

/// Encoding a prefix one more whole group long appends that group's
/// encoding.
proof fn lemma_b64_prefix_step(input: Seq<u8>, i: int)
    requires
        0 <= i,
        i + 3 <= input.len(),
        i % 3 == 0,
    ensures
        b64_encode(input.take(i + 3)) == b64_encode(input.take(i)) + b64_group(input.subrange(i, i + 3)),
    decreases i,
{
    let p = input.take(i + 3);
    if i == 0 {
        assert(p.take(3) =~= p);
        assert(input.subrange(0, 3) =~= p);
        assert(input.take(0) =~= Seq::<u8>::empty());
        assert(b64_encode(input.take(0)) =~= Seq::<char>::empty());
        assert(b64_encode(p) == b64_group(p));
        assert(b64_encode(input.take(0)) + b64_group(p) =~= b64_group(p));
    } else {
        let q = input.skip(3);
        lemma_b64_prefix_step(q, i - 3);
        assert(p.take(3) =~= input.take(3));
        assert(p.skip(3) =~= q.take(i));
        assert(input.take(i).take(3) =~= input.take(3));
        assert(input.take(i).skip(3) =~= q.take(i - 3));
        assert(q.subrange(i - 3, i) =~= input.subrange(i, i + 3));
        assert(b64_encode(p) == b64_group(input.take(3)) + b64_encode(q.take(i)));
        assert(b64_encode(input.take(i)) == b64_group(input.take(3)) + b64_encode(q.take(i - 3)));
        assert(b64_encode(p) =~= b64_encode(input.take(i)) + b64_group(input.subrange(i, i + 3)));
    }
}

/// Appends the encoding of the group of up to three bytes that starts at
/// `i`.
fn push_group(result: &mut String, input: &[u8], i: usize)
    requires
        i < input@.len(),
    ensures
        final(result)@ == old(result)@ + b64_group(
            input@.subrange(i as int, if i + 3 <= input@.len() { i + 3 } else { input@.len() as int }),
        ),
{
    let n = input.len();
    let byte1 = input[i];
    let byte2: u8 = if n - i > 1 { input[i + 1] } else { 0 };
    let byte3: u8 = if n - i > 2 { input[i + 2] } else { 0 };
    let combined: u32 = (byte1 as u32) * 65536 + (byte2 as u32) * 256 + (byte3 as u32);
    let c1 = b64_digit(combined / 262144);
    let c2 = b64_digit((combined / 4096) % 64);
    let c3 = if n - i > 1 { b64_digit((combined / 64) % 64) } else { '=' };
    let c4 = if n - i > 2 { b64_digit(combined % 64) } else { '=' };
    proof {
        let g = input@.subrange(i as int, if i + 3 <= n { i + 3 } else { n as int });
        assert(g[0] == byte1);
        assert(g.len() > 1 ==> g[1] == byte2);
        assert(g.len() > 2 ==> g[2] == byte3);
        assert(b64_group(g) =~= seq![c1, c2, c3, c4]);
    }
    push_char(result, c1);
    push_char(result, c2);
    push_char(result, c3);
    push_char(result, c4);
}

/// Standard base64 encoding with `=` padding, as HTTP Basic authentication
/// uses it.
pub fn base64_encode(input: &[u8]) -> (r: String)
    ensures
        r@ == b64_encode(input@),
{
    let mut result = String::new();
    let mut i: usize = 0;
    let n = input.len();
    proof {
        assert(input@.take(0) =~= Seq::<u8>::empty());
    }
    while i < n
        invariant
            n == input@.len(),
            i <= n,
            i % 3 == 0 || i == n,
            result@ == b64_encode(input@.take(i as int)),
        decreases n - i,
    {
        let ghost before = result@;
        push_group(&mut result, input, i);
        if n - i >= 3 {
            proof {
                lemma_b64_prefix_step(input@, i as int);
            }
            i = i + 3;
        } else {
            proof {
                let g = input@.subrange(i as int, n as int);
                lemma_b64_split(input@, i as int);
                assert(input@.skip(i as int) =~= g);
                assert(input@.take(n as int) =~= input@);
            }
            i = n;
        }
    }
    proof {
        assert(input@.take(n as int) =~= input@);
    }
    result
}

/// Factory for transport instances.
pub struct TransportFactory;

/// The transport types this build supports.
pub open spec fn supported_transport_names() -> Seq<Seq<char>> {
    seq!["stdio"@, "http-sse"@, "http-stream"@]
}

/// The value of the authorization header for an HTTP streaming transport:
/// the bearer token itself, "Basic " and the base64 of "username:password",
/// the custom header's value, or a fixed bearer placeholder for OAuth.
pub open spec fn auth_header_value(a: AuthConfig) -> Seq<char> {
    match a {
        AuthConfig::Bearer { token } => token@,
        AuthConfig::Basic { username, password } => "Basic "@ + b64_encode(
            vstd::utf8::encode_utf8(username@ + ":"@ + password@),
        ),
        AuthConfig::Header { value, .. } => value@,
        AuthConfig::OAuth { .. } => "Bearer oauth-token"@,
    }
}

impl TransportFactory {
    /// The transport types supported by this build: "stdio", "http-sse" and
    /// "http-stream".
    pub fn supported_transports() -> (r: Vec<&'static str>)
        ensures
            r@.len() == 3,
            forall|i: int| 0 <= i < 3 ==> #[trigger] r@[i]@ == supported_transport_names()[i],
    {
        let mut v: Vec<&'static str> = Vec::new();
        v.push("stdio");
        v.push("http-sse");
        v.push("http-stream");
        v
    }

    /// The authorization header value that an HTTP streaming transport is
    /// built with.
    pub fn auth_header(auth: &AuthConfig) -> (r: String)
        ensures
            r@ == auth_header_value(*auth),
    {
        match auth {
            AuthConfig::Bearer { token } => token.clone(),
            AuthConfig::Basic { username, password } => {
                let mut credentials = username.clone();
                push_str(&mut credentials, ":");
                push_str(&mut credentials, password.as_str());
                let bytes = credentials.as_str().as_bytes_vec();
                let encoded = base64_encode(bytes.as_slice());
                let mut r = owned("Basic ");
                push_str(&mut r, encoded.as_str());
                r
            },
            AuthConfig::Header { value, .. } => value.clone(),
            AuthConfig::OAuth { .. } => owned("Bearer oauth-token"),
        }
    }

    /// Checks a configuration before a transport is created from it; a
    /// transport is created only from a configuration that passes.
    pub fn check_config(config: &TransportConfig) -> (r: Result<(), McpError>)
        ensures
            match *config {
                TransportConfig::Stdio(c) => stdio_outcome(c, r),
                TransportConfig::HttpSse(c) => outcome_matches(http_sse_problem(c), r),
                TransportConfig::HttpStream(c) => outcome_matches(http_stream_problem(c), r),
            },
    {
        config.validate()
    }
}

/// A transport of any of the three kinds.
#[derive(Debug)]
pub enum AnyTransport {
    Stdio(StdioTransport),
    HttpSse(HttpSseTransport),
    HttpStream(HttpStreamTransport),
}

/// The outcome of creation, without the transport.
pub open spec fn creation_check(r: Result<AnyTransport, McpError>) -> Result<(), McpError> {
    match r {
        Ok(_) => Ok(()),
        Err(e) => Err(e),
    }
}

impl TransportFactory {
    /// A transport for a configuration that passes its check: a stdio
    /// transport; an HTTP+SSE transport, which refuses a URL that needs
    /// HTTPS and lacks it; or a streaming transport for the base URL with
    /// the authorization header of its authentication.
    pub fn create(config: TransportConfig) -> (r: Result<AnyTransport, McpError>)
        ensures
            match config {
                TransportConfig::Stdio(c) => stdio_outcome(c, creation_check(r))
                    && (r matches Ok(t) ==> (t matches AnyTransport::Stdio(s) && s.config == config
                        && !s.is_connected_spec() && s.info.transport_type@ == "stdio"@)),
                TransportConfig::HttpSse(c) => match http_sse_problem(c) {
                    Some(p) => outcome_matches(Some(p), creation_check(r)),
                    None => {
                        let u = c.base_url;
                        &&& (!is_local_host(u.host_text()) && u.scheme_text() != "https"@) ==> (r matches Err(e)
                            && is_config_error(e, "HTTPS required for non-localhost URL: "@ + u.text()))
                        &&& (is_local_host(u.host_text()) || u.scheme_text() == "https"@) ==> (r matches Ok(t)
                            && t matches AnyTransport::HttpSse(h) && h.base_url.text() == u.text() && !h.connected
                            && h.info.transport_type@ == "streamable-http"@)
                    },
                },
                TransportConfig::HttpStream(c) => match http_stream_problem(c) {
                    Some(p) => outcome_matches(Some(p), creation_check(r)),
                    None => r matches Ok(t) && t matches AnyTransport::HttpStream(h)
                        && h.base_url@ == c.base_url.text()
                        && opt_view(h.auth_header) == match c.auth {
                            Some(a) => Some(auth_header_value(a)),
                            None => None,
                        }
                        && !h.connected && h.session_id is None,
                },
            },
    {
        match Self::check_config(&config) {
            Ok(()) => {},
            Err(e) => return Err(e),
        }
        match config {
            TransportConfig::Stdio(_) => Ok(AnyTransport::Stdio(StdioTransport::new(config))),
            TransportConfig::HttpSse(_) => match HttpSseTransport::new(config) {
                Ok(t) => Ok(AnyTransport::HttpSse(t)),
                Err(e) => Err(e),
            },
            TransportConfig::HttpStream(c) => {
                let auth = match &c.auth {
                    Some(a) => Some(Self::auth_header(a)),
                    None => None,
                };
                Ok(AnyTransport::HttpStream(HttpStreamTransport::new(c.base_url.to_string(), auth)))
            },
        }
    }

    /// Whether creation is tried again after failed attempt number
    /// `attempt` (counted from 0): until `max_retries` retries were made.
    pub fn retry_after(attempt: u32, max_retries: u32) -> (r: bool)
        ensures
            r == (attempt < max_retries),
    {
        attempt < max_retries
    }
}

impl AnyTransport {
    /// The counters and type of the transport within.
    pub open spec fn info_spec(&self) -> crate::transport::TransportInfo {
        match self {
            AnyTransport::Stdio(t) => t.info,
            AnyTransport::HttpSse(t) => t.info,
            AnyTransport::HttpStream(t) => t.info,
        }
    }

    /// What the transport within reports about itself.
    pub fn get_info(&self) -> (r: crate::transport::TransportInfo)
        requires
            self matches AnyTransport::Stdio(t) ==> match t.config {
                TransportConfig::Stdio(c) => c.environment.size() <= usize::MAX,
                _ => true,
            },
        ensures
            r.transport_type == self.info_spec().transport_type,
            r.connected == self.info_spec().connected,
            r.requests_sent == self.info_spec().requests_sent,
            r.responses_received == self.info_spec().responses_received,
    {
        match self {
            AnyTransport::Stdio(t) => t.get_info(),
            AnyTransport::HttpSse(t) => t.get_info(),
            AnyTransport::HttpStream(t) => t.get_info(),
        }
    }
}

} // verus!
