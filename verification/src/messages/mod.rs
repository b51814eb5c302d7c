//! MCP message types: protocol versions, capabilities, implementation
//! information, progress tokens and pagination cursors.
use vstd::prelude::*;
use vstd::std_specs::convert::FromSpecImpl;
use crate::json::{JsonNumber, JsonObject, JsonValue, JsonView, jview, oview, opt_str_member, read_opt_str};
use crate::text::{owned, i64_to_decimal, int_decimal};

pub mod jsonrpc;
pub mod logging;
pub mod prompts;
pub mod resources;
pub mod sampling;
pub mod initialization;
pub mod codec;

verus! {

/// MCP protocol version identifier.
#[derive(Debug, Clone)]
pub enum ProtocolVersion {
    /// MCP protocol version 2024-11-05
    V2024_11_05,
    /// MCP protocol version 2025-03-26
    V2025_03_26,
    /// Any other version string
    Custom(String),
}

/// The text of a protocol version.
pub open spec fn protocol_version_text(v: ProtocolVersion) -> Seq<char> {
    match v {
        ProtocolVersion::V2024_11_05 => "2024-11-05"@,
        ProtocolVersion::V2025_03_26 => "2025-03-26"@,
        ProtocolVersion::Custom(s) => s@,
    }
}

/// Whether a protocol version is one this implementation supports.
pub open spec fn protocol_version_supported(v: ProtocolVersion) -> bool {
    v is V2024_11_05 || v is V2025_03_26
}

impl ProtocolVersion {
    /// The text of the version.
    pub fn as_str(&self) -> (r: &str)
        ensures
            r@ == protocol_version_text(*self),
    {
        match self {
            ProtocolVersion::V2024_11_05 => "2024-11-05",
            ProtocolVersion::V2025_03_26 => "2025-03-26",
            ProtocolVersion::Custom(s) => s.as_str(),
        }
    }

    /// Whether this version is supported: 2024-11-05 and 2025-03-26 are.
    pub fn is_supported(&self) -> (r: bool)
        ensures
            r == protocol_version_supported(*self),
    {
        match self {
            ProtocolVersion::V2024_11_05 => true,
            ProtocolVersion::V2025_03_26 => true,
            ProtocolVersion::Custom(_) => false,
        }
    }

    /// All supported versions, oldest first.
    pub fn supported_versions() -> (r: Vec<ProtocolVersion>)
        ensures
            r@ == seq![ProtocolVersion::V2024_11_05, ProtocolVersion::V2025_03_26],
    {
        let mut v = Vec::new();
        v.push(ProtocolVersion::V2024_11_05);
        v.push(ProtocolVersion::V2025_03_26);
        v
    }

    /// The text of the version, as an owned string.
    pub fn to_string(&self) -> (r: String)
        ensures
            r@ == protocol_version_text(*self),
    {
        owned(self.as_str())
    }

    /// A copy of this version.
    pub fn duplicate(&self) -> (r: ProtocolVersion)
        ensures
            r == *self,
    {
        match self {
            ProtocolVersion::V2024_11_05 => ProtocolVersion::V2024_11_05,
            ProtocolVersion::V2025_03_26 => ProtocolVersion::V2025_03_26,
            ProtocolVersion::Custom(s) => ProtocolVersion::Custom(s.clone()),
        }
    }
}

/// Whether `q` is the version that the text `t` reads as: the two known
/// texts give their versions, any other text a custom version of that text.
pub open spec fn reads_as_version(t: Seq<char>, q: ProtocolVersion) -> bool {
    &&& protocol_version_text(q) == t
    &&& (t == "2024-11-05"@ <==> q is V2024_11_05)
    &&& (t == "2025-03-26"@ <==> q is V2025_03_26)
}

impl ProtocolVersion {
    /// The version as JSON: its text, as a string.
    pub fn to_json(&self) -> (r: JsonValue)
        ensures
            jview(r) == JsonView::Str(protocol_version_text(*self)),
    {
        JsonValue::String(self.to_string())
    }

    /// The version a JSON value names: a string reads as the version of
    /// that text; anything else names none.
    pub fn from_json(v: &JsonValue) -> (r: Option<ProtocolVersion>)
        ensures
            match jview(*v) {
                JsonView::Str(t) => r matches Some(q) && reads_as_version(t, q),
                _ => r is None,
            },
    {
        proof {
            reveal_strlit("2024-11-05");
            reveal_strlit("2025-03-26");
            assert("2024-11-05"@ != "2025-03-26"@) by {
                assert("2024-11-05"@[3] != "2025-03-26"@[3]);
            }
        }
        match v {
            JsonValue::String(t) => {
                if crate::text::str_equal(t.as_str(), "2024-11-05") {
                    Some(ProtocolVersion::V2024_11_05)
                } else if crate::text::str_equal(t.as_str(), "2025-03-26") {
                    Some(ProtocolVersion::V2025_03_26)
                } else {
                    let c = t.clone();
                    assert(c@ == t@);
                    Some(ProtocolVersion::Custom(c))
                }
            },
            _ => None,
        }
    }
}

/// Reading back the text of a version gives a version of the same kind and
/// text, except for a custom version whose text is one of the known ones,
/// which reads as that known version.
pub proof fn lemma_protocol_version_round_trip(p: ProtocolVersion, q: ProtocolVersion)
    requires
        reads_as_version(protocol_version_text(p), q),
        !(p matches ProtocolVersion::Custom(s) && (s@ == "2024-11-05"@ || s@ == "2025-03-26"@)),
    ensures
        protocol_version_text(q) == protocol_version_text(p),
        p is V2024_11_05 <==> q is V2024_11_05,
        p is V2025_03_26 <==> q is V2025_03_26,
        p is Custom <==> q is Custom,
{
    reveal_strlit("2024-11-05");
    reveal_strlit("2025-03-26");
}

impl Default for ProtocolVersion {
    /// The current stable version, 2025-03-26.
    fn default() -> (r: Self)
        ensures
            r == ProtocolVersion::V2025_03_26,
    {
        ProtocolVersion::V2025_03_26
    }
}

/// The JSON of a listing request: an object with its "cursor", when it has
/// one.
pub open spec fn cursor_json(c: Option<Seq<char>>) -> JsonView {
    JsonView::Object(match c {
        Some(t) => seq![("cursor"@, JsonView::Str(t))],
        None => Seq::empty(),
    })
}

/// How a listing request reads from JSON: an object whose "cursor" is
/// absent, null or a string.
pub open spec fn cursor_reading(v: JsonView) -> Option<Option<Seq<char>>> {
    if v is Object { opt_str_member(v, "cursor"@) } else { None }
}

/// Reading back the JSON of a listing request gives its cursor.
pub proof fn lemma_cursor_round_trip(c: Option<Seq<char>>)
    ensures
        cursor_reading(cursor_json(c)) == Some(c),
{
    let ms = match c {
        Some(t) => seq![("cursor"@, JsonView::Str(t))],
        None => Seq::<(Seq<char>, JsonView)>::empty(),
    };
    if ms.len() > 0 {
        assert(ms.drop_first() =~= Seq::<(Seq<char>, JsonView)>::empty());
    }
}

/// The JSON of a listing request with cursor `c`.
pub fn cursor_to_json(c: &Option<String>) -> (r: JsonValue)
    ensures
        jview(r) == cursor_json(match *c { Some(t) => Some(t@), None => None }),
{
    match c {
        Some(t) => {
            let v = JsonValue::String(t.clone());
            let o = JsonObject::with_first("cursor", v, JsonObject::Nil);
            proof {
                assert(jview(v) == JsonView::Str(t@));
                assert(oview(o) =~= seq![("cursor"@, JsonView::Str(t@))]);
            }
            JsonValue::Object(o)
        },
        None => {
            proof {
                assert(oview(JsonObject::Nil) =~= Seq::<(Seq<char>, JsonView)>::empty());
            }
            JsonValue::Object(JsonObject::Nil)
        },
    }
}

/// The cursor of a listing request read from JSON.
pub fn cursor_from_json(v: &JsonValue) -> (r: Option<Option<String>>)
    ensures
        match cursor_reading(jview(*v)) {
            Some(Some(t)) => r matches Some(Some(x)) && x@ == t,
            Some(None) => r matches Some(None),
            None => r is None,
        },
{
    match v {
        JsonValue::Object(_) => read_opt_str(v, "cursor"),
        _ => None,
    }
}

/// Tool-related capabilities.
#[derive(Debug, Clone)]
pub struct ToolCapabilities {
    pub list_changed: Option<bool>,
}

/// Resource-related capabilities.
#[derive(Debug, Clone)]
pub struct ResourceCapabilities {
    pub subscribe: Option<bool>,
    pub list_changed: Option<bool>,
}

/// Prompt-related capabilities.
#[derive(Debug, Clone)]
pub struct PromptCapabilities {
    pub list_changed: Option<bool>,
}

/// Sampling-related capabilities (client side).
#[derive(Debug, Clone)]
pub struct SamplingCapabilities {
    pub enabled: Option<bool>,
}

/// Logging-related capabilities.
#[derive(Debug, Clone)]
pub struct LoggingCapabilities {
    pub level: Option<bool>,
}

/// Roots-related capabilities (client side).
#[derive(Debug, Clone)]
pub struct RootsCapabilities {
    pub list_changed: Option<bool>,
}

/// Standard MCP capabilities.
#[derive(Debug, Clone)]
pub struct StandardCapabilities {
    pub tools: Option<ToolCapabilities>,
    pub resources: Option<ResourceCapabilities>,
    pub prompts: Option<PromptCapabilities>,
    pub sampling: Option<SamplingCapabilities>,
    pub logging: Option<LoggingCapabilities>,
    pub roots: Option<RootsCapabilities>,
}

impl Default for StandardCapabilities {
    /// No capability declared.
    fn default() -> (r: Self)
        ensures
            r.tools is None,
            r.resources is None,
            r.prompts is None,
            r.sampling is None,
            r.logging is None,
            r.roots is None,
    {
        StandardCapabilities { tools: None, resources: None, prompts: None, sampling: None, logging: None, roots: None }
    }
}

/// Capabilities: the standard ones and custom or experimental ones.
#[derive(Debug)]
pub struct Capabilities {
    pub standard: StandardCapabilities,
    pub custom: JsonObject,
}

impl Default for Capabilities {
    /// No capability declared, no custom capability.
    fn default() -> (r: Self)
        ensures
            r.standard.tools is None,
            r.standard.resources is None,
            r.standard.prompts is None,
            r.standard.sampling is None,
            r.standard.logging is None,
            r.standard.roots is None,
            r.custom == JsonObject::Nil,
    {
        Capabilities { standard: StandardCapabilities::default(), custom: JsonObject::Nil }
    }
}

/// Information about a client or server implementation.
#[derive(Debug)]
pub struct Implementation {
    pub name: String,
    pub version: String,
    pub metadata: JsonObject,
}

impl Implementation {
    /// Implementation information without metadata.
    pub fn new(name: &str, version: &str) -> (r: Self)
        ensures
            r.name@ == name@,
            r.version@ == version@,
            r.metadata == JsonObject::Nil,
    {
        Implementation { name: owned(name), version: owned(version), metadata: JsonObject::Nil }
    }

    /// The same information with metadata `key` set to `value`.
    pub fn with_metadata(self, key: &str, value: JsonValue) -> (r: Self)
        ensures
            r.name == self.name,
            r.version == self.version,
            exists|k: String| k@ == key@ && r.metadata == self.metadata.insert(k, value),
    {
        let k = owned(key);
        let ghost kk = k;
        let metadata = self.metadata.set(k, value);
        proof { assert(kk@ == key@ && metadata == self.metadata.insert(kk, value)); }
        Implementation { name: self.name, version: self.version, metadata }
    }
}

/// Progress token for long-running operations.
#[derive(Debug, Clone)]
pub enum ProgressToken {
    String(String),
    Number(i64),
}

/// The text a progress token displays as.
pub open spec fn progress_token_text(t: ProgressToken) -> Seq<char> {
    match t {
        ProgressToken::String(s) => s@,
        ProgressToken::Number(n) => int_decimal(n as int),
    }
}

impl ProgressToken {
    /// The text of the token.
    pub fn to_string(&self) -> (r: String)
        ensures
            r@ == progress_token_text(*self),
    {
        match self {
            ProgressToken::String(s) => s.clone(),
            ProgressToken::Number(n) => i64_to_decimal(*n),
        }
    }
}

impl ProgressToken {
    /// The token as JSON: a string token as a string, a number as a number.
    pub fn to_json(&self) -> (r: JsonValue)
        ensures
            jview(r) == match *self {
                ProgressToken::String(s) => JsonView::Str(s@),
                ProgressToken::Number(n) => JsonView::Int(n),
            },
    {
        match self {
            ProgressToken::String(s) => JsonValue::String(s.clone()),
            ProgressToken::Number(n) => JsonValue::Number(JsonNumber::Int(*n)),
        }
    }
}

impl From<&str> for ProgressToken {
    fn from(s: &str) -> (r: ProgressToken)
        ensures
            r is String,
            r->String_0@ == s@,
    {
        ProgressToken::String(owned(s))
    }
}

impl FromSpecImpl<&str> for ProgressToken {
    /// A `String` cannot be named in a specification by its characters
    /// alone, so the conversion states its result in its own `ensures`.
    open spec fn obeys_from_spec() -> bool {
        false
    }

    open spec fn from_spec(v: &str) -> ProgressToken {
        ProgressToken::Number(0)
    }
}

impl From<String> for ProgressToken {
    fn from(s: String) -> (r: ProgressToken)
        ensures
            r == ProgressToken::String(s),
    {
        ProgressToken::String(s)
    }
}

impl FromSpecImpl<String> for ProgressToken {
    open spec fn obeys_from_spec() -> bool {
        true
    }

    open spec fn from_spec(v: String) -> ProgressToken {
        ProgressToken::String(v)
    }
}

impl From<i64> for ProgressToken {
    fn from(n: i64) -> (r: ProgressToken)
        ensures
            r == ProgressToken::Number(n),
    {
        ProgressToken::Number(n)
    }
}

impl FromSpecImpl<i64> for ProgressToken {
    open spec fn obeys_from_spec() -> bool {
        true
    }

    open spec fn from_spec(v: i64) -> ProgressToken {
        ProgressToken::Number(v)
    }
}

/// Pagination cursor for list operations.
#[derive(Debug, Clone)]
pub struct PaginationCursor {
    pub cursor: String,
}

impl PaginationCursor {
    /// A cursor holding `cursor`.
    pub fn new(cursor: &str) -> (r: Self)
        ensures
            r.cursor@ == cursor@,
    {
        PaginationCursor { cursor: owned(cursor) }
    }
}

impl From<String> for PaginationCursor {
    fn from(cursor: String) -> (r: PaginationCursor)
        ensures
            r == (PaginationCursor { cursor }),
    {
        PaginationCursor { cursor }
    }
}

impl FromSpecImpl<String> for PaginationCursor {
    open spec fn obeys_from_spec() -> bool {
        true
    }

    open spec fn from_spec(v: String) -> PaginationCursor {
        PaginationCursor { cursor: v }
    }
}

} // verus!
