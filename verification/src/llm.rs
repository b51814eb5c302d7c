//! Settings of the language-model assisted routing: routing modes, the
//! inference backend, configuration, and the character stream that
//! generation results are delivered through.
use vstd::prelude::*;
use vstd::string::StrSliceExecFns;
use crate::text::push_char;

verus! {

/// Routing mode for the language-model interceptor.
#[derive(Debug, Clone, Copy, PartialEq, Eq, Structural)]
pub enum RoutingMode {
    /// Pass through all requests without modification
    Bypass,
    /// Use model predictions for routing decisions
    Semantic,
    /// Combine database rules with model predictions
    Hybrid,
}

impl RoutingMode {
    /// The name shown for the mode.
    pub fn display_name(&self) -> (r: &'static str)
        ensures
            r@ == match *self {
                RoutingMode::Bypass => "Bypass"@,
                RoutingMode::Semantic => "Semantic"@,
                RoutingMode::Hybrid => "Hybrid"@,
            },
    {
        match self {
            RoutingMode::Bypass => "Bypass",
            RoutingMode::Semantic => "Semantic",
            RoutingMode::Hybrid => "Hybrid",
        }
    }

    /// The icon shown for the mode.
    pub fn icon(&self) -> (r: &'static str)
        ensures
            r@ == match *self {
                RoutingMode::Bypass => "\u{1F513}"@,
                RoutingMode::Semantic => "\u{1F9E0}"@,
                RoutingMode::Hybrid => "\u{26A1}"@,
            },
    {
        match self {
            RoutingMode::Bypass => "\u{1F513}",
            RoutingMode::Semantic => "\u{1F9E0}",
            RoutingMode::Hybrid => "\u{26A1}",
        }
    }

    /// What the mode does.
    pub fn description(&self) -> (r: &'static str)
        ensures
            r@ == match *self {
                RoutingMode::Bypass => "Direct pass-through without LLM processing"@,
                RoutingMode::Semantic => "LLM predicts optimal routing for each request"@,
                RoutingMode::Hybrid => "Database rules with LLM fallback"@,
            },
    {
        match self {
            RoutingMode::Bypass => "Direct pass-through without LLM processing",
            RoutingMode::Semantic => "LLM predicts optimal routing for each request",
            RoutingMode::Hybrid => "Database rules with LLM fallback",
        }
    }
}

impl Default for RoutingMode {
    /// Hybrid routing.
    fn default() -> (r: Self)
        ensures
            r == RoutingMode::Hybrid,
    {
        RoutingMode::Hybrid
    }
}

/// The device the inference engine runs on.
#[derive(Debug, Clone, Copy, PartialEq, Eq, Structural)]
pub enum LiteRTBackend {
    Cpu,
    Gpu,
}

impl LiteRTBackend {
    /// The backend's name as the engine settings take it.
    pub fn as_str(&self) -> (r: &'static str)
        ensures
            r@ == match *self {
                LiteRTBackend::Cpu => "cpu"@,
                LiteRTBackend::Gpu => "gpu"@,
            },
    {
        match self {
            LiteRTBackend::Cpu => "cpu",
            LiteRTBackend::Gpu => "gpu",
        }
    }
}

/// Configuration of the model manager.
#[derive(Debug, Clone)]
pub struct LlmConfig {
    pub model_path: String,
}

/// A suggested change to improve performance.
#[derive(Debug, Clone)]
pub struct PerformanceRecommendation {
    pub category: String,
    pub action: String,
    pub impact: String,
    pub effort: String,
}

/// Generated text delivered one character at a time.
#[derive(Debug)]
pub struct MessageStream {
    content: String,
    position: usize,
}

impl MessageStream {
    /// The text still held.
    pub closed spec fn content_view(self) -> Seq<char> {
        self.content@
    }

    /// How many items have been delivered.
    pub closed spec fn position_view(self) -> nat {
        self.position as nat
    }

    /// A stream over `content`, at its start.
    pub fn new(content: String) -> (r: Self)
        ensures
            r.content_view() == content@,
            r.position_view() == 0,
    {
        MessageStream { content, position: 0 }
    }

    /// The next item: the stream ends once as many items were delivered as
    /// the text has bytes in UTF-8; before that, each item is the character
    /// at the current count, or a space once the characters have run out.
    pub fn next_item(&mut self) -> (r: Option<String>)
        requires
            old(self).position_view() < usize::MAX,
        ensures
            final(self).content_view() == old(self).content_view(),
            old(self).position_view() >= vstd::utf8::encode_utf8(old(self).content_view()).len() ==> r is None
                && final(self).position_view() == old(self).position_view(),
            old(self).position_view() < vstd::utf8::encode_utf8(old(self).content_view()).len() ==> (r matches Some(s)
                && s@ == seq![if old(self).position_view() < old(self).content_view().len() {
                    old(self).content_view()[old(self).position_view() as int]
                } else {
                    ' '
                }]) && final(self).position_view() == old(self).position_view() + 1,
    {
        let bytes = self.content.as_str().as_bytes_vec();
        if self.position >= bytes.len() {
            return None;
        }
        let chars = crate::text::chars_of(self.content.as_str());
        let c = if self.position < chars.len() { chars[self.position] } else { ' ' };
        self.position = self.position + 1;
        let mut s = String::new();
        push_char(&mut s, c);
        proof {
            assert(s@ =~= seq![c]);
        }
        Some(s)
    }
}

} // verus!
