//! Sampling: model preferences, sampling messages and completion results.
use vstd::prelude::*;
use crate::text::owned;
use crate::json::{JsonObject, JsonValue, JsonView, jview, oview};

verus! {

/// Preferences for model selection.
#[derive(Debug, Clone, PartialEq, Eq)]
pub struct ModelPreferences {
    pub models: Option<Vec<String>>,
    pub cost_priority: Option<CostPriority>,
    pub speed_priority: Option<SpeedPriority>,
    pub intelligence_priority: Option<IntelligencePriority>,
}

impl ModelPreferences {
    /// No preference.
    pub fn new() -> (r: Self)
        ensures
            r.models is None,
            r.cost_priority is None,
            r.speed_priority is None,
            r.intelligence_priority is None,
    {
        ModelPreferences { models: None, cost_priority: None, speed_priority: None, intelligence_priority: None }
    }

    /// The same preferences with preferred models.
    pub fn with_models(self, models: Vec<String>) -> (r: Self)
        ensures
            r.models == Some(models),
            r.cost_priority == self.cost_priority,
            r.speed_priority == self.speed_priority,
            r.intelligence_priority == self.intelligence_priority,
    {
        ModelPreferences { models: Some(models), ..self }
    }

    /// The same preferences with a cost priority.
    pub fn with_cost_priority(self, priority: CostPriority) -> (r: Self)
        ensures
            r.models == self.models,
            r.cost_priority == Some(priority),
            r.speed_priority == self.speed_priority,
            r.intelligence_priority == self.intelligence_priority,
    {
        ModelPreferences { cost_priority: Some(priority), ..self }
    }

    /// The same preferences with a speed priority.
    pub fn with_speed_priority(self, priority: SpeedPriority) -> (r: Self)
        ensures
            r.models == self.models,
            r.cost_priority == self.cost_priority,
            r.speed_priority == Some(priority),
            r.intelligence_priority == self.intelligence_priority,
    {
        ModelPreferences { speed_priority: Some(priority), ..self }
    }

    /// The same preferences with an intelligence priority.
    pub fn with_intelligence_priority(self, priority: IntelligencePriority) -> (r: Self)
        ensures
            r.models == self.models,
            r.cost_priority == self.cost_priority,
            r.speed_priority == self.speed_priority,
            r.intelligence_priority == Some(priority),
    {
        ModelPreferences { intelligence_priority: Some(priority), ..self }
    }
}

impl Default for ModelPreferences {
    /// No preference.
    fn default() -> (r: Self)
        ensures
            r.models is None,
            r.cost_priority is None,
            r.speed_priority is None,
            r.intelligence_priority is None,
    {
        Self::new()
    }
}

/// Cost priority for model selection.
#[derive(Debug, Clone, Copy, PartialEq, Eq, Structural)]
pub enum CostPriority {
    Low,
    Medium,
    High,
}

/// Speed priority for model selection.
#[derive(Debug, Clone, Copy, PartialEq, Eq, Structural)]
pub enum SpeedPriority {
    Low,
    Medium,
    High,
}

/// Intelligence priority for model selection.
#[derive(Debug, Clone, Copy, PartialEq, Eq, Structural)]
pub enum IntelligencePriority {
    Low,
    Medium,
    High,
}

/// A message for sampling.
#[derive(Debug, Clone, PartialEq, Eq)]
pub struct SamplingMessage {
    pub role: MessageRole,
    pub content: SamplingContent,
}

impl SamplingMessage {
    /// A message with the given role and content.
    pub fn new(role: MessageRole, content: SamplingContent) -> (r: Self)
        ensures
            r.role == role,
            r.content == content,
    {
        SamplingMessage { role, content }
    }

    /// A system message with text content.
    pub fn system(content: &str) -> (r: Self)
        ensures
            r.role == MessageRole::System,
            r.content is Text && r.content->text@ == content@,
    {
        Self::new(MessageRole::System, SamplingContent::text(content))
    }

    /// A user message with text content.
    pub fn user(content: &str) -> (r: Self)
        ensures
            r.role == MessageRole::User,
            r.content is Text && r.content->text@ == content@,
    {
        Self::new(MessageRole::User, SamplingContent::text(content))
    }

    /// An assistant message with text content.
    pub fn assistant(content: &str) -> (r: Self)
        ensures
            r.role == MessageRole::Assistant,
            r.content is Text && r.content->text@ == content@,
    {
        Self::new(MessageRole::Assistant, SamplingContent::text(content))
    }
}

/// Role of a sampling message.
#[derive(Debug, Clone, Copy, PartialEq, Eq, Structural)]
pub enum MessageRole {
    System,
    User,
    Assistant,
}

/// Content of a sampling message.
#[derive(Debug, Clone, PartialEq, Eq)]
pub enum SamplingContent {
    Text { text: String },
    Image { data: String, mime_type: String },
}

impl SamplingContent {
    /// Text content.
    pub fn text(text: &str) -> (r: Self)
        ensures
            r is Text && r->text@ == text@,
    {
        SamplingContent::Text { text: owned(text) }
    }

    /// Image content with its data and MIME type.
    pub fn image(data: &str, mime_type: &str) -> (r: Self)
        ensures
            r is Image && r->data@ == data@ && r->mime_type@ == mime_type@,
    {
        SamplingContent::Image { data: owned(data), mime_type: owned(mime_type) }
    }

    /// The content as JSON, tagged by its "type".
    pub fn to_json(&self) -> (r: JsonValue)
        ensures
            jview(r) == sampling_content_json(*self),
    {
        match self {
            SamplingContent::Text { text } => text_json(text.as_str()),
            SamplingContent::Image { data, mime_type } => {
                let ty = JsonValue::string("image");
                let d = JsonValue::string(data.as_str());
                let m = JsonValue::string(mime_type.as_str());
                let o = JsonObject::with_first("type", ty,
                    JsonObject::with_first("data", d, JsonObject::with_first("mimeType", m, JsonObject::Nil)));
                proof {
                    assert(jview(ty) == JsonView::Str("image"@));
                    assert(jview(d) == JsonView::Str(data@));
                    assert(jview(m) == JsonView::Str(mime_type@));
                    assert(oview(o) =~= seq![("type"@, JsonView::Str("image"@)), ("data"@, JsonView::Str(data@)),
                        ("mimeType"@, JsonView::Str(mime_type@))]);
                }
                JsonValue::Object(o)
            },
        }
    }
}

/// The JSON form of text content: `{"type": "text", "text": ...}`.
pub open spec fn text_content_json(text: Seq<char>) -> JsonView {
    JsonView::Object(seq![("type"@, JsonView::Str("text"@)), ("text"@, JsonView::Str(text))])
}

/// The JSON form of sampling content: an object tagged by "type" ("text"
/// or "image") followed by the variant's fields, the image's MIME type
/// under "mimeType".
pub open spec fn sampling_content_json(c: SamplingContent) -> JsonView {
    match c {
        SamplingContent::Text { text } => text_content_json(text@),
        SamplingContent::Image { data, mime_type } => JsonView::Object(seq![
            ("type"@, JsonView::Str("image"@)),
            ("data"@, JsonView::Str(data@)),
            ("mimeType"@, JsonView::Str(mime_type@)),
        ]),
    }
}

/// The JSON form of a completion result: `{"type": "text", "text": ...}`.
pub open spec fn completion_result_json(c: CompletionResult) -> JsonView {
    match c {
        CompletionResult::Text { text } => text_content_json(text@),
    }
}

/// `{"type": "text", "text": text}`.
fn text_json(text: &str) -> (r: JsonValue)
    ensures
        jview(r) == text_content_json(text@),
{
    let ty = JsonValue::string("text");
    let t = JsonValue::string(text);
    let o = JsonObject::with_first("type", ty, JsonObject::with_first("text", t, JsonObject::Nil));
    proof {
        assert(jview(ty) == JsonView::Str("text"@));
        assert(jview(t) == JsonView::Str(text@));
        assert(oview(o) =~= seq![("type"@, JsonView::Str("text"@)), ("text"@, JsonView::Str(text@))]);
    }
    JsonValue::Object(o)
}

/// Response to a completion request.
#[derive(Debug, Clone, PartialEq, Eq)]
pub struct CompleteResponse {
    pub completion: CompletionResult,
    pub model: Option<String>,
    pub stop_reason: Option<StopReason>,
}

/// Result of a completion.
#[derive(Debug, Clone, PartialEq, Eq)]
pub enum CompletionResult {
    Text { text: String },
}

impl CompletionResult {
    /// A text result.
    pub fn text(text: &str) -> (r: Self)
        ensures
            r is Text && r->text@ == text@,
    {
        CompletionResult::Text { text: owned(text) }
    }

    /// The result as JSON, tagged by its "type".
    pub fn to_json(&self) -> (r: JsonValue)
        ensures
            jview(r) == completion_result_json(*self),
    {
        match self {
            CompletionResult::Text { text } => text_json(text.as_str()),
        }
    }
}

/// Why completion stopped.
#[derive(Debug, Clone, Copy, PartialEq, Eq, Structural)]
pub enum StopReason {
    EndTurn,
    MaxTokens,
    StopSequence,
    ToolUse,
}

/// The name a sampling message role is written as.
pub open spec fn sampling_role_name(x: MessageRole) -> Seq<char> {
    match x {
        MessageRole::System => "system"@,
        MessageRole::User => "user"@,
        MessageRole::Assistant => "assistant"@,
    }
}

impl MessageRole {
    /// As JSON: its name, as a string.
    pub fn to_json(&self) -> (r: JsonValue)
        ensures
            jview(r) == JsonView::Str(sampling_role_name(*self)),
    {
        match self {
            MessageRole::System => JsonValue::string("system"),
            MessageRole::User => JsonValue::string("user"),
            MessageRole::Assistant => JsonValue::string("assistant"),
        }
    }
}

/// The name a cost priority is written as.
pub open spec fn cost_priority_name(x: CostPriority) -> Seq<char> {
    match x {
        CostPriority::Low => "low"@,
        CostPriority::Medium => "medium"@,
        CostPriority::High => "high"@,
    }
}

impl CostPriority {
    /// As JSON: its name, as a string.
    pub fn to_json(&self) -> (r: JsonValue)
        ensures
            jview(r) == JsonView::Str(cost_priority_name(*self)),
    {
        match self {
            CostPriority::Low => JsonValue::string("low"),
            CostPriority::Medium => JsonValue::string("medium"),
            CostPriority::High => JsonValue::string("high"),
        }
    }
}

/// The name a speed priority is written as.
pub open spec fn speed_priority_name(x: SpeedPriority) -> Seq<char> {
    match x {
        SpeedPriority::Low => "low"@,
        SpeedPriority::Medium => "medium"@,
        SpeedPriority::High => "high"@,
    }
}

impl SpeedPriority {
    /// As JSON: its name, as a string.
    pub fn to_json(&self) -> (r: JsonValue)
        ensures
            jview(r) == JsonView::Str(speed_priority_name(*self)),
    {
        match self {
            SpeedPriority::Low => JsonValue::string("low"),
            SpeedPriority::Medium => JsonValue::string("medium"),
            SpeedPriority::High => JsonValue::string("high"),
        }
    }
}

/// The name an intelligence priority is written as.
pub open spec fn intelligence_priority_name(x: IntelligencePriority) -> Seq<char> {
    match x {
        IntelligencePriority::Low => "low"@,
        IntelligencePriority::Medium => "medium"@,
        IntelligencePriority::High => "high"@,
    }
}

impl IntelligencePriority {
    /// As JSON: its name, as a string.
    pub fn to_json(&self) -> (r: JsonValue)
        ensures
            jview(r) == JsonView::Str(intelligence_priority_name(*self)),
    {
        match self {
            IntelligencePriority::Low => JsonValue::string("low"),
            IntelligencePriority::Medium => JsonValue::string("medium"),
            IntelligencePriority::High => JsonValue::string("high"),
        }
    }
}

/// The name a stop reason is written as.
pub open spec fn stop_reason_name(x: StopReason) -> Seq<char> {
    match x {
        StopReason::EndTurn => "end_turn"@,
        StopReason::MaxTokens => "max_tokens"@,
        StopReason::StopSequence => "stop_sequence"@,
        StopReason::ToolUse => "tool_use"@,
    }
}

impl StopReason {
    /// As JSON: its name, as a string.
    pub fn to_json(&self) -> (r: JsonValue)
        ensures
            jview(r) == JsonView::Str(stop_reason_name(*self)),
    {
        match self {
            StopReason::EndTurn => JsonValue::string("end_turn"),
            StopReason::MaxTokens => JsonValue::string("max_tokens"),
            StopReason::StopSequence => JsonValue::string("stop_sequence"),
            StopReason::ToolUse => JsonValue::string("tool_use"),
        }
    }
}

} // verus!
