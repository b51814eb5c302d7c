//! Prompt templates and prompt messages.
use vstd::prelude::*;
use crate::json::{JsonObject, JsonValue, JsonView, jview, oview, ov_lookup, jv_field, str_member, read_str, lemma_field_jview};
use crate::messages::{cursor_json, cursor_reading, cursor_to_json, cursor_from_json};
use crate::text::owned;

pub use super::logging::PromptListChangedNotification;

verus! {

/// Request to list available prompts.
#[derive(Debug, Clone, PartialEq, Eq)]
pub struct ListPromptsRequest {
    pub cursor: Option<String>,
}

/// Response listing prompts.
#[derive(Debug)]
pub struct ListPromptsResponse {
    pub prompts: Vec<Prompt>,
    pub next_cursor: Option<String>,
}

/// A prompt template.
#[derive(Debug)]
pub struct Prompt {
    pub name: String,
    pub description: String,
    pub arguments: Option<JsonValue>,
}

impl Prompt {
    /// A prompt without an argument schema.
    pub fn new(name: &str, description: &str) -> (r: Self)
        ensures
            r.name@ == name@,
            r.description@ == description@,
            r.arguments is None,
    {
        Prompt { name: owned(name), description: owned(description), arguments: None }
    }

    /// The same prompt with an argument schema.
    pub fn with_arguments(self, arguments: JsonValue) -> (r: Self)
        ensures
            r.name == self.name,
            r.description == self.description,
            r.arguments == Some(arguments),
    {
        Prompt { name: self.name, description: self.description, arguments: Some(arguments) }
    }
}

/// Request to get a prompt by name.
#[derive(Debug)]
pub struct GetPromptRequest {
    pub name: String,
    pub arguments: Option<JsonValue>,
}

/// Response with a rendered prompt.
#[derive(Debug)]
pub struct GetPromptResponse {
    pub description: Option<String>,
    pub messages: Vec<PromptMessage>,
}

/// A message in a prompt.
#[derive(Debug, Clone, PartialEq, Eq)]
pub struct PromptMessage {
    pub role: MessageRole,
    pub content: PromptContent,
}

/// Role of a prompt message.
#[derive(Debug, Clone, Copy, PartialEq, Eq, Structural)]
pub enum MessageRole {
    System,
    User,
    Assistant,
}

/// Content of a prompt message.
#[derive(Debug, Clone, PartialEq, Eq)]
pub enum PromptContent {
    Text { text: String },
    Image { data: String, mime_type: String },
    Resource { resource: ResourceReference },
}

/// Reference to a resource in prompt content.
#[derive(Debug, Clone, PartialEq, Eq)]
pub struct ResourceReference {
    pub uri: String,
    pub text: Option<String>,
}

/// The JSON form of a resource reference: its "uri", then its "text"
/// when it has one.
pub open spec fn resource_reference_json(r: ResourceReference) -> JsonView {
    JsonView::Object(seq![("uri"@, JsonView::Str(r.uri@))] + match r.text {
        Some(t) => seq![("text"@, JsonView::Str(t@))],
        None => Seq::empty(),
    })
}

/// The JSON form of prompt content: an object tagged by "type" ("text",
/// "image" or "resource") followed by the variant's fields, the image's
/// MIME type under "mimeType".
pub open spec fn prompt_content_json(c: PromptContent) -> JsonView {
    match c {
        PromptContent::Text { text } => JsonView::Object(seq![
            ("type"@, JsonView::Str("text"@)),
            ("text"@, JsonView::Str(text@)),
        ]),
        PromptContent::Image { data, mime_type } => JsonView::Object(seq![
            ("type"@, JsonView::Str("image"@)),
            ("data"@, JsonView::Str(data@)),
            ("mimeType"@, JsonView::Str(mime_type@)),
        ]),
        PromptContent::Resource { resource } => JsonView::Object(seq![
            ("type"@, JsonView::Str("resource"@)),
            ("resource"@, resource_reference_json(resource)),
        ]),
    }
}

impl ResourceReference {
    /// The reference as JSON.
    pub fn to_json(&self) -> (r: JsonValue)
        ensures
            jview(r) == resource_reference_json(*self),
    {
        let rest = match &self.text {
            Some(t) => JsonObject::with_first("text", JsonValue::string(t.as_str()), JsonObject::Nil),
            None => JsonObject::Nil,
        };
        let o = JsonObject::with_first("uri", JsonValue::string(self.uri.as_str()), rest);
        proof {
            assert(jview(JsonValue::Object(o)) =~= resource_reference_json(*self));
        }
        JsonValue::Object(o)
    }
}

impl PromptContent {
    /// The content as JSON, tagged by its "type".
    pub fn to_json(&self) -> (r: JsonValue)
        ensures
            jview(r) == prompt_content_json(*self),
    {
        match self {
            PromptContent::Text { text } => {
                let t = JsonValue::string(text.as_str());
                let ty = JsonValue::string("text");
                let o = JsonObject::with_first("type", ty, JsonObject::with_first("text", t, JsonObject::Nil));
                proof {
                    assert(jview(t) == JsonView::Str(text@));
                    assert(jview(ty) == JsonView::Str("text"@));
                    assert(oview(o) =~= seq![("type"@, JsonView::Str("text"@)), ("text"@, JsonView::Str(text@))]);
                    assert(jview(JsonValue::Object(o)) =~= prompt_content_json(*self));
                }
                JsonValue::Object(o)
            },
            PromptContent::Image { data, mime_type } => {
                let ty = JsonValue::string("image");
                let d = JsonValue::string(data.as_str());
                let m = JsonValue::string(mime_type.as_str());
                let o = JsonObject::with_first("type", ty,
                    JsonObject::with_first("data", d, JsonObject::with_first("mimeType", m, JsonObject::Nil)));
                proof {
                    assert(jview(ty) == JsonView::Str("image"@));
                    assert(jview(d) == JsonView::Str(data@));
                    assert(jview(m) == JsonView::Str(mime_type@));
                    assert(oview(o) =~= seq![("type"@, JsonView::Str("image"@)), ("data"@, JsonView::Str(data@)),
                        ("mimeType"@, JsonView::Str(mime_type@))]);
                    assert(jview(JsonValue::Object(o)) =~= prompt_content_json(*self));
                }
                JsonValue::Object(o)
            },
            PromptContent::Resource { resource } => {
                let ty = JsonValue::string("resource");
                let rv = resource.to_json();
                let o = JsonObject::with_first("type", ty, JsonObject::with_first("resource", rv, JsonObject::Nil));
                proof {
                    assert(jview(ty) == JsonView::Str("resource"@));
                    assert(oview(o) =~= seq![("type"@, JsonView::Str("resource"@)), ("resource"@, resource_reference_json(*resource))]);
                    assert(jview(JsonValue::Object(o)) =~= prompt_content_json(*self));
                }
                JsonValue::Object(o)
            },
        }
    }
}

impl PromptMessage {
    /// A message with the given role and content.
    pub fn new(role: MessageRole, content: PromptContent) -> (r: Self)
        ensures
            r.role == role,
            r.content == content,
    {
        PromptMessage { role, content }
    }

    /// A system message with text content.
    pub fn system(content: &str) -> (r: Self)
        ensures
            r.role == MessageRole::System,
            r.content is Text && r.content->text@ == content@,
    {
        Self::new(MessageRole::System, PromptContent::text(content))
    }

    /// A user message with text content.
    pub fn user(content: &str) -> (r: Self)
        ensures
            r.role == MessageRole::User,
            r.content is Text && r.content->text@ == content@,
    {
        Self::new(MessageRole::User, PromptContent::text(content))
    }

    /// An assistant message with text content.
    pub fn assistant(content: &str) -> (r: Self)
        ensures
            r.role == MessageRole::Assistant,
            r.content is Text && r.content->text@ == content@,
    {
        Self::new(MessageRole::Assistant, PromptContent::text(content))
    }
}

impl PromptContent {
    /// Text content.
    pub fn text(text: &str) -> (r: Self)
        ensures
            r is Text && r->text@ == text@,
    {
        PromptContent::Text { text: owned(text) }
    }

    /// Image content with its data and MIME type.
    pub fn image(data: &str, mime_type: &str) -> (r: Self)
        ensures
            r is Image && r->data@ == data@ && r->mime_type@ == mime_type@,
    {
        PromptContent::Image { data: owned(data), mime_type: owned(mime_type) }
    }

    /// A reference to the resource at `uri`, without text.
    pub fn resource(uri: &str) -> (r: Self)
        ensures
            r is Resource && r->resource.uri@ == uri@ && r->resource.text is None,
    {
        PromptContent::Resource { resource: ResourceReference { uri: owned(uri), text: None } }
    }

    /// A reference to the resource at `uri`, with text.
    pub fn resource_with_text(uri: &str, text: &str) -> (r: Self)
        ensures
            r is Resource && r->resource.uri@ == uri@,
            r->resource.text is Some && r->resource.text->0@ == text@,
    {
        PromptContent::Resource { resource: ResourceReference { uri: owned(uri), text: Some(owned(text)) } }
    }
}

/// The name a prompt message role is written as.
pub open spec fn prompt_role_name(x: MessageRole) -> Seq<char> {
    match x {
        MessageRole::System => "system"@,
        MessageRole::User => "user"@,
        MessageRole::Assistant => "assistant"@,
    }
}

impl MessageRole {
    /// As JSON: its name, as a string.
    pub fn to_json(&self) -> (r: JsonValue)
        ensures
            jview(r) == JsonView::Str(prompt_role_name(*self)),
    {
        match self {
            MessageRole::System => JsonValue::string("system"),
            MessageRole::User => JsonValue::string("user"),
            MessageRole::Assistant => JsonValue::string("assistant"),
        }
    }
}

impl ListPromptsRequest {
    /// The request as JSON: `{"cursor": ...}`, the cursor left out when
    /// there is none.
    pub fn to_json(&self) -> (r: JsonValue)
        ensures
            jview(r) == cursor_json(match self.cursor { Some(t) => Some(t@), None => None }),
    {
        cursor_to_json(&self.cursor)
    }

    /// The request read from JSON: an object whose "cursor" is absent,
    /// null or a string; nothing for anything else.
    pub fn from_json(v: &JsonValue) -> (r: Option<ListPromptsRequest>)
        ensures
            match cursor_reading(jview(*v)) {
                Some(c) => r matches Some(x) && c == match x.cursor { Some(t) => Some(t@), None => None },
                None => r is None,
            },
    {
        match cursor_from_json(v) {
            Some(cursor) => Some(ListPromptsRequest { cursor }),
            None => None,
        }
    }
}

/// The JSON of a request for a prompt: its "name", then its "arguments"
/// when it has some.
pub open spec fn get_prompt_json(name: Seq<char>, arguments: Option<JsonView>) -> JsonView {
    JsonView::Object(seq![("name"@, JsonView::Str(name))] + match arguments {
        Some(a) => seq![("arguments"@, a)],
        None => Seq::empty(),
    })
}

/// How a request for a prompt reads from JSON: an object with a string
/// "name"; "arguments" absent or null is none, anything else is the
/// arguments.
pub open spec fn get_prompt_reading(v: JsonView) -> Option<(Seq<char>, Option<JsonView>)> {
    match str_member(v, "name"@) {
        Some(n) => Some((n, match jv_field(v, "arguments"@) {
            None => None,
            Some(JsonView::Null) => None,
            Some(a) => Some(a),
        })),
        None => None,
    }
}

/// Reading back the JSON of a request for a prompt gives the request,
/// when its arguments are not null (null arguments read as none).
pub proof fn lemma_get_prompt_round_trip(name: Seq<char>, arguments: Option<JsonView>)
    requires
        arguments != Some(JsonView::Null),
    ensures
        get_prompt_reading(get_prompt_json(name, arguments)) == Some((name, arguments)),
{
    reveal_strlit("name");
    reveal_strlit("arguments");
    assert("name"@ != "arguments"@) by {
        assert("name"@.len() != "arguments"@.len());
    }
    let ms = seq![("name"@, JsonView::Str(name))] + match arguments {
        Some(a) => seq![("arguments"@, a)],
        None => Seq::<(Seq<char>, JsonView)>::empty(),
    };
    assert(ms[0] == ("name"@, JsonView::Str(name)));
    assert(ov_lookup(ms, "name"@) == Some(JsonView::Str(name)));
    assert(ov_lookup(ms, "arguments"@) == ov_lookup(ms.drop_first(), "arguments"@));
    if arguments is Some {
        let rest = ms.drop_first();
        assert(rest =~= seq![("arguments"@, arguments->0)]);
        assert(ov_lookup(rest, "arguments"@) == Some(arguments->0));
    } else {
        assert(ms.drop_first() =~= Seq::<(Seq<char>, JsonView)>::empty());
        assert(ov_lookup(ms.drop_first(), "arguments"@) is None);
    }
}

impl GetPromptRequest {
    /// The request as JSON: `{"name": ..., "arguments": ...}`, the
    /// arguments left out when there are none.
    pub fn to_json(&self) -> (r: JsonValue)
        ensures
            jview(r) == get_prompt_json(self.name@, match self.arguments { Some(a) => Some(jview(a)), None => None }),
    {
        let rest = match &self.arguments {
            Some(a) => JsonObject::with_first("arguments", a.duplicate(), JsonObject::Nil),
            None => JsonObject::Nil,
        };
        let n = JsonValue::String(self.name.clone());
        let o = JsonObject::with_first("name", n, rest);
        proof {
            assert(jview(n) == JsonView::Str(self.name@));
            assert(oview(o) =~= (seq![("name"@, JsonView::Str(self.name@))] + match self.arguments {
                Some(a) => seq![("arguments"@, jview(a))],
                None => Seq::<(Seq<char>, JsonView)>::empty(),
            }));
        }
        JsonValue::Object(o)
    }

    /// The request read from JSON: an object with a string "name" and
    /// optional "arguments"; nothing when the name is missing or not a
    /// string.
    pub fn from_json(v: &JsonValue) -> (r: Option<GetPromptRequest>)
        ensures
            match get_prompt_reading(jview(*v)) {
                Some((n, a)) => r matches Some(x) && x.name@ == n
                    && a == match x.arguments { Some(y) => Some(jview(y)), None => None },
                None => r is None,
            },
    {
        proof {
            lemma_field_jview(*v, "arguments"@);
        }
        let name = match read_str(v, "name") {
            Some(n) => n,
            None => return None,
        };
        let arguments = match v.get("arguments") {
            None => None,
            Some(JsonValue::Null) => None,
            Some(a) => Some(a.duplicate()),
        };
        Some(GetPromptRequest { name, arguments })
    }
}

} // verus!
