//! Resources: listing, reading, subscription.
use vstd::prelude::*;
use crate::text::owned;
use crate::json::{JsonObject, JsonValue, JsonView, jview, oview, str_member, read_str};
use crate::messages::{cursor_json, cursor_reading, cursor_to_json, cursor_from_json};

pub use super::logging::{ResourceListChangedNotification, ResourceUpdatedNotification};

verus! {

/// Request to list resources.
#[derive(Debug, Clone, PartialEq, Eq)]
pub struct ListResourcesRequest {
    pub cursor: Option<String>,
}

/// Response listing resources.
#[derive(Debug, Clone, PartialEq, Eq)]
pub struct ListResourcesResponse {
    pub resources: Vec<Resource>,
    pub next_cursor: Option<String>,
}

/// A resource that a server exposes.
#[derive(Debug, Clone, PartialEq, Eq)]
pub struct Resource {
    pub uri: String,
    pub name: String,
    pub description: Option<String>,
    pub mime_type: Option<String>,
}

impl Resource {
    /// A resource without description or MIME type.
    pub fn new(uri: &str, name: &str) -> (r: Self)
        ensures
            r.uri@ == uri@,
            r.name@ == name@,
            r.description is None,
            r.mime_type is None,
    {
        Resource { uri: owned(uri), name: owned(name), description: None, mime_type: None }
    }

    /// The same resource with a description.
    pub fn with_description(self, description: &str) -> (r: Self)
        ensures
            r.uri == self.uri,
            r.name == self.name,
            r.description is Some && r.description->0@ == description@,
            r.mime_type == self.mime_type,
    {
        Resource { uri: self.uri, name: self.name, description: Some(owned(description)), mime_type: self.mime_type }
    }

    /// The same resource with a MIME type.
    pub fn with_mime_type(self, mime_type: &str) -> (r: Self)
        ensures
            r.uri == self.uri,
            r.name == self.name,
            r.description == self.description,
            r.mime_type is Some && r.mime_type->0@ == mime_type@,
    {
        Resource { uri: self.uri, name: self.name, description: self.description, mime_type: Some(owned(mime_type)) }
    }
}

/// Request to read a resource.
#[derive(Debug, Clone, PartialEq, Eq)]
pub struct ReadResourceRequest {
    pub uri: String,
}

/// Response with resource contents.
#[derive(Debug, Clone, PartialEq, Eq)]
pub struct ReadResourceResponse {
    pub contents: Vec<ResourceContent>,
}

/// Contents of a resource: text or base64 blob.
#[derive(Debug, Clone, PartialEq, Eq)]
pub enum ResourceContent {
    Text { text: String, uri: String, mime_type: Option<String> },
    Blob { blob: String, uri: String, mime_type: Option<String> },
}

impl ResourceContent {
    /// Text content of the resource at `uri`.
    pub fn text(uri: &str, text: &str) -> (r: Self)
        ensures
            r is Text && r->Text_uri@ == uri@ && r->Text_text@ == text@ && r->Text_mime_type is None,
    {
        ResourceContent::Text { text: owned(text), uri: owned(uri), mime_type: None }
    }

    /// Text content with a MIME type.
    pub fn text_with_mime_type(uri: &str, text: &str, mime_type: &str) -> (r: Self)
        ensures
            r is Text && r->Text_uri@ == uri@ && r->Text_text@ == text@,
            r->Text_mime_type is Some && r->Text_mime_type->0@ == mime_type@,
    {
        ResourceContent::Text { text: owned(text), uri: owned(uri), mime_type: Some(owned(mime_type)) }
    }

    /// Blob content of the resource at `uri`.
    pub fn blob(uri: &str, blob: &str) -> (r: Self)
        ensures
            r is Blob && r->Blob_uri@ == uri@ && r->Blob_blob@ == blob@ && r->Blob_mime_type is None,
    {
        ResourceContent::Blob { blob: owned(blob), uri: owned(uri), mime_type: None }
    }

    /// Blob content with a MIME type.
    pub fn blob_with_mime_type(uri: &str, blob: &str, mime_type: &str) -> (r: Self)
        ensures
            r is Blob && r->Blob_uri@ == uri@ && r->Blob_blob@ == blob@,
            r->Blob_mime_type is Some && r->Blob_mime_type->0@ == mime_type@,
    {
        ResourceContent::Blob { blob: owned(blob), uri: owned(uri), mime_type: Some(owned(mime_type)) }
    }

    /// The URI of the resource.
    pub fn uri(&self) -> (r: &str)
        ensures
            r@ == match *self {
                ResourceContent::Text { uri, .. } => uri@,
                ResourceContent::Blob { uri, .. } => uri@,
            },
    {
        match self {
            ResourceContent::Text { uri, .. } => uri.as_str(),
            ResourceContent::Blob { uri, .. } => uri.as_str(),
        }
    }

    /// The MIME type, if known.
    pub fn mime_type(&self) -> (r: Option<&str>)
        ensures
            match *self {
                ResourceContent::Text { mime_type, .. } => r is Some == mime_type is Some && (r is Some ==> r->0@ == mime_type->0@),
                ResourceContent::Blob { mime_type, .. } => r is Some == mime_type is Some && (r is Some ==> r->0@ == mime_type->0@),
            },
    {
        let m = match self {
            ResourceContent::Text { mime_type, .. } => mime_type,
            ResourceContent::Blob { mime_type, .. } => mime_type,
        };
        match m {
            Some(s) => Some(s.as_str()),
            None => None,
        }
    }
}

/// Request to subscribe to updates of a resource.
#[derive(Debug, Clone, PartialEq, Eq)]
pub struct SubscribeRequest {
    pub uri: String,
}

/// Request to unsubscribe from updates of a resource.
#[derive(Debug, Clone, PartialEq, Eq)]
pub struct UnsubscribeRequest {
    pub uri: String,
}

impl ListResourcesRequest {
    /// The request as JSON: `{"cursor": ...}`, the cursor left out when
    /// there is none.
    pub fn to_json(&self) -> (r: JsonValue)
        ensures
            jview(r) == cursor_json(match self.cursor { Some(t) => Some(t@), None => None }),
    {
        cursor_to_json(&self.cursor)
    }

    /// The request read from JSON: an object whose "cursor" is absent,
    /// null or a string; nothing for anything else.
    pub fn from_json(v: &JsonValue) -> (r: Option<ListResourcesRequest>)
        ensures
            match cursor_reading(jview(*v)) {
                Some(c) => r matches Some(x) && c == match x.cursor { Some(t) => Some(t@), None => None },
                None => r is None,
            },
    {
        match cursor_from_json(v) {
            Some(cursor) => Some(ListResourcesRequest { cursor }),
            None => None,
        }
    }
}

/// The JSON of a request to read a resource: `{"uri": ...}`.
pub open spec fn read_resource_json(uri: Seq<char>) -> JsonView {
    JsonView::Object(seq![("uri"@, JsonView::Str(uri))])
}

/// Reading back the JSON of a request to read a resource gives its URI.
pub proof fn lemma_read_resource_round_trip(uri: Seq<char>)
    ensures
        str_member(read_resource_json(uri), "uri"@) == Some(uri),
{
}

impl ReadResourceRequest {
    /// The request as JSON: `{"uri": ...}`.
    pub fn to_json(&self) -> (r: JsonValue)
        ensures
            jview(r) == read_resource_json(self.uri@),
    {
        let u = JsonValue::String(self.uri.clone());
        let o = JsonObject::with_first("uri", u, JsonObject::Nil);
        proof {
            assert(jview(u) == JsonView::Str(self.uri@));
            assert(oview(o) =~= seq![("uri"@, JsonView::Str(self.uri@))]);
        }
        JsonValue::Object(o)
    }

    /// The request read from JSON: an object whose "uri" is a string;
    /// nothing otherwise.
    pub fn from_json(v: &JsonValue) -> (r: Option<ReadResourceRequest>)
        ensures
            match str_member(jview(*v), "uri"@) {
                Some(u) => r matches Some(x) && x.uri@ == u,
                None => r is None,
            },
    {
        match read_str(v, "uri") {
            Some(uri) => Some(ReadResourceRequest { uri }),
            None => None,
        }
    }
}

} // verus!
