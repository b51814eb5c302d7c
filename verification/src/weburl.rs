//! Parsed web addresses: a `url::Url` together with the parts of it that
//! the library's logic reads (its text, scheme, host and path).
use vstd::prelude::*;

verus! {

/// `url::Url`, carried so that relative references can be resolved
/// against it.
#[verifier::external_type_specification]
#[verifier::external_body]
pub struct ExUrl(::url::Url);

/// `url::Url` derives `Clone`: a clone is the same URL.
pub assume_specification[ <::url::Url as std::clone::Clone>::clone ](u: &::url::Url) -> (r: ::url::Url)
    ensures
        r == *u,
;

/// What `url::Url::parse` gives for a text: on success the parts of the
/// parsed URL, on failure the message of the parse error.
pub uninterp spec fn url_parse(text: Seq<char>) -> Result<(Seq<char>, Seq<char>, Option<Seq<char>>, Seq<char>), Seq<char>>;

/// What `url::Url::join` gives when the URL whose serialization is `base`
/// resolves `input`: the parts of the result, or the error's message.
pub uninterp spec fn url_join(base: Seq<char>, input: Seq<char>) -> Result<(Seq<char>, Seq<char>, Option<Seq<char>>, Seq<char>), Seq<char>>;

/// An absolute URL.
#[derive(Debug, Clone)]
pub struct WebUrl {
    inner: ::url::Url,
    serialization: String,
    scheme: String,
    host: Option<String>,
    path: String,
}

/// The plain view of a parse or join outcome.
pub open spec fn outcome_parts(r: Result<WebUrl, String>) -> Result<(Seq<char>, Seq<char>, Option<Seq<char>>, Seq<char>), Seq<char>> {
    match r {
        Ok(u) => Ok(u.parts()),
        Err(e) => Err(e@),
    }
}

/// `url::Url::parse` on `text`: the parsed URL, with its parts read by
/// `as_str`, `scheme`, `host_str` and `path`, or the error's message. The contract claims that this outcome is `url_parse` of
/// the text, and that "http://localhost" parses.
#[verifier::external_body]
fn parse_url(text: &str) -> (r: Result<WebUrl, String>)
    ensures
        outcome_parts(r) == url_parse(text@),
        text@ == "http://localhost"@ ==> r is Ok,
{
    match ::url::Url::parse(text) {
        Ok(u) => Ok(WebUrl {
            serialization: u.as_str().to_string(),
            scheme: u.scheme().to_string(),
            host: u.host_str().map(|h| h.to_string()),
            path: u.path().to_string(),
            inner: u,
        }),
        Err(e) => Err(e.to_string()),
    }
}

/// `url::Url::join`: `input` resolved against `base`, or the error's
/// message. The contract claims only that this outcome is `url_join` of
/// the base's serialization and the input.
#[verifier::external_body]
fn join_url(base: &WebUrl, input: &str) -> (r: Result<WebUrl, String>)
    ensures
        outcome_parts(r) == url_join(base.text(), input@),
{
    match base.inner.join(input) {
        Ok(u) => Ok(WebUrl {
            serialization: u.as_str().to_string(),
            scheme: u.scheme().to_string(),
            host: u.host_str().map(|h| h.to_string()),
            path: u.path().to_string(),
            inner: u,
        }),
        Err(e) => Err(e.to_string()),
    }
}

/// What `url::Url::set_query` gives when the URL whose serialization is
/// `base` gets `query` as its query: the parts of the result.
pub uninterp spec fn url_set_query(base: Seq<char>, query: Seq<char>) -> (Seq<char>, Seq<char>, Option<Seq<char>>, Seq<char>);

/// `url::Url::set_query` with `Some(query)` on a copy of `base`. The
/// contract claims only that the result's parts are `url_set_query` of the
/// base's serialization and the query.
#[verifier::external_body]
fn set_query_of(base: &WebUrl, query: &str) -> (r: WebUrl)
    ensures
        r.parts() == url_set_query(base.text(), query@),
{
    let mut u = base.inner.clone();
    u.set_query(Some(query));
    WebUrl {
        serialization: u.as_str().to_string(),
        scheme: u.scheme().to_string(),
        host: u.host_str().map(|h| h.to_string()),
        path: u.path().to_string(),
        inner: u,
    }
}

impl WebUrl {
    /// The full text of the URL.
    pub closed spec fn text(self) -> Seq<char> {
        self.serialization@
    }

    /// The scheme of the URL, such as `https`.
    pub closed spec fn scheme_text(self) -> Seq<char> {
        self.scheme@
    }

    /// The host of the URL, if it has one.
    pub closed spec fn host_text(self) -> Option<Seq<char>> {
        match self.host {
            Some(h) => Some(h@),
            None => None,
        }
    }

    /// The path of the URL.
    pub closed spec fn path_text(self) -> Seq<char> {
        self.path@
    }

    /// All the parts read by the logic.
    pub open spec fn parts(self) -> (Seq<char>, Seq<char>, Option<Seq<char>>, Seq<char>) {
        (self.text(), self.scheme_text(), self.host_text(), self.path_text())
    }

    /// Parses an absolute URL; on failure gives the parser's message.
    pub fn parse(input: &str) -> (r: Result<WebUrl, String>)
        ensures
            outcome_parts(r) == url_parse(input@),
            input@ == "http://localhost"@ ==> r is Ok,
    {
        parse_url(input)
    }

    /// Resolves `input` against this URL, as a link in a page at this
    /// address would be.
    pub fn join(&self, input: &str) -> (r: Result<WebUrl, String>)
        ensures
            outcome_parts(r) == url_join(self.text(), input@),
    {
        join_url(self, input)
    }

    /// This URL with its query replaced by `query`.
    pub fn with_query(&self, query: &str) -> (r: WebUrl)
        ensures
            r.parts() == url_set_query(self.text(), query@),
    {
        set_query_of(self, query)
    }

    /// A copy of this URL.
    pub fn duplicate(&self) -> (r: WebUrl)
        ensures
            r == *self,
    {
        WebUrl {
            inner: self.inner.clone(),
            serialization: self.serialization.clone(),
            scheme: self.scheme.clone(),
            host: match &self.host {
                Some(h) => Some(h.clone()),
                None => None,
            },
            path: self.path.clone(),
        }
    }

    /// The full text of the URL.
    pub fn as_str(&self) -> (r: &str)
        ensures
            r@ == self.text(),
    {
        self.serialization.as_str()
    }

    /// The full text of the URL, as an owned string.
    pub fn to_string(&self) -> (r: String)
        ensures
            r@ == self.text(),
    {
        self.serialization.clone()
    }

    /// The scheme of the URL.
    pub fn scheme(&self) -> (r: &str)
        ensures
            r@ == self.scheme_text(),
    {
        self.scheme.as_str()
    }

    /// The host of the URL, if it has one.
    pub fn host_str(&self) -> (r: Option<&str>)
        ensures
            match self.host_text() {
                Some(h) => r matches Some(x) && x@ == h,
                None => r is None,
            },
    {
        match &self.host {
            Some(h) => Some(h.as_str()),
            None => None,
        }
    }

    /// The path of the URL.
    pub fn path(&self) -> (r: &str)
        ensures
            r@ == self.path_text(),
    {
        self.path.as_str()
    }
}

} // verus!
