//! The locator of a remote, and the requests made of it.
//!
//! An endpoint is kept as the text of its URL, in the form in which the
//! `url` crate writes a URL that it has read. A request for another view of
//! the remote is the same URL with another query; the `url` crate writes
//! that query into the text, escaping what a query may not hold.

use vstd::prelude::*;
use vstd::string::*;
use url::Url;

verus! {

/// The text that `Url::parse` makes of `text`: the serialization of the URL
/// that it reads, or nothing where it reads none.
pub uninterp spec fn url_parse(text: Seq<char>) -> Option<Seq<char>>;

/// The text of the URL read from `url` once `Url::set_query` has put `query`
/// in the place of its query, or nothing where `url` does not read as a URL.
pub uninterp spec fn url_with_query(url: Seq<char>, query: Seq<char>) -> Option<Seq<char>>;

/// The most bytes, endpoint and query together, from which a request is
/// built. The `url` crate holds offsets into a URL in 32 bits; this bound
/// keeps a URL under that limit, the escaping of its query counted.
pub const MAX_REQUEST_BYTES: usize = 0x1000_0000;

/// The query that asks the remote for its refs.
pub const LIST_QUERY: &'static str = "list";

/// What stands before a ref's name in the query that asks for its history.
pub const EXPORT_QUERY_PREFIX: &'static str = "fast-export=";

/// An optional string, as an optional sequence of characters.
pub open spec fn option_text(o: Option<String>) -> Option<Seq<char>> {
    match o {
        Some(s) => Some(s@),
        None => None,
    }
}

/// Calls `url::Url::parse` and hands back the URL's serialization.
///
/// Believed of it: the result is the serialization of the URL that the
/// `url` crate reads from `text`, and there is none exactly where
/// `Url::parse` returns an error.
#[verifier::external_body]
fn parse_url(text: &str) -> (r: Option<String>)
    ensures
        option_text(r) == url_parse(text@),
{
    match Url::parse(text) {
        Ok(url) => Some(String::from(url)),
        Err(_) => None,
    }
}

/// Reads `url` with `url::Url::parse`, calls `url::Url::set_query` on the
/// URL and hands back the serialization that results.
///
/// Believed of it: the result is what the `url` crate writes for the URL
/// with `query` as its query, and there is none exactly where `Url::parse`
/// returns an error for `url`. The bound on the lengths keeps `set_query`
/// away from URLs over 4 GB, on which it panics.
#[verifier::external_body]
fn set_url_query(url: &str, query: &str) -> (r: Option<String>)
    requires
        url.spec_bytes().len() + query.spec_bytes().len() <= MAX_REQUEST_BYTES,
    ensures
        option_text(r) == url_with_query(url@, query@),
        r.is_some() <==> url_parse(url@).is_some(),
{
    match Url::parse(url) {
        Ok(mut parsed) => {
            parsed.set_query(Some(query));
            Some(String::from(parsed))
        },
        Err(_) => None,
    }
}

/// Why a text is no endpoint.
#[derive(Debug, Clone, Copy, PartialEq, Eq, Structural)]
pub enum EndpointError {
    /// The text does not read as an absolute URL.
    Malformed,
}

/// The locator of a remote: scheme, host, optional port, path and optional
/// query, as one URL.
///
/// An endpoint is never changed. A request with another query is another
/// endpoint, made by `with_query`.
#[derive(Debug)]
pub struct Endpoint {
    text: String,
}

impl View for Endpoint {
    type V = Seq<char>;

    closed spec fn view(&self) -> Seq<char> {
        self.text@
    }
}

/// The result of `Endpoint::parse`, as a value of the model.
pub open spec fn parsed_view(r: Result<Endpoint, EndpointError>) -> Option<Seq<char>> {
    match r {
        Ok(e) => Some(e@),
        Err(_) => None,
    }
}

/// An optional endpoint, as an optional sequence of characters.
pub open spec fn option_endpoint_view(o: Option<Endpoint>) -> Option<Seq<char>> {
    match o {
        Some(e) => Some(e@),
        None => None,
    }
}

/// Whether a request can be built from an endpoint and a query of these
/// texts: whether their bytes together stay within `MAX_REQUEST_BYTES`.
pub open spec fn request_fits(url: Seq<char>, query: Seq<char>) -> bool {
    vstd::utf8::encode_utf8(url).len() + vstd::utf8::encode_utf8(query).len() <= MAX_REQUEST_BYTES
}

/// The endpoint `url` with `query` as its query, where a request can be
/// built from the two.
pub open spec fn endpoint_with_query(url: Seq<char>, query: Seq<char>) -> Option<Seq<char>> {
    if request_fits(url, query) {
        url_with_query(url, query)
    } else {
        None
    }
}

/// The line that asks a server for the endpoint of this text: the text,
/// then one `CR LF`.
pub open spec fn request_line_of(url: Seq<char>) -> Seq<char> {
    url + seq!['\r', '\n']
}

/// The query that asks for the history of the ref `name`.
pub open spec fn export_query_of(name: Seq<char>) -> Seq<char> {
    EXPORT_QUERY_PREFIX@ + name
}

impl Endpoint {
    /// Reads an endpoint from the text of a URL.
    ///
    /// The endpoint holds the URL as the `url` crate writes it. A text that
    /// is no absolute URL is refused.
    pub fn parse(text: &str) -> (r: Result<Endpoint, EndpointError>)
        ensures
            parsed_view(r) == url_parse(text@),
            r matches Err(e) ==> e == EndpointError::Malformed,
    {
        match parse_url(text) {
            Some(text) => Ok(Endpoint { text }),
            None => Err(EndpointError::Malformed),
        }
    }

    /// The text of the endpoint's URL.
    pub fn as_str(&self) -> (text: &str)
        ensures
            text@ == self@,
    {
        self.text.as_str()
    }

    /// This endpoint with `query` in the place of its query.
    ///
    /// Nothing else of the endpoint changes, and the endpoint itself stays
    /// as it was. There is no result where endpoint and query together are
    /// longer than `MAX_REQUEST_BYTES`, nor where the text of this endpoint
    /// no longer reads as a URL.
    pub fn with_query(&self, query: &str) -> (r: Option<Endpoint>)
        ensures
            option_endpoint_view(r) == endpoint_with_query(self@, query@),
            r.is_some() <==> request_fits(self@, query@) && url_parse(self@).is_some(),
    {
        let url = self.text.as_str();
        let url_bytes: usize = url.as_bytes().len();
        let query_bytes: usize = query.as_bytes().len();
        if url_bytes > MAX_REQUEST_BYTES || query_bytes > MAX_REQUEST_BYTES - url_bytes {
            return None;
        }
        match set_url_query(url, query) {
            Some(text) => Some(Endpoint { text }),
            None => None,
        }
    }

    /// The request for this endpoint as it goes over the wire: the URL and
    /// one `CR LF`, nothing before and nothing after.
    pub fn request_line(&self) -> (line: String)
        ensures
            line@ == request_line_of(self@),
    {
        let mut line = self.text.clone();
        line.append("\r\n");
        proof {
            reveal_strlit("\r\n");
            assert("\r\n"@ =~= seq!['\r', '\n']);
        }
        line
    }
}

/// Builds the query that asks for the history of the ref `name`.
pub fn export_query(name: &str) -> (query: String)
    ensures
        query@ == export_query_of(name@),
{
    let mut query = EXPORT_QUERY_PREFIX.to_owned();
    query.append(name);
    query
}

} // verus!
