//! Plain request and response values exchanged with the transport layer.

use vstd::prelude::*;

verus! {

/// The request methods the service distinguishes. Anything else is
/// carried as `Other` and never matches a route.
#[derive(Clone, Copy, Debug, PartialEq, Eq, Structural)]
pub enum Method {
    Get,
    Post,
    Patch,
    Delete,
    Options,
    Other,
}

/// An inbound request, reduced to the values the pipeline reads:
/// the method, the raw path, the raw query string (absent when the
/// request line had no `?`), and the `Origin` header when present.
pub struct Request {
    pub method: Method,
    pub path: String,
    pub query: Option<String>,
    pub origin: Option<String>,
}

/// A response body: rendered text for pages, raw bytes for files.
pub enum Body {
    Text(String),
    Bytes(Vec<u8>),
}

/// A transport response: status code, content type, extra headers
/// (name, value), and the body. The transport layer writes these out
/// verbatim.
pub struct HttpResponse {
    pub status: u16,
    pub content_type: String,
    pub headers: Vec<(String, String)>,
    pub body: Body,
}

} // verus!
