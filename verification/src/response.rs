//! The response wrapper: every handler outcome is mapped to a
//! transport response here, and no internal diagnostic reaches the
//! client. A render fault becomes a generic error page.

use vstd::prelude::*;

use crate::http::{Body, HttpResponse};
use crate::template::RenderError;
use crate::text::{append_str_chars, string_of};

verus! {

/// The views of a vector of header pairs, element by element.
pub open spec fn header_views(v: Seq<(String, String)>) -> Seq<(Seq<char>, Seq<char>)> {
    Seq::new(v.len(), |i: int| (v[i].0@, v[i].1@))
}

/// Build a string from a literal.
fn lit_string(s: &str) -> (r: String)
    ensures
        r@ == s@,
{
    let mut v: Vec<char> = Vec::new();
    append_str_chars(&mut v, s);
    assert(Seq::<char>::empty() + s@ =~= s@);
    string_of(&v)
}

/// Wrap a render outcome into a transport response: a rendered page is
/// sent as HTML with status 200; a render fault is a server error,
/// status 500, with a generic plain-text body that leaks no internal
/// detail. No headers are attached here; the caller adds the
/// cross-origin headers it computed before routing.
pub fn wrap(r: Result<String, RenderError>) -> (resp: HttpResponse)
    ensures
        resp.headers@.len() == 0,
        match r {
            Result::Ok(s) => resp.status == 200 && resp.content_type@
                == "text/html; charset=utf-8"@ && (resp.body matches Body::Text(t) && t@ == s@),
            Result::Err(_) => resp.status == 500 && resp.content_type@ == "text/plain"@ && (
            resp.body matches Body::Text(t) && t@ == "internal server error"@),
        },
{
    match r {
        Result::Ok(s) => HttpResponse {
            status: 200,
            content_type: lit_string("text/html; charset=utf-8"),
            headers: Vec::new(),
            body: Body::Text(s),
        },
        Result::Err(_) => HttpResponse {
            status: 500,
            content_type: lit_string("text/plain"),
            headers: Vec::new(),
            body: Body::Text(lit_string("internal server error")),
        },
    }
}

/// The response for a path no route serves.
pub fn not_found() -> (resp: HttpResponse)
    ensures
        resp.status == 404,
        resp.content_type@ == "text/plain"@,
        resp.headers@.len() == 0,
        resp.body matches Body::Text(t) && t@ == "not found"@,
{
    HttpResponse {
        status: 404,
        content_type: lit_string("text/plain"),
        headers: Vec::new(),
        body: Body::Text(lit_string("not found")),
    }
}

/// The response for a static-asset path that tries to escape the
/// asset root: refused, and the file is never read.
pub fn forbidden() -> (resp: HttpResponse)
    ensures
        resp.status == 403,
        resp.content_type@ == "text/plain"@,
        resp.headers@.len() == 0,
        resp.body matches Body::Text(t) && t@ == "forbidden"@,
{
    HttpResponse {
        status: 403,
        content_type: lit_string("text/plain"),
        headers: Vec::new(),
        body: Body::Text(lit_string("forbidden")),
    }
}

/// The empty response answering a cross-origin preflight: status 204,
/// no body; the caller attaches whatever cross-origin headers the
/// policy granted.
pub fn no_content() -> (resp: HttpResponse)
    ensures
        resp.status == 204,
        resp.content_type@ == Seq::<char>::empty(),
        resp.headers@.len() == 0,
        resp.body matches Body::Text(t) && t@ == Seq::<char>::empty(),
{
    HttpResponse {
        status: 204,
        content_type: String::new(),
        headers: Vec::new(),
        body: Body::Text(String::new()),
    }
}

} // verus!
