//! The cross-origin policy: one fixed allowed origin, fixed method and
//! header lists, credentials allowed. It is evaluated for every
//! request before routing; a request from another origin simply
//! receives no permissive headers and is processed normally.

use vstd::prelude::*;

use crate::http::Method;
use crate::response::header_views;
use crate::text::{append_str_chars, chars_of, string_of, chars_eq};

verus! {

/// The policy: the one origin the browser may read responses from.
/// The method list (GET, POST, PATCH, DELETE), the header list
/// (Authorization, Accept, Content-Type) and the credentials flag are
/// fixed, not configuration.
pub struct CorsPolicy {
    pub allowed_origin: String,
}

/// Whether the policy grants permissive headers: exactly when the
/// request carries an `Origin` header equal to the allowed origin.
pub open spec fn spec_origin_allowed(allowed: Seq<char>, origin: Option<Seq<char>>) -> bool {
    origin matches Some(o) && o == allowed
}

/// The permissive headers granted to an allowed origin: the origin
/// echoed back, the allowed methods, the allowed request headers, and
/// the credentials flag.
pub open spec fn spec_cors_headers(allowed: Seq<char>) -> Seq<(Seq<char>, Seq<char>)> {
    seq![
        ("access-control-allow-origin"@, allowed),
        ("access-control-allow-methods"@, "GET, POST, PATCH, DELETE"@),
        ("access-control-allow-headers"@, "authorization, accept, content-type"@),
        ("access-control-allow-credentials"@, "true"@),
    ]
}

/// The headers the policy attaches to a response for a request from
/// `origin`: the permissive set when the origin matches, none
/// otherwise (the request is still processed).
pub open spec fn spec_cors_grant(allowed: Seq<char>, origin: Option<Seq<char>>) -> Seq<
    (Seq<char>, Seq<char>),
> {
    if spec_origin_allowed(allowed, origin) {
        spec_cors_headers(allowed)
    } else {
        Seq::empty()
    }
}

fn header_pair(name: &str, value: &str) -> (r: (String, String))
    ensures
        r.0@ == name@,
        r.1@ == value@,
{
    let mut n: Vec<char> = Vec::new();
    append_str_chars(&mut n, name);
    let mut v: Vec<char> = Vec::new();
    append_str_chars(&mut v, value);
    assert(Seq::<char>::empty() + name@ =~= name@);
    assert(Seq::<char>::empty() + value@ =~= value@);
    (string_of(&n), string_of(&v))
}

impl CorsPolicy {
    /// Evaluate the policy for a request's `Origin` header: the
    /// headers to attach to the response.
    pub fn grant(&self, origin: &Option<String>) -> (r: Vec<(String, String)>)
        ensures
            header_views(r@) == spec_cors_grant(self.allowed_origin@, spec_origin_view(origin)),
    {
        let allowed = match origin {
            Option::None => false,
            Option::Some(o) => {
                let ov = chars_of(o.as_str());
                let av = chars_of(self.allowed_origin.as_str());
                chars_eq(&ov, &av)
            },
        };
        if allowed {
            let mut hs: Vec<(String, String)> = Vec::new();
            let mut origin_chars: Vec<char> = Vec::new();
            append_str_chars(&mut origin_chars, self.allowed_origin.as_str());
            assert(Seq::<char>::empty() + self.allowed_origin@ =~= self.allowed_origin@);
            let name = header_pair("access-control-allow-origin", "");
            hs.push((name.0, string_of(&origin_chars)));
            hs.push(header_pair("access-control-allow-methods", "GET, POST, PATCH, DELETE"));
            hs.push(
                header_pair("access-control-allow-headers", "authorization, accept, content-type"),
            );
            hs.push(header_pair("access-control-allow-credentials", "true"));
            assert(header_views(hs@) =~= spec_cors_headers(self.allowed_origin@));
            hs
        } else {
            let hs: Vec<(String, String)> = Vec::new();
            assert(header_views(hs@) =~= Seq::<(Seq<char>, Seq<char>)>::empty());
            hs
        }
    }
}

/// The view of an optional `Origin` header.
pub open spec fn spec_origin_view(origin: &Option<String>) -> Option<Seq<char>> {
    match origin {
        Option::None => None,
        Option::Some(o) => Some(o@),
    }
}

/// Whether a request is a cross-origin preflight, answered directly by
/// the policy, before the route table is consulted.
pub open spec fn spec_is_preflight(method: Method) -> bool {
    method == Method::Options
}

} // verus!
