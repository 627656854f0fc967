//! The request-to-response pipeline: the cross-origin policy is
//! evaluated first and answers preflights directly; the asset prefix
//! is mounted next; everything else goes through the route table to a
//! handler, through the template renderer, and out through the
//! response wrapper. The one step the library cannot take itself —
//! reading an asset file — is returned to the caller as a `ServeFile`
//! action, to be finished with `assets::asset_response`.

use vstd::prelude::*;

use crate::assets::{resolve_asset, spec_extension_of, spec_mime_of, spec_path_safe, string_views,
    AssetRequest};
use crate::cors::{spec_cors_grant, spec_is_preflight, spec_origin_view, CorsPolicy};
use crate::http::{Body, HttpResponse, Method, Request};
use crate::query::{query_value, spec_opt_view, spec_query_value};
use crate::response::{header_views, no_content, not_found, forbidden, wrap};
use crate::routing::{default_route_table, path_segments, spec_path_segments, HandlerId, RouteTable};
use crate::template::{render_hello, render_index, spec_hello_page, spec_index_page, RenderError};
use crate::text::{append_chars, chars_eq_str, views_of};

verus! {

/// The mathematical model of a response body.
pub enum BodyModel {
    Text(Seq<char>),
    Bytes(Seq<u8>),
}

/// The mathematical model of a transport response.
pub struct RespModel {
    pub status: int,
    pub content_type: Seq<char>,
    pub headers: Seq<(Seq<char>, Seq<char>)>,
    pub body: BodyModel,
}

impl Body {
    /// The body's model.
    pub open spec fn model(&self) -> BodyModel {
        match self {
            Body::Text(t) => BodyModel::Text(t@),
            Body::Bytes(b) => BodyModel::Bytes(b@),
        }
    }
}

impl HttpResponse {
    /// The response's model.
    pub open spec fn model(&self) -> RespModel {
        RespModel {
            status: self.status as int,
            content_type: self.content_type@,
            headers: header_views(self.headers@),
            body: self.body.model(),
        }
    }
}

/// What the pipeline asks of its caller: send a finished response, or
/// read the named file below the asset root and finish with
/// `assets::asset_response` (the path is safe, the content type
/// already resolved, the headers to carry over).
pub enum Action {
    Respond(HttpResponse),
    ServeFile(AssetRequest, Vec<(String, String)>),
}

/// The mathematical model of an action.
pub enum ActionModel {
    Respond(RespModel),
    ServeFile(Seq<Seq<char>>, Seq<char>, Seq<(Seq<char>, Seq<char>)>),
}

impl Action {
    /// The action's model.
    pub open spec fn model(&self) -> ActionModel {
        match self {
            Action::Respond(r) => ActionModel::Respond(r.model()),
            Action::ServeFile(a, h) => ActionModel::ServeFile(
                string_views(a.segments@),
                a.content_type@,
                header_views(h@),
            ),
        }
    }
}

/// A plain-text response model.
pub open spec fn spec_text_response(
    status: int,
    content_type: Seq<char>,
    body: Seq<char>,
    headers: Seq<(Seq<char>, Seq<char>)>,
) -> RespModel {
    RespModel { status, content_type, headers, body: BodyModel::Text(body) }
}

/// The greeting the hello page is rendered around: the captured path
/// parameter directly followed by the optional `last_name` query value
/// — no separator, exactly as the service has always concatenated
/// them. An absent `last_name` reads as the empty string.
pub open spec fn spec_greet_name(name: Seq<char>, last: Option<Seq<char>>) -> Seq<char> {
    name + match last {
        Option::Some(l) => l,
        Option::None => Seq::empty(),
    }
}

/// An absent `last_name` reads exactly as an empty one: the greeting
/// is the same.
pub proof fn lemma_absent_last_name_is_empty(name: Seq<char>)
    ensures
        spec_greet_name(name, Option::None) == spec_greet_name(name, Some(Seq::empty())),
{
}

/// What a handler renders: the index page, or the hello page around
/// the greeting built from the first captured parameter and the
/// `last_name` query value. A greeting dispatch without a captured
/// parameter is a missing context field.
pub open spec fn spec_dispatch(
    h: HandlerId,
    params: Seq<Seq<char>>,
    query: Option<Seq<char>>,
) -> Result<Seq<char>, RenderError> {
    match h {
        HandlerId::Index => Ok(spec_index_page()),
        HandlerId::Greet => {
            if params.len() > 0 {
                Ok(
                    spec_hello_page(
                        spec_greet_name(params[0], spec_query_value(query, "last_name"@)),
                    ),
                )
            } else {
                Err(RenderError::MissingField)
            }
        },
    }
}

/// The response model the wrapper gives a render outcome.
pub open spec fn spec_wrap_model(
    r: Result<Seq<char>, RenderError>,
    headers: Seq<(Seq<char>, Seq<char>)>,
) -> RespModel {
    match r {
        Result::Ok(s) => spec_text_response(200, "text/html; charset=utf-8"@, s, headers),
        Result::Err(_) => spec_text_response(
            500,
            "text/plain"@,
            "internal server error"@,
            headers,
        ),
    }
}

/// The whole pipeline, as a mathematical function of the request: the
/// cross-origin grant is computed first; a preflight is answered
/// directly with status 204 and no body; a path under the asset
/// prefix is resolved by the asset rules (a safe path is served, an
/// empty one is unknown, an unsafe one is refused without reading
/// anything); every other path goes through the route table, the
/// matched handler, and the response wrapper; a path no route matches
/// is unknown.
pub open spec fn spec_pipeline(
    table: RouteTable,
    allowed: Seq<char>,
    method: Method,
    path: Seq<char>,
    query: Option<Seq<char>>,
    origin: Option<Seq<char>>,
) -> ActionModel {
    let hs = spec_cors_grant(allowed, origin);
    if spec_is_preflight(method) {
        ActionModel::Respond(spec_text_response(204, Seq::empty(), Seq::empty(), hs))
    } else {
        let segs = spec_path_segments(path);
        if segs.len() > 0 && segs[0] == "public"@ {
            let rest = segs.skip(1);
            if rest.len() == 0 {
                ActionModel::Respond(spec_text_response(404, "text/plain"@, "not found"@, hs))
            } else if spec_path_safe(rest) {
                ActionModel::ServeFile(rest, spec_mime_of(spec_extension_of(rest.last())), hs)
            } else {
                ActionModel::Respond(spec_text_response(403, "text/plain"@, "forbidden"@, hs))
            }
        } else {
            match table.spec_match(method, segs) {
                Option::None => ActionModel::Respond(
                    spec_text_response(404, "text/plain"@, "not found"@, hs),
                ),
                Option::Some(hp) => ActionModel::Respond(
                    spec_wrap_model(spec_dispatch(hp.0, hp.1, query), hs),
                ),
            }
        }
    }
}

/// The service: the route table and the cross-origin policy, both
/// fixed at startup.
pub struct Service {
    pub table: RouteTable,
    pub policy: CorsPolicy,
}

impl Service {
    /// Handle one request: decide everything that does not require
    /// reading a file, exactly as `spec_pipeline` says.
    pub fn handle(&self, req: &Request) -> (a: Action)
        ensures
            a.model() == spec_pipeline(
                self.table,
                self.policy.allowed_origin@,
                req.method,
                req.path@,
                spec_opt_view(&req.query),
                spec_origin_view(&req.origin),
            ),
    {
        let hs = self.policy.grant(&req.origin);
        if req.method.eq_method(Method::Options) {
            let mut r = no_content();
            r.headers = hs;
            return Action::Respond(r);
        }
        let mut segs = path_segments(req.path.as_str());
        let ghost segs_v = views_of(segs@);
        if segs.len() > 0 && chars_eq_str(&segs[0], "public") {
            assert(segs_v[0] == "public"@);
            let ghost orig = segs@;
            let rest = segs.split_off(1);
            proof {
                assert(rest@ =~= orig.skip(1));
                assert(views_of(rest@) =~= segs_v.skip(1));
            }
            if rest.len() == 0 {
                let mut r = not_found();
                r.headers = hs;
                return Action::Respond(r);
            }
            match resolve_asset(&rest) {
                Option::Some(asset) => {
                    assert(views_of(rest@).last() == views_of(rest@)[rest@.len() - 1]);
                    return Action::ServeFile(asset, hs);
                },
                Option::None => {
                    let mut r = forbidden();
                    r.headers = hs;
                    return Action::Respond(r);
                },
            }
        }
        match self.table.match_request(req.method, &segs) {
            Option::None => {
                let mut r = not_found();
                r.headers = hs;
                Action::Respond(r)
            },
            Option::Some((h, params)) => {
                let outcome: Result<String, RenderError> = match h {
                    HandlerId::Index => Ok(render_index()),
                    HandlerId::Greet => {
                        if params.len() > 0 {
                            let mut name = params[0].clone();
                            assert(name@ == views_of(params@)[0]);
                            match query_value(&req.query, "last_name") {
                                Option::Some(l) => {
                                    append_chars(&mut name, &l);
                                },
                                Option::None => {
                                    assert(name@ + Seq::<char>::empty() =~= name@);
                                },
                            }
                            Ok(render_hello(&name))
                        } else {
                            Err(RenderError::MissingField)
                        }
                    },
                };
                let mut r = wrap(outcome);
                r.headers = hs;
                Action::Respond(r)
            },
        }
    }
}

/// A `GET` of the root path always answers with status 200 and the
/// index page as HTML — a non-empty body with no unresolved
/// placeholder braces — whatever the query and origin.
pub proof fn lemma_index_request(
    table: RouteTable,
    allowed: Seq<char>,
    query: Option<Seq<char>>,
    origin: Option<Seq<char>>,
)
    requires
        table.is_default_table(),
    ensures
        spec_pipeline(table, allowed, Method::Get, "/"@, query, origin) == ActionModel::Respond(
            spec_text_response(
                200,
                "text/html; charset=utf-8"@,
                spec_index_page(),
                spec_cors_grant(allowed, origin),
            ),
        ),
        spec_index_page().len() > 0,
        forall|i: int|
            0 <= i < spec_index_page().len() ==> spec_index_page()[i] != '{' && spec_index_page()[i]
                != '}',
{
    reveal_strlit("/");
    assert("/"@.len() == 1);
    assert("/"@[0] == '/');
    assert("/"@.skip(1).len() == 0);
    assert(spec_path_segments("/"@) =~= Seq::<Seq<char>>::empty());
    crate::routing::lemma_index_route_extraction(table);
    crate::template::lemma_index_page_complete();
}

/// A `GET` of `greet` and a non-empty name answers with status 200 and
/// the hello page, rendered around the captured name followed directly
/// by the `last_name` query value (no separator; an absent value reads
/// as empty).
pub proof fn lemma_greet_request(
    table: RouteTable,
    allowed: Seq<char>,
    path: Seq<char>,
    name: Seq<char>,
    query: Option<Seq<char>>,
    origin: Option<Seq<char>>,
)
    requires
        table.is_default_table(),
        spec_path_segments(path) == seq!["greet"@, name],
        name.len() > 0,
    ensures
        spec_pipeline(table, allowed, Method::Get, path, query, origin) == ActionModel::Respond(
            spec_text_response(
                200,
                "text/html; charset=utf-8"@,
                spec_hello_page(spec_greet_name(name, spec_query_value(query, "last_name"@))),
                spec_cors_grant(allowed, origin),
            ),
        ),
{
    let segs = spec_path_segments(path);
    assert(segs[0] == "greet"@);
    reveal_strlit("greet");
    reveal_strlit("public");
    assert("greet"@.len() == 5);
    assert("public"@.len() == 6);
    assert(segs[0] != "public"@);
    crate::routing::lemma_greet_route_extraction(table, name);
}

/// A preflight request is answered before routing with status 204 and
/// an empty body; it carries the full permissive header set exactly
/// when the request's origin is the allowed one, and no permissive
/// headers otherwise — whatever its path.
pub proof fn lemma_preflight(
    table: RouteTable,
    allowed: Seq<char>,
    path: Seq<char>,
    query: Option<Seq<char>>,
    origin: Option<Seq<char>>,
)
    ensures
        spec_pipeline(table, allowed, Method::Options, path, query, origin)
            == ActionModel::Respond(
            spec_text_response(204, Seq::empty(), Seq::empty(), spec_cors_grant(allowed, origin)),
        ),
        crate::cors::spec_origin_allowed(allowed, origin) ==> spec_cors_grant(allowed, origin)
            == crate::cors::spec_cors_headers(allowed),
        !crate::cors::spec_origin_allowed(allowed, origin) ==> spec_cors_grant(allowed, origin)
            == Seq::<(Seq<char>, Seq<char>)>::empty(),
{
}

/// The pipeline never asks the caller to read an unsafe path: whenever
/// it answers with `ServeFile`, every segment of the named path is
/// non-empty and is neither `.` nor `..` — the file lies at or below
/// the asset root.
pub proof fn lemma_serve_file_safe(
    table: RouteTable,
    allowed: Seq<char>,
    method: Method,
    path: Seq<char>,
    query: Option<Seq<char>>,
    origin: Option<Seq<char>>,
)
    ensures
        spec_pipeline(table, allowed, method, path, query, origin) matches ActionModel::ServeFile(
            segs,
            _ct,
            _hs,
        ) ==> spec_path_safe(segs),
{
}

/// Build the service as it starts up: the two routes and the fixed
/// allowed origin.
pub fn new_service() -> (s: Service)
    ensures
        s.table.is_default_table(),
        s.policy.allowed_origin@ == "http://localhost:3000"@,
{
    let mut v: Vec<char> = Vec::new();
    crate::text::append_str_chars(&mut v, "http://localhost:3000");
    assert(Seq::<char>::empty() + "http://localhost:3000"@ =~= "http://localhost:3000"@);
    Service {
        table: default_route_table(),
        policy: CorsPolicy { allowed_origin: crate::text::string_of(&v) },
    }
}

} // verus!
