use greet_server::assets::{asset_response, resolve_asset};
use greet_server::http::{Body, HttpResponse, Method, Request};
use greet_server::query::{lookup_first, parse_query};
use greet_server::routing::{path_segments, HandlerId};
use greet_server::server::{new_service, Action};
use greet_server::template::{render, render_hello, render_index, RenderError, TemplateContext};
use greet_server::text::{chars_of, string_of};

fn get(path: &str, query: Option<&str>, origin: Option<&str>) -> Request {
    Request {
        method: Method::Get,
        path: path.to_string(),
        query: query.map(|q| q.to_string()),
        origin: origin.map(|o| o.to_string()),
    }
}

fn body_text(resp: &HttpResponse) -> String {
    match &resp.body {
        Body::Text(t) => t.clone(),
        Body::Bytes(_) => panic!("expected a text body"),
    }
}

fn respond(action: Action) -> HttpResponse {
    match action {
        Action::Respond(r) => r,
        Action::ServeFile(_, _) => panic!("expected a finished response"),
    }
}

#[test]
fn greet_without_query_contains_name() {
    let service = new_service();
    let resp = respond(service.handle(&get("/greet/Alice", None, None)));
    assert_eq!(resp.status, 200);
    assert_eq!(resp.content_type, "text/html; charset=utf-8");
    assert!(body_text(&resp).contains("Alice"));
}

#[test]
fn greet_with_last_name_concatenates_without_separator() {
    let service = new_service();
    let resp = respond(service.handle(&get("/greet/Alice", Some("last_name=Smith"), None)));
    assert_eq!(resp.status, 200);
    let body = body_text(&resp);
    assert!(body.contains("AliceSmith"));
    assert!(!body.contains("Alice Smith"));
}

#[test]
fn greet_empty_last_name_same_as_absent() {
    let service = new_service();
    let with_empty = respond(service.handle(&get("/greet/Bob", Some("last_name="), None)));
    let absent = respond(service.handle(&get("/greet/Bob", None, None)));
    assert_eq!(body_text(&with_empty), body_text(&absent));
}

#[test]
fn index_is_ok_nonempty_and_resolved() {
    let service = new_service();
    let resp = respond(service.handle(&get("/", None, None)));
    assert_eq!(resp.status, 200);
    assert_eq!(resp.content_type, "text/html; charset=utf-8");
    let body = body_text(&resp);
    assert!(!body.is_empty());
    assert!(!body.contains('{'));
    assert!(!body.contains('}'));
}

#[test]
fn unknown_path_is_not_found() {
    let service = new_service();
    let resp = respond(service.handle(&get("/missing", None, None)));
    assert_eq!(resp.status, 404);
}

#[test]
fn greet_with_empty_name_segment_is_not_found() {
    let service = new_service();
    let resp = respond(service.handle(&get("/greet/", None, None)));
    assert_eq!(resp.status, 404);
}

#[test]
fn wrong_method_is_not_found() {
    let service = new_service();
    let req = Request {
        method: Method::Post,
        path: "/".to_string(),
        query: None,
        origin: None,
    };
    let resp = respond(service.handle(&req));
    assert_eq!(resp.status, 404);
}

#[test]
fn route_table_extracts_capture() {
    let service = new_service();
    let segs = path_segments("/greet/Carol");
    let (handler, params) = service
        .table
        .match_request(Method::Get, &segs)
        .expect("the greet route must match");
    assert_eq!(handler, HandlerId::Greet);
    assert_eq!(params.len(), 1);
    assert_eq!(params[0], chars_of("Carol"));
}

#[test]
fn route_table_matches_index_on_empty_path() {
    let service = new_service();
    let segs = path_segments("/");
    let (handler, params) = service
        .table
        .match_request(Method::Get, &segs)
        .expect("the index route must match");
    assert_eq!(handler, HandlerId::Index);
    assert!(params.is_empty());
}

#[test]
fn preflight_with_allowed_origin_gets_cors_headers() {
    let service = new_service();
    let req = Request {
        method: Method::Options,
        path: "/".to_string(),
        query: None,
        origin: Some("http://localhost:3000".to_string()),
    };
    let resp = respond(service.handle(&req));
    assert_eq!(resp.status, 204);
    assert!(body_text(&resp).is_empty());
    let find = |name: &str| {
        resp.headers
            .iter()
            .find(|(n, _)| n == name)
            .map(|(_, v)| v.clone())
    };
    assert_eq!(
        find("access-control-allow-origin").as_deref(),
        Some("http://localhost:3000")
    );
    assert_eq!(
        find("access-control-allow-methods").as_deref(),
        Some("GET, POST, PATCH, DELETE")
    );
    assert_eq!(
        find("access-control-allow-headers").as_deref(),
        Some("authorization, accept, content-type")
    );
    assert_eq!(
        find("access-control-allow-credentials").as_deref(),
        Some("true")
    );
}

#[test]
fn preflight_with_other_origin_gets_no_cors_headers() {
    let service = new_service();
    let req = Request {
        method: Method::Options,
        path: "/".to_string(),
        query: None,
        origin: Some("http://evil.example".to_string()),
    };
    let resp = respond(service.handle(&req));
    assert_eq!(resp.status, 204);
    assert!(resp.headers.is_empty());
}

#[test]
fn get_with_allowed_origin_also_gets_cors_headers() {
    let service = new_service();
    let resp = respond(service.handle(&get("/", None, Some("http://localhost:3000"))));
    assert_eq!(resp.status, 200);
    assert!(resp
        .headers
        .iter()
        .any(|(n, _)| n == "access-control-allow-origin"));
}

#[test]
fn asset_request_resolves_mime_from_extension() {
    let service = new_service();
    match service.handle(&get("/public/styles/app.css", None, None)) {
        Action::ServeFile(asset, _) => {
            assert_eq!(asset.segments, vec!["styles".to_string(), "app.css".to_string()]);
            assert_eq!(asset.content_type, "text/css");
        }
        Action::Respond(_) => panic!("a safe asset path must be served"),
    }
}

#[test]
fn asset_unknown_extension_is_octet_stream() {
    let service = new_service();
    match service.handle(&get("/public/data.bin", None, None)) {
        Action::ServeFile(asset, _) => {
            assert_eq!(asset.content_type, "application/octet-stream");
        }
        Action::Respond(_) => panic!("a safe asset path must be served"),
    }
}

#[test]
fn asset_traversal_is_refused() {
    let service = new_service();
    match service.handle(&get("/public/../../etc/passwd", None, None)) {
        Action::ServeFile(_, _) => panic!("a traversal path must never be served"),
        Action::Respond(resp) => assert_eq!(resp.status, 403),
    }
}

#[test]
fn asset_dot_segment_is_refused() {
    let service = new_service();
    match service.handle(&get("/public/./index.html", None, None)) {
        Action::ServeFile(_, _) => panic!("a dot segment must never be served"),
        Action::Respond(resp) => assert_eq!(resp.status, 403),
    }
}

#[test]
fn asset_prefix_without_file_is_not_found() {
    let service = new_service();
    let resp = respond(service.handle(&get("/public", None, None)));
    assert_eq!(resp.status, 404);
}

#[test]
fn asset_response_passes_bytes_through() {
    let bytes = vec![0u8, 159, 146, 150, 13, 10];
    let resp = asset_response(
        "application/octet-stream".to_string(),
        Vec::new(),
        Some(bytes.clone()),
    );
    assert_eq!(resp.status, 200);
    match resp.body {
        Body::Bytes(b) => assert_eq!(b, bytes),
        Body::Text(_) => panic!("expected a byte body"),
    }
}

#[test]
fn asset_response_missing_file_is_not_found() {
    let resp = asset_response("text/css".to_string(), Vec::new(), None);
    assert_eq!(resp.status, 404);
}

#[test]
fn resolve_asset_rejects_backslash_and_drive() {
    let unsafe_one = vec![chars_of("a\\b.txt")];
    assert!(resolve_asset(&unsafe_one).is_none());
    let unsafe_two = vec![chars_of("c:evil")];
    assert!(resolve_asset(&unsafe_two).is_none());
}

#[test]
fn rendering_is_idempotent() {
    let name = chars_of("Ada");
    assert_eq!(render_hello(&name), render_hello(&name));
    assert_eq!(render_index(), render_index());
    let ctx = TemplateContext {
        name: Some("Ada".to_string()),
    };
    assert_eq!(render("hello", &ctx), render("hello", &ctx));
}

#[test]
fn index_render_is_golden() {
    assert_eq!(
        render_index(),
        "<!DOCTYPE html><html><head><title>Home</title></head><body><h1>Hello, welcome!</h1></body></html>"
    );
}

#[test]
fn hello_render_is_golden() {
    assert_eq!(
        render_hello(&chars_of("Ada")),
        "<!DOCTYPE html><html><head><title>Hello</title></head><body><h1>Hello Ada!</h1></body></html>"
    );
}

#[test]
fn render_unknown_template_fails() {
    let ctx = TemplateContext { name: None };
    assert_eq!(render("missing", &ctx), Err(RenderError::UnknownTemplate));
}

#[test]
fn render_hello_without_name_field_fails() {
    let ctx = TemplateContext { name: None };
    assert_eq!(render("hello", &ctx), Err(RenderError::MissingField));
}

#[test]
fn render_error_becomes_generic_server_error() {
    let resp = greet_server::response::wrap(Err(RenderError::UnknownTemplate));
    assert_eq!(resp.status, 500);
    assert_eq!(resp.content_type, "text/plain");
    assert_eq!(body_text(&resp), "internal server error");
}

#[test]
fn interpolated_text_is_escaped() {
    let name = chars_of("<script>&'\"");
    let page = render_hello(&name);
    assert!(page.contains("&lt;script&gt;&amp;&#x27;&quot;"));
    assert!(!page.contains("<script>"));
}

#[test]
fn greet_handler_escapes_untrusted_path_text() {
    let service = new_service();
    let resp = respond(service.handle(&get("/greet/<b>x", None, None)));
    let body = body_text(&resp);
    assert!(body.contains("&lt;b&gt;x"));
    assert!(!body.contains("<b>x"));
}

#[test]
fn query_duplicate_key_takes_first() {
    let pairs = parse_query("last_name=One&last_name=Two");
    let v = lookup_first(&pairs, "last_name").expect("the key is present");
    assert_eq!(string_of(&v), "One");
}

#[test]
fn query_key_without_equals_has_empty_value() {
    let pairs = parse_query("flag&x=1");
    let v = lookup_first(&pairs, "flag").expect("the key is present");
    assert!(v.is_empty());
    let x = lookup_first(&pairs, "x").expect("the key is present");
    assert_eq!(string_of(&x), "1");
}

#[test]
fn query_value_keeps_later_equals_signs() {
    let pairs = parse_query("expr=a=b");
    let v = lookup_first(&pairs, "expr").expect("the key is present");
    assert_eq!(string_of(&v), "a=b");
}

#[test]
fn query_missing_key_is_none() {
    let pairs = parse_query("a=1");
    assert!(lookup_first(&pairs, "b").is_none());
}

#[test]
fn greet_with_extra_segment_is_not_found() {
    let service = new_service();
    let resp = respond(service.handle(&get("/greet/a/b", None, None)));
    assert_eq!(resp.status, 404);
}

#[test]
fn preflight_without_origin_gets_no_cors_headers() {
    let service = new_service();
    let req = Request {
        method: Method::Options,
        path: "/greet/Alice".to_string(),
        query: None,
        origin: None,
    };
    let resp = respond(service.handle(&req));
    assert_eq!(resp.status, 204);
    assert!(resp.headers.is_empty());
}

#[test]
fn served_asset_carries_cors_headers() {
    let service = new_service();
    match service.handle(&get(
        "/public/logo.png",
        None,
        Some("http://localhost:3000"),
    )) {
        Action::ServeFile(asset, headers) => {
            assert_eq!(asset.content_type, "image/png");
            assert!(headers
                .iter()
                .any(|(n, _)| n == "access-control-allow-origin"));
        }
        Action::Respond(_) => panic!("a safe asset path must be served"),
    }
}

#[test]
fn greet_ignores_other_query_keys() {
    let service = new_service();
    let resp = respond(service.handle(&get(
        "/greet/Alice",
        Some("first=x&last_name=Smith&last_name=Jones"),
        None,
    )));
    let body = body_text(&resp);
    assert!(body.contains("AliceSmith"));
    assert!(!body.contains("AliceJones"));
}

#[test]
fn path_segments_drop_leading_slash_only() {
    let root = path_segments("/");
    assert!(root.is_empty());
    let empty = path_segments("");
    assert!(empty.is_empty());
    let two = path_segments("/a/b");
    assert_eq!(two.len(), 2);
    assert_eq!(two[0], chars_of("a"));
    assert_eq!(two[1], chars_of("b"));
    let trailing = path_segments("/a/");
    assert_eq!(trailing.len(), 2);
    assert!(trailing[1].is_empty());
}
