use axum::extract::{FromRequest, UserId};
use axum::handler::{Handler, HandlerService};
use axum::message::{Header, Method, Request, Response};
use axum::route::{Route, RouteSpec};
use axum::service::{App, EmptyRouter, Service};

fn header(name: &str, value: &str) -> Header {
    Header { name: name.to_string(), value: value.to_string() }
}

fn request(method: Method, path: &str, headers: Vec<Header>, body: &[u8]) -> Request {
    Request { method, path: path.as_bytes().to_vec(), headers, body: body.to_vec() }
}

fn handler_error() -> http::Error {
    http::Request::builder().method("bad method").body(()).unwrap_err()
}

fn echo_user(_req: Request, user: UserId) -> Result<Response, http::Error> {
    Ok(Response::new(format!("Hello from hello with extractor handler {}", user.0).into_bytes()))
}

#[test]
fn test_empty_router_404() {
    let app = App::new();
    let req = Request::new(Vec::new());
    let res = app.call(req).unwrap();
    assert_eq!(res.status, http::StatusCode::NOT_FOUND.as_u16());
}

#[test]
fn empty_request_gets_404_with_empty_body() {
    let app = App::new();
    let res = app.call(Request::new(Vec::new())).unwrap();
    assert_eq!(res.status, 404);
    assert!(res.body.is_empty());
    assert!(res.headers.is_empty());
}

#[test]
fn default_app_ignores_method_path_headers_and_body() {
    let app = App::new();
    let req = request(Method::Post, "/users/7", vec![header("x-user-id", "a")], b"payload");
    let res = app.call(req).unwrap();
    assert_eq!(res.status, 404);
    assert!(res.body.is_empty());
}

#[test]
fn empty_router_is_always_ready() {
    let mut r = EmptyRouter::new();
    assert!(r.poll_ready().is_ok());
    let res = r.call(Request::new(b"x".to_vec())).unwrap();
    assert_eq!(res.status, 404);
}

#[test]
fn request_new_defaults() {
    let req = Request::new(b"abc".to_vec());
    assert!(matches!(req.method, Method::Get));
    assert_eq!(req.path, b"/".to_vec());
    assert!(req.headers.is_empty());
    assert_eq!(req.body, b"abc".to_vec());
}

#[test]
fn response_new_is_ok_status() {
    let res = Response::new(b"hi".to_vec());
    assert_eq!(res.status, 200);
    assert_eq!(res.body, b"hi".to_vec());
}

#[test]
fn header_lookup_ignores_case_and_takes_first() {
    let req = request(
        Method::Get,
        "/",
        vec![header("Accept", "*/*"), header("X-User-Id", "first"), header("x-user-id", "second")],
        b"",
    );
    assert_eq!(req.header("x-user-id").unwrap(), "first");
    assert_eq!(req.header("ACCEPT").unwrap(), "*/*");
    assert!(req.header("x-user").is_none());
}

#[test]
fn user_id_from_header() {
    let mut req = request(Method::Get, "/", vec![header("x-user-id", "anand123")], b"");
    let user = UserId::from_request(&mut req);
    assert_eq!(user.0, "anand123");
}

#[test]
fn user_id_defaults_to_guest() {
    let mut req = Request::new(Vec::new());
    let user = UserId::from_request(&mut req);
    assert_eq!(user.0, "guest");
}

#[test]
fn user_id_unreadable_value_is_guest() {
    let mut req = request(Method::Get, "/", vec![header("x-user-id", "Jos\u{e9}")], b"");
    assert_eq!(UserId::from_request(&mut req).0, "guest");
    let mut req = request(Method::Get, "/", vec![header("x-user-id", "a\u{7f}")], b"");
    assert_eq!(UserId::from_request(&mut req).0, "guest");
    let mut req = request(Method::Get, "/", vec![header("x-user-id", "a\tb c")], b"");
    assert_eq!(UserId::from_request(&mut req).0, "a\tb c");
}

#[test]
fn user_id_leaves_request_unchanged() {
    let mut req = request(Method::Put, "/p", vec![header("x-user-id", "u")], b"body");
    let _ = UserId::from_request(&mut req);
    assert!(matches!(req.method, Method::Put));
    assert_eq!(req.path, b"/p".to_vec());
    assert_eq!(req.headers.len(), 1);
    assert_eq!(req.body, b"body".to_vec());
}

#[test]
fn zero_arity_handler_gets_request_unmodified() {
    let f = |req: Request| -> Result<Response, http::Error> {
        let mut res = Response::new(req.body.clone());
        res.headers = req.headers.clone();
        res.status = if req.path == b"/echo".to_vec() { 201 } else { 500 };
        Ok(res)
    };
    let req = request(Method::Post, "/echo", vec![header("x-user-id", "anand123")], b"\x00\xffdata");
    let res = Handler::<()>::call(f, req).unwrap();
    assert_eq!(res.status, 201);
    assert_eq!(res.body, b"\x00\xffdata".to_vec());
    assert_eq!(res.headers.len(), 1);
    assert_eq!(res.headers[0].name, "x-user-id");
    assert_eq!(res.headers[0].value, "anand123");
}

#[test]
fn one_arity_handler_echoes_user() {
    let req = request(Method::Get, "/", vec![header("x-user-id", "ElonMusk")], b"");
    let res = Handler::<(UserId,)>::call(echo_user, req).unwrap();
    assert_eq!(res.body, b"Hello from hello with extractor handler ElonMusk".to_vec());
    assert_eq!(res.status, 200);
}

#[test]
fn one_arity_handler_guest() {
    let res = Handler::<(UserId,)>::call(echo_user, Request::new(Vec::new())).unwrap();
    assert_eq!(res.body, b"Hello from hello with extractor handler guest".to_vec());
}

#[test]
fn two_arity_handler_runs_both_extractions() {
    let f = |req: Request, a: UserId, b: UserId| -> Result<Response, http::Error> {
        Ok(Response::new(format!("{}|{}|{}", a.0, b.0, req.headers.len()).into_bytes()))
    };
    let req = request(Method::Get, "/", vec![header("x-user-id", "anand123")], b"");
    let res = Handler::<(UserId, UserId)>::call(f, req).unwrap();
    assert_eq!(res.body, b"anand123|anand123|1".to_vec());
}

#[test]
fn handler_error_propagates() {
    let f = |_req: Request| -> Result<Response, http::Error> { Err(handler_error()) };
    assert!(Handler::<()>::call(f, Request::new(Vec::new())).is_err());
    let g = |_req: Request, _u: UserId| -> Result<Response, http::Error> { Err(handler_error()) };
    assert!(Handler::<(UserId,)>::call(g, Request::new(Vec::new())).is_err());
}

#[test]
fn route_spec_matches_exactly() {
    let spec = RouteSpec::new(Method::Get, b"/hello".to_vec());
    assert!(spec.matches(&request(Method::Get, "/hello", vec![], b"")));
    assert!(!spec.matches(&request(Method::Post, "/hello", vec![], b"")));
    assert!(!spec.matches(&request(Method::Get, "/hello/", vec![], b"")));
    assert!(!spec.matches(&request(Method::Get, "/hell", vec![], b"")));
    assert!(!spec.matches(&request(Method::Get, "/Hello", vec![], b"")));
    assert!(!spec.matches(&request(Method::Get, "/hello/world", vec![], b"")));
}

#[test]
fn route_spec_extension_methods() {
    let spec = RouteSpec::new(Method::Extension(b"PURGE".to_vec()), b"/".to_vec());
    assert!(spec.matches(&request(Method::Extension(b"PURGE".to_vec()), "/", vec![], b"")));
    assert!(!spec.matches(&request(Method::Extension(b"purge".to_vec()), "/", vec![], b"")));
    assert!(!spec.matches(&request(Method::Get, "/", vec![], b"")));
}

#[test]
fn route_dispatches_match_to_handler_and_rest_to_fallback() {
    let route = Route::new(
        HandlerService::<_, (UserId,)>::new(echo_user),
        RouteSpec::new(Method::Get, b"/hello".to_vec()),
        EmptyRouter::new(),
    );
    let app = App::with_router(route);
    let hit = request(Method::Get, "/hello", vec![header("x-user-id", "ElonMusk")], b"");
    let res = app.call(hit).unwrap();
    assert_eq!(res.status, 200);
    assert_eq!(res.body, b"Hello from hello with extractor handler ElonMusk".to_vec());
    let miss = request(Method::Get, "/hello/", vec![header("x-user-id", "ElonMusk")], b"");
    let res = app.call(miss).unwrap();
    assert_eq!(res.status, 404);
    assert!(res.body.is_empty());
}

#[test]
fn route_is_ready_when_its_units_are() {
    let mut route = Route::new(
        HandlerService::<_, ()>::new(|req: Request| -> Result<Response, http::Error> { Ok(Response::new(req.path)) }),
        RouteSpec::new(Method::Delete, b"/x".to_vec()),
        EmptyRouter::new(),
    );
    assert!(route.poll_ready().is_ok());
    let res = route.call(request(Method::Delete, "/x", vec![], b"")).unwrap();
    assert_eq!(res.body, b"/x".to_vec());
}

#[test]
fn extension_with_standard_name_is_that_method() {
    let spec = RouteSpec::new(Method::Get, b"/".to_vec());
    assert!(spec.matches(&request(Method::Extension(b"GET".to_vec()), "/", vec![], b"")));
    assert!(!spec.matches(&request(Method::Extension(b"GETS".to_vec()), "/", vec![], b"")));
    let spec = RouteSpec::new(Method::Extension(b"PATCH".to_vec()), b"/".to_vec());
    assert!(spec.matches(&request(Method::Patch, "/", vec![], b"")));
    assert!(!spec.matches(&request(Method::Put, "/", vec![], b"")));
    assert!(Method::Extension(b"OPTIONS".to_vec()).same_as(&Method::Options));
    assert!(!Method::Extension(b"options".to_vec()).same_as(&Method::Options));
}

#[test]
fn cloned_route_spec_keeps_key() {
    let spec = RouteSpec::new(Method::Extension(b"PURGE".to_vec()), b"/cache".to_vec());
    let copy = spec.clone();
    assert!(copy.method.same_as(&spec.method));
    assert_eq!(copy.path, b"/cache".to_vec());
    assert!(copy.matches(&request(Method::Extension(b"PURGE".to_vec()), "/cache", vec![], b"")));
}

#[test]
fn cloned_route_dispatches_alike() {
    let route = Route::new(
        HandlerService::<_, (UserId,)>::new(echo_user),
        RouteSpec::new(Method::Post, b"/u".to_vec()),
        EmptyRouter::new(),
    );
    let mut copy = route.clone();
    let res = copy.call(request(Method::Post, "/u", vec![header("x-user-id", "v")], b"")).unwrap();
    assert_eq!(res.body, b"Hello from hello with extractor handler v".to_vec());
    let res = copy.call(request(Method::Get, "/u", vec![], b"")).unwrap();
    assert_eq!(res.status, 404);
}
