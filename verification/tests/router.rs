use hyper_tower_echo_demo::body::Full;
use hyper_tower_echo_demo::message::{Request, Response};
use hyper_tower_echo_demo::router::{
    normalize_path, not_found, BodyString, ExtractError, ExtractService, IntoResponse, Routed, Router,
};

fn request(method: &str, uri: &str) -> Request<()> {
    Request { method: method.to_string(), uri: uri.to_string(), headers: http::HeaderMap::new(), body: () }
}

#[test]
fn paths_get_one_leading_slash_and_no_trailing_one() {
    assert_eq!(normalize_path("/users"), "/users");
    assert_eq!(normalize_path("users"), "/users");
    assert_eq!(normalize_path("/users/"), "/users");
    assert_eq!(normalize_path("users///"), "/users");
    assert_eq!(normalize_path("/a/b/"), "/a/b");
    assert_eq!(normalize_path("a//b"), "/a//b");
    assert_eq!(normalize_path("//a"), "//a");
}

#[test]
fn empty_and_root_paths_become_a_single_slash() {
    assert_eq!(normalize_path(""), "/");
    assert_eq!(normalize_path("/"), "/");
    assert_eq!(normalize_path("///"), "/");
}

#[test]
fn paths_outside_ascii_are_normalized_by_character() {
    assert_eq!(normalize_path("caf\u{e9}/"), "/caf\u{e9}");
    assert_eq!(normalize_path("/\u{1f600}//"), "/\u{1f600}");
}

#[test]
fn normalizing_twice_changes_nothing() {
    for path in ["", "/", "a", "/a/", "a/b//", "//", "/x/y"] {
        let once = normalize_path(path);
        assert_eq!(normalize_path(&once), once);
    }
}

#[test]
fn router_finds_a_route_by_method_and_normal_path() {
    let router = Router::new().get("/health/", 1u8).post("echo", 2u8);
    assert_eq!(router.route("GET", "/health"), Some(&1));
    assert_eq!(router.route("GET", "health/"), Some(&1));
    assert_eq!(router.route("POST", "/echo"), Some(&2));
    assert_eq!(router.route("POST", "/health"), None);
    assert_eq!(router.route("get", "/health"), None);
    assert_eq!(router.route("GET", "/"), None);
    assert_eq!(Router::<u8>::new().route("GET", "/"), None);
}

#[test]
fn later_route_replaces_earlier_one_with_the_same_method_and_path() {
    let router = Router::new().get("/a", 1u8).post("/a", 2u8).get("a/", 3u8);
    assert_eq!(router.route("GET", "/a"), Some(&3));
    assert_eq!(router.route("POST", "/a"), Some(&2));
    let router = router.at("/a", "DELETE".to_string(), 4u8);
    assert_eq!(router.route("DELETE", "/a"), Some(&4));
    assert_eq!(router.route("GET", "/a"), Some(&3));
}

#[test]
fn nested_routes_stand_under_the_prefix() {
    let sub = Router::new().get("/", 1u8).get("/items", 2u8).post("/items", 3u8);
    let router = Router::new().get("/api/items", 9u8).get("/other", 8u8).nest("api/", sub);
    assert_eq!(router.route("GET", "/api/items"), Some(&2));
    assert_eq!(router.route("POST", "/api/items"), Some(&3));
    assert_eq!(router.route("GET", "/api"), None);
    assert_eq!(router.route("GET", "/api/"), None);
    assert_eq!(router.route("GET", "/other"), Some(&8));
    assert_eq!(router.route("GET", "/items"), None);
}

#[test]
fn nesting_an_empty_router_changes_nothing() {
    let router = Router::new().get("/a", 1u8).nest("/api", Router::new());
    assert_eq!(router.route("GET", "/a"), Some(&1));
    assert_eq!(router.route("GET", "/api/a"), None);
}

#[test]
fn router_calls_the_service_of_the_route() {
    let router = Router::new().get("/kv", "list").post("/kv", "create");
    let routed = router.call(request("POST", "/kv/"), |service: &&str, req: Request<()>| {
        format!("{} for {} {}", service, req.method, req.uri)
    });
    assert!(matches!(routed, Routed::Found { future } if future == "create for POST /kv/"));
    let routed = router.call(request("GET", "http://example.org/kv?page=2"), |service: &&str, _r: Request<()>| {
        service.to_string()
    });
    assert!(matches!(routed, Routed::Found { future } if future == "list"));
}

#[test]
fn router_answers_404_where_no_route_matches() {
    let router = Router::new().get("/kv", 1u8);
    for (method, uri) in [("GET", "/nothing"), ("PUT", "/kv"), ("GET", "not a uri"), ("GET", "")] {
        let routed = router.call(request(method, uri), |_s: &u8, _r: Request<()>| -> u8 {
            panic!("no service is called")
        });
        match routed {
            Routed::NotFound { mut response } => {
                assert_eq!(response.status, 404);
                assert!(response.headers.is_empty());
                assert_eq!(response.body.poll_frame().unwrap(), b"Not Found");
            }
            _ => panic!("no route matches"),
        }
    }
    assert_eq!(not_found().status, 404);
}

#[test]
fn body_string_takes_utf8_and_refuses_the_rest() {
    assert_eq!(BodyString::extract(b"hello".to_vec()).unwrap().0, "hello");
    assert_eq!(BodyString::extract("gr\u{fc}\u{df}e".as_bytes().to_vec()).unwrap().0, "gr\u{fc}\u{df}e");
    assert_eq!(BodyString::extract(Vec::new()).unwrap().0, "");
    assert_eq!(BodyString::extract(vec![0xff, 0xfe]).unwrap_err(), ExtractError::InvalidUtf8);
    assert_eq!(BodyString::extract(vec![b'a', 0xc3]).unwrap_err(), ExtractError::InvalidUtf8);
}

#[test]
fn extract_service_calls_inner_only_with_what_was_extracted() {
    let mut service: ExtractService<u8, BodyString> = ExtractService::new(0);
    let failed: Result<u8, ExtractError> =
        service.call(Err(ExtractError::InvalidUtf8), |_calls: &mut u8, _v: BodyString| -> u8 {
            panic!("nothing was extracted")
        });
    assert_eq!(failed, Err(ExtractError::InvalidUtf8));
    assert_eq!(service.inner, 0);
    let done: Result<usize, ExtractError> =
        service.call(Ok(BodyString("abc".to_string())), |calls: &mut u8, v: BodyString| {
            *calls += 1;
            v.0.len()
        });
    assert_eq!(done, Ok(3));
    assert_eq!(service.clone().inner, 1);
}

#[test]
fn text_becomes_a_200_response() {
    let mut response = "hi \u{2713}".to_string().into_response();
    assert_eq!(response.status, 200);
    assert!(response.headers.is_empty());
    assert_eq!(response.body.poll_frame().unwrap(), "hi \u{2713}".as_bytes());
}

#[test]
fn response_stays_as_it_is() {
    let mut response = Response::new(Full::new(b"x".to_vec()));
    response.status = 418;
    let mut same = response.into_response();
    assert_eq!(same.status, 418);
    assert_eq!(same.body.poll_frame().unwrap(), b"x");
}
