use hyper_tower_echo_demo::echo::{echo, echo_frame, echo_handler, health_handler, uppercase, AppState, EchoRequest};
use hyper_tower_echo_demo::error::{json_response, AppError};
use hyper_tower_echo_demo::kv::{
    cache_key, deleted_or_missing, found_or_missing, missing_key, not_allowed, route, validate_create,
    validate_key, validate_value, KvRoute, CACHE_TTL_SECS,
};
use hyper_tower_echo_demo::message::{Request, Response};
use hyper_tower_echo_demo::models::CreateKv;

fn invalid(result: Result<(), AppError>) -> String {
    match result {
        Err(AppError::InvalidInput(text)) => text,
        other => panic!("expected an invalid input, got {:?}", other),
    }
}

#[test]
fn kv_requests_are_told_apart_by_method_and_path() {
    assert!(matches!(route("POST", "/kv"), KvRoute::Create));
    assert!(matches!(route("GET", "/kv/a"), KvRoute::Get { key } if key == "a"));
    assert!(matches!(route("PUT", "/kv/a_b"), KvRoute::Update { key } if key == "a_b"));
    assert!(matches!(route("DELETE", "/kv/x/y"), KvRoute::Delete { key } if key == "x/y"));
    assert!(matches!(route("GET", "/kv/"), KvRoute::Get { key } if key.is_empty()));
}

#[test]
fn other_kv_requests_are_not_allowed() {
    for (method, path) in [
        ("GET", "/kv"),
        ("POST", "/kv/"),
        ("POST", "/kv/a"),
        ("PATCH", "/kv/a"),
        ("get", "/kv/a"),
        ("GET", "/kvs/a"),
        ("GET", "kv/a"),
        ("GET", ""),
        ("DELETE", "/"),
    ] {
        assert!(matches!(route(method, path), KvRoute::NotAllowed), "{} {}", method, path);
    }
    assert_eq!(invalid(Err(not_allowed())), "Method not allowed");
}

#[test]
fn keys_are_letters_digits_and_underscores() {
    assert!(validate_key("a").is_ok());
    assert!(validate_key("user_42").is_ok());
    assert!(validate_key("\u{e9}t\u{e9}").is_ok());
    assert!(validate_key(&"k".repeat(50)).is_ok());
    assert_eq!(invalid(validate_key("")), "Invalid key");
    assert_eq!(invalid(validate_key(&"k".repeat(51))), "Invalid key");
    assert_eq!(invalid(validate_key("a-b")), "Invalid key");
    assert_eq!(invalid(validate_key("a b")), "Invalid key");
    assert_eq!(invalid(validate_key("a/b")), "Invalid key");
}

#[test]
fn key_length_is_counted_in_bytes() {
    assert!(validate_key(&"\u{e9}".repeat(25)).is_ok());
    assert_eq!(invalid(validate_key(&"\u{e9}".repeat(26))), "Invalid key");
}

#[test]
fn values_are_not_empty_and_at_most_1000_bytes() {
    assert!(validate_value("v").is_ok());
    assert!(validate_value("any thing / at all").is_ok());
    assert!(validate_value(&"v".repeat(1000)).is_ok());
    assert_eq!(invalid(validate_value("")), "Invalid value");
    assert_eq!(invalid(validate_value(&"v".repeat(1001))), "Invalid value");
    assert_eq!(invalid(validate_value(&"\u{e9}".repeat(501))), "Invalid value");
}

#[test]
fn new_pair_is_checked_key_first() {
    let pair = |key: &str, value: &str| CreateKv { key: key.to_string(), value: value.to_string() };
    assert!(validate_create(&pair("k", "v")).is_ok());
    assert_eq!(invalid(validate_create(&pair("", ""))), "Invalid key");
    assert_eq!(invalid(validate_create(&pair("k!", "v"))), "Invalid key");
    assert_eq!(invalid(validate_create(&pair("k", ""))), "Invalid value");
}

#[test]
fn cache_names_and_lifetime() {
    assert_eq!(cache_key("a"), "kv:a");
    assert_eq!(cache_key(""), "kv:");
    assert_eq!(CACHE_TTL_SECS, 300);
}

#[test]
fn missing_key_is_not_found() {
    assert!(matches!(missing_key("a"), AppError::NotFound(text) if text == "Key a not found"));
    assert_eq!(found_or_missing(Some(5u8), "a").unwrap(), 5);
    assert!(matches!(found_or_missing::<u8>(None, "b"), Err(AppError::NotFound(text)) if text == "Key b not found"));
    assert!(deleted_or_missing(true, "a").is_ok());
    assert!(matches!(deleted_or_missing(false, "c"), Err(AppError::NotFound(text)) if text == "Key c not found"));
}

#[test]
fn errors_map_to_statuses_and_messages() {
    let cases = [
        (AppError::InvalidInput("Invalid key".into()), 400, "Invalid input: Invalid key", "Invalid input: Invalid key"),
        (AppError::NotFound("Key a not found".into()), 404, "Not Found: Key a not found", "Not Found: Key a not found"),
        (AppError::Database("pool timed out".into()), 500, "pool timed out", "Database error: pool timed out"),
        (AppError::MigrateError("bad version".into()), 500, "bad version", "MigrateError error:bad version"),
        (AppError::Redis("refused".into()), 500, "refused", "Redis error: refused"),
        (AppError::Serialization("eof".into()), 500, "eof", "Serialization error: eof"),
    ];
    for (error, status, message, text) in cases {
        assert_eq!(error.status(), status);
        assert_eq!(error.message(), message);
        assert_eq!(error.to_string(), text);
    }
}

#[test]
fn unreadable_body_is_an_invalid_input() {
    let error = AppError::from_body_error("connection reset");
    assert_eq!(error.status(), 400);
    assert_eq!(error.to_string(), "Invalid input: Failed to read request body: connection reset");
}

#[test]
fn error_response_is_a_json_object_with_the_message() {
    let mut response = AppError::NotFound("Key a not found".into()).into_tower_response().unwrap();
    assert_eq!(response.status, 404);
    assert_eq!(response.headers.len(), 1);
    assert_eq!(response.headers.get("content-type").unwrap(), "application/json");
    assert_eq!(response.body.poll_frame().unwrap(), br#"{"error":"Not Found: Key a not found"}"#);

    let mut response = AppError::Redis("say \"hi\"\n".into()).into_tower_response().unwrap();
    assert_eq!(response.status, 500);
    let body = response.body.poll_frame().unwrap();
    assert_eq!(body, br#"{"error":"say \"hi\"\n"}"#);
    let parsed: serde_json::Value = serde_json::from_slice(&body).unwrap();
    assert_eq!(parsed["error"], "say \"hi\"\n");
}

#[test]
fn json_response_wraps_encoded_bytes_or_reports_the_encoding_error() {
    let mut response = json_response(201, Ok(b"{}".to_vec())).unwrap();
    assert_eq!(response.status, 201);
    assert_eq!(response.headers.get("content-type").unwrap(), "application/json");
    assert_eq!(response.body.poll_frame().unwrap(), b"{}");
    match json_response(200, Err("key must be a string".to_string())) {
        Err(AppError::Serialization(text)) => assert_eq!(text, "key must be a string"),
        _ => panic!("the encoding failed"),
    }
}

#[test]
fn echo_sends_the_body_back_in_capitals() {
    assert_eq!(uppercase(b"hello world"), b"HELLO WORLD");
    assert_eq!(uppercase(b"MiXeD 123 az AZ {|}~`"), b"MIXED 123 AZ AZ {|}~`");
    assert_eq!(uppercase("gr\u{fc}n".as_bytes()), "GR\u{fc}N".as_bytes());
    assert_eq!(uppercase(b""), b"");
    assert_eq!(echo_frame(Some(b"abc")), b"ABC");
    assert_eq!(echo_frame(None), b"");
    let all: Vec<u8> = (0..=255).collect();
    let expected: Vec<u8> = all.iter().map(|b| b.to_ascii_uppercase()).collect();
    assert_eq!(uppercase(&all), expected);
}

#[test]
fn echo_answers_200_with_the_body_of_the_request() {
    let request = Request {
        method: "POST".to_string(),
        uri: "/".to_string(),
        headers: http::HeaderMap::new(),
        body: b"hello".to_vec(),
    };
    let response: Response<Vec<u8>> = echo(request);
    assert_eq!(response.status, 200);
    assert!(response.headers.is_empty());
    assert_eq!(response.body, b"hello");
}

#[test]
fn json_handlers_answer_with_the_message_of_the_server() {
    let state = AppState { message: "Server is running".to_string() };
    assert_eq!(health_handler(&state), "Server is running");
    let (status, reply) = echo_handler(&state, &EchoRequest { text: "hello world!".to_string() });
    assert_eq!(status, 200);
    assert_eq!(reply.echoed, "Server is running: hello world!");
}
