use http::{HeaderMap, HeaderValue};
use hyper_tower_echo_demo::body::{Frame, SizeHint};
use hyper_tower_echo_demo::message::{Request, Response};
use hyper_tower_echo_demo::middleware_tower::auth::{
    create_unauthorized_response, AuthLayer, AuthResponseBody, AuthResponseFuture, AuthService,
};
use hyper_tower_echo_demo::task::Poll;

const REJECTION: &[u8] = b"auth failed, please check your token";

fn request(headers: &[(&'static str, &'static str)]) -> Request<Vec<u8>> {
    let mut map = HeaderMap::new();
    for (name, value) in headers {
        map.append(*name, HeaderValue::from_static(value));
    }
    Request { method: "POST".to_string(), uri: "/echo".to_string(), headers: map, body: b"hi".to_vec() }
}

/// A stand-in for the stage below: it counts its calls and keeps the last
/// request it saw.
struct Stub {
    calls: usize,
    seen: Option<(String, String, Vec<u8>)>,
}

fn stub() -> Stub {
    Stub { calls: 0, seen: None }
}

fn invoke(stub: &mut Stub, req: Request<Vec<u8>>) -> u32 {
    stub.calls += 1;
    stub.seen = Some((req.method, req.uri, req.body));
    7
}

#[test]
fn request_without_credential_is_rejected_and_inner_never_called() {
    let mut service = AuthService::new(stub());
    let mut future = service.call(request(&[("content-type", "text/plain")]), invoke);
    assert!(matches!(future, AuthResponseFuture::UnauthorizedFuture));
    let polled: Poll<Result<Response<AuthResponseBody<Vec<u8>>>, ()>> =
        future.poll(|_inner: &mut u32| -> Poll<Result<Response<Vec<u8>>, ()>> {
            panic!("a rejected request polls nothing below")
        });
    let response = match polled {
        Poll::Ready(Ok(response)) => response,
        _ => panic!("a rejection is ready at once"),
    };
    assert_eq!(response.status, 401);
    assert_eq!(response.headers.len(), 1);
    assert_eq!(response.headers.get("content-type").unwrap(), "text/plain; charset=utf-8");
    let mut body = response.body;
    let frame: Poll<Option<Result<Frame<()>, ()>>> =
        body.poll_frame(|_b: &mut Vec<u8>| panic!("the text is the stage's own"));
    match frame {
        Poll::Ready(Some(Ok(Frame::Data(bytes)))) => assert_eq!(bytes, REJECTION),
        _ => panic!("the text comes in one piece"),
    }
    assert_eq!(service.get_ref().calls, 0);
    assert!(service.get_ref().seen.is_none());
}

#[test]
fn request_with_credential_reaches_inner_exactly_once_unchanged() {
    let mut service = AuthService::new(stub());
    let future = service.call(request(&[("Auth-Key", "Bearer token")]), invoke);
    match future {
        AuthResponseFuture::Future { future } => assert_eq!(future, 7),
        _ => panic!("a request with a credential goes on"),
    }
    let inner = service.into_inner();
    assert_eq!(inner.calls, 1);
    assert_eq!(inner.seen, Some(("POST".to_string(), "/echo".to_string(), b"hi".to_vec())));
}

#[test]
fn credential_header_is_found_whatever_its_case() {
    for name in ["auth-key", "AUTH-KEY", "Auth-Key", "aUtH-kEy"] {
        let mut service = AuthService::new(stub());
        let future = service.call(request(&[(name, "x")]), invoke);
        assert!(matches!(future, AuthResponseFuture::Future { .. }));
        assert_eq!(service.get_ref().calls, 1);
    }
}

#[test]
fn credential_is_only_checked_for_presence() {
    let mut service = AuthService::new(stub());
    let future = service.call(request(&[("Auth-Key", "")]), invoke);
    assert!(matches!(future, AuthResponseFuture::Future { .. }));
}

#[test]
fn other_headers_are_no_credential() {
    for name in ["authorization", "auth", "auth-key2", "x-auth-key"] {
        let mut service = AuthService::new(stub());
        let future = service.call(request(&[(name, "Bearer token")]), invoke);
        assert!(matches!(future, AuthResponseFuture::UnauthorizedFuture));
        assert_eq!(service.get_ref().calls, 0);
    }
}

#[test]
fn auth_future_hands_on_the_response_of_the_stage_below() {
    let mut future = AuthResponseFuture::new(3u8);
    let polled: Poll<Result<Response<AuthResponseBody<Vec<u8>>>, String>> =
        future.poll(|inner: &mut u8| {
            *inner += 1;
            let mut response = Response::new(b"OK".to_vec());
            response.status = 201;
            response.headers.insert("x-one", HeaderValue::from_static("1"));
            Poll::Ready(Ok(response))
        });
    match polled {
        Poll::Ready(Ok(response)) => {
            assert_eq!(response.status, 201);
            assert_eq!(response.headers.len(), 1);
            assert_eq!(response.headers.get("x-one").unwrap(), "1");
            match response.body {
                AuthResponseBody::Body { body } => assert_eq!(body, b"OK"),
                _ => panic!("the body comes from below"),
            }
        }
        _ => panic!("the stage below was ready"),
    }
    assert!(matches!(future, AuthResponseFuture::Future { future: 4 }));
}

#[test]
fn auth_future_stays_pending_and_hands_on_errors() {
    let mut future = AuthResponseFuture::new(());
    let polled: Poll<Result<Response<AuthResponseBody<()>>, String>> =
        future.poll(|_inner: &mut ()| Poll::Pending);
    assert!(polled.is_pending());
    let polled: Poll<Result<Response<AuthResponseBody<()>>, String>> =
        future.poll(|_inner: &mut ()| Poll::Ready(Err("boom".to_string())));
    assert!(matches!(polled, Poll::Ready(Err(e)) if e == "boom"));
}

#[test]
fn unauthorized_body_signals_match_the_bytes_produced() {
    let mut body: AuthResponseBody<()> = AuthResponseBody::payload_unauthorized();
    assert!(!body.is_end_stream(|_b: &()| panic!("not asked")));
    let hint = body.size_hint(|_b: &()| panic!("not asked"));
    assert_eq!(hint, SizeHint { lower: 36, upper: Some(36) });
    let first: Poll<Option<Result<Frame<()>, ()>>> = body.poll_frame(|_b: &mut ()| panic!());
    assert!(matches!(first, Poll::Ready(Some(Ok(Frame::Data(bytes)))) if bytes == REJECTION));
    assert!(body.is_end_stream(|_b: &()| panic!("not asked")));
    assert_eq!(body.size_hint(|_b: &()| panic!("not asked")), SizeHint { lower: 0, upper: Some(0) });
    let second: Poll<Option<Result<Frame<()>, ()>>> = body.poll_frame(|_b: &mut ()| panic!());
    assert!(matches!(second, Poll::Ready(None)));
}

#[test]
fn forwarded_body_is_passed_on_piece_by_piece() {
    let mut body = AuthResponseBody::new(vec![b"ab".to_vec(), b"cd".to_vec()]);
    let next = |chunks: &mut Vec<Vec<u8>>| -> Poll<Option<Result<Vec<u8>, ()>>> {
        if chunks.is_empty() {
            Poll::Ready(None)
        } else {
            Poll::Ready(Some(Ok(chunks.remove(0))))
        }
    };
    assert!(!body.is_end_stream(|chunks: &Vec<Vec<u8>>| chunks.is_empty()));
    assert_eq!(
        body.size_hint(|chunks: &Vec<Vec<u8>>| SizeHint::with_exact(
            chunks.iter().map(|c| c.len() as u64).sum()
        )),
        SizeHint { lower: 4, upper: Some(4) }
    );
    assert!(matches!(body.poll_frame(next), Poll::Ready(Some(Ok(Frame::Upstream(c)))) if c == b"ab"));
    assert!(matches!(body.poll_frame(next), Poll::Ready(Some(Ok(Frame::Upstream(c)))) if c == b"cd"));
    assert!(matches!(body.poll_frame(next), Poll::Ready(None)));
    assert!(body.is_end_stream(|chunks: &Vec<Vec<u8>>| chunks.is_empty()));
    let pending: Poll<Option<Result<Frame<Vec<u8>>, ()>>> =
        body.poll_frame(|_c: &mut Vec<Vec<u8>>| Poll::Pending);
    assert!(pending.is_pending());
    let failed: Poll<Option<Result<Frame<Vec<u8>>, u8>>> =
        body.poll_frame(|_c: &mut Vec<Vec<u8>>| Poll::Ready(Some(Err(9))));
    assert!(matches!(failed, Poll::Ready(Some(Err(9)))));
}

#[test]
fn create_unauthorized_response_is_401_plain_text() {
    let response: Response<AuthResponseBody<()>> = create_unauthorized_response();
    assert_eq!(response.status, 401);
    assert_eq!(response.headers.get(http::header::CONTENT_TYPE).unwrap(), "text/plain; charset=utf-8");
    assert!(matches!(response.body, AuthResponseBody::Unauthorized { .. }));
}

#[test]
fn auth_service_accessors_reach_the_wrapped_service() {
    let mut service = AuthLayer::new().layer(5u32);
    assert_eq!(*service.get_ref(), 5);
    *service.get_mut() = 6;
    assert_eq!(service.inner, 6);
    let _layer: AuthLayer = AuthService::<u32>::layer();
    assert_eq!(service.into_inner(), 6);
}

#[test]
fn auth_service_readiness_is_that_of_the_wrapped_service() {
    let mut service = AuthService::new(0u32);
    let polled: Poll<Result<(), String>> = service.poll_ready(|inner: &mut u32| {
        *inner += 1;
        Poll::Pending
    });
    assert!(polled.is_pending());
    let polled: Poll<Result<(), String>> = service.poll_ready(|inner: &mut u32| {
        *inner += 1;
        Poll::Ready(Ok(()))
    });
    assert!(matches!(polled, Poll::Ready(Ok(()))));
    let polled: Poll<Result<(), String>> =
        service.poll_ready(|_inner: &mut u32| Poll::Ready(Err("down".to_string())));
    assert!(matches!(polled, Poll::Ready(Err(e)) if e == "down"));
    assert_eq!(service.inner, 2);
}
