use http::HeaderValue;
use hyper_tower_echo_demo::body::SizeHint;
use hyper_tower_echo_demo::message::{Request, Response};
use hyper_tower_echo_demo::middleware::auth::{AuthLayer as PlainAuthLayer, AuthOutcome};
use hyper_tower_echo_demo::middleware::cache::CacheLayer as PlainCacheLayer;
use hyper_tower_echo_demo::middleware_for_axum::auth::AuthLayer as AxumAuthLayer;
use hyper_tower_echo_demo::middleware_tower::cache::{
    CacheLayer, CacheResponseBody, CacheResponseFuture, CacheService,
};
use hyper_tower_echo_demo::task::Poll;

fn request(header: Option<&'static str>) -> Request<u8> {
    let mut headers = http::HeaderMap::new();
    if let Some(name) = header {
        headers.insert(name, HeaderValue::from_static("Bearer token"));
    }
    Request { method: "GET".to_string(), uri: "/".to_string(), headers, body: 4 }
}

#[test]
fn cache_stage_hands_every_request_on() {
    let mut service = CacheLayer::new().layer(0u8);
    let future = service.call(request(None), |calls: &mut u8, r: Request<u8>| {
        *calls += 1;
        r.body
    });
    assert_eq!(future.inner, 4);
    assert_eq!(service.inner, 1);
}

#[test]
fn cache_future_hands_the_outcome_on() {
    let mut future = CacheResponseFuture::new(0u8);
    let pending: Poll<Result<Response<CacheResponseBody<u8>>, String>> =
        future.poll(|polls: &mut u8| {
            *polls += 1;
            Poll::Pending
        });
    assert!(pending.is_pending());
    let ready: Poll<Result<Response<CacheResponseBody<u8>>, String>> = future.poll(|polls: &mut u8| {
        *polls += 1;
        let mut response = Response::new(8u8);
        response.status = 404;
        response.headers.insert("x-a", HeaderValue::from_static("b"));
        Poll::Ready(Ok(response))
    });
    match ready {
        Poll::Ready(Ok(response)) => {
            assert_eq!(response.status, 404);
            assert_eq!(response.headers.get("x-a").unwrap(), "b");
            assert_eq!(response.body.inner, 8);
        }
        _ => panic!("the stage below was ready"),
    }
    assert_eq!(future.inner, 2);
    let failed: Poll<Result<Response<CacheResponseBody<u8>>, String>> =
        future.poll(|_polls: &mut u8| Poll::Ready(Err("boom".to_string())));
    assert!(matches!(failed, Poll::Ready(Err(e)) if e == "boom"));
}

#[test]
fn cache_body_passes_everything_on() {
    let mut body = CacheResponseBody::new(vec![1u8, 2]);
    let polled: Poll<Option<Result<u8, ()>>> =
        body.poll_frame(|left: &mut Vec<u8>| Poll::Ready(left.pop().map(Ok)));
    assert!(matches!(polled, Poll::Ready(Some(Ok(2)))));
    assert_eq!(body.inner, [1]);
    assert!(!body.is_end_stream(|left: &Vec<u8>| left.is_empty()));
    assert_eq!(
        body.size_hint(|left: &Vec<u8>| SizeHint::with_exact(left.len() as u64)),
        SizeHint { lower: 1, upper: Some(1) }
    );
}

#[test]
fn cache_service_accessors_reach_the_wrapped_service() {
    let mut service = CacheService::new(1u8);
    assert_eq!(*service.get_ref(), 1);
    *service.get_mut() = 2;
    let _layer: CacheLayer = CacheService::<u8>::layer();
    let polled: Poll<Result<(), ()>> = service.poll_ready(|_s: &mut u8| Poll::Ready(Ok(())));
    assert!(polled.is_ready());
    assert_eq!(service.into_inner(), 2);
}

#[test]
fn plain_cache_stage_hands_every_request_on() {
    let mut service = PlainCacheLayer.layer(0u8);
    let future = service.call(request(None), |calls: &mut u8, r: Request<u8>| {
        *calls += 1;
        r.body
    });
    assert_eq!(future, 4);
    assert_eq!(service.inner, 1);
}

#[test]
fn plain_auth_stage_asks_for_the_authorization_header() {
    let mut service = PlainAuthLayer.layer(0u8);
    let rejected: AuthOutcome<u8, Vec<u8>> = service.call(
        request(Some("auth-key")),
        Vec::new,
        |calls: &mut u8, r: Request<u8>| {
            *calls += 1;
            r.body
        },
    );
    match rejected {
        AuthOutcome::Rejected { response } => {
            assert_eq!(response.status, 401);
            assert!(response.headers.is_empty());
            assert!(response.body.is_empty());
        }
        _ => panic!("no Authorization header, no way through"),
    }
    assert_eq!(service.inner, 0);
    let forwarded: AuthOutcome<u8, Vec<u8>> = service.call(
        request(Some("authorization")),
        || panic!("no answer of the stage's own is needed"),
        |calls: &mut u8, r: Request<u8>| {
            *calls += 1;
            r.body
        },
    );
    assert!(matches!(forwarded, AuthOutcome::Forwarded { future: 4 }));
    assert_eq!(service.inner, 1);
}

#[test]
fn router_auth_stage_asks_for_the_auth_key_header() {
    let mut service = AxumAuthLayer.layer(0u8);
    let rejected: AuthOutcome<u8, String> = service.call(
        request(Some("authorization")),
        String::new,
        |calls: &mut u8, r: Request<u8>| {
            *calls += 1;
            r.body
        },
    );
    assert!(matches!(rejected, AuthOutcome::Rejected { response } if response.status == 401 && response.body.is_empty()));
    assert_eq!(service.inner, 0);
    let forwarded: AuthOutcome<u8, String> = service.call(
        request(Some("Auth-Key")),
        String::new,
        |calls: &mut u8, r: Request<u8>| {
            *calls += 1;
            r.body
        },
    );
    assert!(matches!(forwarded, AuthOutcome::Forwarded { future: 4 }));
    assert_eq!(service.inner, 1);
    let polled: Poll<Result<(), ()>> = service.poll_ready(|_s: &mut u8| Poll::Ready(Ok(())));
    assert!(polled.is_ready());
}
