use http::{HeaderMap, HeaderValue};
use hyper_tower_echo_demo::body::{Frame, SizeHint};
use hyper_tower_echo_demo::message::{Request, Response};
use hyper_tower_echo_demo::middleware_tower::auth::{AuthResponseBody, AuthResponseFuture};
use hyper_tower_echo_demo::middleware_tower::timeout::TimeoutResponseBody;
use hyper_tower_echo_demo::middleware_tower::tracing::future::ResponseFutureInner;
use hyper_tower_echo_demo::middleware_tower::tracing::TracingResponseBody;
use hyper_tower_echo_demo::pipeline::{
    call, is_end_stream, pipeline, poll, poll_frame, poll_ready, size_hint, Pipeline, PipelineBody,
    PipelineFuture,
};
use hyper_tower_echo_demo::task::Poll;
use hyper_tower_echo_demo::telemetry::{Measurement, SpanStatus};
use std::time::Duration;

/// The handler at the core: it writes down what reaches it.
#[derive(Default)]
struct Handler {
    order: Vec<&'static str>,
    requests: Vec<(String, String, Vec<u8>)>,
}

fn request(method: &str, credential: bool) -> Request<Vec<u8>> {
    let mut headers = HeaderMap::new();
    headers.insert("content-type", HeaderValue::from_static("application/json"));
    if credential {
        headers.insert("Auth-Key", HeaderValue::from_static("Bearer token"));
    }
    Request { method: method.to_string(), uri: "/echo".to_string(), headers, body: b"hello".to_vec() }
}

fn send(stack: &mut Pipeline<Handler>, req: Request<Vec<u8>>) -> PipelineFuture<u8, Duration> {
    call(
        stack,
        req,
        |limit: Duration| limit,
        |handler: &mut Handler, req: Request<Vec<u8>>| {
            handler.order.push("handler");
            handler.requests.push((req.method, req.uri, req.body));
            0u8
        },
    )
}

type Polled = (
    Poll<Result<Response<PipelineBody<Vec<u8>>>, String>>,
    Option<Measurement>,
    Option<SpanStatus>,
);

fn handler_of(stack: &Pipeline<Handler>) -> &Handler {
    stack.get_ref().get_ref().get_ref().get_ref().get_ref()
}

#[test]
fn pipeline_stacks_the_stages_in_order() {
    let stack = pipeline(Handler::default(), Duration::from_millis(1000));
    let timeout = stack.get_ref().get_ref().get_ref().get_ref();
    assert_eq!(timeout.timeout, Duration::from_millis(1000));
    assert!(timeout.get_ref().requests.is_empty());
}

#[test]
fn request_without_credential_has_no_effect_on_the_handler() {
    let mut stack = pipeline(Handler::default(), Duration::from_millis(50));
    let mut future = send(&mut stack, request("POST", false));
    assert_eq!(future.method, "POST");
    assert_eq!(future.uri, "/echo");
    let polled: Polled = poll(
        &mut future,
        |_f: &mut u8| panic!("the handler has no future to poll"),
        |_t: &mut Duration| panic!("no timer was started"),
    );
    let response = match polled.0 {
        Poll::Ready(Ok(response)) => response,
        _ => panic!("a rejection is ready at once"),
    };
    assert_eq!(response.status, 401);
    assert_eq!(response.headers.get("content-type").unwrap(), "text/plain; charset=utf-8");
    match response.body {
        TracingResponseBody::Body { body } => match body.inner {
            AuthResponseBody::Unauthorized { mut body } => {
                assert_eq!(body.poll_frame().unwrap(), b"auth failed, please check your token")
            }
            _ => panic!("the text is that of the authentication stage"),
        },
        _ => panic!("the tracing stage wrote nothing itself"),
    }
    assert_eq!(polled.2, Some(SpanStatus::Failed));
    let report = polled.1.unwrap();
    assert_eq!((report.method.as_str(), report.increment), ("POST", 1));
    assert!(handler_of(&stack).order.is_empty());
    assert!(handler_of(&stack).requests.is_empty());
}

#[test]
fn request_with_credential_reaches_the_handler_once_and_unchanged() {
    let mut stack = pipeline(Handler::default(), Duration::from_millis(50));
    let future = send(&mut stack, request("POST", true));
    match &future.inner {
        ResponseFutureInner::Future { future: metrics } => match &metrics.inner {
            AuthResponseFuture::Future { future: guarded } => {
                assert_eq!(guarded.inner.sleep, Duration::from_millis(50));
                assert_eq!(guarded.inner.timeout, Duration::from_millis(50));
            }
            _ => panic!("the request had a credential"),
        },
        _ => panic!("the tracing stage wrote nothing itself"),
    }
    assert_eq!(handler_of(&stack).order, ["handler"]);
    assert_eq!(
        handler_of(&stack).requests,
        [("POST".to_string(), "/echo".to_string(), b"hello".to_vec())]
    );
}

#[test]
fn response_of_the_handler_leaves_the_pipeline_unchanged() {
    let mut stack = pipeline(Handler::default(), Duration::from_millis(50));
    let mut future = send(&mut stack, request("GET", true));
    let pending: Polled = poll(&mut future, |_f: &mut u8| Poll::Pending, |_t: &mut Duration| Poll::Pending);
    assert!(pending.0.is_pending());
    assert!(pending.1.is_none());
    assert_eq!(pending.2, None);
    let polled: Polled = poll(
        &mut future,
        |polls: &mut u8| {
            *polls += 1;
            let mut response = Response::new(b"HELLO".to_vec());
            response.status = 202;
            response.headers.insert("x-request-id", HeaderValue::from_static("42"));
            Poll::Ready(Ok(response))
        },
        |_t: &mut Duration| panic!("a response that is there is never raced"),
    );
    let response = match polled.0 {
        Poll::Ready(Ok(response)) => response,
        _ => panic!("the handler was ready"),
    };
    assert_eq!(response.status, 202);
    assert_eq!(response.headers.len(), 1);
    assert_eq!(response.headers.get("x-request-id").unwrap(), "42");
    let mut body = response.body;
    let frame: Poll<Option<Result<Frame<_>, ()>>> = body.poll_frame(|metrics| {
        metrics.poll_frame(|auth| {
            auth.poll_frame(|cache| {
                cache.poll_frame(|timeout| {
                    timeout.poll_frame(|bytes: &mut Vec<u8>| Poll::Ready(Some(Ok(std::mem::take(bytes)))))
                })
            })
        })
    });
    match frame {
        Poll::Ready(Some(Ok(Frame::Upstream(Frame::Upstream(Frame::Upstream(bytes)))))) => {
            assert_eq!(bytes, b"HELLO")
        }
        _ => panic!("the bytes are those of the handler"),
    }
    assert_eq!(polled.2, Some(SpanStatus::Succeeded));
    assert_eq!(polled.1.unwrap().method, "GET");
}

#[test]
fn error_of_the_handler_leaves_the_pipeline_unchanged() {
    let mut stack = pipeline(Handler::default(), Duration::from_millis(50));
    let mut future = send(&mut stack, request("GET", true));
    let polled: Polled = poll(
        &mut future,
        |_f: &mut u8| Poll::Ready(Err("database is down".to_string())),
        |_t: &mut Duration| Poll::Ready(()),
    );
    assert!(matches!(polled.0, Poll::Ready(Err(e)) if e == "database is down"));
    assert_eq!(polled.2, Some(SpanStatus::Failed));
    assert_eq!(polled.1.unwrap().increment, 1);
}

#[test]
fn slow_handler_is_answered_with_408_by_the_pipeline() {
    let mut stack = pipeline(Handler::default(), Duration::from_millis(50));
    let mut future = send(&mut stack, request("POST", true));
    let polled: Polled = poll(&mut future, |_f: &mut u8| Poll::Pending, |_t: &mut Duration| Poll::Ready(()));
    let response = match polled.0 {
        Poll::Ready(Ok(response)) => response,
        _ => panic!("the deadline has passed"),
    };
    assert_eq!(response.status, 408);
    assert_eq!(response.headers.get("content-type").unwrap(), "text/plain; charset=utf-8");
    match response.body {
        TracingResponseBody::Body { body } => match body.inner {
            AuthResponseBody::Body { body } => match body.inner {
                TimeoutResponseBody::TimeoutRespBody { mut body } => {
                    assert_eq!(body.poll_frame().unwrap(), b"Request timeout, please retry later")
                }
                _ => panic!("the text is that of the timeout stage"),
            },
            _ => panic!("the request had a credential"),
        },
        _ => panic!("the tracing stage wrote nothing itself"),
    }
    assert_eq!(polled.2, Some(SpanStatus::Failed));
    let report = polled.1.unwrap();
    assert_eq!((report.method.as_str(), report.increment), ("POST", 1));
    assert_eq!(handler_of(&stack).order, ["handler"]);
}

#[test]
fn requests_keep_their_order_through_the_pipeline() {
    let mut stack = pipeline(Handler::default(), Duration::from_millis(50));
    for uri in ["/1", "/2", "/3"] {
        let mut req = request("GET", true);
        req.uri = uri.to_string();
        let _future = send(&mut stack, req);
    }
    let seen: Vec<&str> = handler_of(&stack).requests.iter().map(|r| r.1.as_str()).collect();
    assert_eq!(seen, ["/1", "/2", "/3"]);
}

fn answer(stack: &mut Pipeline<Handler>, credential: bool, late: bool) -> Response<PipelineBody<Vec<u8>>> {
    let mut future = send(stack, request("GET", credential));
    let polled: Polled = poll(
        &mut future,
        |_f: &mut u8| {
            if late {
                Poll::Pending
            } else {
                Poll::Ready(Ok(Response::new(b"abc".to_vec())))
            }
        },
        |_t: &mut Duration| Poll::Ready(()),
    );
    match polled.0 {
        Poll::Ready(Ok(response)) => response,
        _ => panic!("the request is answered"),
    }
}

#[test]
fn body_of_the_handler_passes_through_the_pipeline_piece_by_piece() {
    let mut stack = pipeline(Handler::default(), Duration::from_millis(50));
    let mut body = answer(&mut stack, true, false).body;
    assert!(!is_end_stream(&body, |bytes: &Vec<u8>| bytes.is_empty()));
    assert_eq!(
        size_hint(&body, |bytes: &Vec<u8>| SizeHint::with_exact(bytes.len() as u64)),
        SizeHint { lower: 3, upper: Some(3) }
    );
    let next = |bytes: &mut Vec<u8>| -> Poll<Option<Result<u8, ()>>> {
        if bytes.is_empty() {
            Poll::Ready(None)
        } else {
            Poll::Ready(Some(Ok(bytes.remove(0))))
        }
    };
    for expected in [b'a', b'b', b'c'] {
        assert!(matches!(poll_frame(&mut body, next), Poll::Ready(Some(Ok(Frame::Upstream(byte)))) if byte == expected));
    }
    assert!(matches!(poll_frame(&mut body, next), Poll::Ready(None)));
    assert!(is_end_stream(&body, |bytes: &Vec<u8>| bytes.is_empty()));
    let pending: Poll<Option<Result<Frame<u8>, ()>>> =
        poll_frame(&mut body, |_b: &mut Vec<u8>| Poll::Pending);
    assert!(pending.is_pending());
    let failed: Poll<Option<Result<Frame<u8>, &str>>> =
        poll_frame(&mut body, |_b: &mut Vec<u8>| Poll::Ready(Some(Err("reset"))));
    assert!(matches!(failed, Poll::Ready(Some(Err("reset")))));
}

#[test]
fn text_of_a_stage_leaves_the_pipeline_in_one_piece() {
    let cases: [(bool, bool, &[u8]); 2] = [
        (false, false, b"auth failed, please check your token"),
        (true, true, b"Request timeout, please retry later"),
    ];
    for (credential, late, text) in cases {
        let mut stack = pipeline(Handler::default(), Duration::from_millis(50));
        let mut body = answer(&mut stack, credential, late).body;
        assert!(!is_end_stream(&body, |_b: &Vec<u8>| panic!("not asked")));
        let hint = size_hint(&body, |_b: &Vec<u8>| panic!("not asked"));
        assert_eq!(hint, SizeHint::with_exact(text.len() as u64));
        let first: Poll<Option<Result<Frame<()>, ()>>> =
            poll_frame(&mut body, |_b: &mut Vec<u8>| panic!("not asked"));
        assert!(matches!(first, Poll::Ready(Some(Ok(Frame::Data(bytes)))) if bytes == text));
        assert!(is_end_stream(&body, |_b: &Vec<u8>| panic!("not asked")));
        assert_eq!(size_hint(&body, |_b: &Vec<u8>| panic!("not asked")), SizeHint::with_exact(0));
        let second: Poll<Option<Result<Frame<()>, ()>>> =
            poll_frame(&mut body, |_b: &mut Vec<u8>| panic!("not asked"));
        assert!(matches!(second, Poll::Ready(None)));
    }
}

#[test]
fn pipeline_is_ready_when_the_handler_is() {
    let mut stack = pipeline(Handler::default(), Duration::from_millis(50));
    let pending: Poll<Result<(), String>> = poll_ready(&mut stack, |handler: &mut Handler| {
        handler.order.push("asked");
        Poll::Pending
    });
    assert!(pending.is_pending());
    let ready: Poll<Result<(), String>> =
        poll_ready(&mut stack, |_handler: &mut Handler| Poll::Ready(Ok(())));
    assert!(matches!(ready, Poll::Ready(Ok(()))));
    let failed: Poll<Result<(), String>> =
        poll_ready(&mut stack, |_handler: &mut Handler| Poll::Ready(Err("down".to_string())));
    assert!(matches!(failed, Poll::Ready(Err(e)) if e == "down"));
    assert_eq!(handler_of(&stack).order, ["asked"]);
}

#[test]
fn pending_request_can_be_polled_again() {
    let mut stack = pipeline(Handler::default(), Duration::from_millis(50));
    let mut future = send(&mut stack, request("GET", true));
    for polls in 1..=3u8 {
        let polled: Polled = poll(
            &mut future,
            |seen: &mut u8| {
                *seen += 1;
                Poll::Pending
            },
            |_t: &mut Duration| Poll::Pending,
        );
        assert!(polled.0.is_pending());
        assert!(polled.1.is_none());
        match &future.inner {
            ResponseFutureInner::Future { future: metrics } => match &metrics.inner {
                AuthResponseFuture::Future { future: guarded } => assert_eq!(guarded.inner.inner, polls),
                _ => panic!("the request had a credential"),
            },
            _ => panic!("the tracing stage wrote nothing itself"),
        }
    }
    let polled: Polled = poll(
        &mut future,
        |_seen: &mut u8| Poll::Ready(Ok(Response::new(Vec::new()))),
        |_t: &mut Duration| Poll::Pending,
    );
    assert!(matches!(polled.0, Poll::Ready(Ok(response)) if response.status == 200));
    assert_eq!(polled.1.unwrap().increment, 1);
}
