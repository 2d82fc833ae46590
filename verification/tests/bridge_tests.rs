use tide_lambda_listener::bridge::{
    Action, Bridge, Event, Lifecycle, Phase, base_url_of, error_marker_name, error_marker_value,
    error_path, next_invocation_path, response_path,
};
use tide_lambda_listener::error::AppError;
use tide_lambda_listener::model::{Body, Response};

fn poll_event() -> Event {
    Event::Polled {
        headers: vec![
            ("request-id".to_string(), "abc123".to_string()),
            ("dialect".to_string(), "gateway-v2".to_string()),
        ],
        body: "{\"httpMethod\":\"GET\",\"path\":\"/hello\",\"headers\":{},\"body\":null}"
            .to_string(),
    }
}

fn running_bridge() -> Bridge {
    let mut b = Bridge::new();
    b.bind().unwrap();
    let first = b.accept().unwrap();
    assert!(matches!(first, Action::Poll));
    b
}

#[test]
fn routes_are_fixed() {
    assert_eq!(next_invocation_path(), "2018-06-01/runtime/invocation/next");
    assert_eq!(response_path("abc123"), "2018-06-01/runtime/invocation/abc123/response");
    assert_eq!(error_path("abc123"), "2018-06-01/runtime/invocation/abc123/error");
    assert_eq!(error_marker_name(), "lambda-runtime-function-error-type");
    assert_eq!(error_marker_value(), "unhandled");
    assert_eq!(base_url_of("127.0.0.1:9001"), "http://127.0.0.1:9001");
}

#[test]
fn bind_once_then_accept() {
    let mut b = Bridge::new();
    assert!(matches!(b.lifecycle, Lifecycle::Unbound));
    b.bind().unwrap();
    assert!(matches!(b.lifecycle, Lifecycle::Bound));
    assert!(b.bind().is_err());
    let first = b.accept().unwrap();
    assert!(matches!(first, Action::Poll));
    assert!(matches!(b.lifecycle, Lifecycle::Running));
    assert!(b.accept().is_err());
}

#[test]
fn accept_before_bind_is_misuse() {
    let mut b = Bridge::new();
    assert!(b.accept().is_err());
}

#[test]
fn info_is_empty_without_a_socket() {
    let b = Bridge::new();
    assert!(b.info().is_empty());
}

#[test]
fn scenario_success_posts_response() {
    let mut b = running_bridge();
    let a = b.handle(poll_event());
    let (request, context) = match a {
        Action::Invoke { request, context } => (request, context),
        other => panic!("expected a dispatch, got {:?}", other),
    };
    assert_eq!(request.method, "GET");
    assert_eq!(request.path, "/hello");
    assert!(matches!(request.body, Body::Empty));
    assert_eq!(context.request_id, "abc123");
    let resp = Response { status: 200, headers: Vec::new(), body: Body::Text("hi".to_string()) };
    let a2 = b.handle(Event::Responded { outcome: Ok(resp) });
    match a2 {
        Action::PostResponse { path, body } => {
            assert_eq!(path, "2018-06-01/runtime/invocation/abc123/response");
            assert_eq!(body, "{\"version\":\"2.0\",\"statusCode\":200,\"headers\":[],\"body\":\"hi\"}");
        },
        other => panic!("expected a response POST, got {:?}", other),
    }
    let a3 = b.handle(Event::Posted);
    assert!(matches!(a3, Action::Poll));
}

#[test]
fn scenario_failure_posts_diagnostic() {
    let mut b = running_bridge();
    let a = b.handle(poll_event());
    assert!(matches!(a, Action::Invoke { .. }));
    let failure = AppError::new("NotFound".to_string(), "no route".to_string());
    let a2 = b.handle(Event::Responded { outcome: Err(failure) });
    match a2 {
        Action::PostError { path, body, header_name, header_value } => {
            assert_eq!(path, "2018-06-01/runtime/invocation/abc123/error");
            assert_eq!(header_name, "lambda-runtime-function-error-type");
            assert_eq!(header_value, "unhandled");
            assert_eq!(body, "{\"errorType\":\"NotFound\",\"errorMessage\":\"no route\"}");
            assert!(body.contains("\"errorMessage\":\"no route\""));
        },
        other => panic!("expected an error POST, got {:?}", other),
    }
    // an application failure does not end the loop
    let a3 = b.handle(Event::Posted);
    assert!(matches!(a3, Action::Poll));
}

#[test]
fn no_second_poll_while_in_flight() {
    let mut b = running_bridge();
    let a = b.handle(poll_event());
    assert!(matches!(a, Action::Invoke { .. }));
    // while the invocation is in flight, no event yields another poll
    let resp = Response { status: 200, headers: Vec::new(), body: Body::Text("ok".to_string()) };
    let a2 = b.handle(Event::Responded { outcome: Ok(resp) });
    assert!(!matches!(a2, Action::Poll));
    // only the completed POST brings the next poll
    let a3 = b.handle(Event::Posted);
    assert!(matches!(a3, Action::Poll));
}

#[test]
fn origin_is_pinned_per_invocation() {
    let mut b = running_bridge();
    // first invocation arrives under the gateway dialect
    let a = b.handle(Event::Polled {
        headers: vec![
            ("request-id".to_string(), "one".to_string()),
            ("dialect".to_string(), "gateway".to_string()),
        ],
        body: "{\"httpMethod\":\"GET\",\"path\":\"/\"}".to_string(),
    });
    assert!(matches!(a, Action::Invoke { .. }));
    let resp = Response { status: 200, headers: Vec::new(), body: Body::Text("a".to_string()) };
    let a2 = b.handle(Event::Responded { outcome: Ok(resp) });
    let body1 = match a2 {
        Action::PostResponse { path, body } => {
            assert_eq!(path, "2018-06-01/runtime/invocation/one/response");
            body
        },
        other => panic!("expected a response POST, got {:?}", other),
    };
    assert_eq!(body1, "{\"statusCode\":200,\"headers\":[],\"body\":\"a\",\"isBase64Encoded\":false}");
    assert!(matches!(b.handle(Event::Posted), Action::Poll));
    // the next invocation's alb dialect shapes the next response
    let a3 = b.handle(Event::Polled {
        headers: vec![
            ("request-id".to_string(), "two".to_string()),
            ("dialect".to_string(), "alb".to_string()),
        ],
        body: "{\"httpMethod\":\"GET\",\"path\":\"/\"}".to_string(),
    });
    assert!(matches!(a3, Action::Invoke { .. }));
    let resp2 = Response { status: 200, headers: Vec::new(), body: Body::Text("a".to_string()) };
    let a4 = b.handle(Event::Responded { outcome: Ok(resp2) });
    match a4 {
        Action::PostResponse { path, body } => {
            assert_eq!(path, "2018-06-01/runtime/invocation/two/response");
            assert_eq!(
                body,
                "{\"statusDescription\":\"200\",\"statusCode\":200,\"headers\":[],\"body\":\"a\",\"isBase64Encoded\":false}"
            );
            assert_ne!(body, body1);
        },
        other => panic!("expected a response POST, got {:?}", other),
    }
}

#[test]
fn malformed_poll_response_is_fatal() {
    let mut b = running_bridge();
    let a = b.handle(Event::Polled {
        headers: vec![("request-id".to_string(), "x".to_string())],
        body: "{}".to_string(),
    });
    match a {
        Action::Fail { error } => assert_eq!(format!("{:?}", error), "MissingContext"),
        other => panic!("expected a fault, got {:?}", other),
    }
    assert!(matches!(b.phase, Phase::Halted(_)));
    // a halted loop repeats its fault
    let a2 = b.handle(Event::Posted);
    assert!(matches!(a2, Action::Fail { .. }));
}

#[test]
fn binary_response_body_is_fatal_encoding_error() {
    let mut b = running_bridge();
    let a = b.handle(poll_event());
    assert!(matches!(a, Action::Invoke { .. }));
    let resp = Response { status: 200, headers: Vec::new(), body: Body::Binary(vec![0, 1]) };
    let a2 = b.handle(Event::Responded { outcome: Ok(resp) });
    match a2 {
        Action::Fail { error } => assert_eq!(format!("{:?}", error), "EncodingError"),
        other => panic!("expected a fault, got {:?}", other),
    }
}

#[test]
fn out_of_order_event_is_misuse() {
    let mut b = running_bridge();
    let a = b.handle(Event::Posted);
    match a {
        Action::Fail { error } => assert_eq!(format!("{:?}", error), "Misuse"),
        other => panic!("expected a fault, got {:?}", other),
    }
}

#[test]
fn event_before_accept_is_misuse() {
    let mut b = Bridge::new();
    b.bind().unwrap();
    let a = b.handle(Event::Posted);
    assert!(matches!(a, Action::Fail { .. }));
}
