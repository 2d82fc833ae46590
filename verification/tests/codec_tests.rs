use tide_lambda_listener::codec::{decode_invocation, encode_response, encode_diagnostic, encode_app_error};
use tide_lambda_listener::error::{AppError, Diagnostic};
use tide_lambda_listener::model::{Body, Response};
use tide_lambda_listener::origin::RequestOrigin;

fn hdrs(pairs: &[(&str, &str)]) -> Vec<(String, String)> {
    pairs.iter().map(|(n, v)| (n.to_string(), v.to_string())).collect()
}

fn poll_headers() -> Vec<(String, String)> {
    hdrs(&[("request-id", "abc123"), ("dialect", "gateway-v2")])
}

#[test]
fn decodes_simple_invocation() {
    let body = "{\"httpMethod\":\"GET\",\"path\":\"/hello\",\"headers\":{},\"body\":null}";
    let (req, ctx, origin) = decode_invocation(&poll_headers(), body).unwrap();
    assert_eq!(req.method, "GET");
    assert_eq!(req.path, "/hello");
    assert_eq!(req.query, "");
    assert!(req.headers.is_empty());
    assert!(matches!(req.body, Body::Empty));
    assert_eq!(ctx.request_id, "abc123");
    assert!(matches!(origin, RequestOrigin::GatewayV2));
}

#[test]
fn scenario_success_round_trip() {
    let body = "{\"httpMethod\":\"GET\",\"path\":\"/hello\",\"headers\":{},\"body\":null}";
    let (req, ctx, origin) = decode_invocation(&poll_headers(), body).unwrap();
    assert!(matches!(req.body, Body::Empty));
    assert_eq!(ctx.request_id, "abc123");
    let resp = Response { status: 200, headers: Vec::new(), body: Body::Text("hi".to_string()) };
    let encoded = encode_response(&resp, origin).unwrap();
    assert_eq!(encoded, "{\"version\":\"2.0\",\"statusCode\":200,\"headers\":[],\"body\":\"hi\"}");
}

#[test]
fn decodes_context_fields() {
    let headers = hdrs(&[
        ("request-id", "r-9"),
        ("dialect", "gateway"),
        ("deadline", "1700000000000"),
        ("function-metadata", "arn:aws:lambda:fn"),
        ("client-context", "cc"),
        ("identity", "id"),
    ]);
    let body = "{\"httpMethod\":\"GET\",\"path\":\"/\"}";
    let (_req, ctx, origin) = decode_invocation(&headers, body).unwrap();
    assert_eq!(ctx.request_id, "r-9");
    assert_eq!(ctx.deadline.as_deref(), Some("1700000000000"));
    assert_eq!(ctx.function_metadata.as_deref(), Some("arn:aws:lambda:fn"));
    assert_eq!(ctx.client_context.as_deref(), Some("cc"));
    assert_eq!(ctx.identity.as_deref(), Some("id"));
    assert!(matches!(origin, RequestOrigin::Gateway));
}

#[test]
fn header_multimap_round_trip() {
    let body =
        "{\"httpMethod\":\"GET\",\"path\":\"/x\",\"headers\":{\"a\":\"1\",\"b\":\"2\",\"a\":\"3\"}}";
    let (req, _ctx, _origin) = decode_invocation(&poll_headers(), body).unwrap();
    let expect = vec![
        ("a".to_string(), "1".to_string()),
        ("b".to_string(), "2".to_string()),
        ("a".to_string(), "3".to_string()),
    ];
    assert_eq!(req.headers, expect);
    let resp = Response { status: 204, headers: req.headers.clone(), body: Body::Empty };
    let encoded = encode_response(&resp, RequestOrigin::Gateway).unwrap();
    assert_eq!(
        encoded,
        "{\"statusCode\":204,\"headers\":[[\"a\",\"1\"],[\"b\",\"2\"],[\"a\",\"3\"]],\"isBase64Encoded\":false}"
    );
}

#[test]
fn body_variant_empty() {
    let body = "{\"httpMethod\":\"GET\",\"path\":\"/\"}";
    let (req, _, _) = decode_invocation(&poll_headers(), body).unwrap();
    assert!(matches!(req.body, Body::Empty));
}

#[test]
fn body_variant_text() {
    let body = "{\"httpMethod\":\"POST\",\"path\":\"/\",\"body\":\"h\\u00e9llo world\"}";
    let (req, _, _) = decode_invocation(&poll_headers(), body).unwrap();
    match req.body {
        Body::Text(t) => assert_eq!(t, "h\u{e9}llo world"),
        other => panic!("expected a textual body, got {:?}", other),
    }
}

#[test]
fn body_variant_text_with_escapes() {
    let body = "{\"httpMethod\":\"POST\",\"path\":\"/\",\"body\":\"a\\n\\\"b\\\\c\\t\"}";
    let (req, _, _) = decode_invocation(&poll_headers(), body).unwrap();
    match req.body {
        Body::Text(t) => assert_eq!(t, "a\n\"b\\c\t"),
        other => panic!("expected a textual body, got {:?}", other),
    }
}

#[test]
fn body_variant_binary() {
    let body = "{\"httpMethod\":\"POST\",\"path\":\"/up\",\"body\":\"aGk=\",\"isBase64Encoded\":true}";
    let (req, _, _) = decode_invocation(&poll_headers(), body).unwrap();
    match req.body {
        Body::Binary(b) => assert_eq!(b, vec![104u8, 105u8]),
        other => panic!("expected a binary body, got {:?}", other),
    }
}

#[test]
fn body_variant_binary_longer() {
    // "hello!" in base64, an unpadded multiple of three bytes
    let body =
        "{\"httpMethod\":\"POST\",\"path\":\"/\",\"body\":\"aGVsbG8h\",\"isBase64Encoded\":true}";
    let (req, _, _) = decode_invocation(&poll_headers(), body).unwrap();
    match req.body {
        Body::Binary(b) => assert_eq!(b, b"hello!".to_vec()),
        other => panic!("expected a binary body, got {:?}", other),
    }
}

#[test]
fn rejects_bad_base64() {
    let body = "{\"httpMethod\":\"POST\",\"path\":\"/\",\"body\":\"a(k=\",\"isBase64Encoded\":true}";
    let err = decode_invocation(&poll_headers(), body).unwrap_err();
    assert_eq!(format!("{:?}", err), "MalformedEnvelope");
}

#[test]
fn rejects_missing_request_id() {
    let headers = hdrs(&[("dialect", "gateway")]);
    let body = "{\"httpMethod\":\"GET\",\"path\":\"/\"}";
    let err = decode_invocation(&headers, body).unwrap_err();
    assert_eq!(format!("{:?}", err), "MissingContext");
}

#[test]
fn rejects_missing_dialect() {
    let headers = hdrs(&[("request-id", "abc")]);
    let body = "{\"httpMethod\":\"GET\",\"path\":\"/\"}";
    let err = decode_invocation(&headers, body).unwrap_err();
    assert_eq!(format!("{:?}", err), "MissingContext");
}

#[test]
fn rejects_unknown_dialect() {
    let headers = hdrs(&[("request-id", "abc"), ("dialect", "carrier-pigeon")]);
    let body = "{\"httpMethod\":\"GET\",\"path\":\"/\"}";
    let err = decode_invocation(&headers, body).unwrap_err();
    assert_eq!(format!("{:?}", err), "MalformedEnvelope");
}

#[test]
fn rejects_malformed_envelopes() {
    let cases = [
        "",
        "not json",
        "{\"httpMethod\":\"GET\"}",
        "{\"path\":\"/\"}",
        "{\"httpMethod\":\"GET\",\"path\":\"/\",\"httpMethod\":\"POST\"}",
        "{\"httpMethod\":\"GET\",\"path\":\"/\",\"extra\":\"x\"}",
        "{\"httpMethod\":\"GET\",\"path\":\"/\"} trailing",
        "{\"httpMethod\":\"GET\",\"path\":\"/\",\"body\":7}",
    ];
    for case in cases {
        let err = decode_invocation(&poll_headers(), case).unwrap_err();
        assert_eq!(format!("{:?}", err), "MalformedEnvelope", "case: {}", case);
    }
}

#[test]
fn accepts_whitespace_and_member_order() {
    let body = " { \"body\" : \"x\" , \"path\" : \"/p\" , \"httpMethod\" : \"PUT\" } ";
    let (req, _, _) = decode_invocation(&poll_headers(), body).unwrap();
    assert_eq!(req.method, "PUT");
    assert_eq!(req.path, "/p");
    match req.body {
        Body::Text(t) => assert_eq!(t, "x"),
        other => panic!("expected a textual body, got {:?}", other),
    }
}

#[test]
fn decodes_query_string() {
    let body = "{\"httpMethod\":\"GET\",\"path\":\"/s\",\"queryString\":\"q=1&r=2\"}";
    let (req, _, _) = decode_invocation(&poll_headers(), body).unwrap();
    assert_eq!(req.query, "q=1&r=2");
}

#[test]
fn encode_distinguishes_empty_from_missing_body() {
    let none = Response { status: 200, headers: Vec::new(), body: Body::Empty };
    let blank = Response { status: 200, headers: Vec::new(), body: Body::Text(String::new()) };
    let e_none = encode_response(&none, RequestOrigin::Gateway).unwrap();
    let e_blank = encode_response(&blank, RequestOrigin::Gateway).unwrap();
    assert_eq!(e_none, "{\"statusCode\":200,\"headers\":[],\"isBase64Encoded\":false}");
    assert_eq!(e_blank, "{\"statusCode\":200,\"headers\":[],\"body\":\"\",\"isBase64Encoded\":false}");
    assert_ne!(e_none, e_blank);
}

#[test]
fn encode_shapes_differ_by_origin() {
    let resp = Response { status: 404, headers: Vec::new(), body: Body::Text("gone".to_string()) };
    let g = encode_response(&resp, RequestOrigin::Gateway).unwrap();
    let v2 = encode_response(&resp, RequestOrigin::GatewayV2).unwrap();
    let alb = encode_response(&resp, RequestOrigin::Alb).unwrap();
    assert_eq!(g, "{\"statusCode\":404,\"headers\":[],\"body\":\"gone\",\"isBase64Encoded\":false}");
    assert_eq!(v2, "{\"version\":\"2.0\",\"statusCode\":404,\"headers\":[],\"body\":\"gone\"}");
    assert_eq!(
        alb,
        "{\"statusDescription\":\"404\",\"statusCode\":404,\"headers\":[],\"body\":\"gone\",\"isBase64Encoded\":false}"
    );
    assert_ne!(g, v2);
    assert_ne!(g, alb);
    assert_ne!(v2, alb);
}

#[test]
fn encode_status_digit_extremes() {
    let low = Response { status: 0, headers: Vec::new(), body: Body::Empty };
    let high = Response { status: 65535, headers: Vec::new(), body: Body::Empty };
    assert_eq!(
        encode_response(&low, RequestOrigin::Gateway).unwrap(),
        "{\"statusCode\":0,\"headers\":[],\"isBase64Encoded\":false}"
    );
    assert_eq!(
        encode_response(&high, RequestOrigin::Gateway).unwrap(),
        "{\"statusCode\":65535,\"headers\":[],\"isBase64Encoded\":false}"
    );
}

#[test]
fn encode_refuses_binary_response_body() {
    let resp = Response { status: 200, headers: Vec::new(), body: Body::Binary(vec![1, 2, 3]) };
    let err = encode_response(&resp, RequestOrigin::Gateway).unwrap_err();
    assert_eq!(format!("{:?}", err), "EncodingError");
}

#[test]
fn encode_escapes_header_values() {
    let resp = Response {
        status: 200,
        headers: vec![("x-note".to_string(), "say \"hi\"\\now".to_string())],
        body: Body::Empty,
    };
    let encoded = encode_response(&resp, RequestOrigin::Gateway).unwrap();
    assert_eq!(
        encoded,
        "{\"statusCode\":200,\"headers\":[[\"x-note\",\"say \\\"hi\\\"\\\\now\"]],\"isBase64Encoded\":false}"
    );
}

#[test]
fn diagnostic_encoding_exact() {
    let d = Diagnostic { error_type: "NotFound".to_string(), error_message: "no route".to_string() };
    assert_eq!(encode_diagnostic(&d), "{\"errorType\":\"NotFound\",\"errorMessage\":\"no route\"}");
}

#[test]
fn diagnostic_escapes_message() {
    let e = AppError::new("E".to_string(), "a\nb\"c\\d".to_string());
    assert_eq!(
        encode_app_error(&e),
        "{\"errorType\":\"E\",\"errorMessage\":\"a\\u000ab\\\"c\\\\d\"}"
    );
}

#[test]
fn opaque_values_classify_as_unhandled() {
    assert_eq!(tide_lambda_listener::type_name_of(&5u32), "UnhandledError");
    assert_eq!(tide_lambda_listener::type_name_of("boom"), "UnhandledError");
}

#[test]
fn diagnostic_never_empty() {
    let e = AppError::new(String::new(), String::new());
    let d = Diagnostic::from_app_error(&e);
    assert!(!d.error_type.is_empty());
    assert!(!d.error_message.is_empty());
    assert_eq!(
        encode_app_error(&e),
        "{\"errorType\":\"UnhandledError\",\"errorMessage\":\"unhandled application error\"}"
    );
}
