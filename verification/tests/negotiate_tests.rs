use rust_fetch::error::Error;
use rust_fetch::headers::Headers;
use rust_fetch::http::json_body_of;
use rust_fetch::http::parse_method_param;
use rust_fetch::http::text_body_of;
use rust_fetch::negotiate::negotiate_body;
use rust_fetch::negotiate::process_response;
use rust_fetch::types::Method;
use rust_fetch::types::Response;
use rust_fetch::types::ResponseBody;
use rust_fetch::types::ResponseFormat;

#[test]
fn test_auto_json_falls_back_to_text() {
    let malformed = b"{not json, but text".to_vec();
    let body = negotiate_body(ResponseFormat::Auto, "application/json", malformed).unwrap();
    match body {
        ResponseBody::Text(t) => assert_eq!(t, "{not json, but text"),
        other => panic!("expected a text body, got {:?}", other),
    }
}

#[test]
fn test_auto_json_decodes_valid_json() {
    let valid = b"{\"a\": 1}".to_vec();
    let body = negotiate_body(ResponseFormat::Auto, "application/json; charset=utf-8", valid)
        .unwrap();
    match body {
        ResponseBody::Json(v) => assert_eq!(v["a"], serde_json::Value::from(1)),
        other => panic!("expected a JSON body, got {:?}", other),
    }
}

#[test]
fn test_auto_json_falls_back_to_binary() {
    let bytes = vec![0xffu8, 0xfe, 0x00, 0x01];
    let body = negotiate_body(ResponseFormat::Auto, "application/json", bytes.clone()).unwrap();
    match body {
        ResponseBody::Binary(b) => assert_eq!(b, bytes),
        other => panic!("expected a binary body, got {:?}", other),
    }
}

#[test]
fn test_auto_binary_content_type() {
    let bytes = vec![1u8, 2, 3];
    let body = negotiate_body(ResponseFormat::Auto, "image/png", bytes.clone()).unwrap();
    match body {
        ResponseBody::Binary(b) => assert_eq!(b, bytes),
        other => panic!("expected a binary body, got {:?}", other),
    }
}

#[test]
fn test_auto_text_content_type() {
    let body = negotiate_body(ResponseFormat::Auto, "text/html", b"<html/>".to_vec()).unwrap();
    match body {
        ResponseBody::Text(t) => assert_eq!(t, "<html/>"),
        other => panic!("expected a text body, got {:?}", other),
    }

    let xml = negotiate_body(ResponseFormat::Auto, "application/xml", b"<a/>".to_vec()).unwrap();
    assert!(matches!(xml, ResponseBody::Text(_)));

    let upper = negotiate_body(ResponseFormat::Auto, "TEXT/PLAIN", b"hi".to_vec()).unwrap();
    assert!(matches!(upper, ResponseBody::Text(_)));
}

#[test]
fn test_auto_text_invalid_utf8_is_parse_error() {
    let err = negotiate_body(ResponseFormat::Auto, "text/plain", vec![0xffu8, 0xfe]).unwrap_err();
    assert!(matches!(err, Error::Parse { .. }));
}

#[test]
fn test_explicit_json_rejects_malformed() {
    let err = negotiate_body(
        ResponseFormat::Json,
        "application/json",
        b"{not json".to_vec(),
    )
    .unwrap_err();
    assert!(matches!(err, Error::Parse { .. }));

    let err_other_ct =
        negotiate_body(ResponseFormat::Json, "text/plain", b"{not json".to_vec()).unwrap_err();
    assert!(matches!(err_other_ct, Error::Parse { .. }));
}

#[test]
fn test_explicit_text_and_binary() {
    let text = negotiate_body(ResponseFormat::Text, "application/json", b"abc".to_vec()).unwrap();
    assert!(matches!(text, ResponseBody::Text(t) if t == "abc"));

    let err = negotiate_body(ResponseFormat::Text, "text/plain", vec![0xffu8]).unwrap_err();
    assert!(matches!(err, Error::Parse { .. }));

    let binary = negotiate_body(ResponseFormat::Binary, "text/plain", b"abc".to_vec()).unwrap();
    assert!(matches!(binary, ResponseBody::Binary(b) if b == b"abc".to_vec()));
}

fn headers_with_content_type(value: &str) -> Headers {
    let mut headers = Headers::new();
    headers.insert("Content-Type", value);
    headers
}

#[test]
fn test_process_response_success() {
    let response = process_response(
        ResponseFormat::Auto,
        200,
        "OK".to_string(),
        headers_with_content_type("application/json"),
        "https://example.com".to_string(),
        b"{\"ok\": true}".to_vec(),
    )
    .unwrap();
    assert_eq!(response.status, 200);
    assert_eq!(response.status_text, "OK");
    assert_eq!(response.url, "https://example.com");
    assert!(response.json().is_some());
}

#[test]
fn test_process_response_http_error_captures_text_body() {
    let err = process_response(
        ResponseFormat::Auto,
        404,
        "Not Found".to_string(),
        headers_with_content_type("text/plain"),
        "https://example.com/missing".to_string(),
        b"oops".to_vec(),
    )
    .unwrap_err();
    match err {
        Error::Http {
            status,
            status_text,
            body,
        } => {
            assert_eq!(status, 404);
            assert_eq!(status_text, "Not Found");
            assert_eq!(body, Some("oops".to_string()));
        }
        other => panic!("expected an Http error, got {:?}", other),
    }
}

#[test]
fn test_process_response_http_error_without_text_body() {
    let err = process_response(
        ResponseFormat::Binary,
        500,
        "Internal Server Error".to_string(),
        Headers::new(),
        String::new(),
        vec![1u8, 2],
    )
    .unwrap_err();
    match err {
        Error::Http { status, body, .. } => {
            assert_eq!(status, 500);
            assert_eq!(body, None);
        }
        other => panic!("expected an Http error, got {:?}", other),
    }
}

#[test]
fn test_process_response_missing_content_type_is_binary() {
    let response = process_response(
        ResponseFormat::Auto,
        204,
        "No Content".to_string(),
        Headers::new(),
        String::new(),
        Vec::new(),
    )
    .unwrap();
    assert!(matches!(response.body, ResponseBody::Binary(b) if b.is_empty()));
}

#[test]
fn test_parse_method_param() {
    assert_eq!(parse_method_param("post").unwrap(), Method::Post);
    let err = parse_method_param("TELEPORT").unwrap_err();
    match err {
        Error::InvalidInput { parameter, reason } => {
            assert_eq!(parameter, "method");
            assert_eq!(reason, "Invalid HTTP method: TELEPORT");
        }
        other => panic!("expected invalid input, got {:?}", other),
    }
}

#[test]
fn test_body_shape_requirements() {
    let json_response = Response {
        status: 200,
        status_text: "OK".to_string(),
        headers: Headers::new(),
        body: ResponseBody::Json(serde_json::Value::Bool(true)),
        url: String::new(),
    };
    assert_eq!(json_body_of(json_response).unwrap(), serde_json::Value::Bool(true));

    let text_response = Response {
        status: 200,
        status_text: "OK".to_string(),
        headers: Headers::new(),
        body: ResponseBody::Text("hi".to_string()),
        url: String::new(),
    };
    assert_eq!(text_body_of(text_response).unwrap(), "hi");

    let empty_response = Response {
        status: 200,
        status_text: "OK".to_string(),
        headers: Headers::new(),
        body: ResponseBody::Empty,
        url: String::new(),
    };
    let err = json_body_of(empty_response).unwrap_err();
    assert!(matches!(err, Error::Parse { .. }));
    assert_eq!(err.message(), "Parse error: Expected JSON response");
}
