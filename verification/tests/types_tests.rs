use rust_fetch::headers::Headers;
use rust_fetch::types::Body;
use rust_fetch::types::Method;
use rust_fetch::types::Response;
use rust_fetch::types::ResponseBody;

#[test]
fn test_method_conversion() {
    assert_eq!(Method::from_str("GET"), Some(Method::Get));
    assert_eq!(Method::from_str("post"), Some(Method::Post));
    assert_eq!(Method::from_str("INVALID"), None);
}

#[test]
fn types_test_headers_operations() {
    let mut headers = Headers::new();
    headers.insert("Content-Type", "application/json");
    headers.insert("Accept", "application/json");
    headers.insert("Accept", "text/plain");

    assert_eq!(headers.get_first("content-type"), Some("application/json"));
    assert_eq!(headers.get("accept").map(|v| v.len()), Some(2));

    headers.set("Accept", "application/xml");
    assert_eq!(headers.get("accept").map(|v| v.len()), Some(1));
}

#[test]
fn test_response_status_checks() {
    let response = Response {
        status: 200,
        status_text: "OK".to_string(),
        headers: Headers::new(),
        body: ResponseBody::Empty,
        url: "https://example.com".to_string(),
    };

    assert!(response.is_success());
    assert!(!response.is_redirect());
    assert!(!response.is_client_error());
    assert!(!response.is_server_error());
}

#[test]
fn test_method_names() {
    assert_eq!(Method::Get.as_str(), "GET");
    assert_eq!(Method::Delete.as_str(), "DELETE");
    assert_eq!(Method::from_str("oPtIoNs"), Some(Method::Options));
    assert_eq!(Method::default(), Method::Get);
}

#[test]
fn test_status_classes_partition() {
    for status in 100u16..600u16 {
        let response = Response {
            status,
            status_text: String::new(),
            headers: Headers::new(),
            body: ResponseBody::Empty,
            url: String::new(),
        };
        let classes = [
            response.is_success(),
            response.is_redirect(),
            response.is_client_error(),
            response.is_server_error(),
        ]
        .iter()
        .filter(|c| **c)
        .count();
        let expected = if status >= 200 { 1 } else { 0 };
        assert_eq!(classes, expected, "status {}", status);
    }
}

#[test]
fn test_headers_case_insensitive_get_first() {
    let mut headers = Headers::new();
    headers.insert("Content-Type", "application/json");
    assert_eq!(
        headers.get_first("Content-Type"),
        headers.get_first("content-type")
    );
    assert_eq!(headers.get_first("CONTENT-TYPE"), Some("application/json"));
}

#[test]
fn test_headers_insert_preserves_order() {
    let mut headers = Headers::new();
    headers.insert("Accept", "application/json");
    headers.insert("Accept", "text/plain");
    let values = headers.get("accept").unwrap();
    assert_eq!(values[0], "application/json");
    assert_eq!(values[1], "text/plain");
}

#[test]
fn test_body_content_types() {
    assert_eq!(Body::Text(String::new()).content_type(), "text/plain");
    assert_eq!(
        Body::Json(serde_json::Value::Null).content_type(),
        "application/json"
    );
    assert_eq!(
        Body::Binary(Vec::new()).content_type(),
        "application/octet-stream"
    );
    assert_eq!(
        Body::Form(Vec::new()).content_type(),
        "application/x-www-form-urlencoded"
    );
}

#[test]
fn test_body_to_bytes() {

    let text = Body::Text("hello".to_string());
    assert_eq!(text.to_bytes().unwrap(), b"hello".to_vec());

    let binary = Body::Binary(vec![0u8, 1, 2, 3]);
    assert_eq!(binary.to_bytes().unwrap(), vec![0u8, 1, 2, 3]);

    let mut object = serde_json::Map::new();
    object.insert("a".to_string(), serde_json::Value::from(1));
    let json = Body::Json(serde_json::Value::Object(object));
    assert_eq!(json.to_bytes().unwrap(), b"{\"a\":1}".to_vec());

    let form = Body::Form(vec![
        ("a b".to_string(), "c&d".to_string()),
        ("x".to_string(), "y".to_string()),
    ]);
    assert_eq!(form.to_bytes().unwrap(), b"a+b=c%26d&x=y".to_vec());
}

#[test]
fn test_response_body_accessors() {
    let text_response = Response {
        status: 200,
        status_text: "OK".to_string(),
        headers: Headers::new(),
        body: ResponseBody::Text("hi".to_string()),
        url: String::new(),
    };
    assert_eq!(text_response.text(), Some("hi"));
    assert!(text_response.json().is_none());
    assert_eq!(text_response.bytes(), Some(b"hi".as_slice()));

    let binary_response = Response {
        status: 200,
        status_text: "OK".to_string(),
        headers: Headers::new(),
        body: ResponseBody::Binary(vec![1u8, 2]),
        url: String::new(),
    };
    assert!(binary_response.text().is_none());
    assert_eq!(binary_response.bytes(), Some([1u8, 2].as_slice()));
}
