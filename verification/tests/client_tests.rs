use rust_fetch::client::prepare_attempt;
use rust_fetch::client::resolve_url;
use rust_fetch::client::Client;
use rust_fetch::client::ClientBuilder;
use rust_fetch::headers::Headers;
use rust_fetch::retry::RetryConfig;
use rust_fetch::types::Method;
use rust_fetch::types::ResponseFormat;

#[test]
fn test_client_builder() {
    let client = Client::builder()
        .timeout(10_000)
        .base_url("https://api.example.com")
        .default_header("User-Agent", "test-client")
        .build();

    assert!(client.is_ok());
}

#[test]
fn test_client_builder_with_all_options() {
    let mut headers = Headers::new();
    headers.insert("X-API-Key", "test-key");
    headers.insert("User-Agent", "test-agent");

    let retry_config = RetryConfig {
        max_retries: 5,
        initial_delay_ms: 50,
        max_delay_ms: 5_000,
        multiplier_hundredths: 150,
        ..Default::default()
    };

    let client = ClientBuilder::new()
        .base_url("https://api.example.com/v1")
        .timeout(60_000)
        .default_headers(headers)
        .retry_config(retry_config)
        .build();

    assert!(client.is_ok());
}

#[test]
fn test_client_with_base_url() {
    let client = Client::builder()
        .base_url("https://api.example.com/v1/")
        .build()
        .unwrap();

    let request = client.request(Method::Get, "/users");
    assert_eq!(request.url, "https://api.example.com/v1/users");
}

#[test]
fn test_request_builder_methods() {
    let client = Client::new().unwrap();

    let _get = client.get_builder("https://example.com");
    let _post = client.post("https://example.com");
    let _put = client.put("https://example.com");
    let _delete = client.delete("https://example.com");
    let _patch = client.patch("https://example.com");
}

#[test]
fn test_request_builder_headers() {
    let client = Client::new().unwrap();
    let mut headers = Headers::new();
    headers.insert("Authorization", "Bearer token");
    headers.insert("Content-Type", "application/json");

    let request = client
        .post("https://example.com")
        .header("X-Custom", "value")
        .headers(headers);

    assert_eq!(request.config.headers.get_first("x-custom"), Some("value"));
    assert_eq!(
        request.config.headers.get_first("authorization"),
        Some("Bearer token")
    );
}

#[test]
fn test_request_builder_body_types() {
    let client = Client::new().unwrap();

    let _text_request = client.post("https://example.com").text("Hello, World!");

    let mut object = serde_json::Map::new();
    object.insert(
        "name".to_string(),
        serde_json::Value::String("test".to_string()),
    );
    object.insert("value".to_string(), serde_json::Value::from(42));
    let json_data = serde_json::Value::Object(object);
    let _json_request = client.post("https://example.com").json(json_data);

    let _binary_request = client
        .post("https://example.com")
        .bytes(vec![0u8, 1, 2, 3, 4]);

    let form_data = vec![
        ("field1".to_string(), "value1".to_string()),
        ("field2".to_string(), "value2".to_string()),
    ];
    let _form_request = client.post("https://example.com").form(form_data);
}

#[test]
fn client_tests_test_headers_operations() {
    let mut headers = Headers::new();

    headers.insert("Content-Type", "application/json");
    headers.insert("Accept", "application/json");
    headers.insert("Accept", "text/plain");

    assert_eq!(headers.get_first("content-type"), Some("application/json"));
    assert_eq!(headers.get("accept").map(|v| v.len()), Some(2));

    headers.set("Accept", "application/xml");
    assert_eq!(headers.get("accept").map(|v| v.len()), Some(1));
    assert_eq!(headers.get_first("accept"), Some("application/xml"));

    assert!(headers.contains("content-type"));
    assert!(!headers.contains("authorization"));

    let removed = headers.remove("content-type");
    assert!(removed.is_some());
    assert!(!headers.contains("content-type"));
}

#[test]
fn test_resolve_url() {
    assert_eq!(
        resolve_url(
            &Some("https://api.example.com/v1/".to_string()),
            "/users"
        ),
        "https://api.example.com/v1/users"
    );
    assert_eq!(
        resolve_url(&Some("https://api.example.com///".to_string()), "/x"),
        "https://api.example.com/x"
    );
    assert_eq!(
        resolve_url(&None, "https://example.com/y"),
        "https://example.com/y"
    );
}

#[test]
fn test_request_uses_client_defaults() {
    let client = Client::builder()
        .timeout(7_000)
        .default_header("User-Agent", "agent")
        .build()
        .unwrap();
    let request = client.request(Method::Post, "https://example.com");
    assert_eq!(request.config.method, Method::Post);
    assert_eq!(request.config.timeout_ms, Some(7_000));
    assert_eq!(request.config.headers.get_first("user-agent"), Some("agent"));
    assert!(request.config.follow_redirects);
    assert_eq!(request.config.max_redirects, 10);
    assert_eq!(request.config.response_format, ResponseFormat::Auto);
}

#[test]
fn test_request_builder_overrides() {
    let client = Client::new().unwrap();
    let request = client
        .post("https://example.com")
        .timeout(1_000)
        .response_format(ResponseFormat::Text);
    assert_eq!(request.config.timeout_ms, Some(1_000));
    assert_eq!(request.config.response_format, ResponseFormat::Text);
}

#[test]
fn test_prepare_attempt_injects_content_type() {
    let client = Client::new().unwrap();
    let request = client.post("https://example.com").text("hello");
    let prepared = prepare_attempt(&request.url, &request.config).unwrap();
    assert_eq!(prepared.method, Method::Post);
    assert_eq!(prepared.url, "https://example.com");
    assert_eq!(prepared.headers.get_first("content-type"), Some("text/plain"));
    assert_eq!(prepared.body_bytes, Some(b"hello".to_vec()));
    assert_eq!(prepared.timeout_ms, Some(30_000));
}

#[test]
fn test_prepare_attempt_keeps_existing_content_type() {
    let client = Client::new().unwrap();
    let request = client
        .post("https://example.com")
        .header("Content-Type", "text/markdown")
        .text("# hi");
    let prepared = prepare_attempt(&request.url, &request.config).unwrap();
    assert_eq!(
        prepared.headers.get_first("content-type"),
        Some("text/markdown")
    );
}

#[test]
fn test_prepare_attempt_without_body() {
    let client = Client::new().unwrap();
    let request = client.get_builder("https://example.com");
    let prepared = prepare_attempt(&request.url, &request.config).unwrap();
    assert!(prepared.body_bytes.is_none());
    assert!(!prepared.headers.contains("content-type"));
}

#[test]
fn test_client_clone_shares_configuration() {
    let client = Client::builder()
        .base_url("https://api.example.com")
        .build()
        .unwrap();
    let clone = client.clone();
    let request = clone.request(Method::Get, "/z");
    assert_eq!(request.url, "https://api.example.com/z");
}
