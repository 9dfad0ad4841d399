use rust_fetch::error::classify_transport_error;
use rust_fetch::error::Error;

#[test]
fn test_error_display() {
    let error = Error::Network {
        message: "Connection refused".to_string(),
        cause: None,
    };
    assert_eq!(error.message(), "Network error: Connection refused");
}

#[test]
fn test_error_kind() {
    let error = Error::Timeout { duration_ms: 5000 };
    assert_eq!(error.kind(), "TimeoutError");
}

#[test]
fn test_is_retryable() {
    assert!(Error::Network {
        message: "".to_string(),
        cause: None
    }
    .is_retryable());
    assert!(Error::Http {
        status: 503,
        status_text: "".to_string(),
        body: None
    }
    .is_retryable());
    assert!(!Error::Http {
        status: 400,
        status_text: "".to_string(),
        body: None
    }
    .is_retryable());
}

#[test]
fn test_error_types() {
    let network_error = Error::Network {
        message: "Connection failed".to_string(),
        cause: None,
    };
    assert_eq!(network_error.kind(), "NetworkError");
    assert!(network_error.is_retryable());

    let http_error_503 = Error::Http {
        status: 503,
        status_text: "Service Unavailable".to_string(),
        body: None,
    };
    assert_eq!(http_error_503.kind(), "HttpError");
    assert!(http_error_503.is_retryable());

    let http_error_400 = Error::Http {
        status: 400,
        status_text: "Bad Request".to_string(),
        body: Some("Invalid parameters".to_string()),
    };
    assert!(!http_error_400.is_retryable());

    let timeout_error = Error::Timeout { duration_ms: 5000 };
    assert_eq!(timeout_error.kind(), "TimeoutError");
    assert!(timeout_error.is_retryable());

    let parse_error = Error::Parse {
        message: "Invalid JSON".to_string(),
        cause: None,
    };
    assert_eq!(parse_error.kind(), "ParseError");
    assert!(!parse_error.is_retryable());
}

#[test]
fn test_retryable_status_bounds() {
    for status in [500u16, 503, 599, 408, 429] {
        let error = Error::Http {
            status,
            status_text: String::new(),
            body: None,
        };
        assert!(error.is_retryable(), "status {}", status);
    }
    for status in [100u16, 200, 301, 400, 404, 499, 600] {
        let error = Error::Http {
            status,
            status_text: String::new(),
            body: None,
        };
        assert!(!error.is_retryable(), "status {}", status);
    }
}

#[test]
fn test_non_retryable_kinds() {
    assert!(!Error::Parse {
        message: String::new(),
        cause: None
    }
    .is_retryable());
    assert!(!Error::InvalidInput {
        parameter: "x".to_string(),
        reason: "bad".to_string()
    }
    .is_retryable());
    assert!(!Error::JsInterop {
        message: String::new()
    }
    .is_retryable());
    assert!(!Error::Cancelled.is_retryable());
}

#[test]
fn test_error_messages() {
    let http = Error::Http {
        status: 404,
        status_text: "Not Found".to_string(),
        body: Some("missing".to_string()),
    };
    assert_eq!(http.message(), "HTTP error 404: Not Found - missing");

    let timeout = Error::Timeout { duration_ms: 5000 };
    assert_eq!(timeout.message(), "Request timeout after 5000ms");

    let invalid = Error::InvalidInput {
        parameter: "method".to_string(),
        reason: "unknown".to_string(),
    };
    assert_eq!(invalid.message(), "Invalid input for 'method': unknown");

    let network = Error::Network {
        message: "down".to_string(),
        cause: Some("socket closed".to_string()),
    };
    assert_eq!(
        network.message(),
        "Network error: down (caused by: socket closed)"
    );

    let parse = Error::Parse {
        message: "bad json".to_string(),
        cause: None,
    };
    assert_eq!(parse.message(), "Parse error: bad json");

    assert_eq!(Error::Cancelled.message(), "Request was cancelled");
    assert_eq!(Error::Cancelled.kind(), "CancelledError");
    assert_eq!(
        Error::JsInterop {
            message: "oops".to_string()
        }
        .message(),
        "JavaScript interop error: oops"
    );
    assert_eq!(
        Error::InvalidInput {
            parameter: "p".to_string(),
            reason: "r".to_string()
        }
        .kind(),
        "InvalidInputError"
    );
}

#[test]
fn test_error_constructors() {
    let network = Error::network("down".to_string(), Some("io".to_string()));
    assert_eq!(network.kind(), "NetworkError");
    assert_eq!(network.message(), "Network error: down (caused by: io)");

    let parse = Error::parse("bad".to_string(), None);
    assert_eq!(parse.kind(), "ParseError");
    assert_eq!(parse.message(), "Parse error: bad");
}

#[test]
fn test_classify_transport_error() {
    let timeout = classify_transport_error(true, false, None, String::new(), 30000, None);
    assert!(matches!(timeout, Error::Timeout { duration_ms: 30000 }));

    let decode = classify_transport_error(
        false,
        true,
        None,
        String::new(),
        30000,
        Some("bad body".to_string()),
    );
    assert!(matches!(decode, Error::Parse { .. }));
    assert_eq!(
        decode.message(),
        "Parse error: Failed to decode response (caused by: bad body)"
    );

    let http = classify_transport_error(
        false,
        false,
        Some(502),
        "Bad Gateway".to_string(),
        30000,
        None,
    );
    assert!(matches!(http, Error::Http { status: 502, .. }));

    let network = classify_transport_error(
        false,
        false,
        None,
        String::new(),
        30000,
        Some("refused".to_string()),
    );
    assert!(matches!(network, Error::Network { .. }));
    assert_eq!(
        network.message(),
        "Network error: Request failed (caused by: refused)"
    );
}
