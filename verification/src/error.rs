//! The error taxonomy: a closed set of error kinds carrying structured
//! context, a retryability predicate, and the classification of
//! transport-level failures.

use vstd::prelude::*;

use crate::text::dec_seq;
use crate::text::u64_to_string;

verus! {

/// The closed error taxonomy.
///
/// `Network` and `Parse` carry an optional rendered cause; `Http` carries the
/// status line and, when the response body was negotiated as text, that text.
#[derive(Debug)]
pub enum Error {
    /// Connection-level failures.
    Network { message: String, cause: Option<String> },
    /// A response with a non-success HTTP status.
    Http { status: u16, status_text: String, body: Option<String> },
    /// Decoding failures: JSON, UTF-8, form encoding.
    Parse { message: String, cause: Option<String> },
    /// An attempt that exceeded its time budget.
    Timeout { duration_ms: u64 },
    /// A caller-supplied parameter that was rejected before any attempt.
    InvalidInput { parameter: String, reason: String },
    /// Failures crossing the foreign-runtime boundary.
    JsInterop { message: String },
    /// The surrounding runtime cancelled the request.
    Cancelled,
}

/// Whether an HTTP status code is worth retrying: every server error
/// (500 through 599), request timeout (408) and too-many-requests (429).
pub open spec fn retryable_status(status: u16) -> bool {
    500 <= status <= 599 || status == 408 || status == 429
}

impl Error {
    /// The retryability predicate of the taxonomy: network failures and
    /// timeouts always, HTTP errors for a retryable status, nothing else.
    pub open spec fn is_retryable_spec(&self) -> bool {
        match self {
            Error::Network { .. } => true,
            Error::Timeout { .. } => true,
            Error::Http { status, .. } => retryable_status(*status),
            _ => false,
        }
    }

    /// Whether reissuing the failed request is considered safe and
    /// potentially successful. True for `Network` and `Timeout` always, and
    /// for `Http { status, .. }` exactly when `status` lies in 500..=599 or
    /// is 408 or 429; false for every other kind.
    pub fn is_retryable(&self) -> (r: bool)
        ensures
            r == self.is_retryable_spec(),
    {
        match self {
            Error::Network { .. } => true,
            Error::Timeout { .. } => true,
            Error::Http { status, .. } => {
                let s = *status;
                (500 <= s && s <= 599) || s == 408 || s == 429
            },
            _ => false,
        }
    }

    /// The tag string of each kind.
    pub open spec fn kind_spec(&self) -> Seq<char> {
        match self {
            Error::Network { .. } => "NetworkError"@,
            Error::Http { .. } => "HttpError"@,
            Error::Parse { .. } => "ParseError"@,
            Error::Timeout { .. } => "TimeoutError"@,
            Error::InvalidInput { .. } => "InvalidInputError"@,
            Error::JsInterop { .. } => "JsInteropError"@,
            Error::Cancelled => "CancelledError"@,
        }
    }

    /// The error kind as a tag string, for the foreign-runtime boundary.
    pub fn kind(&self) -> (r: &'static str)
        ensures
            r@ == self.kind_spec(),
    {
        match self {
            Error::Network { .. } => "NetworkError",
            Error::Http { .. } => "HttpError",
            Error::Parse { .. } => "ParseError",
            Error::Timeout { .. } => "TimeoutError",
            Error::InvalidInput { .. } => "InvalidInputError",
            Error::JsInterop { .. } => "JsInteropError",
            Error::Cancelled => "CancelledError",
        }
    }

    /// Creates a network error.
    pub fn network(message: String, cause: Option<String>) -> (r: Error)
        ensures
            r == (Error::Network { message, cause }),
    {
        Error::Network { message, cause }
    }

    /// Creates a parse error.
    pub fn parse(message: String, cause: Option<String>) -> (r: Error)
        ensures
            r == (Error::Parse { message, cause }),
    {
        Error::Parse { message, cause }
    }

    /// The rendering of the optional cause appended to `Network` and `Parse`
    /// messages.
    pub open spec fn cause_suffix_spec(cause: Option<String>) -> Seq<char> {
        match cause {
            Some(c) => " (caused by: "@ + c@ + ")"@,
            None => Seq::<char>::empty(),
        }
    }

    /// The user-facing diagnostic line of each kind.
    pub open spec fn message_spec(&self) -> Seq<char> {
        match self {
            Error::Network { message, cause } => "Network error: "@ + message@
                + Self::cause_suffix_spec(*cause),
            Error::Http { status, status_text, body } => {
                let head = "HTTP error "@ + dec_seq(*status as nat) + ": "@ + status_text@;
                match body {
                    Some(b) => head + " - "@ + b@,
                    None => head,
                }
            },
            Error::Parse { message, cause } => "Parse error: "@ + message@
                + Self::cause_suffix_spec(*cause),
            Error::Timeout { duration_ms } => "Request timeout after "@ + dec_seq(
                *duration_ms as nat,
            ) + "ms"@,
            Error::InvalidInput { parameter, reason } => "Invalid input for '"@ + parameter@
                + "': "@ + reason@,
            Error::JsInterop { message } => "JavaScript interop error: "@ + message@,
            Error::Cancelled => "Request was cancelled"@,
        }
    }

    /// Renders the user-facing diagnostic line.
    pub fn message(&self) -> (r: String)
        ensures
            r@ == self.message_spec(),
    {
        match self {
            Error::Network { message, cause } => {
                let mut r = String::from_str("Network error: ");
                r.append(message.as_str());
                append_cause(&mut r, cause);
                r
            },
            Error::Http { status, status_text, body } => {
                let mut r = String::from_str("HTTP error ");
                let status_digits = u64_to_string(*status as u64);
                r.append(status_digits.as_str());
                r.append(": ");
                r.append(status_text.as_str());
                match body {
                    Some(b) => {
                        r.append(" - ");
                        r.append(b.as_str());
                    },
                    None => {},
                }
                r
            },
            Error::Parse { message, cause } => {
                let mut r = String::from_str("Parse error: ");
                r.append(message.as_str());
                append_cause(&mut r, cause);
                r
            },
            Error::Timeout { duration_ms } => {
                let mut r = String::from_str("Request timeout after ");
                let digits = u64_to_string(*duration_ms);
                r.append(digits.as_str());
                r.append("ms");
                r
            },
            Error::InvalidInput { parameter, reason } => {
                let mut r = String::from_str("Invalid input for '");
                r.append(parameter.as_str());
                r.append("': ");
                r.append(reason.as_str());
                r
            },
            Error::JsInterop { message } => {
                let mut r = String::from_str("JavaScript interop error: ");
                r.append(message.as_str());
                r
            },
            Error::Cancelled => String::from_str("Request was cancelled"),
        }
    }
}

fn append_cause(r: &mut String, cause: &Option<String>)
    ensures
        final(r)@ == old(r)@ + Error::cause_suffix_spec(*cause),
{
    match cause {
        Some(c) => {
            r.append(" (caused by: ");
            r.append(c.as_str());
            r.append(")");
        },
        None => {},
    }
}

/// Classifies a transport-level failure into the taxonomy, in this
/// precedence: a timeout signal, then a decode failure, then a failure that
/// carries an HTTP status, then anything else as a network failure.
pub fn classify_transport_error(
    is_timeout: bool,
    is_decode: bool,
    status: Option<u16>,
    status_text: String,
    timeout_ms: u64,
    detail: Option<String>,
) -> (r: Error)
    ensures
        is_timeout ==> r == (Error::Timeout { duration_ms: timeout_ms }),
        !is_timeout && is_decode ==> (r matches Error::Parse { message, cause } && message@
            == "Failed to decode response"@ && cause == detail),
        !is_timeout && !is_decode ==> (status matches Some(s) ==> r == (Error::Http {
            status: s,
            status_text,
            body: None::<String>,
        })),
        !is_timeout && !is_decode && status is None ==> (r matches Error::Network {
            message,
            cause,
        } && message@ == "Request failed"@ && cause == detail),
{
    if is_timeout {
        Error::Timeout { duration_ms: timeout_ms }
    } else if is_decode {
        Error::Parse { message: String::from_str("Failed to decode response"), cause: detail }
    } else {
        match status {
            Some(s) => Error::Http { status: s, status_text, body: None },
            None => Error::Network {
                message: String::from_str("Request failed"),
                cause: detail,
            },
        }
    }
}

} // verus!
