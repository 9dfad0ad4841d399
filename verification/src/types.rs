//! Request and response data: HTTP methods, request bodies with their
//! content types and byte encodings, negotiated response bodies, response
//! status classification, and per-request configuration.

use vstd::prelude::*;

use crate::codec::form_encoded;
use crate::codec::json_to_vec;
use crate::codec::urlencode_pairs;
use crate::error::Error;
use crate::headers::Headers;
use crate::text::lower_seq;
use crate::text::lower_str;
use crate::text::str_eq;

verus! {

/// The closed set of HTTP methods.
#[derive(Clone, Copy, PartialEq, Eq, Structural, Debug)]
pub enum Method {
    Get,
    Post,
    Put,
    Delete,
    Patch,
    Head,
    Options,
    Connect,
    Trace,
}

/// The method named by `s`, compared without regard to case; `None` for
/// unknown text.
pub open spec fn method_of(s: Seq<char>) -> Option<Method> {
    let l = lower_seq(s);
    if l == "get"@ {
        Some(Method::Get)
    } else if l == "post"@ {
        Some(Method::Post)
    } else if l == "put"@ {
        Some(Method::Put)
    } else if l == "delete"@ {
        Some(Method::Delete)
    } else if l == "patch"@ {
        Some(Method::Patch)
    } else if l == "head"@ {
        Some(Method::Head)
    } else if l == "options"@ {
        Some(Method::Options)
    } else if l == "connect"@ {
        Some(Method::Connect)
    } else if l == "trace"@ {
        Some(Method::Trace)
    } else {
        None
    }
}

impl Method {
    /// Parses a method name without regard to case; unknown text is
    /// `None`, not an error.
    pub fn from_str(s: &str) -> (r: Option<Method>)
        ensures
            r == method_of(s@),
    {
        let l = lower_str(s);
        if str_eq(l.as_str(), "get") {
            Some(Method::Get)
        } else if str_eq(l.as_str(), "post") {
            Some(Method::Post)
        } else if str_eq(l.as_str(), "put") {
            Some(Method::Put)
        } else if str_eq(l.as_str(), "delete") {
            Some(Method::Delete)
        } else if str_eq(l.as_str(), "patch") {
            Some(Method::Patch)
        } else if str_eq(l.as_str(), "head") {
            Some(Method::Head)
        } else if str_eq(l.as_str(), "options") {
            Some(Method::Options)
        } else if str_eq(l.as_str(), "connect") {
            Some(Method::Connect)
        } else if str_eq(l.as_str(), "trace") {
            Some(Method::Trace)
        } else {
            None
        }
    }

    /// The canonical upper-case name of the method.
    pub open spec fn name_spec(&self) -> Seq<char> {
        match self {
            Method::Get => "GET"@,
            Method::Post => "POST"@,
            Method::Put => "PUT"@,
            Method::Delete => "DELETE"@,
            Method::Patch => "PATCH"@,
            Method::Head => "HEAD"@,
            Method::Options => "OPTIONS"@,
            Method::Connect => "CONNECT"@,
            Method::Trace => "TRACE"@,
        }
    }

    /// The canonical upper-case name of the method.
    pub fn as_str(&self) -> (r: &'static str)
        ensures
            r@ == self.name_spec(),
    {
        match self {
            Method::Get => "GET",
            Method::Post => "POST",
            Method::Put => "PUT",
            Method::Delete => "DELETE",
            Method::Patch => "PATCH",
            Method::Head => "HEAD",
            Method::Options => "OPTIONS",
            Method::Connect => "CONNECT",
            Method::Trace => "TRACE",
        }
    }
}

impl Default for Method {
    /// GET.
    fn default() -> (r: Self)
        ensures
            r == Method::Get,
    {
        Method::Get
    }
}

/// How the caller wants a response body presented.
#[derive(Clone, Copy, PartialEq, Eq, Structural, Debug)]
pub enum ResponseFormat {
    /// Decide from the Content-Type header.
    Auto,
    /// Decode as JSON; a decode failure is an error.
    Json,
    /// Decode as text; a decode failure is an error.
    Text,
    /// Hand the raw bytes back.
    Binary,
}

/// A request body: each variant fixes a content type and an encoding to
/// bytes.
#[derive(Debug)]
pub enum Body {
    /// Plain text.
    Text(String),
    /// A JSON value, serialized on encode.
    Json(serde_json::Value),
    /// Raw bytes.
    Binary(Vec<u8>),
    /// Form fields, rendered as `application/x-www-form-urlencoded`.
    Form(Vec<(String, String)>),
}

impl Body {
    /// The content type each variant carries.
    pub open spec fn content_type_spec(&self) -> Seq<char> {
        match self {
            Body::Text(_) => "text/plain"@,
            Body::Json(_) => "application/json"@,
            Body::Binary(_) => "application/octet-stream"@,
            Body::Form(_) => "application/x-www-form-urlencoded"@,
        }
    }

    /// The Content-Type header value this body calls for.
    pub fn content_type(&self) -> (r: &'static str)
        ensures
            r@ == self.content_type_spec(),
    {
        match self {
            Body::Text(_) => "text/plain",
            Body::Json(_) => "application/json",
            Body::Binary(_) => "application/octet-stream",
            Body::Form(_) => "application/x-www-form-urlencoded",
        }
    }

    /// Encodes the body to bytes. Text and binary bodies cannot fail; a
    /// JSON or form body fails only when its serializer does, with a
    /// `Parse` error.
    pub fn to_bytes(&self) -> (r: Result<Vec<u8>, Error>)
        ensures
            self matches Body::Text(s) ==> r matches Ok(b) && b@ == vstd::utf8::encode_utf8(s@),
            self matches Body::Binary(bytes) ==> r matches Ok(b) && b@ == bytes@,
            self matches Body::Form(pairs) ==> (r matches Ok(b) ==> b@ == vstd::utf8::encode_utf8(
                form_encoded(pairs.deep_view()),
            )),
            self matches Body::Json(_) ==> (r matches Err(e) ==> e matches Error::Parse {
                message,
                cause,
            } && message@ == "Failed to serialize JSON"@ && cause is Some),
            self matches Body::Form(_) ==> (r matches Err(e) ==> e matches Error::Parse {
                message,
                cause,
            } && message@ == "Failed to encode form data"@ && cause is Some),
    {
        match self {
            Body::Text(s) => Ok(s.as_str().as_bytes_vec()),
            Body::Json(v) => match json_to_vec(v) {
                Ok(b) => Ok(b),
                Err(e) => Err(
                    Error::Parse {
                        message: String::from_str("Failed to serialize JSON"),
                        cause: Some(e),
                    },
                ),
            },
            Body::Binary(b) => {
                let mut out: Vec<u8> = Vec::new();
                let n = b.len();
                let mut i: usize = 0;
                while i < n
                    invariant
                        i <= n,
                        n == b@.len(),
                        out@ == b@.take(i as int),
                    decreases n - i,
                {
                    out.push(b[i]);
                    proof {
                        assert(out@ =~= b@.take(i + 1));
                    }
                    i = i + 1;
                }
                proof {
                    assert(out@ =~= b@);
                }
                Ok(out)
            },
            Body::Form(pairs) => match urlencode_pairs(pairs) {
                Ok(s) => Ok(s.as_str().as_bytes_vec()),
                Err(e) => Err(
                    Error::Parse {
                        message: String::from_str("Failed to encode form data"),
                        cause: Some(e),
                    },
                ),
            },
        }
    }
}

/// A negotiated response body: exactly one variant per response.
#[derive(Debug)]
pub enum ResponseBody {
    /// Decoded text.
    Text(String),
    /// A decoded JSON value.
    Json(serde_json::Value),
    /// Raw bytes.
    Binary(Vec<u8>),
    /// No body.
    Empty,
}

/// Whether `status` is a success (200 through 299).
pub open spec fn is_success_code(status: u16) -> bool {
    200 <= status < 300
}

/// Whether `status` is a redirect (300 through 399).
pub open spec fn is_redirect_code(status: u16) -> bool {
    300 <= status < 400
}

/// Whether `status` is a client error (400 through 499).
pub open spec fn is_client_error_code(status: u16) -> bool {
    400 <= status < 500
}

/// Whether `status` is a server error (500 through 599).
pub open spec fn is_server_error_code(status: u16) -> bool {
    500 <= status < 600
}

/// The four status classes never overlap, and every status from 200
/// through 599 falls in exactly one of them. (Informational statuses, 100
/// through 199, fall in none.)
pub proof fn lemma_status_classes_partition(status: u16)
    ensures
        ({
            let classes = (if is_success_code(status) {
                1int
            } else {
                0int
            }) + (if is_redirect_code(status) {
                1int
            } else {
                0int
            }) + (if is_client_error_code(status) {
                1int
            } else {
                0int
            }) + (if is_server_error_code(status) {
                1int
            } else {
                0int
            });
            classes == if 200 <= status < 600 {
                1int
            } else {
                0int
            }
        }),
{
}

/// One HTTP response: the status line, the headers, and the negotiated
/// body.
#[derive(Debug)]
pub struct Response {
    /// HTTP status code.
    pub status: u16,
    /// Status text accompanying the code.
    pub status_text: String,
    /// Response headers.
    pub headers: Headers,
    /// Negotiated response body.
    pub body: ResponseBody,
    /// The URL that produced this response.
    pub url: String,
}

impl Response {
    /// The body text, when the body was negotiated as text.
    pub fn text(&self) -> (r: Option<&str>)
        ensures
            match self.body {
                ResponseBody::Text(s) => r matches Some(t) && t@ == s@,
                _ => r is None,
            },
    {
        match &self.body {
            ResponseBody::Text(s) => Some(s.as_str()),
            _ => None,
        }
    }

    /// The body value, when the body was negotiated as JSON.
    pub fn json(&self) -> (r: Option<&serde_json::Value>)
        ensures
            r is Some <==> self.body is Json,
    {
        match &self.body {
            ResponseBody::Json(v) => Some(v),
            _ => None,
        }
    }

    /// The body bytes: the raw bytes of a binary body, the encoded bytes
    /// of a text body, nothing otherwise.
    pub fn bytes(&self) -> (r: Option<&[u8]>)
        ensures
            match self.body {
                ResponseBody::Binary(b) => r matches Some(bytes) && bytes@ == b@,
                ResponseBody::Text(s) => r matches Some(bytes) && bytes@
                    == vstd::utf8::encode_utf8(s@),
                _ => r is None,
            },
    {
        match &self.body {
            ResponseBody::Binary(b) => Some(b.as_slice()),
            ResponseBody::Text(s) => Some(s.as_str().as_bytes()),
            _ => None,
        }
    }

    /// Whether the status is a success (200 through 299).
    pub fn is_success(&self) -> (r: bool)
        ensures
            r == is_success_code(self.status),
    {
        200 <= self.status && self.status < 300
    }

    /// Whether the status is a redirect (300 through 399).
    pub fn is_redirect(&self) -> (r: bool)
        ensures
            r == is_redirect_code(self.status),
    {
        300 <= self.status && self.status < 400
    }

    /// Whether the status is a client error (400 through 499).
    pub fn is_client_error(&self) -> (r: bool)
        ensures
            r == is_client_error_code(self.status),
    {
        400 <= self.status && self.status < 500
    }

    /// Whether the status is a server error (500 through 599).
    pub fn is_server_error(&self) -> (r: bool)
        ensures
            r == is_server_error_code(self.status),
    {
        500 <= self.status && self.status < 600
    }
}

/// Everything one request carries besides its URL.
#[derive(Debug)]
pub struct RequestConfig {
    /// HTTP method.
    pub method: Method,
    /// Request headers.
    pub headers: Headers,
    /// Request body, if any.
    pub body: Option<Body>,
    /// Per-request timeout in milliseconds, overriding the client default.
    pub timeout_ms: Option<u64>,
    /// Whether the transport should follow redirects.
    pub follow_redirects: bool,
    /// How many redirects the transport may follow.
    pub max_redirects: u32,
    /// How the response body should be presented.
    pub response_format: ResponseFormat,
}

impl Default for RequestConfig {
    /// A GET with no headers, no body, a 30 s timeout, redirects followed
    /// up to 10 times, and automatic response-format negotiation.
    fn default() -> (r: Self)
        ensures
            r.method == Method::Get,
            r.headers@ == Seq::<(String, Vec<String>)>::empty(),
            r.headers.wf(),
            r.body is None,
            r.timeout_ms == Some(30000u64),
            r.follow_redirects,
            r.max_redirects == 10,
            r.response_format == ResponseFormat::Auto,
    {
        RequestConfig {
            method: Method::Get,
            headers: Headers::new(),
            body: None,
            timeout_ms: Some(30000),
            follow_redirects: true,
            max_redirects: 10,
            response_format: ResponseFormat::Auto,
        }
    }
}

} // verus!
