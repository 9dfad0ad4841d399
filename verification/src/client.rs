//! The client surface: shared client configuration, the client and request
//! builders, effective-URL resolution and per-attempt request preparation.
//!
//! A built client's configuration is immutable and shared read-only through
//! a reference count; cloning a client handle is cheap and every clone
//! observes the same configuration. The transport that performs attempts
//! and the timer that sleeps between retries live outside this crate: they
//! consume the `PreparedRequest` this module builds and feed what comes
//! back to `negotiate::process_response` and `retry::should_retry`.

use std::sync::Arc;

use vstd::prelude::*;
use vstd::utf8::encode_utf8;

use crate::codec::form_encoded;
use crate::error::Error;
use crate::headers::lookup;
use crate::headers::Headers;
use crate::retry::RetryConfig;
use crate::text::lower_seq;
use crate::text::trim_slashes;
use crate::text::trim_trailing_slashes;
use crate::types::Body;
use crate::types::Method;
use crate::types::RequestConfig;
use crate::types::ResponseFormat;

verus! {

/// The effective URL of a request: with a base URL, the base with its
/// trailing slashes trimmed followed by the request path as given; without
/// one, the request URL verbatim.
pub open spec fn resolved_url(base: Option<Seq<char>>, url: Seq<char>) -> Seq<char> {
    match base {
        Some(b) => trim_slashes(b) + url,
        None => url,
    }
}

/// Composes the effective URL from an optional base URL and the request
/// path.
pub fn resolve_url(base: &Option<String>, url: &str) -> (r: String)
    ensures
        r@ == resolved_url(
            match base {
                Some(b) => Some(b@),
                None => None,
            },
            url@,
        ),
{
    match base {
        Some(b) => {
            let trimmed = trim_trailing_slashes(b.as_str());
            let mut out = trimmed.to_owned();
            out.append(url);
            out
        },
        None => url.to_owned(),
    }
}

/// Client-wide configuration, shared read-only by every request.
#[derive(Debug)]
pub struct ClientConfig {
    /// Headers every request starts from.
    pub default_headers: Headers,
    /// Default per-attempt timeout in milliseconds.
    pub timeout_ms: u64,
    /// Retry policy; `None` disables retries.
    pub retry_config: Option<RetryConfig>,
    /// Base URL prepended to request paths.
    pub base_url: Option<String>,
}

impl ClientConfig {
    /// The default headers are well formed.
    pub open spec fn wf(&self) -> bool {
        self.default_headers.wf()
    }
}

/// A client handle: a reference-counted view of one immutable
/// configuration.
#[derive(Debug)]
pub struct Client {
    /// The shared configuration.
    pub config: Arc<ClientConfig>,
}

impl Client {
    /// The shared configuration is well formed.
    pub open spec fn wf(&self) -> bool {
        (*self.config).wf()
    }

    /// Starts building a client.
    pub fn builder() -> (r: ClientBuilder)
        ensures
            r.headers@ == Seq::<(String, Vec<String>)>::empty(),
            r.headers.wf(),
            r.timeout_ms == 30000,
            r.retry_config is None,
            r.base_url is None,
    {
        ClientBuilder::new()
    }

    /// A client with the default configuration.
    pub fn new() -> (r: Result<Client, Error>)
        ensures
            r matches Ok(c) && c.wf(),
            r matches Ok(c) ==> {
                &&& (*c.config).default_headers@ == Seq::<(String, Vec<String>)>::empty()
                &&& (*c.config).timeout_ms == 30000
                &&& (*c.config).retry_config is None
                &&& (*c.config).base_url is None
            },
    {
        Self::builder().build()
    }

    /// Starts a GET request.
    pub fn get_builder(&self, url: &str) -> (r: RequestBuilder)
        requires
            self.wf(),
        ensures
            request_built(self, Method::Get, url@, &r),
    {
        self.request(Method::Get, url)
    }

    /// Starts a POST request.
    pub fn post(&self, url: &str) -> (r: RequestBuilder)
        requires
            self.wf(),
        ensures
            request_built(self, Method::Post, url@, &r),
    {
        self.request(Method::Post, url)
    }

    /// Starts a PUT request.
    pub fn put(&self, url: &str) -> (r: RequestBuilder)
        requires
            self.wf(),
        ensures
            request_built(self, Method::Put, url@, &r),
    {
        self.request(Method::Put, url)
    }

    /// Starts a DELETE request.
    pub fn delete(&self, url: &str) -> (r: RequestBuilder)
        requires
            self.wf(),
        ensures
            request_built(self, Method::Delete, url@, &r),
    {
        self.request(Method::Delete, url)
    }

    /// Starts a PATCH request.
    pub fn patch(&self, url: &str) -> (r: RequestBuilder)
        requires
            self.wf(),
        ensures
            request_built(self, Method::Patch, url@, &r),
    {
        self.request(Method::Patch, url)
    }

    /// Starts a request: resolves the effective URL against the base URL
    /// and seeds the request configuration from the client defaults.
    pub fn request(&self, method: Method, url: &str) -> (r: RequestBuilder)
        requires
            self.wf(),
        ensures
            request_built(self, method, url@, &r),
    {
        let url = resolve_url(&self.config.base_url, url);
        let headers = self.config.default_headers.clone();
        RequestBuilder {
            client: Client { config: self.config.clone() },
            config: RequestConfig {
                method,
                headers,
                body: None,
                timeout_ms: Some(self.config.timeout_ms),
                follow_redirects: true,
                max_redirects: 10,
                response_format: ResponseFormat::Auto,
            },
            url,
        }
    }
}

impl Clone for Client {
    /// Another handle to the same configuration.
    fn clone(&self) -> (r: Self)
        ensures
            r.config == self.config,
    {
        Client { config: self.config.clone() }
    }
}

/// What `Client::request` hands back: the resolved URL and a request
/// configuration seeded from the client defaults.
pub open spec fn request_built(
    client: &Client,
    method: Method,
    url: Seq<char>,
    r: &RequestBuilder,
) -> bool {
    &&& r.client.config == client.config
    &&& r.url@ == resolved_url(
        match (*client.config).base_url {
            Some(b) => Some(b@),
            None => None,
        },
        url,
    )
    &&& r.config.method == method
    &&& r.config.headers.wf()
    &&& (forall|k: Seq<char>|
        lookup(r.config.headers@, k) == lookup((*client.config).default_headers@, k))
    &&& r.config.body is None
    &&& r.config.timeout_ms == Some((*client.config).timeout_ms)
    &&& r.config.follow_redirects
    &&& r.config.max_redirects == 10
    &&& r.config.response_format == ResponseFormat::Auto
}

/// Builds a client configuration: default headers, default timeout, retry
/// policy and base URL.
#[derive(Debug)]
pub struct ClientBuilder {
    /// Headers every request will start from.
    pub headers: Headers,
    /// Default per-attempt timeout in milliseconds.
    pub timeout_ms: u64,
    /// Retry policy; `None` disables retries.
    pub retry_config: Option<RetryConfig>,
    /// Base URL prepended to request paths.
    pub base_url: Option<String>,
}

impl ClientBuilder {
    /// An empty builder: no default headers, a 30 s timeout, no retries,
    /// no base URL.
    pub fn new() -> (r: ClientBuilder)
        ensures
            r.headers@ == Seq::<(String, Vec<String>)>::empty(),
            r.headers.wf(),
            r.timeout_ms == 30000,
            r.retry_config is None,
            r.base_url is None,
    {
        ClientBuilder {
            headers: Headers::new(),
            timeout_ms: 30000,
            retry_config: None,
            base_url: None,
        }
    }

    /// Appends one default header.
    pub fn default_header(self, name: &str, value: &str) -> (r: Self)
        requires
            self.headers.wf(),
        ensures
            r.headers.wf(),
            r.headers.values_of(name@) == Some(
                crate::headers::appended_values(self.headers.values_of(name@), value@),
            ),
            forall|k: Seq<char>| k != lower_seq(name@) ==> lookup(r.headers@, k) == lookup(
                self.headers@,
                k,
            ),
            r.timeout_ms == self.timeout_ms,
            r.retry_config == self.retry_config,
            r.base_url == self.base_url,
    {
        let mut s = self;
        s.headers.insert(name, value);
        s
    }

    /// Replaces the default headers.
    pub fn default_headers(self, headers: Headers) -> (r: Self)
        ensures
            r.headers == headers,
            r.timeout_ms == self.timeout_ms,
            r.retry_config == self.retry_config,
            r.base_url == self.base_url,
    {
        let mut s = self;
        s.headers = headers;
        s
    }

    /// Sets the default timeout in milliseconds.
    pub fn timeout(self, timeout_ms: u64) -> (r: Self)
        ensures
            r.timeout_ms == timeout_ms,
            r.headers == self.headers,
            r.retry_config == self.retry_config,
            r.base_url == self.base_url,
    {
        let mut s = self;
        s.timeout_ms = timeout_ms;
        s
    }

    /// Enables retries with the default policy.
    pub fn with_retries(self) -> (r: Self)
        ensures
            r.retry_config matches Some(c) && c.max_retries == 3 && c.initial_delay_ms == 100
                && c.max_delay_ms == 10000 && c.multiplier_hundredths == 200 && c.retry_on_timeout
                && c.retry_on_network_error && c.retry_on_status@ == seq![
                408u16,
                429u16,
                500u16,
                502u16,
                503u16,
                504u16,
            ],
            r.headers == self.headers,
            r.timeout_ms == self.timeout_ms,
            r.base_url == self.base_url,
    {
        let mut s = self;
        s.retry_config = Some(RetryConfig::default());
        s
    }

    /// Sets the retry policy.
    pub fn retry_config(self, config: RetryConfig) -> (r: Self)
        ensures
            r.retry_config == Some(config),
            r.headers == self.headers,
            r.timeout_ms == self.timeout_ms,
            r.base_url == self.base_url,
    {
        let mut s = self;
        s.retry_config = Some(config);
        s
    }

    /// Sets the base URL prepended to every request path.
    pub fn base_url(self, url: &str) -> (r: Self)
        ensures
            r.base_url matches Some(u) && u@ == url@,
            r.headers == self.headers,
            r.timeout_ms == self.timeout_ms,
            r.retry_config == self.retry_config,
    {
        let mut s = self;
        s.base_url = Some(url.to_owned());
        s
    }

    /// Builds the client. Construction itself cannot fail; the `Result`
    /// mirrors the fallible transport setup that accompanies a client.
    pub fn build(self) -> (r: Result<Client, Error>)
        requires
            self.headers.wf(),
        ensures
            r matches Ok(c) && c.wf(),
            r matches Ok(c) ==> {
                &&& (*c.config).default_headers == self.headers
                &&& (*c.config).timeout_ms == self.timeout_ms
                &&& (*c.config).retry_config == self.retry_config
                &&& (*c.config).base_url == self.base_url
            },
    {
        Ok(
            Client {
                config: Arc::new(
                    ClientConfig {
                        default_headers: self.headers,
                        timeout_ms: self.timeout_ms,
                        retry_config: self.retry_config,
                        base_url: self.base_url,
                    },
                ),
            },
        )
    }
}

impl Default for ClientBuilder {
    /// The same configuration as `ClientBuilder::new`.
    fn default() -> (r: Self)
        ensures
            r.headers@ == Seq::<(String, Vec<String>)>::empty(),
            r.headers.wf(),
            r.timeout_ms == 30000,
            r.retry_config is None,
            r.base_url is None,
    {
        ClientBuilder::new()
    }
}

/// Configures one request before it is handed to the transport loop.
#[derive(Debug)]
pub struct RequestBuilder {
    /// The issuing client, for its retry policy.
    pub client: Client,
    /// The request configuration under construction.
    pub config: RequestConfig,
    /// The resolved URL.
    pub url: String,
}

impl RequestBuilder {
    /// Everything but the named piece stays as it was.
    pub open spec fn same_but_headers(&self, r: &RequestBuilder) -> bool {
        &&& r.client.config == self.client.config
        &&& r.url == self.url
        &&& r.config.method == self.config.method
        &&& r.config.body == self.config.body
        &&& r.config.timeout_ms == self.config.timeout_ms
        &&& r.config.follow_redirects == self.config.follow_redirects
        &&& r.config.max_redirects == self.config.max_redirects
        &&& r.config.response_format == self.config.response_format
    }

    /// Everything but the body stays as it was.
    pub open spec fn same_but_body(&self, r: &RequestBuilder) -> bool {
        &&& r.client.config == self.client.config
        &&& r.url == self.url
        &&& r.config.method == self.config.method
        &&& r.config.headers == self.config.headers
        &&& r.config.timeout_ms == self.config.timeout_ms
        &&& r.config.follow_redirects == self.config.follow_redirects
        &&& r.config.max_redirects == self.config.max_redirects
        &&& r.config.response_format == self.config.response_format
    }

    /// Appends one request header.
    pub fn header(self, name: &str, value: &str) -> (r: Self)
        requires
            self.config.headers.wf(),
        ensures
            self.same_but_headers(&r),
            r.config.headers.wf(),
            r.config.headers.values_of(name@) == Some(
                crate::headers::appended_values(self.config.headers.values_of(name@), value@),
            ),
            forall|k: Seq<char>| k != lower_seq(name@) ==> lookup(r.config.headers@, k) == lookup(
                self.config.headers@,
                k,
            ),
    {
        let mut s = self;
        s.config.headers.insert(name, value);
        s
    }

    /// Appends every header of `headers` to the request, keeping values
    /// already set.
    pub fn headers(self, headers: Headers) -> (r: Self)
        requires
            self.config.headers.wf(),
            headers.wf(),
        ensures
            self.same_but_headers(&r),
            r.config.headers.wf(),
            forall|j: int| 0 <= j < headers@.len() ==> lookup(
                r.config.headers@,
                #[trigger] headers@[j].0@,
            ) == crate::headers::opt_merged(
                lookup(self.config.headers@, headers@[j].0@),
                headers@[j].1.deep_view(),
            ),
            forall|k: Seq<char>| !crate::headers::has_key(headers@, k) ==> lookup(
                r.config.headers@,
                k,
            ) == lookup(self.config.headers@, k),
    {
        let mut s = self;
        s.config.headers.merge_from(&headers);
        s
    }

    /// Uses a JSON value as the request body.
    pub fn json(self, value: serde_json::Value) -> (r: Self)
        ensures
            self.same_but_body(&r),
            r.config.body matches Some(b) && b is Json,
    {
        let mut s = self;
        s.config.body = Some(Body::Json(value));
        s
    }

    /// Uses plain text as the request body.
    pub fn text(self, text: &str) -> (r: Self)
        ensures
            self.same_but_body(&r),
            r.config.body matches Some(b) && b matches Body::Text(t) && t@ == text@,
    {
        let mut s = self;
        s.config.body = Some(Body::Text(text.to_owned()));
        s
    }

    /// Uses raw bytes as the request body.
    pub fn bytes(self, bytes: Vec<u8>) -> (r: Self)
        ensures
            self.same_but_body(&r),
            r.config.body == Some(Body::Binary(bytes)),
    {
        let mut s = self;
        s.config.body = Some(Body::Binary(bytes));
        s
    }

    /// Uses form fields as the request body.
    pub fn form(self, data: Vec<(String, String)>) -> (r: Self)
        ensures
            self.same_but_body(&r),
            r.config.body == Some(Body::Form(data)),
    {
        let mut s = self;
        s.config.body = Some(Body::Form(data));
        s
    }

    /// Overrides the timeout for this request, in milliseconds.
    pub fn timeout(self, timeout_ms: u64) -> (r: Self)
        ensures
            r.client.config == self.client.config,
            r.url == self.url,
            r.config.method == self.config.method,
            r.config.headers == self.config.headers,
            r.config.body == self.config.body,
            r.config.timeout_ms == Some(timeout_ms),
            r.config.follow_redirects == self.config.follow_redirects,
            r.config.max_redirects == self.config.max_redirects,
            r.config.response_format == self.config.response_format,
    {
        let mut s = self;
        s.config.timeout_ms = Some(timeout_ms);
        s
    }

    /// Sets how the response body should be presented.
    pub fn response_format(self, format: ResponseFormat) -> (r: Self)
        ensures
            r.client.config == self.client.config,
            r.url == self.url,
            r.config.method == self.config.method,
            r.config.headers == self.config.headers,
            r.config.body == self.config.body,
            r.config.timeout_ms == self.config.timeout_ms,
            r.config.follow_redirects == self.config.follow_redirects,
            r.config.max_redirects == self.config.max_redirects,
            r.config.response_format == format,
    {
        let mut s = self;
        s.config.response_format = format;
        s
    }
}

/// One attempt, ready for the transport: method, URL, final headers,
/// encoded body and the effective timeout.
#[derive(Debug)]
pub struct PreparedRequest {
    /// HTTP method.
    pub method: Method,
    /// The resolved URL.
    pub url: String,
    /// The headers to send, content type included.
    pub headers: Headers,
    /// The encoded body, if the request has one.
    pub body_bytes: Option<Vec<u8>>,
    /// The effective timeout in milliseconds, if one applies.
    pub timeout_ms: Option<u64>,
}

proof fn lemma_content_type_key_folded()
    ensures
        lower_seq("content-type"@) == "content-type"@,
{
    reveal_strlit("content-type");
    assert(lower_seq("content-type"@) =~= "content-type"@);
}

/// Builds one transport attempt from a request configuration: encodes the
/// body and injects its content type unless the caller already set one.
/// Fails only when the body encoder does, with that `Parse` error.
pub fn prepare_attempt(url: &String, config: &RequestConfig) -> (r: Result<PreparedRequest, Error>)
    requires
        config.headers.wf(),
    ensures
        r is Err ==> (config.body matches Some(b) && (b is Json || b is Form)),
        r matches Err(e) ==> e matches Error::Parse { .. },
        r matches Ok(p) ==> {
            &&& p.method == config.method
            &&& p.url == url
            &&& p.timeout_ms == config.timeout_ms
            &&& p.headers.wf()
            &&& (config.body is None ==> p.body_bytes is None && (forall|k: Seq<char>|
                lookup(p.headers@, k) == lookup(config.headers@, k)))
            &&& (config.body matches Some(b) ==> {
                &&& (b matches Body::Text(s) ==> (p.body_bytes matches Some(bb) && bb@
                    == encode_utf8(s@)))
                &&& (b matches Body::Binary(bs) ==> (p.body_bytes matches Some(bb) && bb@ == bs@))
                &&& (b matches Body::Form(pairs) ==> (p.body_bytes matches Some(bb) && bb@
                    == encode_utf8(form_encoded(pairs.deep_view()))))
                &&& (b is Json ==> p.body_bytes is Some)
                &&& (config.headers.values_of("content-type"@) is Some ==> (forall|k: Seq<char>|
                    lookup(p.headers@, k) == lookup(config.headers@, k)))
                &&& (config.headers.values_of("content-type"@) is None ==> p.headers.values_of(
                    "content-type"@,
                ) == Some(seq![b.content_type_spec()]) && (forall|k: Seq<char>|
                    k != "content-type"@ ==> lookup(p.headers@, k) == lookup(config.headers@, k)))
            })
        },
{
    let mut headers = config.headers.clone();
    let body_bytes: Option<Vec<u8>> = match &config.body {
        Some(b) => {
            if !headers.contains("content-type") {
                proof {
                    lemma_content_type_key_folded();
                }
                headers.set("content-type", b.content_type());
            }
            match b.to_bytes() {
                Ok(bytes) => Some(bytes),
                Err(e) => {
                    return Err(e);
                },
            }
        },
        None => None,
    };
    Ok(
        PreparedRequest {
            method: config.method,
            url: url.clone(),
            headers,
            body_bytes,
            timeout_ms: config.timeout_ms,
        },
    )
}

} // verus!
