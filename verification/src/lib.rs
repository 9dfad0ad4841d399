//! An HTTP client core: a case-insensitive header multimap, a structured
//! error taxonomy with a retryability predicate, request-body encoding,
//! response-format negotiation, retry scheduling with exponential backoff,
//! and the client/builder configuration surface that feeds them.
//!
//! Transport, timers and foreign-runtime bridging live outside this crate;
//! this crate holds the decisions and the data they act on.

pub mod client;
pub mod codec;
pub mod error;
pub mod headers;
pub mod http;
pub mod negotiate;
pub mod retry;
pub mod text;
pub mod types;


