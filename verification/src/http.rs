//! Decision kernels of the simple fetch surface: validating a caller's
//! method string and requiring a particular body shape of a response.
//!
//! The fetch functions themselves perform transport and belong to the
//! embedding layer; what they decide is here, with contracts.

use vstd::prelude::*;

use crate::error::Error;
use crate::types::method_of;
use crate::types::Method;
use crate::types::Response;
use crate::types::ResponseBody;

verus! {

/// Validates the method string of a fetch call: unknown text is rejected
/// before any attempt, as invalid input naming the `method` parameter.
pub fn parse_method_param(s: &str) -> (r: Result<Method, Error>)
    ensures
        method_of(s@) matches Some(m) ==> r == Ok::<Method, Error>(m),
        method_of(s@) is None ==> (r matches Err(e) && e matches Error::InvalidInput {
            parameter,
            reason,
        } && parameter@ == "method"@ && reason@ == "Invalid HTTP method: "@ + s@),
{
    match Method::from_str(s) {
        Some(m) => Ok(m),
        None => {
            let mut reason = String::from_str("Invalid HTTP method: ");
            reason.append(s);
            Err(Error::InvalidInput { parameter: String::from_str("method"), reason })
        },
    }
}

/// Requires a response negotiated as JSON and surrenders its value; any
/// other body shape is a `Parse` error.
pub fn json_body_of(response: Response) -> (r: Result<serde_json::Value, Error>)
    ensures
        r is Ok <==> response.body is Json,
        r matches Err(e) ==> (e matches Error::Parse { message, cause } && message@
            == "Expected JSON response"@ && cause is None),
{
    match response.body {
        ResponseBody::Json(v) => Ok(v),
        _ => Err(
            Error::Parse { message: String::from_str("Expected JSON response"), cause: None },
        ),
    }
}

/// Requires a response negotiated as text and surrenders it; any other
/// body shape is a `Parse` error.
pub fn text_body_of(response: Response) -> (r: Result<String, Error>)
    ensures
        r is Ok <==> response.body is Text,
        response.body matches ResponseBody::Text(t) ==> (r matches Ok(s) && s@ == t@),
        r matches Err(e) ==> (e matches Error::Parse { message, cause } && message@
            == "Expected text response"@ && cause is None),
{
    match response.body {
        ResponseBody::Text(t) => Ok(t),
        _ => Err(
            Error::Parse { message: String::from_str("Expected text response"), cause: None },
        ),
    }
}

} // verus!
