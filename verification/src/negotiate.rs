//! Response-body negotiation: deciding, from the caller's format
//! preference and the response Content-Type, how to present the body.
//!
//! An explicit preference is authoritative: a failed decode is a `Parse`
//! error. Under `Auto` the Content-Type is advisory: malformed JSON falls
//! back to text, and undecodable text falls back to the raw bytes, so
//! `Auto` never fails.

use vstd::prelude::*;
use vstd::utf8::decode_utf8;
use vstd::utf8::valid_utf8;

use crate::codec::json_from_slice;
use crate::codec::json_well_formed;
use crate::codec::try_str_from_utf8;
use crate::error::Error;
use crate::headers::Headers;
use crate::text::lower_seq;
use crate::text::lower_str;
use crate::text::seq_contains_sub;
use crate::text::str_contains;
use crate::types::is_success_code;
use crate::types::Response;
use crate::types::ResponseBody;
use crate::types::ResponseFormat;

verus! {

/// Whether a Content-Type value names JSON: it contains
/// `application/json`, compared without regard to case.
pub open spec fn ct_names_json(ct: Seq<char>) -> bool {
    seq_contains_sub(lower_seq(ct), "application/json"@)
}

/// Whether a Content-Type value names text: it contains `text/` or `xml`,
/// compared without regard to case.
pub open spec fn ct_names_text(ct: Seq<char>) -> bool {
    seq_contains_sub(lower_seq(ct), "text/"@) || seq_contains_sub(lower_seq(ct), "xml"@)
}

/// Whether negotiation succeeds: always, except when an explicit `Json` or
/// `Text` preference meets undecodable bytes, or `Auto` meets a textual
/// Content-Type with bytes that are not UTF-8.
pub open spec fn negotiation_succeeds(
    format: ResponseFormat,
    ct: Seq<char>,
    bytes: Seq<u8>,
) -> bool {
    match format {
        ResponseFormat::Json => json_well_formed(bytes),
        ResponseFormat::Text => valid_utf8(bytes),
        ResponseFormat::Binary => true,
        ResponseFormat::Auto => ct_names_json(ct) || !ct_names_text(ct) || valid_utf8(bytes),
    }
}

/// Whether negotiation presents the body as JSON.
pub open spec fn negotiated_as_json(format: ResponseFormat, ct: Seq<char>, bytes: Seq<u8>) -> bool {
    match format {
        ResponseFormat::Json => json_well_formed(bytes),
        ResponseFormat::Auto => ct_names_json(ct) && json_well_formed(bytes),
        _ => false,
    }
}

/// Whether negotiation presents the body as text.
pub open spec fn negotiated_as_text(format: ResponseFormat, ct: Seq<char>, bytes: Seq<u8>) -> bool {
    match format {
        ResponseFormat::Text => valid_utf8(bytes),
        ResponseFormat::Auto => {
            if ct_names_json(ct) {
                !json_well_formed(bytes) && valid_utf8(bytes)
            } else {
                ct_names_text(ct) && valid_utf8(bytes)
            }
        },
        _ => false,
    }
}

/// Whether negotiation presents the raw bytes.
pub open spec fn negotiated_as_binary(
    format: ResponseFormat,
    ct: Seq<char>,
    bytes: Seq<u8>,
) -> bool {
    match format {
        ResponseFormat::Binary => true,
        ResponseFormat::Auto => {
            if ct_names_json(ct) {
                !json_well_formed(bytes) && !valid_utf8(bytes)
            } else {
                !ct_names_text(ct)
            }
        },
        _ => false,
    }
}

/// The `Parse` message when negotiation fails.
pub open spec fn negotiation_fail_message(format: ResponseFormat) -> Seq<char> {
    if format == ResponseFormat::Json {
        "Failed to parse JSON response"@
    } else {
        "Failed to read text response"@
    }
}

/// Presents `bytes` according to the caller's preference and the response
/// Content-Type.
pub fn negotiate_body(format: ResponseFormat, content_type: &str, bytes: Vec<u8>) -> (r: Result<
    ResponseBody,
    Error,
>)
    ensures
        r is Ok <==> negotiation_succeeds(format, content_type@, bytes@),
        r matches Ok(b) ==> {
            &&& (b is Json <==> negotiated_as_json(format, content_type@, bytes@))
            &&& (b is Text <==> negotiated_as_text(format, content_type@, bytes@))
            &&& (b is Binary <==> negotiated_as_binary(format, content_type@, bytes@))
            &&& !(b is Empty)
            &&& (b matches ResponseBody::Text(s) ==> s@ == decode_utf8(bytes@))
            &&& (b matches ResponseBody::Binary(bb) ==> bb@ == bytes@)
        },
        r matches Err(e) ==> e matches Error::Parse { message, cause } && message@
            == negotiation_fail_message(format) && cause is None,
{
    match format {
        ResponseFormat::Json => {
            match json_from_slice(bytes.as_slice()) {
                Some(v) => Ok(ResponseBody::Json(v)),
                None => Err(
                    Error::Parse {
                        message: String::from_str("Failed to parse JSON response"),
                        cause: None,
                    },
                ),
            }
        },
        ResponseFormat::Text => {
            match try_str_from_utf8(bytes.as_slice()) {
                Some(s) => Ok(ResponseBody::Text(s.to_owned())),
                None => Err(
                    Error::Parse {
                        message: String::from_str("Failed to read text response"),
                        cause: None,
                    },
                ),
            }
        },
        ResponseFormat::Binary => Ok(ResponseBody::Binary(bytes)),
        ResponseFormat::Auto => {
            let ct_lower = lower_str(content_type);
            if str_contains(ct_lower.as_str(), "application/json") {
                match json_from_slice(bytes.as_slice()) {
                    Some(v) => Ok(ResponseBody::Json(v)),
                    None => {
                        match try_str_from_utf8(bytes.as_slice()) {
                            Some(s) => Ok(ResponseBody::Text(s.to_owned())),
                            None => Ok(ResponseBody::Binary(bytes)),
                        }
                    },
                }
            } else if str_contains(ct_lower.as_str(), "text/") || str_contains(
                ct_lower.as_str(),
                "xml",
            ) {
                match try_str_from_utf8(bytes.as_slice()) {
                    Some(s) => Ok(ResponseBody::Text(s.to_owned())),
                    None => Err(
                        Error::Parse {
                            message: String::from_str("Failed to read text response"),
                            cause: None,
                        },
                    ),
                }
            } else {
                Ok(ResponseBody::Binary(bytes))
            }
        },
    }
}

/// The Content-Type a response reports: the first `content-type` header
/// value, or empty when there is none.
pub open spec fn content_type_of(headers: &Headers) -> Seq<char> {
    match headers.values_of("content-type"@) {
        Some(l) => if l.len() > 0 {
            l[0]
        } else {
            Seq::<char>::empty()
        },
        None => Seq::<char>::empty(),
    }
}

/// Turns one transport-level result into the final outcome of an attempt:
/// negotiates the body by `format` and the response Content-Type, then
/// maps a non-success status to an `Http` error carrying the body as text
/// when it was negotiated as text.
pub fn process_response(
    format: ResponseFormat,
    status: u16,
    status_text: String,
    headers: Headers,
    url: String,
    bytes: Vec<u8>,
) -> (r: Result<Response, Error>)
    ensures
        r is Ok <==> negotiation_succeeds(format, content_type_of(&headers), bytes@)
            && is_success_code(status),
        r matches Ok(resp) ==> {
            &&& resp.status == status
            &&& resp.status_text == status_text
            &&& resp.headers == headers
            &&& resp.url == url
            &&& (resp.body is Json <==> negotiated_as_json(
                format,
                content_type_of(&headers),
                bytes@,
            ))
            &&& (resp.body is Text <==> negotiated_as_text(
                format,
                content_type_of(&headers),
                bytes@,
            ))
            &&& (resp.body matches ResponseBody::Text(s) ==> s@ == decode_utf8(bytes@))
            &&& (resp.body matches ResponseBody::Binary(bb) ==> bb@ == bytes@)
        },
        r matches Err(e) ==> {
            if negotiation_succeeds(format, content_type_of(&headers), bytes@) {
                &&& e matches Error::Http { status: s, status_text: st, body }
                &&& s == status
                &&& st@ == status_text@
                &&& (negotiated_as_text(format, content_type_of(&headers), bytes@) ==> (
                body matches Some(t) && t@ == decode_utf8(bytes@)))
                &&& (!negotiated_as_text(format, content_type_of(&headers), bytes@)
                    ==> body is None)
            } else {
                e matches Error::Parse { message, cause } && message@ == negotiation_fail_message(
                    format,
                ) && cause is None
            }
        },
{
    let ct: String = match headers.get_first("content-type") {
        Some(s) => s.to_owned(),
        None => String::new(),
    };
    proof {
        assert(ct@ == content_type_of(&headers));
    }
    let body = match negotiate_body(format, ct.as_str(), bytes) {
        Ok(b) => b,
        Err(e) => {
            return Err(e);
        },
    };
    let response = Response { status, status_text, headers, body, url };
    if !response.is_success() {
        let body_text: Option<String> = match response.text() {
            Some(t) => Some(t.to_owned()),
            None => None,
        };
        return Err(
            Error::Http {
                status: response.status,
                status_text: response.status_text,
                body: body_text,
            },
        );
    }
    Ok(response)
}

} // verus!
