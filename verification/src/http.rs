//! The error surface of the external market-data API, and the decision
//! of how a raw HTTP response is classified. The transport itself (the
//! client, the request, the body) lives outside the library; the
//! library only receives plain status codes, bodies and decode outcomes.
use vstd::prelude::*;

verus! {

/// What reaching the external API can fail with.
#[derive(Debug, Clone, PartialEq, Eq)]
pub enum HttpResponseError {
    /// A non-success HTTP status, with the response body.
    UnexpectedStatus { status: u16, url: String, body: String },
    /// A success status whose body failed to decode as the expected
    /// schema.
    UnexpectedContent { url: String, reason: String },
    /// A malformed value inside an otherwise well-formed response.
    Unexpected(String),
    /// A network-level failure before any response arrived.
    Transport(String),
}

/// Whether an HTTP status code counts as success, as `2xx` does.
pub open spec fn is_success_status(status: u16) -> bool {
    200 <= status < 300
}

/// Classifies a raw response: a success status whose body decoded is
/// accepted; a success status whose body failed to decode is unexpected
/// content, keeping the decoder's reason; any other status is an
/// unexpected status, keeping the body for diagnosis.
pub fn classify_response(
    status: u16,
    url: String,
    decode_failure: Option<String>,
    body: String,
) -> (r: Result<(), HttpResponseError>)
    ensures
        r is Ok <==> is_success_status(status) && decode_failure is None,
        decode_failure matches Some(why) ==> (is_success_status(status) ==> (r matches Err(e)
            && e matches HttpResponseError::UnexpectedContent { url: u, reason }
            && u@ == url@ && reason@ == why@)),
        !is_success_status(status) ==> (r matches Err(e)
            && e matches HttpResponseError::UnexpectedStatus { status: s, url: u, body: b }
            && s == status && u@ == url@ && b@ == body@),
{
    if !(200 <= status && status < 300) {
        return Err(HttpResponseError::UnexpectedStatus { status, url, body });
    }
    match decode_failure {
        None => Ok(()),
        Some(reason) => Err(HttpResponseError::UnexpectedContent { url, reason }),
    }
}

} // verus!
