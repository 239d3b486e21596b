//! HTTP responses and the recovery mapping from failed requests to status
//! codes: missing files answer 404, an oversized payload answers 400, and
//! every other failure answers 500, each with its fixed message.

use vstd::prelude::*;
use vstd::string::StringExecFns;

verus! {

/// A response body: either a plain-text message or raw file bytes.
pub enum Body {
    Text(String),
    Bytes(Vec<u8>),
}

/// Whether `b` is the plain-text message `s`.
pub open spec fn body_is_text(b: Body, s: Seq<char>) -> bool {
    match b {
        Body::Text(t) => t@ == s,
        Body::Bytes(_) => false,
    }
}

/// Whether `b` carries exactly the bytes `s`.
pub open spec fn body_is_bytes(b: Body, s: Seq<u8>) -> bool {
    match b {
        Body::Text(_) => false,
        Body::Bytes(v) => v@ == s,
    }
}

/// An HTTP response: a status code and a body.
pub struct Response {
    pub status: u16,
    pub body: Body,
}

/// The ways a request can fail, as the recovery handler tells them apart.
pub enum RejectionKind {
    NotFoundRejection,
    PayloadTooLarge,
    OtherRejection,
}

/// The response the service gives for each kind of failed request: a missing
/// file answers 404 `Not Found`, an oversized payload answers 400
/// `Payload too large`, and anything else answers 500.
pub fn rejection_response(kind: &RejectionKind) -> (r: Response)
    ensures
        match kind {
            RejectionKind::NotFoundRejection => r.status == 404 && body_is_text(
                r.body,
                "Not Found"@,
            ),
            RejectionKind::PayloadTooLarge => r.status == 400 && body_is_text(
                r.body,
                "Payload too large"@,
            ),
            RejectionKind::OtherRejection => r.status == 500 && body_is_text(
                r.body,
                "Internal Server Error"@,
            ),
        },
{
    match kind {
        RejectionKind::NotFoundRejection => Response {
            status: 404,
            body: Body::Text(String::from_str("Not Found")),
        },
        RejectionKind::PayloadTooLarge => Response {
            status: 400,
            body: Body::Text(String::from_str("Payload too large")),
        },
        RejectionKind::OtherRejection => Response {
            status: 500,
            body: Body::Text(String::from_str("Internal Server Error")),
        },
    }
}

} // verus!
