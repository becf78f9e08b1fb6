//! The failure taxonomy of the compute operation, its mapping to HTTP
//! status codes and diagnostic messages, and the wire-level error envelope.

use crate::json::json_escape;
use crate::json::spec_escape;
use vstd::prelude::*;
use vstd::string::*;

verus! {

/// The closed set of failure kinds a compute request can end in.  Every
/// failure on the compute path collapses into exactly one of these; the
/// mapping to an HTTP response is total over the variants, so no failure
/// can fall through to a wrong status.
#[derive(Debug)]
pub enum ComputeError {
    /// The request body was not a structurally valid order.
    InvalidRequest,
    /// The rate lookup failed: the service was unreachable or its reply
    /// was not a number.
    TaxRateNotAvailable,
    /// Any other internal failure, carrying its rendered cause.
    Unexpected(String),
}

/// The HTTP status code that each failure kind maps to.
pub open spec fn spec_status_code(e: ComputeError) -> u16 {
    match e {
        ComputeError::InvalidRequest => 400,
        ComputeError::TaxRateNotAvailable => 503,
        ComputeError::Unexpected(_) => 500,
    }
}

/// Maps a failure kind to its HTTP status code.
pub fn status_code(e: &ComputeError) -> (r: u16)
    ensures
        r == spec_status_code(*e),
{
    match e {
        ComputeError::InvalidRequest => 400,
        ComputeError::TaxRateNotAvailable => 503,
        ComputeError::Unexpected(_) => 500,
    }
}

/// The diagnostic message that each failure kind carries to the client.
pub open spec fn spec_message(e: ComputeError) -> Seq<char> {
    match e {
        ComputeError::InvalidRequest => "invalid request"@,
        ComputeError::TaxRateNotAvailable => "The zip code in the order does not have a corresponding sales tax rate."@,
        ComputeError::Unexpected(cause) => cause@,
    }
}

/// Maps a failure kind to its diagnostic message.
pub fn message_text(e: &ComputeError) -> (r: String)
    ensures
        r@ == spec_message(*e),
{
    match e {
        ComputeError::InvalidRequest => String::from_str("invalid request"),
        ComputeError::TaxRateNotAvailable => String::from_str(
            "The zip code in the order does not have a corresponding sales tax rate.",
        ),
        ComputeError::Unexpected(cause) => cause.clone(),
    }
}

/// The wire-level error envelope: a fixed status tag and a free-text
/// diagnostic.  Constructed once per failed request, serialized, discarded.
pub struct ErrorResponse {
    pub status: String,
    pub message: String,
}

/// The serialized form of the envelope: a two-field JSON object whose
/// values are the escaped status tag and the escaped message.
pub open spec fn spec_error_json(status: Seq<char>, message: Seq<char>) -> Seq<char> {
    "{\"status\":\""@ + spec_escape(status) + "\",\"message\":\""@ + spec_escape(message)
        + "\"}"@
}

impl ErrorResponse {
    /// Builds the envelope for a message; the status tag is always the
    /// literal "error".
    pub fn new(message: &str) -> (r: ErrorResponse)
        ensures
            r.status@ == "error"@,
            r.message@ == message@,
    {
        ErrorResponse { status: String::from_str("error"), message: message.to_owned() }
    }

    /// Serializes the envelope as a JSON object.
    pub fn to_json(&self) -> (r: String)
        ensures
            r@ == spec_error_json(self.status@, self.message@),
    {
        let mut r = String::from_str("{\"status\":\"");
        let escaped_status = json_escape(self.status.as_str());
        r.append(escaped_status.as_str());
        r.append("\",\"message\":\"");
        let escaped_message = json_escape(self.message.as_str());
        r.append(escaped_message.as_str());
        r.append("\"}");
        proof {
            assert(r@ =~= spec_error_json(self.status@, self.message@));
        }
        r
    }
}

/// The serialized error envelope for a failure kind: the JSON object whose
/// status tag is "error" and whose message is the kind's diagnostic.
pub open spec fn spec_error_body(e: ComputeError) -> Seq<char> {
    spec_error_json("error"@, spec_message(e))
}

/// Builds the serialized error envelope for a failure kind.
pub fn error_body(e: &ComputeError) -> (r: String)
    ensures
        r@ == spec_error_body(*e),
{
    let message = message_text(e);
    let envelope = ErrorResponse::new(message.as_str());
    envelope.to_json()
}

} // verus!
