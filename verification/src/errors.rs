//! The closed error taxonomy of the client.
//!
//! Every failing operation yields exactly one of these kinds: the request
//! never reached a server, the success body did not match the expected
//! shape, the server answered with a failure status, or the request was
//! rejected before any network traffic.

use vstd::prelude::*;

use crate::numbers::dec_rep;
use crate::numbers::push_dec_u64;
use crate::text::chars_to_string;
use crate::text::push_chars;

verus! {

/// The structured error every client operation can return.
#[derive(Debug, Clone, PartialEq, Eq)]
pub enum ApiError {
    /// The call never reached a server or the connection failed; carries
    /// the transport failure message.
    RequestError(String),
    /// The status indicated success but the body did not match the
    /// expected shape; carries the parse failure message.
    DeserializationError(String),
    /// The status indicated failure; carries the human-readable detail
    /// message and the numeric status code.
    ApiResponseError(String, u16),
    /// The request was rejected before any network call; carries a
    /// message and no status code.
    ClientError(String),
}

/// The rendered message of an error, kind prefix included.
pub open spec fn error_message_spec(e: &ApiError) -> Seq<char> {
    match e {
        ApiError::RequestError(m) => "Request failed: "@ + m@,
        ApiError::DeserializationError(m) => "Failed to parse response: "@ + m@,
        ApiError::ApiResponseError(m, status) => "API error ("@ + dec_rep(*status as int) + "): "@
            + m@,
        ApiError::ClientError(m) => "Client error: "@ + m@,
    }
}

impl ApiError {
    /// Renders the error as its message string.
    pub fn message(&self) -> (r: String)
        ensures
            r@ == error_message_spec(self),
    {
        let mut out: Vec<char> = Vec::new();
        match self {
            ApiError::RequestError(m) => {
                push_chars(&mut out, "Request failed: ");
                push_chars(&mut out, m.as_str());
            },
            ApiError::DeserializationError(m) => {
                push_chars(&mut out, "Failed to parse response: ");
                push_chars(&mut out, m.as_str());
            },
            ApiError::ApiResponseError(m, status) => {
                push_chars(&mut out, "API error (");
                push_dec_u64(*status as u64, &mut out);
                push_chars(&mut out, "): ");
                push_chars(&mut out, m.as_str());
            },
            ApiError::ClientError(m) => {
                push_chars(&mut out, "Client error: ");
                push_chars(&mut out, m.as_str());
            },
        }
        chars_to_string(&out)
    }
}

/// Renders an error for display; the message carries the kind prefix.
pub fn format_error(err: &ApiError) -> (r: String)
    ensures
        r@ == error_message_spec(err),
{
    err.message()
}

/// The fallback message used when a failure body carries no readable
/// detail.
pub open spec fn status_fallback_message(status: u16) -> Seq<char> {
    "Error status: "@ + dec_rep(status as int)
}

/// Builds the fallback message `Error status: <code>`.
pub(crate) fn build_status_fallback(status: u16) -> (r: String)
    ensures
        r@ == status_fallback_message(status),
{
    let mut out: Vec<char> = Vec::new();
    push_chars(&mut out, "Error status: ");
    push_dec_u64(status as u64, &mut out);
    chars_to_string(&out)
}

/// The message of the rejected brightness request.
pub open spec fn brightness_message() -> Seq<char> {
    "Brightness must be between 0.0 and 1.0"@
}

/// Builds the brightness precondition message.
pub(crate) fn build_brightness_message() -> (r: String)
    ensures
        r@ == brightness_message(),
{
    let r: String = "Brightness must be between 0.0 and 1.0".to_owned();
    r
}

} // verus!
