//! The ways an operation can fail.
use vstd::prelude::*;

use crate::response::ErrorResponse;

verus! {

/// Why an operation did not return its record.
#[derive(Debug, Clone, PartialEq, Eq)]
pub enum Error {
    /// No token has been set: nothing was sent.
    NoLoginToken,
    /// The service answered with a non-success status and this error body.
    ApiError(ErrorResponse),
    /// The HTTP exchange itself failed.
    HTTPInternalError(String),
    /// The body did not hold the expected shape.
    DeserealizationError(String),
}

/// The text of `s` as `Debug` writes a string: in double quotes, with
/// quotes, backslashes and unprintable characters escaped.
pub uninterp spec fn debug_quoted_of(s: Seq<char>) -> Seq<char>;

/// Relies on `Debug` for `str` (through `format!("{:?}")`): the quoted and
/// escaped form of the string, which depends on its characters alone.
#[verifier::external_body]
fn debug_quoted(s: &str) -> (r: String)
    ensures
        r@ == debug_quoted_of(s@),
{
    format!("{:?}", s)
}

/// The text shown for an API error, given its flag and its message already
/// quoted as `Debug` writes it: the error record in `Debug` form.
pub open spec fn api_error_text_of(error: bool, quoted_message: Seq<char>) -> Seq<char> {
    "Error response from Sigma: "@ + "ErrorResponse { error: "@ + (if error {
        "true"@
    } else {
        "false"@
    }) + ", message: "@ + quoted_message + " }"@
}

/// Builds the text shown for an API error from its flag and its quoted
/// message.
pub fn api_error_text(error: bool, quoted_message: &str) -> (r: String)
    ensures
        r@ == api_error_text_of(error, quoted_message@),
{
    let mut t = String::from_str("Error response from Sigma: ");
    t.append("ErrorResponse { error: ");
    if error {
        t.append("true");
    } else {
        t.append("false");
    }
    t.append(", message: ");
    t.append(quoted_message);
    t.append(" }");
    t
}

/// The text that describes an error to a person.
pub open spec fn message_of(e: Error) -> Seq<char> {
    match e {
        Error::NoLoginToken => "Not logged in or no valid token supplied"@,
        Error::ApiError(r) => api_error_text_of(r.error, debug_quoted_of(r.message@)),
        Error::HTTPInternalError(m) => "HTTP Request failed: "@ + m@,
        Error::DeserealizationError(m) => "Could not deserialize response: "@ + m@,
    }
}

impl Error {
    /// Describes the error to a person.
    pub fn message(&self) -> (r: String)
        ensures
            r@ == message_of(*self),
    {
        match self {
            Error::NoLoginToken => String::from_str("Not logged in or no valid token supplied"),
            Error::ApiError(r) => {
                let quoted = debug_quoted(r.message.as_str());
                api_error_text(r.error, quoted.as_str())
            },
            Error::HTTPInternalError(m) => String::from_str("HTTP Request failed: ").concat(
                m.as_str(),
            ),
            Error::DeserealizationError(m) => String::from_str(
                "Could not deserialize response: ",
            ).concat(m.as_str()),
        }
    }
}

} // verus!
