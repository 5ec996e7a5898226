//! The closed set of ways in which one call can fail.

use vstd::prelude::*;
use vstd::string::*;

verus! {

/// Why a call failed. Every failure ends the call: nothing is retried, and no
/// partial response comes with it.
#[derive(Clone, Debug, PartialEq, Eq)]
pub enum RequestError {
    /// The method is not one of the standard verbs.
    InvalidMethod,
    /// The URL is malformed, or is not absolute with a scheme and a host.
    InvalidUrl,
    /// A header key cannot be sent as a header name.
    InvalidHeaderName,
    /// A header value cannot be sent as a header value.
    InvalidHeaderValue,
    /// The credential material is missing or unusable, or signing failed.
    SigningError,
    /// The transport failed; the text is the underlying cause.
    NetworkError(String),
    /// A file could not be read or written; the text is the underlying cause.
    IoError(String),
}

impl RequestError {
    /// The message that goes with an error.
    pub open spec fn message_text(self) -> Seq<char> {
        match self {
            RequestError::InvalidMethod => "invalid HTTP method"@,
            RequestError::InvalidUrl => "invalid URL: an absolute URL with scheme and host is required"@,
            RequestError::InvalidHeaderName => "invalid HTTP header name"@,
            RequestError::InvalidHeaderValue => "invalid HTTP header value"@,
            RequestError::SigningError => "signing failed: bad or missing credential material"@,
            RequestError::NetworkError(cause) => "network error: "@ + cause@,
            RequestError::IoError(cause) => "I/O error: "@ + cause@,
        }
    }

    /// A human-readable message for the error.
    pub fn message(&self) -> (text: String)
        ensures
            text@ == self.message_text(),
    {
        match self {
            RequestError::InvalidMethod => String::from_str("invalid HTTP method"),
            RequestError::InvalidUrl => String::from_str(
                "invalid URL: an absolute URL with scheme and host is required",
            ),
            RequestError::InvalidHeaderName => String::from_str("invalid HTTP header name"),
            RequestError::InvalidHeaderValue => String::from_str("invalid HTTP header value"),
            RequestError::SigningError => String::from_str(
                "signing failed: bad or missing credential material",
            ),
            RequestError::NetworkError(cause) => String::from_str("network error: ").concat(
                cause.as_str(),
            ),
            RequestError::IoError(cause) => String::from_str("I/O error: ").concat(cause.as_str()),
        }
    }
}

} // verus!
