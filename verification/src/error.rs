//! The error taxonomy of the domain client.
//!
//! Transport, decode and API errors are recoverable and surfaced as
//! field-level text; timestamp and duration failures abort the whole
//! journey fetch.

use vstd::prelude::*;
use vstd::string::*;

verus! {

/// Spec-level image of `SncfAPIError`, with each text as a `Seq<char>`.
pub enum SncfAPIErrorV {
    Transport(Seq<char>),
    Decode,
    Api { status: u16, message: Seq<char> },
    DateParse(Seq<char>),
    Duration,
}

/// Everything that can go wrong between the provider and the session.
#[derive(Debug)]
pub enum SncfAPIError {
    /// Network or connection failure, with the transport's own text.
    TransportError(String),
    /// The response body was not the JSON shape that was expected.
    DecodeError,
    /// A non-2xx HTTP response; the body is kept verbatim as diagnostic text.
    ApiError { status: u16, message: String },
    /// A provider timestamp that does not follow the fixed positional layout.
    DateParseError(String),
    /// An elapsed span that cannot be represented.
    DurationError,
}

impl View for SncfAPIError {
    type V = SncfAPIErrorV;

    open spec fn view(&self) -> SncfAPIErrorV {
        match self {
            SncfAPIError::TransportError(d) => SncfAPIErrorV::Transport(d@),
            SncfAPIError::DecodeError => SncfAPIErrorV::Decode,
            SncfAPIError::ApiError { status, message } => SncfAPIErrorV::Api {
                status: *status,
                message: message@,
            },
            SncfAPIError::DateParseError(raw) => SncfAPIErrorV::DateParse(raw@),
            SncfAPIError::DurationError => SncfAPIErrorV::Duration,
        }
    }
}

impl SncfAPIErrorV {
    /// The exact diagnostic text of each error kind.
    pub open spec fn text(self) -> Seq<char> {
        match self {
            SncfAPIErrorV::Transport(d) => "HTTP request error: "@ + d,
            SncfAPIErrorV::Decode => "Cannot decode response body"@,
            SncfAPIErrorV::Api { status, message } => "API error: "@ + message,
            SncfAPIErrorV::DateParse(raw) => "Date cannot be parsed: "@ + raw,
            SncfAPIErrorV::Duration => "Duration cannot be represented"@,
        }
    }
}

impl SncfAPIError {
    /// Renders the error as the diagnostic text shown to the user.
    pub fn message(&self) -> (r: String)
        ensures
            r@ == self@.text(),
    {
        match self {
            SncfAPIError::TransportError(d) => String::from_str("HTTP request error: ").concat(
                d.as_str(),
            ),
            SncfAPIError::DecodeError => String::from_str("Cannot decode response body"),
            SncfAPIError::ApiError { status: _, message } => String::from_str(
                "API error: ",
            ).concat(message.as_str()),
            SncfAPIError::DateParseError(raw) => String::from_str(
                "Date cannot be parsed: ",
            ).concat(raw.as_str()),
            SncfAPIError::DurationError => String::from_str("Duration cannot be represented"),
        }
    }
}

} // verus!
