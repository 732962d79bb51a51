//! The failures a call can end in.

use crate::numeral::{decimal, push_decimal};
use vstd::prelude::*;

verus! {

/// The transport's own error, carried through untouched.
#[verifier::external_type_specification]
#[verifier::external_body]
pub struct ExTransportError(reqwest::Error);

/// The text that `reqwest::Error`'s `Display` writes for `error`.
pub uninterp spec fn transport_error_text(error: reqwest::Error) -> Seq<char>;

/// `reqwest::Error`'s `Display`, collected into a string. The contract only
/// names the text.
#[verifier::external_body]
pub(crate) fn describe_transport_error(error: &reqwest::Error) -> (text: String)
    ensures
        text@ == transport_error_text(*error),
{
    error.to_string()
}

/// Why a call failed.
#[derive(Debug)]
pub enum OllmError {
    /// The transport failed before a response could be classified.
    Request(reqwest::Error),
    /// The service answered with a status outside 200..=299.
    ApiError { status: u16, message: String },
    /// The service answered with success, but not with a chat response.
    InvalidResponse,
    /// The response holds no choice.
    MissingChoice,
}

/// The model of an [`OllmError`]: the message as a sequence of characters.
pub enum ErrorView {
    Request(reqwest::Error),
    ApiError { status: u16, message: Seq<char> },
    InvalidResponse,
    MissingChoice,
}

impl View for OllmError {
    type V = ErrorView;

    open spec fn view(&self) -> ErrorView {
        match *self {
            OllmError::Request(error) => ErrorView::Request(error),
            OllmError::ApiError { status, message } => ErrorView::ApiError {
                status,
                message: message@,
            },
            OllmError::InvalidResponse => ErrorView::InvalidResponse,
            OllmError::MissingChoice => ErrorView::MissingChoice,
        }
    }
}

impl ErrorView {
    /// The line that describes this failure to a reader.
    pub open spec fn text(self) -> Seq<char> {
        match self {
            ErrorView::Request(error) => "HTTP request failed: "@ + transport_error_text(error),
            ErrorView::ApiError { status, message } => "API error (status "@ + decimal(
                status as nat,
            ) + "): "@ + message,
            ErrorView::InvalidResponse => "Invalid response format"@,
            ErrorView::MissingChoice => "Missing choice in response"@,
        }
    }
}

impl OllmError {
    /// The line that describes this failure to a reader.
    pub fn to_string(&self) -> (line: String)
        ensures
            line@ == self@.text(),
    {
        match self {
            OllmError::Request(error) => {
                let mut line = String::from_str("HTTP request failed: ");
                let detail = describe_transport_error(error);
                line.append(detail.as_str());
                line
            },
            OllmError::ApiError { status, message } => {
                let mut line = String::from_str("API error (status ");
                push_decimal(&mut line, *status);
                line.append("): ");
                line.append(message.as_str());
                line
            },
            OllmError::InvalidResponse => String::from_str("Invalid response format"),
            OllmError::MissingChoice => String::from_str("Missing choice in response"),
        }
    }
}

} // verus!
