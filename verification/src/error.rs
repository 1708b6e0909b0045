//! The error taxonomy shared by every operation.

use vstd::prelude::*;
use vstd::string::*;

verus! {

/// Everything that can go wrong, from local validation to a failure the server reports.
#[derive(Debug, Clone, PartialEq, Eq)]
pub enum BlindPayError {
    /// The server reported a logical failure; the text is the server's message.
    ApiError(String),
    /// The transport could not complete the exchange; the text describes why.
    RequestFailed(String),
    /// A body could not be read as any expected shape; the text describes why.
    SerializationError(String),
    /// The client was constructed with an empty API key.
    MissingApiKey,
    /// The client was constructed with an empty instance id.
    MissingInstanceId,
    /// Another problem with the client's configuration.
    InvalidConfiguration(String),
}

/// What an error says in contracts: its kind and, where it has one, its text.
pub enum ErrorView {
    ApiError(Seq<char>),
    RequestFailed(Seq<char>),
    SerializationError(Seq<char>),
    MissingApiKey,
    MissingInstanceId,
    InvalidConfiguration(Seq<char>),
}

impl View for BlindPayError {
    type V = ErrorView;

    open spec fn view(&self) -> ErrorView {
        match self {
            BlindPayError::ApiError(m) => ErrorView::ApiError(m@),
            BlindPayError::RequestFailed(m) => ErrorView::RequestFailed(m@),
            BlindPayError::SerializationError(m) => ErrorView::SerializationError(m@),
            BlindPayError::MissingApiKey => ErrorView::MissingApiKey,
            BlindPayError::MissingInstanceId => ErrorView::MissingInstanceId,
            BlindPayError::InvalidConfiguration(m) => ErrorView::InvalidConfiguration(m@),
        }
    }
}

impl ErrorView {
    /// The line of text that describes the error to a person.
    pub open spec fn message(self) -> Seq<char> {
        match self {
            ErrorView::ApiError(m) => "API error: "@ + m,
            ErrorView::RequestFailed(m) => "HTTP request failed: "@ + m,
            ErrorView::SerializationError(m) => "JSON serialization/deserialization failed: "@ + m,
            ErrorView::MissingApiKey => "Missing API key"@,
            ErrorView::MissingInstanceId => "Missing instance ID"@,
            ErrorView::InvalidConfiguration(m) => "Invalid configuration: "@ + m,
        }
    }
}

impl BlindPayError {
    /// Renders the error as one line of text.
    pub fn message(&self) -> (text: String)
        ensures
            text@ == self@.message(),
    {
        match self {
            BlindPayError::ApiError(m) => String::from_str("API error: ").concat(m.as_str()),
            BlindPayError::RequestFailed(m) => String::from_str("HTTP request failed: ").concat(
                m.as_str(),
            ),
            BlindPayError::SerializationError(m) => String::from_str(
                "JSON serialization/deserialization failed: ",
            ).concat(m.as_str()),
            BlindPayError::MissingApiKey => String::from_str("Missing API key"),
            BlindPayError::MissingInstanceId => String::from_str("Missing instance ID"),
            BlindPayError::InvalidConfiguration(m) => String::from_str(
                "Invalid configuration: ",
            ).concat(m.as_str()),
        }
    }
}

} // verus!
