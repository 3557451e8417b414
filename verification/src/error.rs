//! The errors that the client reports.

use vstd::prelude::*;
use vstd::string::*;

verus! {

/// `reqwest::Error`, why a request could not be sent or its response not be
/// read. The library only asks it for its text.
#[verifier::external_type_specification]
#[verifier::external_body]
pub struct ExHttpError(reqwest::Error);

/// Why a call on the client failed.
#[derive(Debug, Clone, PartialEq, Eq)]
pub enum ClientError {
    /// The service could not be reached, or what it answered was of no use.
    Connection(String),
    /// A value could not be turned into JSON, or JSON into a value.
    Serialization(String),
}

/// A `ClientError` with its message as a sequence of characters.
pub enum ClientErrorView {
    Connection(Seq<char>),
    Serialization(Seq<char>),
}

impl View for ClientError {
    type V = ClientErrorView;

    open spec fn view(&self) -> ClientErrorView {
        match self {
            ClientError::Connection(message) => ClientErrorView::Connection(message@),
            ClientError::Serialization(message) => ClientErrorView::Serialization(message@),
        }
    }
}

impl ClientErrorView {
    /// The error as one line of text: its kind, then its message.
    pub open spec fn text(self) -> Seq<char> {
        match self {
            ClientErrorView::Connection(message) => "Connection Error: "@ + message,
            ClientErrorView::Serialization(message) => "Serialization Error: "@ + message,
        }
    }
}

impl ClientError {
    /// The connection error whose message is what `error` displays.
    pub fn connection(error: &reqwest::Error) -> (made: ClientError)
        ensures
            made matches ClientError::Connection(message) && to_string_from_display_ensures::<
                reqwest::Error,
            >(error, message),
    {
        ClientError::Connection(error.to_string())
    }

    /// The serialization error whose message is what `error` displays.
    pub fn serialization(error: &serde_json::Error) -> (made: ClientError)
        ensures
            made matches ClientError::Serialization(message) && to_string_from_display_ensures::<
                serde_json::Error,
            >(error, message),
    {
        ClientError::Serialization(error.to_string())
    }

    /// The error as one line of text: its kind, then its message.
    pub fn to_string(&self) -> (text: String)
        ensures
            text@ == self@.text(),
    {
        match self {
            ClientError::Connection(message) => {
                let mut text = String::from_str("Connection Error: ");
                text.append(message.as_str());
                text
            },
            ClientError::Serialization(message) => {
                let mut text = String::from_str("Serialization Error: ");
                text.append(message.as_str());
                text
            },
        }
    }
}

} // verus!
