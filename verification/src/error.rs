//! Errors of the application, each with the message shown to the user.
//!
//! An error that a lower layer raised (terminal, network, decoding) is held
//! by its message: the session state only ever shows it.

use vstd::prelude::*;
use vstd::string::*;

verus! {

/// A failed request to the local daemon.
#[derive(Debug)]
pub enum ApiError {
    /// The request could not be sent or answered; holds the transport's message.
    Reqwest(String),
    /// The answer could not be decoded; holds the decoder's message.
    Deserialization(String),
    /// The daemon answered with a status other than success.
    ResponseError(String),
}

/// Any failure that reaches the session state.
#[derive(Debug)]
pub enum AppError {
    /// Terminal or process I/O failed; holds the I/O error's message.
    Io(String),
    /// A request to the local daemon failed.
    Api(ApiError),
    /// A registry page did not have the expected structure.
    Scraping(String),
    /// An external command ended with a status other than success.
    Command(String),
}

impl ApiError {
    /// The message of the error.
    pub open spec fn text(&self) -> Seq<char> {
        match self {
            ApiError::Reqwest(m) => "Network request failed: "@ + m@,
            ApiError::Deserialization(m) => "Failed to parse API response: "@ + m@,
            ApiError::ResponseError(m) => "API returned an error: "@ + m@,
        }
    }

    /// The message of the error, as shown to the user.
    pub fn message(&self) -> (r: String)
        ensures
            r@ == self.text(),
    {
        match self {
            ApiError::Reqwest(m) => String::from_str("Network request failed: ").concat(m.as_str()),
            ApiError::Deserialization(m) => String::from_str(
                "Failed to parse API response: ",
            ).concat(m.as_str()),
            ApiError::ResponseError(m) => String::from_str("API returned an error: ").concat(
                m.as_str(),
            ),
        }
    }
}

impl AppError {
    /// The message of the error.
    pub open spec fn text(&self) -> Seq<char> {
        match self {
            AppError::Io(m) => "Terminal I/O error: "@ + m@,
            AppError::Api(e) => "API error: "@ + e.text(),
            AppError::Scraping(m) => "Web scraping error: "@ + m@,
            AppError::Command(m) => "External command error: "@ + m@,
        }
    }

    /// The message of the error, as shown to the user.
    pub fn message(&self) -> (r: String)
        ensures
            r@ == self.text(),
    {
        match self {
            AppError::Io(m) => String::from_str("Terminal I/O error: ").concat(m.as_str()),
            AppError::Api(e) => {
                let inner = e.message();
                String::from_str("API error: ").concat(inner.as_str())
            },
            AppError::Scraping(m) => String::from_str("Web scraping error: ").concat(m.as_str()),
            AppError::Command(m) => String::from_str("External command error: ").concat(
                m.as_str(),
            ),
        }
    }
}

} // verus!
