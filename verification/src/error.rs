//! The error type of the command-line client and its exit codes.

use vstd::prelude::*;
use vstd::string::*;
use crate::text::decimal_string;

verus! {

#[verifier::external_type_specification]
#[verifier::external_body]
pub struct ExReqwestError(reqwest::Error);

#[verifier::external_type_specification]
#[verifier::external_body]
pub struct ExJsonError(serde_json::Error);

#[verifier::external_type_specification]
#[verifier::external_body]
pub struct ExIoError(std::io::Error);

/// Errors of the command-line client.
#[derive(Debug)]
pub enum AppError {
    Auth(String),
    Api { status: u16, message: String },
    Network(String),
    InvalidInput(String),
    Config(String),
    RateLimited,
    Http(reqwest::Error),
    Json(serde_json::Error),
    Io(std::io::Error),
}

/// `reqwest::Error`'s `Display` text. Nothing is stated of the text.
#[verifier::external_body]
fn reqwest_error_text(e: &reqwest::Error) -> String {
    e.to_string()
}

/// `serde_json::Error`'s `Display` text. Nothing is stated of the text.
#[verifier::external_body]
fn json_error_text(e: &serde_json::Error) -> String {
    e.to_string()
}

/// `std::io::Error`'s `Display` text. Nothing is stated of the text.
#[verifier::external_body]
fn io_error_text(e: &std::io::Error) -> String {
    e.to_string()
}

impl AppError {
    /// The process exit code for an error.
    pub open spec fn code(&self) -> i32 {
        match self {
            AppError::Auth(_) => 2,
            AppError::Api { .. } => 3,
            AppError::Network(_) | AppError::Http(_) => 4,
            AppError::InvalidInput(_) => 5,
            _ => 1,
        }
    }

    pub fn exit_code(&self) -> (r: i32)
        ensures
            r == self.code(),
    {
        match self {
            AppError::Auth(_) => 2,
            AppError::Api { .. } => 3,
            AppError::Network(_) | AppError::Http(_) => 4,
            AppError::InvalidInput(_) => 5,
            _ => 1,
        }
    }

    /// The message of the error, for the variants whose text the library composes.
    pub open spec fn composed_message(&self) -> Option<Seq<char>> {
        match self {
            AppError::Auth(m) => Some("authentication error: "@ + m@),
            AppError::Api { status, message } => Some(
                "API error (status "@ + crate::text::decimal(*status as nat) + "): "@ + message@,
            ),
            AppError::Network(m) => Some("network error: "@ + m@),
            AppError::InvalidInput(m) => Some("invalid input: "@ + m@),
            AppError::Config(m) => Some("configuration error: "@ + m@),
            AppError::RateLimited => Some("rate limited, retry after backoff"@),
            _ => None,
        }
    }

    /// The message of the error, as printed after `Error: `. The wrapped errors
    /// of the HTTP client, the JSON library and I/O show their own text.
    pub fn message(&self) -> (r: String)
        ensures
            self.composed_message() matches Some(m) ==> r@ == m,
    {
        match self {
            AppError::Auth(m) => {
                let mut s = String::from_str("authentication error: ");
                s.append(m.as_str());
                s
            },
            AppError::Api { status, message } => {
                let mut s = String::from_str("API error (status ");
                let d = decimal_string(*status as u64);
                s.append(d.as_str());
                s.append("): ");
                s.append(message.as_str());
                s
            },
            AppError::Network(m) => {
                let mut s = String::from_str("network error: ");
                s.append(m.as_str());
                s
            },
            AppError::InvalidInput(m) => {
                let mut s = String::from_str("invalid input: ");
                s.append(m.as_str());
                s
            },
            AppError::Config(m) => {
                let mut s = String::from_str("configuration error: ");
                s.append(m.as_str());
                s
            },
            AppError::RateLimited => String::from_str("rate limited, retry after backoff"),
            AppError::Http(e) => reqwest_error_text(e),
            AppError::Json(e) => json_error_text(e),
            AppError::Io(e) => io_error_text(e),
        }
    }
}

} // verus!
