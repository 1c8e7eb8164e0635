//! Error types of the API client and of the application.

use vstd::prelude::*;
use vstd::string::StringExecFns;
use crate::text::{decimal, push_decimal};
use crate::types::ApiError;

verus! {

/// `reqwest::Error`, carried opaquely: the error of a failed HTTP request.
#[verifier::external_type_specification]
#[verifier::external_body]
pub struct ExReqwestError(reqwest::Error);

/// `url::ParseError`, carried opaquely: why a URL did not parse.
#[verifier::external_type_specification]
#[verifier::external_body]
pub struct ExUrlParseError(url::ParseError);

/// `std::io::Error`, carried opaquely.
#[verifier::external_type_specification]
#[verifier::external_body]
pub struct ExIoError(std::io::Error);

/// The errors of the Board API client.
#[derive(Debug)]
pub enum BoardApiError {
    /// The HTTP request failed.
    Request(reqwest::Error),
    /// The API answered with an error response.
    Api { message: String, status: u16 },
    /// The response could not be parsed.
    Parse(String),
    /// A URL did not parse.
    InvalidUrl(url::ParseError),
    /// An I/O error.
    Io(std::io::Error),
    /// No device code is set: register a device first.
    NoDeviceCode,
    /// The paste ID is malformed.
    InvalidPasteId(String),
    /// The content exceeds the size limit.
    ContentTooLarge,
    /// Too many requests: try again later.
    RateLimited,
    /// The request timed out.
    Timeout,
}

impl From<ApiError> for BoardApiError {
    fn from(api_error: ApiError) -> (r: Self) {
        BoardApiError::Api { message: api_error.error, status: api_error.status }
    }
}

impl vstd::std_specs::convert::FromSpecImpl<ApiError> for BoardApiError {
    open spec fn obeys_from_spec() -> bool {
        true
    }

    open spec fn from_spec(v: ApiError) -> Self {
        BoardApiError::Api { message: v.error, status: v.status }
    }
}

/// Calls `ToString::to_string` on a `reqwest::Error`: its `Display` text,
/// which depends on what failed inside reqwest. Nothing is stated of it.
#[verifier::external_body]
fn reqwest_error_text(e: &reqwest::Error) -> String {
    e.to_string()
}

/// Calls `ToString::to_string` on a `url::ParseError`: its `Display` text.
/// Which text goes with which refusal is not stated.
#[verifier::external_body]
fn url_error_text(e: &url::ParseError) -> String {
    e.to_string()
}

/// Calls `ToString::to_string` on a `std::io::Error`: its `Display` text,
/// which depends on the operating system's error. Nothing is stated of it.
#[verifier::external_body]
fn io_error_text(e: &std::io::Error) -> String {
    e.to_string()
}

/// Whether `s` begins with `p`.
pub open spec fn has_prefix(s: Seq<char>, p: Seq<char>) -> bool {
    p.len() <= s.len() && s.subrange(0, p.len() as int) == p
}

/// The message of an error of the client, where it is made of the error's
/// own fields: every variant but those that carry an error of reqwest, of
/// the URL parser or of the operating system.
pub open spec fn api_error_message(e: BoardApiError) -> Option<Seq<char>> {
    match e {
        BoardApiError::Api { message, status } => Some(
            "API error: "@ + message@ + " (status: "@ + decimal(status as nat) + ")"@,
        ),
        BoardApiError::Parse(m) => Some("Failed to parse response: "@ + m@),
        BoardApiError::NoDeviceCode => Some("Device code not set - call register_device() first"@),
        BoardApiError::InvalidPasteId(id) => Some("Invalid paste ID: "@ + id@),
        BoardApiError::ContentTooLarge => Some("Content exceeds maximum size limit"@),
        BoardApiError::RateLimited => Some("Rate limit exceeded - try again later"@),
        BoardApiError::Timeout => Some("Request timed out"@),
        _ => None,
    }
}

impl BoardApiError {
    /// The message of the error, as it is shown to the user: for an error
    /// of reqwest, of the URL parser or of the operating system, a fixed
    /// lead-in followed by that error's own text.
    pub fn message(&self) -> (r: String)
        ensures
            api_error_message(*self) matches Some(m) ==> r@ == m,
            *self is Request ==> has_prefix(r@, "HTTP request failed: "@),
            *self is InvalidUrl ==> has_prefix(r@, "Invalid URL: "@),
            *self is Io ==> has_prefix(r@, "IO error: "@),
    {
        let (mut r, detail) = match self {
            BoardApiError::Request(e) => ("HTTP request failed: ".to_owned(), reqwest_error_text(e)),
            BoardApiError::Api { message, status } => {
                let mut t = "API error: ".to_owned();
                t.append(message.as_str());
                t.append(" (status: ");
                push_decimal(&mut t, *status as usize);
                (t, ")".to_owned())
            },
            BoardApiError::Parse(m) => ("Failed to parse response: ".to_owned(), m.clone()),
            BoardApiError::InvalidUrl(e) => ("Invalid URL: ".to_owned(), url_error_text(e)),
            BoardApiError::Io(e) => ("IO error: ".to_owned(), io_error_text(e)),
            BoardApiError::NoDeviceCode => (
                "Device code not set - call register_device() first".to_owned(),
                String::new(),
            ),
            BoardApiError::InvalidPasteId(id) => ("Invalid paste ID: ".to_owned(), id.clone()),
            BoardApiError::ContentTooLarge => (
                "Content exceeds maximum size limit".to_owned(),
                String::new(),
            ),
            BoardApiError::RateLimited => (
                "Rate limit exceeded - try again later".to_owned(),
                String::new(),
            ),
            BoardApiError::Timeout => ("Request timed out".to_owned(), String::new()),
        };
        let ghost lead = r@;
        r.append(detail.as_str());
        assert(r@.subrange(0, lead.len() as int) =~= lead);
        r
    }
}

/// The errors of the application.
#[derive(Debug)]
pub enum AppError {
    /// An I/O error.
    Io(std::io::Error),
    /// The configuration is wrong.
    Config(String),
    /// Something did not parse.
    Parse(String),
    /// The terminal failed.
    Terminal(String),
}

} // verus!
