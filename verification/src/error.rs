//! The ways in which a lookup can fail, and the message shown for each.

use vstd::prelude::*;
use crate::text::{decimal, decimal_text};

verus! {

/// Why a run, or one stage of it, did not succeed.
#[derive(Debug, PartialEq, Eq)]
pub enum OsintError {
    /// A required API key is not configured; the field names the variable.
    MissingApiKey(String),
    /// The lookup kind is none of those this tool knows.
    InvalidType,
    /// The provider answered with a status that is neither success nor rate limiting.
    HttpStatus(u16),
    /// The request did not get through, or the body could not be read.
    Transport(String),
    /// Every request of the budget was answered with rate limiting.
    AttemptsExceeded,
    /// The provider's body is not JSON.
    MalformedResponse,
    /// The report file could not be written.
    FileWrite(String),
    /// The summarizer service failed.
    Analysis(String),
}

/// `OsintError` with each text as a sequence of characters.
pub enum ErrorView {
    MissingApiKey(Seq<char>),
    InvalidType,
    HttpStatus(u16),
    Transport(Seq<char>),
    AttemptsExceeded,
    MalformedResponse,
    FileWrite(Seq<char>),
    Analysis(Seq<char>),
}

impl View for OsintError {
    type V = ErrorView;

    open spec fn view(&self) -> ErrorView {
        match self {
            OsintError::MissingApiKey(name) => ErrorView::MissingApiKey(name@),
            OsintError::InvalidType => ErrorView::InvalidType,
            OsintError::HttpStatus(code) => ErrorView::HttpStatus(*code),
            OsintError::Transport(reason) => ErrorView::Transport(reason@),
            OsintError::AttemptsExceeded => ErrorView::AttemptsExceeded,
            OsintError::MalformedResponse => ErrorView::MalformedResponse,
            OsintError::FileWrite(reason) => ErrorView::FileWrite(reason@),
            OsintError::Analysis(reason) => ErrorView::Analysis(reason@),
        }
    }
}

impl ErrorView {
    /// The message that a user reads for this error.
    pub open spec fn message(self) -> Seq<char> {
        match self {
            ErrorView::MissingApiKey(name) => "Missing API Key: "@ + name,
            ErrorView::InvalidType => "Invalid OSINT type"@,
            ErrorView::HttpStatus(code) => "HTTP request failed: API Error (status "@
                + decimal_text(code as nat) + ")"@,
            ErrorView::Transport(reason) => "HTTP request failed: "@ + reason,
            ErrorView::AttemptsExceeded => "HTTP request failed: Max retries exceeded"@,
            ErrorView::MalformedResponse => "Malformed response: Failed to parse JSON"@,
            ErrorView::FileWrite(reason) => "Failed to write report: "@ + reason,
            ErrorView::Analysis(reason) => "Analysis failed: "@ + reason,
        }
    }

    /// Whether the error came from the network: a refused status, a transport
    /// failure or an exhausted retry budget.
    pub open spec fn is_request_failure(self) -> bool {
        self is HttpStatus || self is Transport || self is AttemptsExceeded
    }
}

impl OsintError {
    /// The message that a user reads for this error.
    pub fn message(&self) -> (text: String)
        ensures
            text@ == self@.message(),
    {
        match self {
            OsintError::MissingApiKey(name) => String::from_str("Missing API Key: ").concat(
                name.as_str(),
            ),
            OsintError::InvalidType => String::from_str("Invalid OSINT type"),
            OsintError::HttpStatus(code) => {
                let numeral: String = decimal(*code as u64);
                String::from_str("HTTP request failed: API Error (status ").concat(
                    numeral.as_str(),
                ).concat(")")
            },
            OsintError::Transport(reason) => String::from_str("HTTP request failed: ").concat(
                reason.as_str(),
            ),
            OsintError::AttemptsExceeded => String::from_str(
                "HTTP request failed: Max retries exceeded",
            ),
            OsintError::MalformedResponse => String::from_str(
                "Malformed response: Failed to parse JSON",
            ),
            OsintError::FileWrite(reason) => String::from_str("Failed to write report: ").concat(
                reason.as_str(),
            ),
            OsintError::Analysis(reason) => String::from_str("Analysis failed: ").concat(
                reason.as_str(),
            ),
        }
    }

    /// Whether the error came from the network rather than from the
    /// configuration, the response's content or a later stage.
    pub fn is_request_failure(&self) -> (r: bool)
        ensures
            r == self@.is_request_failure(),
    {
        match self {
            OsintError::HttpStatus(_) => true,
            OsintError::Transport(_) => true,
            OsintError::AttemptsExceeded => true,
            _ => false,
        }
    }
}

} // verus!
