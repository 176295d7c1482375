//! A provider's answer. The library imposes no schema on it: it checks that
//! the body is JSON and keeps the value as its compact text, which is all
//! that the report and the summarizer read of it.

use vstd::prelude::*;
use crate::error::{ErrorView, OsintError};
use crate::fetch::opt_text;

verus! {

/// What `serde_json` makes of a text: `None` where the text is not exactly
/// one JSON value, else the compact rendering of the value that it parses to.
pub uninterp spec fn compact_json(text: Seq<char>) -> Option<Seq<char>>;

/// Parses `text` with `serde_json::from_str` as a `serde_json::Value` and
/// renders the value with `Value`'s `Display`, which writes compact JSON.
/// The contract claims only that the outcome is a function of the text, and
/// gives that function its name; nothing is claimed of what it holds.
#[verifier::external_body]
fn normalize_json(text: &str) -> (r: Option<String>)
    ensures
        opt_text(r) == compact_json(text@),
{
    match serde_json::from_str::<serde_json::Value>(text) {
        Ok(value) => Some(value.to_string()),
        Err(_) => None,
    }
}

/// A JSON value, held as its compact text.
#[derive(Debug, PartialEq, Eq)]
pub struct OsintResult {
    text: String,
}

impl View for OsintResult {
    type V = Seq<char>;

    closed spec fn view(&self) -> Seq<char> {
        self.text@
    }
}

/// The outcome of reading a body, given what the JSON parser made of it: a
/// body that is not JSON is a malformed response.
pub open spec fn interpreted(compact: Option<Seq<char>>) -> Result<Seq<char>, ErrorView> {
    match compact {
        Some(text) => Ok(text),
        None => Err(ErrorView::MalformedResponse),
    }
}

/// The view of the outcome of reading a body.
pub open spec fn outcome_view(outcome: Result<OsintResult, OsintError>) -> Result<
    Seq<char>,
    ErrorView,
> {
    match outcome {
        Ok(data) => Ok(data@),
        Err(error) => Err(error@),
    }
}

impl OsintResult {
    /// The compact JSON text of the value.
    pub fn as_str(&self) -> (text: &str)
        ensures
            text@ == self@,
    {
        self.text.as_str()
    }

    /// Takes what the JSON parser made of a body: the compact text becomes
    /// the result, and its absence the error `MalformedResponse`.
    pub fn interpret(compact: Option<String>) -> (r: Result<OsintResult, OsintError>)
        ensures
            outcome_view(r) == interpreted(opt_text(compact)),
    {
        match compact {
            Some(text) => Ok(OsintResult { text }),
            None => Err(OsintError::MalformedResponse),
        }
    }
}

/// Reads a provider's body. It is accepted exactly when it is JSON, and the
/// result then holds the compact text of its value; any other body is a
/// `MalformedResponse`, which no network failure is ever reported as.
pub fn parse_response(body: &str) -> (r: Result<OsintResult, OsintError>)
    ensures
        outcome_view(r) == interpreted(compact_json(body@)),
{
    OsintResult::interpret(normalize_json(body))
}

} // verus!
