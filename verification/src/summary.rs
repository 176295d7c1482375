//! The summarizer: what is asked of the chat-completion service, and what
//! becomes of its answer.

use vstd::prelude::*;
use crate::error::{ErrorView, OsintError};
use crate::json::OsintResult;

verus! {

/// A request to the chat-completion service: the key, and the two messages
/// of the conversation.
#[derive(Debug, PartialEq, Eq)]
pub struct ChatRequest {
    pub api_key: String,
    /// The message in the role of the system.
    pub system: String,
    /// The message in the role of the user.
    pub user: String,
}

/// `ChatRequest` with each text as a sequence of characters.
pub struct ChatRequestView {
    pub api_key: Seq<char>,
    pub system: Seq<char>,
    pub user: Seq<char>,
}

impl View for ChatRequest {
    type V = ChatRequestView;

    open spec fn view(&self) -> ChatRequestView {
        ChatRequestView { api_key: self.api_key@, system: self.system@, user: self.user@ }
    }
}

/// The instruction that opens every conversation.
pub open spec fn system_text() -> Seq<char> {
    "You are a cybersecurity expert."@
}

/// The user's message: the result's text behind a fixed request.
pub open spec fn prompt_text(data: Seq<char>) -> Seq<char> {
    "Analyze this OSINT data: "@ + data
}

/// The conversation that asks for an analysis of `data`.
pub open spec fn chat_about(api_key: Seq<char>, data: Seq<char>) -> ChatRequestView {
    ChatRequestView { api_key, system: system_text(), user: prompt_text(data) }
}

/// What a run makes of the service's answer: its text as it came, or an
/// `Analysis` error that holds the service's reason.
pub open spec fn analysis_of(reply: Result<Seq<char>, Seq<char>>) -> Result<Seq<char>, ErrorView> {
    match reply {
        Ok(text) => Ok(text),
        Err(reason) => Err(ErrorView::Analysis(reason)),
    }
}

/// The characters of a reply or of the reason why there is none.
pub open spec fn reply_view(reply: Result<String, String>) -> Result<Seq<char>, Seq<char>> {
    match reply {
        Ok(text) => Ok(text@),
        Err(reason) => Err(reason@),
    }
}

/// The view of an analysis that may have failed.
pub open spec fn analysis_view(analysis: Result<String, OsintError>) -> Result<
    Seq<char>,
    ErrorView,
> {
    match analysis {
        Ok(text) => Ok(text@),
        Err(error) => Err(error@),
    }
}

/// Builds the request for an analysis of `data`: the fixed system message,
/// and the result's text in the user's message.
pub fn chat_request(api_key: &str, data: &OsintResult) -> (request: ChatRequest)
    ensures
        request@ == chat_about(api_key@, data@),
{
    ChatRequest {
        api_key: String::from_str(api_key),
        system: String::from_str("You are a cybersecurity expert."),
        user: String::from_str("Analyze this OSINT data: ").concat(data.as_str()),
    }
}

/// Takes the service's answer. The text of a reply is handed on unmodified;
/// any failure of the service is an `Analysis` error and never a success.
pub fn analysis_outcome(reply: Result<String, String>) -> (analysis: Result<String, OsintError>)
    ensures
        analysis_view(analysis) == analysis_of(reply_view(reply)),
        reply matches Ok(text) ==> analysis == Ok::<String, OsintError>(text),
{
    match reply {
        Ok(text) => Ok(text),
        Err(reason) => Err(OsintError::Analysis(reason)),
    }
}

} // verus!
