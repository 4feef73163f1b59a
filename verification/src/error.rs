//! The fatal conditions of the engine.

use vstd::prelude::*;
use vstd::string::*;

verus! {

/// A fatal condition: it ends the round in which it arises and the run with it.
///
/// A variant that carries a text holds the message of the collaborator that
/// failed, unchanged.
#[derive(Clone, Debug, PartialEq, Eq)]
pub enum Error {
    /// The session with a provider could not be initialised.
    McpClientError(String),
    /// The event-stream transport to a provider failed.
    McpSseError(String),
    /// The child process of a provider could not be started.
    McpStdioError(String),
    /// A request to a provider failed.
    McpServiceError(String),
    /// A prompt could not be evaluated.
    PromptError(String),
    /// The completion request failed.
    CompletionError(String),
    /// A tool that the model called failed.
    ToolsetError(String),
    /// The remaining budget is at or below the configured floor.
    BudgetExhausted,
    /// A request to the remote ledger failed.
    ApiError(String),
    /// A claim is larger than its unit can express.
    AmountOverflow,
}

pub enum ErrorView {
    McpClientError(Seq<char>),
    McpSseError(Seq<char>),
    McpStdioError(Seq<char>),
    McpServiceError(Seq<char>),
    PromptError(Seq<char>),
    CompletionError(Seq<char>),
    ToolsetError(Seq<char>),
    BudgetExhausted,
    ApiError(Seq<char>),
    AmountOverflow,
}

impl View for Error {
    type V = ErrorView;

    open spec fn view(&self) -> ErrorView {
        match self {
            Error::McpClientError(m) => ErrorView::McpClientError(m@),
            Error::McpSseError(m) => ErrorView::McpSseError(m@),
            Error::McpStdioError(m) => ErrorView::McpStdioError(m@),
            Error::McpServiceError(m) => ErrorView::McpServiceError(m@),
            Error::PromptError(m) => ErrorView::PromptError(m@),
            Error::CompletionError(m) => ErrorView::CompletionError(m@),
            Error::ToolsetError(m) => ErrorView::ToolsetError(m@),
            Error::BudgetExhausted => ErrorView::BudgetExhausted,
            Error::ApiError(m) => ErrorView::ApiError(m@),
            Error::AmountOverflow => ErrorView::AmountOverflow,
        }
    }
}

impl ErrorView {
    /// The text that describes the condition.
    pub open spec fn message(self) -> Seq<char> {
        match self {
            ErrorView::McpClientError(m) => "mcp error: "@ + m,
            ErrorView::McpSseError(m) => "mcp error: "@ + m,
            ErrorView::McpStdioError(m) => "mcp error: "@ + m,
            ErrorView::McpServiceError(m) => "mcp error: "@ + m,
            ErrorView::PromptError(m) => "completion error: "@ + m,
            ErrorView::CompletionError(m) => "completion error: "@ + m,
            ErrorView::ToolsetError(m) => "tool error: "@ + m,
            ErrorView::BudgetExhausted => "budget exhausted"@,
            ErrorView::ApiError(m) => "api error "@ + m,
            ErrorView::AmountOverflow => "claim amount out of range"@,
        }
    }
}

/// `prefix` followed by `detail`.
fn prefixed(prefix: &str, detail: &String) -> (text: String)
    ensures
        text@ == prefix@ + detail@,
{
    let mut text = String::from_str(prefix);
    text.append(detail.as_str());
    text
}

impl Error {
    /// The text that describes the condition.
    pub fn message(&self) -> (text: String)
        ensures
            text@ == self@.message(),
    {
        match self {
            Error::McpClientError(m) => prefixed("mcp error: ", m),
            Error::McpSseError(m) => prefixed("mcp error: ", m),
            Error::McpStdioError(m) => prefixed("mcp error: ", m),
            Error::McpServiceError(m) => prefixed("mcp error: ", m),
            Error::PromptError(m) => prefixed("completion error: ", m),
            Error::CompletionError(m) => prefixed("completion error: ", m),
            Error::ToolsetError(m) => prefixed("tool error: ", m),
            Error::BudgetExhausted => String::from_str("budget exhausted"),
            Error::ApiError(m) => prefixed("api error ", m),
            Error::AmountOverflow => String::from_str("claim amount out of range"),
        }
    }
}

} // verus!
