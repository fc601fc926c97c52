//! The error taxonomy of the conversation loop.
use vstd::prelude::*;

verus! {

/// Every failure the library can report.
///
/// `Transport` and `Timeout` describe one failed completion attempt and are
/// retried by the request-execution layer; `NoSuchTool` and
/// `IncorrectToolCall` are recoverable inside the agent loop (a fresh turn is
/// issued); everything else is fatal and propagates to the caller.
#[derive(Debug, PartialEq)]
pub enum PromptError {
    /// The completion service or the network failed; carries its message.
    Transport(String),
    /// One attempt exceeded its deadline.
    Timeout,
    /// The model called a tool name that no registry entry matches.
    NoSuchTool(String),
    /// Tool arguments did not match the tool's schema: (schema, raw arguments).
    IncorrectToolCall(String, String),
    /// A terminal message arrived where the driver could not accept one.
    Unexpected(String),
    /// The response matches none of the known finish categories.
    UnsupportedResponse(String),
    /// Cumulative spend passed the cap; the triggering charge stays applied.
    BudgetExceeded,
    /// Every attempt was used up; carries the last error an attempt returned.
    RetryExhausted(Box<PromptError>),
    /// Every attempt timed out and none ever returned.
    AllAttemptsTimedOut,
    /// The executor was configured with zero attempts.
    NoAttemptsConfigured,
    /// A failure of a tool's own logic, reported by the tool.
    Other(String),
}

impl PromptError {
    /// Whether the agent loop recovers from this error by issuing a new turn
    /// instead of propagating it.
    pub open spec fn spec_recoverable(&self) -> bool {
        self matches PromptError::NoSuchTool(_) || self matches PromptError::IncorrectToolCall(_, _)
    }

    /// Recoverable errors trigger a fresh turn; all others abort the loop.
    pub fn is_recoverable(&self) -> (r: bool)
        ensures
            r == self.spec_recoverable(),
    {
        match self {
            PromptError::NoSuchTool(_) => true,
            PromptError::IncorrectToolCall(_, _) => true,
            _ => false,
        }
    }
}

} // verus!
