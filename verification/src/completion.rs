//! The completion-backend boundary: single-turn prompting and multi-turn
//! chat, both fallible. A backend turns a prompt string into a generated
//! string; nothing more is assumed of it. Each backend trait carries a
//! relational specification: a predicate over (input, outcome) pairs that
//! every outcome of the backend satisfies, so callers can reason about
//! whatever comes back without pretending the backend is deterministic.

use vstd::prelude::*;

verus! {

/// A failure reported by a completion backend: the backend could not be
/// reached, it reported a generation error, or its response was malformed.
#[derive(Debug, Clone, PartialEq, Eq)]
pub enum PromptError {
    /// The backend could not be reached at all.
    Unreachable(String),
    /// The backend was reached but reported an error while generating.
    Generation(String),
    /// The backend answered, but the response could not be understood.
    MalformedResponse(String),
}

/// One turn of a conversation, oldest-first in a history.
#[derive(Debug, Clone)]
pub struct Message {
    pub role: String,
    pub content: String,
}

/// The outcome of a completion call, with the response viewed as a
/// character sequence so specifications can speak about its contents.
pub open spec fn outcome_view(r: Result<String, PromptError>) -> Result<Seq<char>, PromptError> {
    match r {
        Ok(s) => Ok(s@),
        Err(e) => Err(e),
    }
}

/// Single-turn prompting capability. Implementations are supplied by users
/// of the library (network clients, mocks); `spec_prompt` is the
/// implementation's own description of which outcomes are possible for a
/// given prompt, and `prompt` promises only that its outcome is one of them.
pub trait Prompt {
    /// The set of outcomes this backend may produce for a prompt. Left
    /// unoverridden, it admits every outcome.
    open spec fn spec_prompt(
        &self,
        text: Seq<char>,
        outcome: Result<Seq<char>, PromptError>,
    ) -> bool {
        true
    }

    /// One request/response round trip: no retry, no streaming.
    fn prompt(&self, text: &str) -> (r: Result<String, PromptError>)
        ensures
            self.spec_prompt(text@, outcome_view(r)),
    ;
}

/// Low-level completion capability used by the structured extractor.
pub trait CompletionModel {
    /// The set of outcomes this model may produce for a prompt. Left
    /// unoverridden, it admits every outcome.
    open spec fn spec_complete(
        &self,
        text: Seq<char>,
        outcome: Result<Seq<char>, PromptError>,
    ) -> bool {
        true
    }

    /// One request/response round trip against the model.
    fn complete(&self, text: &str) -> (r: Result<String, PromptError>)
        ensures
            self.spec_complete(text@, outcome_view(r)),
    ;
}

/// Chat capability: a new message together with the conversation so far,
/// ordered oldest-first.
pub trait Chat {
    /// The set of outcomes this backend may produce for a chat turn.
    /// Left unoverridden, it admits every outcome.
    open spec fn spec_chat(
        &self,
        message: Seq<char>,
        history: Seq<Message>,
        outcome: Result<Seq<char>, PromptError>,
    ) -> bool {
        true
    }

    /// One chat turn against the backend.
    fn chat(&self, message: &str, history: Vec<Message>) -> (r: Result<String, PromptError>)
        ensures
            self.spec_chat(message@, history@, outcome_view(r)),
    ;
}

} // verus!
