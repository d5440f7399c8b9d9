//! Schema-constrained structured extraction.
//!
//! An extractor is bound to a completion backend and a target type. It
//! prompts the backend for a JSON rendering of the input text, parses the
//! response, and validates it against the target type's decoding. Its
//! failure always distinguishes the completion step failing from the
//! completion succeeding with output that does not parse or validate —
//! a caller retrying transient completion failures must never retry a
//! permanent schema mismatch.

use vstd::prelude::*;
use vstd::string::StringExecFns;
use core::marker::PhantomData;
use crate::completion::{CompletionModel, PromptError};
use crate::payload::{parse_json, parsed_json, FromJson};

verus! {

/// Failure of a structured extraction.
#[derive(Debug, Clone, PartialEq, Eq)]
pub enum ExtractionError {
    /// The completion step itself failed.
    Prompt(PromptError),
    /// The completion succeeded, but its output could not be parsed as
    /// JSON or did not validate against the target type.
    Validation(String),
}

/// The instruction prepended to the input text to elicit a response that
/// conforms to the target type.
pub open spec fn extraction_preamble() -> Seq<char> {
    "Respond with a single JSON object representing the following text:\n"@
}

/// The full prompt an extractor sends for an input text.
pub open spec fn extraction_prompt(text: Seq<char>) -> Seq<char> {
    extraction_preamble() + text
}

/// Builds the extraction prompt for an input text.
fn build_extraction_prompt(text: &str) -> (r: String)
    ensures
        r@ == extraction_prompt(text@),
{
    let mut s = String::from_str(
        "Respond with a single JSON object representing the following text:\n",
    );
    s.append(text);
    s
}

/// Decides what a completion response yields: the decoded value when the
/// response is valid JSON that validates against `T`, and otherwise the
/// validation failure — never the completion-failure variant.
pub fn decode_response<T: FromJson>(response: &str) -> (r: Result<T, ExtractionError>)
    ensures
        match parsed_json(response@) {
            Some(v) => match T::spec_from_json(v) {
                Ok(t) => r == Ok::<T, ExtractionError>(t),
                Err(m) => r == Err::<T, ExtractionError>(ExtractionError::Validation(m)),
            },
            None => r matches Err(e) && e is Validation,
        },
{
    match parse_json(response) {
        Err(m) => Err(ExtractionError::Validation(m)),
        Ok(v) => match T::from_json(&v) {
            Ok(t) => Ok(t),
            Err(m) => Err(ExtractionError::Validation(m)),
        },
    }
}

/// The structured-extraction engine: a completion backend together with a
/// target type `T` whose decoding validates the backend's response.
pub struct Extractor<M, T> {
    /// The completion backend the extractor is bound to.
    pub model: M,
    /// The target type the extractor is bound to.
    pub _marker: PhantomData<T>,
}

impl<M, T> Extractor<M, T> where M: CompletionModel, T: FromJson {
    /// Binds an extractor to a completion backend.
    pub fn new(model: M) -> (r: Self)
        ensures
            r.model == model,
    {
        Self { model, _marker: PhantomData }
    }

    /// The outcomes an extraction may produce for an input text. A
    /// completion-failure outcome carries exactly a failure the backend
    /// may produce for the extraction prompt; any other outcome passes
    /// through some successful backend response, decoded by `T`.
    pub open spec fn extract_post(&self, text: Seq<char>, outcome: Result<
        T,
        ExtractionError,
    >) -> bool {
        let p = extraction_prompt(text);
        match outcome {
            Result::Err(ExtractionError::Prompt(e)) => self.model.spec_complete(p, Err(e)),
            Result::Err(ExtractionError::Validation(_)) => exists|resp: Seq<char>|
                #[trigger] self.model.spec_complete(p, Ok(resp)) && (parsed_json(resp) is None
                    || T::spec_from_json(parsed_json(resp)->Some_0) is Err),
            Result::Ok(t) => exists|resp: Seq<char>|
                #[trigger] self.model.spec_complete(p, Ok(resp)) && parsed_json(resp) is Some
                    && T::spec_from_json(parsed_json(resp)->Some_0) == Ok::<T, String>(t),
        }
    }

    /// Prompts the backend with the extraction prompt for the text,
    /// parses the response, and validates it against `T`.
    pub fn extract(&self, text: &str) -> (r: Result<T, ExtractionError>)
        ensures
            self.extract_post(text@, r),
    {
        let prompt_text = build_extraction_prompt(text);
        match self.model.complete(prompt_text.as_str()) {
            Err(e) => Err(ExtractionError::Prompt(e)),
            Ok(response) => {
                let ghost resp_view = response@;
                let r = decode_response::<T>(response.as_str());
                proof {
                    assert(self.model.spec_complete(extraction_prompt(text@), Ok(resp_view)));
                }
                r
            },
        }
    }
}

} // verus!
