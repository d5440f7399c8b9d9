//! The pipeline operations that adapt backends to the operation contract:
//! similarity lookup against a vector index, free-text prompting against a
//! completion backend, and schema-constrained structured extraction.

use vstd::prelude::*;
use core::marker::PhantomData;
use crate::completion;
use crate::conversion::IntoText;
use crate::extractor::{ExtractionError, Extractor};
use crate::payload::FromJson;
use crate::pipeline::Op;
use crate::vector_store;
use crate::vector_store::{VectorStoreError, VectorStoreIndex};

verus! {

/// One decoded lookup result: the raw match's score and identifier are
/// preserved unchanged, and its payload decodes to the output payload.
pub open spec fn decoded_entry<T: FromJson>(
    raw: (u64, String, serde_json::Value),
    out: (u64, String, T),
) -> bool {
    &&& out.0 == raw.0
    &&& out.1@ == raw.1@
    &&& T::spec_from_json(raw.2) == Ok::<T, String>(out.2)
}

/// Decodes every payload of a raw match list into the caller-chosen type.
/// All-or-nothing: succeeds exactly when every payload decodes, and
/// otherwise fails with the first payload's decoding error, so one bad
/// stored document fails the whole lookup rather than being skipped.
pub fn decode_matches<T: FromJson>(raw: Vec<(u64, String, serde_json::Value)>) -> (r: Result<
    Vec<(u64, String, T)>,
    VectorStoreError,
>)
    ensures
        r is Ok <==> (forall|i: int|
            0 <= i < raw@.len() ==> (#[trigger] T::spec_from_json(raw@[i].2)) is Ok),
        r matches Ok(v) ==> v@.len() == raw@.len() && (forall|i: int|
            0 <= i < raw@.len() ==> decoded_entry(raw@[i], #[trigger] v@[i])),
        r matches Err(e) ==> e matches VectorStoreError::Deserialization(m) && (exists|i: int|
            0 <= i < raw@.len() && (#[trigger] T::spec_from_json(raw@[i].2)) == Err::<T, String>(
                m,
            ) && (forall|j: int| 0 <= j < i ==> (#[trigger] T::spec_from_json(raw@[j].2)) is Ok)),
{
    let mut out: Vec<(u64, String, T)> = Vec::new();
    let mut i: usize = 0;
    while i < raw.len()
        invariant
            0 <= i <= raw@.len(),
            out@.len() == i,
            forall|j: int| 0 <= j < i ==> decoded_entry(raw@[j], #[trigger] out@[j]),
            forall|j: int| 0 <= j < i ==> (#[trigger] T::spec_from_json(raw@[j].2)) is Ok,
        decreases raw@.len() - i,
    {
        let score = raw[i].0;
        let id = raw[i].1.clone();
        match T::from_json(&raw[i].2) {
            Ok(payload) => {
                out.push((score, id, payload));
            },
            Err(m) => {
                return Err(VectorStoreError::Deserialization(m));
            },
        }
        i += 1;
    }
    Ok(out)
}

/// Lookup operation: retrieves the top `n` documents for a query derived
/// from the input, decoding each stored payload into the caller-chosen
/// type `T`.
pub struct Lookup<I, In, T> {
    /// The vector-index handle the operation closes over.
    pub index: I,
    /// The requested result count.
    pub n: usize,
    /// The input and payload types the operation is fixed to.
    pub _marker: PhantomData<(In, T)>,
}

impl<I, In, T> Lookup<I, In, T> where I: VectorStoreIndex {
    pub(crate) fn new(index: I, n: usize) -> (r: Self)
        ensures
            r.index == index,
            r.n == n,
    {
        Self { index, n, _marker: PhantomData }
    }
}

impl<I, In, T> Op for Lookup<I, In, T> where
    I: VectorStoreIndex,
    In: IntoText,
    T: FromJson,
 {
    type Input = In;

    type Output = Vec<(u64, String, T)>;

    type Error = VectorStoreError;

    /// A successful lookup returns exactly `min(n, available)` entries —
    /// `n = 0` always succeeds with the empty sequence — each entry
    /// keeping its match's score and identifier and carrying its decoded
    /// payload. A failure can only happen for `n != 0`.
    open spec fn post(
        &self,
        input: In,
        outcome: Result<Vec<(u64, String, T)>, VectorStoreError>,
    ) -> bool {
        let ms = self.index.matches(input.spec_text());
        let k = vector_store::top_matches(ms, self.n as nat).len();
        match outcome {
            Result::Ok(v) => {
                &&& v@.len() == k
                &&& forall|i: int|
                    0 <= i < k ==> {
                        &&& (#[trigger] v@[i]).0 == ms[i].0
                        &&& v@[i].1@ == ms[i].1
                        &&& T::spec_from_json(ms[i].2) == Ok::<T, String>(v@[i].2)
                    }
            },
            Result::Err(_) => self.n != 0,
        }
    }

    /// Converts the input into a query string, asks the index for the `n`
    /// most relevant entries, and decodes every payload; `n = 0` returns
    /// the empty sequence without consulting the index.
    fn call(&self, input: In) -> (r: Result<Vec<(u64, String, T)>, VectorStoreError>) {
        let ghost ghost_input = input;
        let query: String = input.into_text();
        if self.n == 0 {
            let empty: Vec<(u64, String, T)> = Vec::new();
            return Ok(empty);
        }
        let ghost ms = self.index.matches(ghost_input.spec_text());
        let ghost top = vector_store::top_matches(ms, self.n as nat);
        match self.index.top_n(query.as_str(), self.n) {
            Err(e) => Err(e),
            Ok(raw) => {
                proof {
                    assert forall|i: int| 0 <= i < raw@.len() implies {
                        &&& (#[trigger] raw@[i]).0 == top[i].0
                        &&& raw@[i].1@ == top[i].1
                        &&& raw@[i].2 == top[i].2
                    } by {
                        assert(vector_store::matches_view(raw@)[i] == vector_store::match_view(
                            raw@[i],
                        ));
                    }
                    assert(forall|i: int| 0 <= i < top.len() ==> top[i] == ms[i]);
                }
                decode_matches::<T>(raw)
            },
        }
    }
}

/// Builds a lookup operation from a vector-index handle and a requested
/// result count.
pub fn lookup<I, In, T>(index: I, n: usize) -> (r: Lookup<I, In, T>) where
    I: VectorStoreIndex,
    In: IntoText,
    T: FromJson,

    ensures
        r.index == index,
        r.n == n,
{
    Lookup::new(index, n)
}

/// Prompt operation: converts the input into a prompt string and returns
/// the completion backend's generated text.
pub struct Prompt<P, In> {
    /// The completion-capable handle the operation closes over.
    pub prompt: P,
    /// The input type the operation is fixed to.
    pub _marker: PhantomData<In>,
}

impl<P, In> Prompt<P, In> {
    pub(crate) fn new(prompt: P) -> (r: Self)
        ensures
            r.prompt == prompt,
    {
        Self { prompt, _marker: PhantomData }
    }
}

impl<P, In> Op for Prompt<P, In> where P: completion::Prompt, In: IntoText {
    type Input = In;

    type Output = String;

    type Error = completion::PromptError;

    /// A prompt operation adds nothing of its own: its outcome is exactly
    /// an outcome of the backend on the converted input — in particular, a
    /// successful response string is returned unchanged.
    open spec fn post(
        &self,
        input: In,
        outcome: Result<String, completion::PromptError>,
    ) -> bool {
        self.prompt.spec_prompt(input.spec_text(), completion::outcome_view(outcome))
    }

    /// One request/response round trip: no retry, no streaming.
    fn call(&self, input: In) -> (r: Result<String, completion::PromptError>) {
        let text: String = input.into_text();
        self.prompt.prompt(text.as_str())
    }
}

/// Builds a prompt operation from a completion-capable handle.
pub fn prompt<P, In>(model: P) -> (r: Prompt<P, In>) where P: completion::Prompt, In: IntoText
    ensures
        r.prompt == model,
{
    Prompt::new(model)
}

/// Extract operation: converts the input into free text and returns the
/// extractor's schema-validated value.
pub struct Extract<M, Input, Output> {
    /// The extraction engine the operation closes over.
    pub extractor: Extractor<M, Output>,
    /// The input type the operation is fixed to.
    pub _marker: PhantomData<Input>,
}

impl<M, Input, Output> Extract<M, Input, Output> where
    M: completion::CompletionModel,
    Output: FromJson,
 {
    pub(crate) fn new(extractor: Extractor<M, Output>) -> (r: Self)
        ensures
            r.extractor == extractor,
    {
        Self { extractor, _marker: PhantomData }
    }
}

impl<M, Input, Output> Op for Extract<M, Input, Output> where
    M: completion::CompletionModel,
    Output: FromJson,
    Input: IntoText,
 {
    type Input = Input;

    type Output = Output;

    type Error = ExtractionError;

    /// An extract operation's outcome is exactly an outcome of its
    /// extractor on the converted input.
    open spec fn post(&self, input: Input, outcome: Result<Output, ExtractionError>) -> bool {
        self.extractor.extract_post(input.spec_text(), outcome)
    }

    /// Converts the input to text and delegates to the extractor.
    fn call(&self, input: Input) -> (r: Result<Output, ExtractionError>) {
        let text: String = input.into_text();
        self.extractor.extract(text.as_str())
    }
}

/// Builds an extract operation from an extractor.
pub fn extract<M, Input, Output>(extractor: Extractor<M, Output>) -> (r: Extract<
    M,
    Input,
    Output,
>) where M: completion::CompletionModel, Output: FromJson, Input: IntoText
    ensures
        r.extractor == extractor,
{
    Extract::new(extractor)
}

} // verus!
