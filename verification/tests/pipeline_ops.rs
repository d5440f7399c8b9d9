use std::cell::Cell;
use std::rc::Rc;

use agent_pipeline::agent_ops::{extract, lookup, prompt};
use agent_pipeline::completion::{CompletionModel, Prompt, PromptError};
use agent_pipeline::extractor::{decode_response, ExtractionError, Extractor};
use agent_pipeline::payload::FromJson;
use agent_pipeline::pipeline::{chain, ChainError, Op};
use agent_pipeline::vector_store::{VectorStoreError, VectorStoreIndex};

pub struct MockModel;

impl Prompt for MockModel {
    fn prompt(&self, prompt: &str) -> Result<String, PromptError> {
        Ok(format!("Mock response: {}", prompt))
    }
}

pub struct MockIndex;

impl VectorStoreIndex for MockIndex {
    fn top_n(
        &self,
        _query: &str,
        _n: usize,
    ) -> Result<Vec<(u64, String, serde_json::Value)>, VectorStoreError> {
        let doc: serde_json::Value = serde_json::from_str("{\"foo\": \"bar\"}").unwrap();
        Ok(vec![(1.0f64.to_bits(), "doc1".to_string(), doc)])
    }

    fn top_n_ids(&self, _query: &str, _n: usize) -> Result<Vec<(u64, String)>, VectorStoreError> {
        Ok(vec![(1.0f64.to_bits(), "doc1".to_string())])
    }
}

#[derive(Debug, PartialEq)]
pub struct Foo {
    pub foo: String,
}

impl FromJson for Foo {
    fn from_json(v: &serde_json::Value) -> Result<Foo, String> {
        match v.get("foo").and_then(|f| f.as_str()) {
            Some(s) => Ok(Foo { foo: s.to_string() }),
            None => Err("missing field foo".to_string()),
        }
    }
}

#[test]
fn test_lookup() {
    let index = MockIndex;
    let lookup_op = lookup::<MockIndex, String, Foo>(index, 1);

    let result = lookup_op.call("query".to_string()).unwrap();
    assert_eq!(
        result,
        vec![(
            1.0f64.to_bits(),
            "doc1".to_string(),
            Foo {
                foo: "bar".to_string()
            }
        )]
    );
}

#[test]
fn test_prompt() {
    let model = MockModel;
    let prompt_op = prompt::<MockModel, String>(model);

    let result = prompt_op.call("hello".to_string()).unwrap();
    assert_eq!(result, "Mock response: hello");
}

/// An index that holds three documents and honors the requested count.
pub struct ThreeDocIndex;

impl ThreeDocIndex {
    fn docs() -> Vec<(u64, String, serde_json::Value)> {
        let mk = |id: &str, val: &str| {
            let doc: serde_json::Value =
                serde_json::from_str(&format!("{{\"foo\": \"{}\"}}", val)).unwrap();
            (1.0f64.to_bits(), id.to_string(), doc)
        };
        vec![mk("a", "one"), mk("b", "two"), mk("c", "three")]
    }
}

impl VectorStoreIndex for ThreeDocIndex {
    fn top_n(
        &self,
        _query: &str,
        n: usize,
    ) -> Result<Vec<(u64, String, serde_json::Value)>, VectorStoreError> {
        let mut docs = Self::docs();
        docs.truncate(n);
        Ok(docs)
    }

    fn top_n_ids(&self, query: &str, n: usize) -> Result<Vec<(u64, String)>, VectorStoreError> {
        Ok(self
            .top_n(query, n)?
            .into_iter()
            .map(|(score, id, _)| (score, id))
            .collect())
    }
}

#[test]
fn lookup_returns_min_of_n_and_available() {
    let two = lookup::<ThreeDocIndex, String, Foo>(ThreeDocIndex, 2);
    let result = two.call("q".to_string()).unwrap();
    assert_eq!(result.len(), 2);
    assert_eq!(result[0].1, "a");
    assert_eq!(result[1].1, "b");

    let many = lookup::<ThreeDocIndex, String, Foo>(ThreeDocIndex, 10);
    let result = many.call("q".to_string()).unwrap();
    assert_eq!(result.len(), 3);
}

#[test]
fn lookup_with_zero_count_returns_empty_without_error() {
    let zero = lookup::<ThreeDocIndex, String, Foo>(ThreeDocIndex, 0);
    let result = zero.call("q".to_string()).unwrap();
    assert!(result.is_empty());
}

/// An index whose second document does not fit the payload type.
pub struct BadPayloadIndex;

impl VectorStoreIndex for BadPayloadIndex {
    fn top_n(
        &self,
        _query: &str,
        _n: usize,
    ) -> Result<Vec<(u64, String, serde_json::Value)>, VectorStoreError> {
        let good: serde_json::Value = serde_json::from_str("{\"foo\": \"ok\"}").unwrap();
        let bad: serde_json::Value = serde_json::from_str("{\"other\": 3}").unwrap();
        Ok(vec![
            (1.0f64.to_bits(), "good".to_string(), good),
            (0.5f64.to_bits(), "bad".to_string(), bad),
        ])
    }

    fn top_n_ids(&self, _query: &str, _n: usize) -> Result<Vec<(u64, String)>, VectorStoreError> {
        Ok(vec![])
    }
}

#[test]
fn lookup_fails_whole_call_on_one_bad_payload() {
    let op = lookup::<BadPayloadIndex, String, Foo>(BadPayloadIndex, 2);
    match op.call("q".to_string()) {
        Err(VectorStoreError::Deserialization(m)) => assert_eq!(m, "missing field foo"),
        other => panic!("expected a deserialization failure, got {:?}", other.map(|v| v.len())),
    }
}

/// An index that always reports itself unavailable.
pub struct DownIndex;

impl VectorStoreIndex for DownIndex {
    fn top_n(
        &self,
        _query: &str,
        _n: usize,
    ) -> Result<Vec<(u64, String, serde_json::Value)>, VectorStoreError> {
        Err(VectorStoreError::IndexUnavailable("connection refused".to_string()))
    }

    fn top_n_ids(&self, _query: &str, n: usize) -> Result<Vec<(u64, String)>, VectorStoreError> {
        Err(VectorStoreError::InvalidCount(n))
    }
}

#[test]
fn lookup_surfaces_index_unavailable() {
    let op = lookup::<DownIndex, String, Foo>(DownIndex, 1);
    assert_eq!(
        op.call("q".to_string()),
        Err(VectorStoreError::IndexUnavailable("connection refused".to_string()))
    );
}

#[test]
fn top_n_ids_surfaces_invalid_count() {
    assert_eq!(
        DownIndex.top_n_ids("q", 7),
        Err(VectorStoreError::InvalidCount(7))
    );
}

/// A backend that always fails with a generation error.
pub struct FailingModel;

impl Prompt for FailingModel {
    fn prompt(&self, _prompt: &str) -> Result<String, PromptError> {
        Err(PromptError::Generation("model overloaded".to_string()))
    }
}

#[test]
fn prompt_surfaces_backend_failure() {
    let op = prompt::<FailingModel, String>(FailingModel);
    assert_eq!(
        op.call("hello".to_string()),
        Err(PromptError::Generation("model overloaded".to_string()))
    );
}

/// A backend whose answer cannot be understood.
pub struct GarbledModel;

impl Prompt for GarbledModel {
    fn prompt(&self, _prompt: &str) -> Result<String, PromptError> {
        Err(PromptError::MalformedResponse("truncated frame".to_string()))
    }
}

#[test]
fn prompt_surfaces_malformed_response() {
    let op = prompt::<GarbledModel, String>(GarbledModel);
    assert_eq!(
        op.call("hello".to_string()),
        Err(PromptError::MalformedResponse("truncated frame".to_string()))
    );
}

/// A completion model that echoes a fixed response.
pub struct FixedModel(pub &'static str);

impl CompletionModel for FixedModel {
    fn complete(&self, _text: &str) -> Result<String, PromptError> {
        Ok(self.0.to_string())
    }
}

/// A completion model that cannot be reached.
pub struct UnreachableModel;

impl CompletionModel for UnreachableModel {
    fn complete(&self, _text: &str) -> Result<String, PromptError> {
        Err(PromptError::Unreachable("no route to host".to_string()))
    }
}

#[test]
fn extractor_returns_schema_validated_value() {
    let ex: Extractor<FixedModel, Foo> = Extractor::new(FixedModel("{\"foo\": \"bar\"}"));
    assert_eq!(ex.extract("some text"), Ok(Foo { foo: "bar".to_string() }));
}

#[test]
fn extractor_reports_malformed_json_as_validation_failure() {
    let ex: Extractor<FixedModel, Foo> = Extractor::new(FixedModel("this is not json"));
    match ex.extract("some text") {
        Err(ExtractionError::Validation(_)) => {}
        other => panic!("expected the validation variant, got {:?}", other),
    }
}

#[test]
fn extractor_reports_schema_mismatch_as_validation_failure() {
    let ex: Extractor<FixedModel, Foo> = Extractor::new(FixedModel("{\"other\": 1}"));
    assert_eq!(
        ex.extract("some text"),
        Err(ExtractionError::Validation("missing field foo".to_string()))
    );
}

#[test]
fn extractor_reports_backend_failure_as_prompt_failure() {
    let ex: Extractor<UnreachableModel, Foo> = Extractor::new(UnreachableModel);
    assert_eq!(
        ex.extract("some text"),
        Err(ExtractionError::Prompt(PromptError::Unreachable("no route to host".to_string())))
    );
}

#[test]
fn extract_operation_delegates_to_extractor() {
    let ex: Extractor<FixedModel, Foo> = Extractor::new(FixedModel("{\"foo\": \"deep\"}"));
    let op = extract::<FixedModel, String, Foo>(ex);
    assert_eq!(op.call("text".to_string()), Ok(Foo { foo: "deep".to_string() }));
}

#[test]
fn decode_response_distinguishes_parse_and_validation() {
    assert!(matches!(
        decode_response::<Foo>("not json"),
        Err(ExtractionError::Validation(_))
    ));
    assert_eq!(
        decode_response::<Foo>("{\"foo\": \"x\"}"),
        Ok(Foo { foo: "x".to_string() })
    );
}

/// Doubles its input; never fails.
pub struct Double;

impl Op for Double {
    type Input = i64;
    type Output = i64;
    type Error = String;

    fn call(&self, input: i64) -> Result<i64, String> {
        Ok(input * 2)
    }
}

/// Adds ten to its input; never fails.
pub struct AddTen;

impl Op for AddTen {
    type Input = i64;
    type Output = i64;
    type Error = String;

    fn call(&self, input: i64) -> Result<i64, String> {
        Ok(input + 10)
    }
}

/// Always fails.
pub struct AlwaysFail;

impl Op for AlwaysFail {
    type Input = i64;
    type Output = i64;
    type Error = String;

    fn call(&self, _input: i64) -> Result<i64, String> {
        Err("stage failed".to_string())
    }
}

/// Counts how often it is invoked; never fails.
pub struct Counting {
    pub calls: Rc<Cell<u32>>,
}

impl Op for Counting {
    type Input = i64;
    type Output = i64;
    type Error = String;

    fn call(&self, input: i64) -> Result<i64, String> {
        self.calls.set(self.calls.get() + 1);
        Ok(input)
    }
}

#[test]
fn chain_runs_both_stages_in_order() {
    let ch = chain(Double, AddTen);
    assert_eq!(ch.call(5), Ok(20));
}

#[test]
fn chain_reports_second_stage_failure() {
    let ch = chain(Double, AlwaysFail);
    assert_eq!(
        ch.call(5),
        Err(ChainError::Second("stage failed".to_string()))
    );
}

#[test]
fn chain_short_circuits_without_invoking_second_stage() {
    let calls = Rc::new(Cell::new(0u32));
    let ch = chain(
        AlwaysFail,
        Counting {
            calls: Rc::clone(&calls),
        },
    );
    assert_eq!(ch.call(5), Err(ChainError::First("stage failed".to_string())));
    assert_eq!(calls.get(), 0);
}

#[test]
fn chain_association_gives_identical_success() {
    let left = chain(chain(Double, AddTen), Double);
    let right = chain(Double, chain(AddTen, Double));
    assert_eq!(left.call(5), Ok(40));
    assert_eq!(right.call(5), Ok(40));
}

#[test]
fn chain_association_gives_identical_failure_stage() {
    let left = chain(chain(Double, AlwaysFail), AddTen);
    let right = chain(Double, chain(AlwaysFail, AddTen));
    // The middle stage fails in both groupings; only the tagging depth
    // differs, exactly as the re-association law states.
    assert_eq!(
        left.call(5),
        Err(ChainError::First(ChainError::Second("stage failed".to_string())))
    );
    assert_eq!(
        right.call(5),
        Err(ChainError::Second(ChainError::First("stage failed".to_string())))
    );
}

/// Joins the payload texts of a lookup result into one string.
pub struct JoinDocs;

impl Op for JoinDocs {
    type Input = Vec<(u64, String, Foo)>;
    type Output = String;
    type Error = String;

    fn call(&self, input: Vec<(u64, String, Foo)>) -> Result<String, String> {
        Ok(input
            .into_iter()
            .map(|(_, _, foo)| foo.foo)
            .collect::<Vec<_>>()
            .join(", "))
    }
}

#[test]
fn chained_lookup_and_prompt_pipeline() {
    // A two-stage pipeline: look a document up, then let the mock model
    // answer with the found payload's text.
    let pipeline = chain(
        chain(lookup::<MockIndex, String, Foo>(MockIndex, 1), JoinDocs),
        prompt::<MockModel, String>(MockModel),
    );
    assert_eq!(
        pipeline.call("query".to_string()),
        Ok("Mock response: bar".to_string())
    );
}
