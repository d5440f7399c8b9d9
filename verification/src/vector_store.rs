//! The vector-index boundary: top-k similarity search.
//!
//! An index holds, for every query, an ordered sequence of matches —
//! best-first, in whatever order the index produces; this layer never
//! re-sorts. Each match is a relevance score, an identifier, and a raw
//! payload. The score is carried as the bit pattern of the index's
//! floating-point relevance measure: this layer never computes with it,
//! only preserves it.

use vstd::prelude::*;

verus! {

/// A failure from the vector-store boundary.
#[derive(Debug, Clone, PartialEq, Eq)]
pub enum VectorStoreError {
    /// The index could not be reached or failed while answering.
    IndexUnavailable(String),
    /// A stored payload did not decode into the requested type.
    Deserialization(String),
    /// The index rejected the requested result count.
    InvalidCount(usize),
}

/// The view of one returned match: score bits, identifier, raw payload.
pub open spec fn match_view(m: (u64, String, serde_json::Value)) -> (
    u64,
    Seq<char>,
    serde_json::Value,
) {
    (m.0, m.1@, m.2)
}

/// The view of a returned match list.
pub open spec fn matches_view(ms: Seq<(u64, String, serde_json::Value)>) -> Seq<
    (u64, Seq<char>, serde_json::Value),
> {
    ms.map_values(|m: (u64, String, serde_json::Value)| match_view(m))
}

/// The first `n` matches of a match list, or all of them when fewer than
/// `n` are available.
pub open spec fn top_matches(
    ms: Seq<(u64, Seq<char>, serde_json::Value)>,
    n: nat,
) -> Seq<(u64, Seq<char>, serde_json::Value)> {
    if n <= ms.len() {
        ms.take(n as int)
    } else {
        ms
    }
}

/// The vector-index capability. Implementations are supplied by users of
/// the library; `matches` is the implementation's own description of what
/// it holds for each query, and a successful answer is exactly the first
/// `min(n, available)` of those matches. An implementation remains free to
/// fail any call (an index behind a network can), but whatever it returns
/// successfully must agree with `matches`.
pub trait VectorStoreIndex {
    /// All matches this index produces for a query, best-first. An
    /// implementation describes its own contents by overriding this;
    /// left unoverridden, the contents are some fixed unspecified list.
    open spec fn matches(&self, query: Seq<char>) -> Seq<(u64, Seq<char>, serde_json::Value)> {
        arbitrary()
    }

    /// The `n` most relevant entries for the query, with raw payloads.
    fn top_n(&self, query: &str, n: usize) -> (r: Result<
        Vec<(u64, String, serde_json::Value)>,
        VectorStoreError,
    >)
        ensures
            r matches Ok(v) ==> matches_view(v@) == top_matches(self.matches(query@), n as nat),
    ;

    /// The `n` most relevant entries for the query, scores and
    /// identifiers only.
    fn top_n_ids(&self, query: &str, n: usize) -> (r: Result<Vec<(u64, String)>, VectorStoreError>)
        ensures
            r matches Ok(v) ==> v@.map_values(|m: (u64, String)| (m.0, m.1@)) == top_matches(
                self.matches(query@),
                n as nat,
            ).map_values(|m: (u64, Seq<char>, serde_json::Value)| (m.0, m.1)),
    ;
}

} // verus!
