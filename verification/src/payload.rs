//! Raw payloads and their decoding.
//!
//! A vector index stores each document's payload as a raw JSON value; the
//! caller of a lookup — not the index — chooses the type the payload is
//! decoded into. The raw value is carried through opaquely; decoding into a
//! caller-chosen type is the `FromJson` capability, implemented by users of
//! the library for their own payload types.

use vstd::prelude::*;

verus! {

/// Declares `serde_json::Value` so it can be carried through signatures
/// and fields. The value is opaque here: nothing in this crate inspects it.
#[verifier::external_type_specification]
#[verifier::external_body]
pub struct ExValue(serde_json::Value);

/// The JSON value a text parses to, if the text is valid JSON. Parsing
/// depends on the text alone, so the result can be named.
pub uninterp spec fn parsed_json(text: Seq<char>) -> Option<serde_json::Value>;

/// Relies on `serde_json::from_str::<serde_json::Value>`: returns the JSON
/// value the text parses to, or an error exactly when the text is not
/// valid JSON. The error is carried as its message.
#[verifier::external_body]
pub(crate) fn parse_json(text: &str) -> (r: Result<serde_json::Value, String>)
    ensures
        r matches Ok(v) ==> parsed_json(text@) == Some(v),
        r is Err ==> parsed_json(text@) is None,
{
    match serde_json::from_str::<serde_json::Value>(text) {
        Ok(v) => Ok(v),
        Err(e) => Err(e.to_string()),
    }
}

/// A deterministic decoding of a raw JSON value into a caller-chosen type,
/// or a message saying why the value does not fit. Implementations are
/// supplied by users of the library for their payload and extraction
/// target types; `spec_from_json` is the decoding each implementation
/// promises to compute.
pub trait FromJson: Sized {
    /// What this type's decoding returns on a raw value. Left
    /// unoverridden, the decoding is some fixed unspecified function.
    open spec fn spec_from_json(v: serde_json::Value) -> Result<Self, String> {
        arbitrary()
    }

    /// Decodes a raw value.
    fn from_json(v: &serde_json::Value) -> (r: Result<Self, String>)
        ensures
            r == Self::spec_from_json(*v),
    ;
}

} // verus!
