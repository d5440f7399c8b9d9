//! Conversion of operation inputs into query or prompt text.
//!
//! Every pipeline operation first turns its input into a string. The
//! conversion must be total for the chosen input type — failure to convert
//! is a construction-time type error, never a runtime failure — so it is a
//! trait with a deterministic specification.

use vstd::prelude::*;

verus! {

/// A total, deterministic conversion of a value into text. `spec_text` is
/// the text the value stands for; `into_text` produces exactly it.
pub trait IntoText: Sized {
    /// The text this value converts to.
    spec fn spec_text(&self) -> Seq<char>;

    /// Performs the conversion.
    fn into_text(self) -> (r: String)
        ensures
            r@ == self.spec_text(),
    ;
}

impl IntoText for String {
    open spec fn spec_text(&self) -> Seq<char> {
        self@
    }

    fn into_text(self) -> (r: String) {
        self
    }
}

} // verus!
