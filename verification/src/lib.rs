//! A composable operation pipeline for retrieval-augmented generation
//! workflows: typed, chainable operations (similarity lookup against a vector
//! index, free-text prompting against a completion backend, and
//! schema-constrained structured extraction) unified behind one operation
//! contract, with short-circuiting error composition.
//!
//! Backends (the vector index, the completion model, the extraction engine)
//! are external collaborators: they are described only at their boundary, as
//! traits whose contracts state what every implementation must deliver.

pub mod agent_ops;
pub mod chat;
pub mod completion;
pub mod config;
pub mod conversion;
pub mod explorer_data;
pub mod explorer_data2;
pub mod extractor;
pub mod logger;
pub mod payload;
pub mod pipeline;
pub mod vector_store;
pub mod wallet;

pub use completion::Message;
pub use completion::PromptError;
