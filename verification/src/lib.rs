//! A searchable document store over a full-text inverted index, with a
//! structured query language and a vulnerability-advisory schema on top.

pub mod advisory;
pub mod collector;
pub mod document;
pub mod engine;
pub mod error;
pub mod grammar;
pub mod laws;
pub mod query;
pub mod rewrite;
pub mod schema;
pub mod store;
pub mod terms;
pub mod vexination;
