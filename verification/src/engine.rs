//! The search engine, behind contracts that are taken on trust. Everything
//! else in the library is proved against what is stated here.

pub mod documents;
pub mod fields;
pub mod index;
pub mod queries;
