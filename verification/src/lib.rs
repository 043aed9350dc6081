//! Keyword search over the text files below a directory.
//!
//! Each search builds an index in memory over the files that pass for
//! text, runs one query against it, and lets go of it. Reading the directory
//! is left to the caller, who hands in what it found as a `Listing`.

pub mod classify;
pub mod corpus;
pub mod engine;
pub mod index;
pub mod query;
pub mod report;
pub mod score;
pub mod seq_facts;
pub mod text;
pub mod tool;

pub use crate::tool::SearchParams;
pub use crate::tool::SearchTool;
