//! Decides whether a commit is part of the history of the commit that the
//! current nightly build was made from.
//!
//! The library holds the two decisions of that check: reading the nightly
//! build's version and commit out of the published build manifest, and the
//! bounded, page by page search of a commit's history for a given commit
//! identifier. Fetching the manifest and the history pages is left to the
//! caller, which hands the library what it fetched.

pub mod tree;
pub mod fetch;
pub mod toml_doc;
pub mod manifest;
pub mod json_doc;
pub mod outcome;
pub mod page;
pub mod query;
pub mod search;
