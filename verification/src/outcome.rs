//! How a search of a commit's history can end.

use vstd::prelude::*;

verus! {

/// Why a search ended without an answer.
#[derive(Clone, Copy, Debug, PartialEq, Eq, Structural)]
pub enum SearchError {
    /// A page could not be fetched.
    Transport,
    /// The remote service turned the caller's credentials down.
    Auth,
    /// A page was fetched and is not a history page.
    InvalidResponse,
    /// The query for a page could not be written.
    Template,
}

/// The answer of a search.
#[derive(Clone, Copy, Debug, PartialEq, Eq, Structural)]
pub enum SearchOutcome {
    /// The target is on one of the pages fetched.
    Found,
    /// The target is on none of the pages that the search may fetch.
    NotFound,
    /// The search was given up.
    Error(SearchError),
}

} // verus!
