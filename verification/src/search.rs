//! Retrieval search `POST /v1/search`.

use crate::client::{endpoint_url, url_outcome, Client};
use crate::error::Error;
use vstd::prelude::*;

verus! {

/// Search method.
#[derive(Debug, Clone, Copy, PartialEq, Eq, Hash, Structural)]
pub enum SearchMethod {
    /// Fusion of semantic and lexical search (reciprocal rank fusion).
    Hybrid,
    /// Vector search (the default).
    Semantic,
    /// Lexical search (BM25).
    Lexical,
}

impl Default for SearchMethod {
    fn default() -> (res: Self)
        ensures
            res == SearchMethod::Semantic,
    {
        SearchMethod::Semantic
    }
}

impl Client {
    /// The URL of `POST /v1/search`.
    pub fn search_url(&self) -> (res: Result<String, Error>)
        ensures
            url_outcome(res, endpoint_url(self@.base_url, "/v1/search"@)),
    {
        self.endpoint("/v1/search")
    }
}

} // verus!
