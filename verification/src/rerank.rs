//! Request of `POST /v1/rerank`.

use crate::client::{endpoint_url, url_outcome, Client};
use crate::error::Error;
use vstd::prelude::*;

verus! {

/// Body of `POST /v1/rerank`.
#[derive(Debug, Clone)]
pub struct CreateRerankBody {
    /// Reference query for the relevance scores.
    pub query: String,
    /// Documents to order by relevance to `query`.
    pub documents: Vec<String>,
    /// Identifier of the reranking model.
    pub model: String,
    /// Maximal number of results (the most relevant ones).
    pub top_n: Option<i64>,
}

/// The views of a list of strings.
pub open spec fn strings_view(v: Seq<String>) -> Seq<Seq<char>> {
    v.map_values(|s: String| s@)
}

impl CreateRerankBody {
    /// A minimal request (query, documents in their order, model).
    pub fn new(query: &str, documents: &[&str], model: &str) -> (res: Self)
        ensures
            res.query@ == query@,
            strings_view(res.documents@) == documents@.map_values(|s: &str| s@),
            res.model@ == model@,
            res.top_n is None,
    {
        let mut docs: Vec<String> = Vec::new();
        let mut i: usize = 0;
        while i < documents.len()
            invariant
                i <= documents@.len(),
                strings_view(docs@) == documents@.take(i as int).map_values(|s: &str| s@),
            decreases documents@.len() - i,
        {
            let ghost prev = docs@;
            docs.push(documents[i].to_owned());
            assert(strings_view(docs@) =~= strings_view(prev).push(documents@[i as int]@));
            assert(documents@.take(i + 1).map_values(|s: &str| s@) =~= documents@.take(
                i as int,
            ).map_values(|s: &str| s@).push(documents@[i as int]@));
            i = i + 1;
        }
        assert(documents@.take(i as int) =~= documents@);
        CreateRerankBody { query: query.to_owned(), documents: docs, model: model.to_owned(), top_n: None }
    }

    /// Keeps only the `top_n` most relevant results.
    pub fn top_n(self, top_n: i64) -> (res: Self)
        ensures
            res == (CreateRerankBody { top_n: Some(top_n), ..self }),
    {
        CreateRerankBody { top_n: Some(top_n), ..self }
    }
}

impl Client {
    /// The URL of `POST /v1/rerank`.
    pub fn rerank_url(&self) -> (res: Result<String, Error>)
        ensures
            url_outcome(res, endpoint_url(self@.base_url, "/v1/rerank"@)),
    {
        self.endpoint("/v1/rerank")
    }
}

} // verus!
