//! Collections of documents for retrieval (`/v1/collections`).

use crate::client::{endpoint_url, segment_endpoint_url, url_outcome, Client};
use crate::error::Error;
use crate::text::opt_view;
use vstd::prelude::*;

verus! {

/// Visibility of a collection.
#[derive(Debug, Clone, Copy, PartialEq, Eq, Hash, Structural)]
pub enum CollectionVisibility {
    /// Visible to its owner only.
    Private,
    /// Public.
    Public,
}

/// A collection of documents.
#[derive(Debug, Clone)]
pub struct Collection {
    /// Identifier.
    pub id: i64,
    /// Name.
    pub name: String,
    /// Owner.
    pub owner: String,
    /// Description.
    pub description: Option<String>,
    /// Visibility.
    pub visibility: Option<CollectionVisibility>,
    /// Creation (Unix timestamp).
    pub created: i64,
    /// Last update (Unix timestamp).
    pub updated: i64,
    /// Number of documents.
    pub documents: Option<i64>,
    /// Total size (bytes).
    pub size: Option<i64>,
}

/// Answer of `GET /v1/collections`.
#[derive(Debug, Clone)]
pub struct Collections {
    /// Collections.
    pub data: Vec<Collection>,
}

/// Body of `POST /v1/collections`.
#[derive(Debug, Clone)]
pub struct CollectionRequest {
    /// Name of the collection.
    pub name: String,
    /// Description.
    pub description: Option<String>,
    /// Visibility.
    pub visibility: Option<CollectionVisibility>,
}

impl CollectionRequest {
    /// A request for a collection with this name.
    pub fn new(name: &str) -> (res: Self)
        ensures
            res.name@ == name@,
            res.description is None,
            res.visibility is None,
    {
        CollectionRequest { name: name.to_owned(), description: None, visibility: None }
    }

    /// Sets the description.
    pub fn description(self, description: &str) -> (res: Self)
        ensures
            res.name == self.name,
            opt_view(res.description) == Some(description@),
            res.visibility == self.visibility,
    {
        CollectionRequest { description: Some(description.to_owned()), ..self }
    }

    /// Sets the visibility.
    pub fn visibility(self, visibility: CollectionVisibility) -> (res: Self)
        ensures
            res.name == self.name,
            res.description == self.description,
            res.visibility == Some(visibility),
    {
        CollectionRequest { visibility: Some(visibility), ..self }
    }
}

/// Body of `PATCH /v1/collections/{id}`: the fields to update, all optional.
#[derive(Debug, Clone)]
pub struct CollectionUpdateRequest {
    /// New name.
    pub name: Option<String>,
    /// New description.
    pub description: Option<String>,
    /// New visibility.
    pub visibility: Option<CollectionVisibility>,
}

impl Default for CollectionUpdateRequest {
    fn default() -> (res: Self)
        ensures
            res.name is None,
            res.description is None,
            res.visibility is None,
    {
        CollectionUpdateRequest { name: None, description: None, visibility: None }
    }
}

impl CollectionUpdateRequest {
    /// An empty update (no field changed).
    pub fn new() -> (res: Self)
        ensures
            res.name is None,
            res.description is None,
            res.visibility is None,
    {
        CollectionUpdateRequest { name: None, description: None, visibility: None }
    }

    /// Sets the new name.
    pub fn name(self, name: &str) -> (res: Self)
        ensures
            opt_view(res.name) == Some(name@),
            res.description == self.description,
            res.visibility == self.visibility,
    {
        CollectionUpdateRequest { name: Some(name.to_owned()), ..self }
    }

    /// Sets the new description.
    pub fn description(self, description: &str) -> (res: Self)
        ensures
            res.name == self.name,
            opt_view(res.description) == Some(description@),
            res.visibility == self.visibility,
    {
        CollectionUpdateRequest { description: Some(description.to_owned()), ..self }
    }

    /// Sets the new visibility.
    pub fn visibility(self, visibility: CollectionVisibility) -> (res: Self)
        ensures
            res.name == self.name,
            res.description == self.description,
            res.visibility == Some(visibility),
    {
        CollectionUpdateRequest { visibility: Some(visibility), ..self }
    }
}

/// Pagination of `GET /v1/collections`.
#[derive(Debug, Clone)]
pub struct CollectionsQuery {
    /// Pagination offset.
    pub offset: Option<u32>,
    /// Page size.
    pub limit: Option<u32>,
}

impl Default for CollectionsQuery {
    fn default() -> (res: Self)
        ensures
            res.offset is None,
            res.limit is None,
    {
        CollectionsQuery { offset: None, limit: None }
    }
}

impl CollectionsQuery {
    /// No pagination parameter.
    pub fn new() -> (res: Self)
        ensures
            res.offset is None,
            res.limit is None,
    {
        CollectionsQuery { offset: None, limit: None }
    }

    /// Sets the pagination offset.
    pub fn offset(self, offset: u32) -> (res: Self)
        ensures
            res.offset == Some(offset),
            res.limit == self.limit,
    {
        CollectionsQuery { offset: Some(offset), ..self }
    }

    /// Sets the page size.
    pub fn limit(self, limit: u32) -> (res: Self)
        ensures
            res.offset == self.offset,
            res.limit == Some(limit),
    {
        CollectionsQuery { limit: Some(limit), ..self }
    }
}

impl Client {
    /// The URL of `POST /v1/collections` and `GET /v1/collections`.
    pub fn collections_url(&self) -> (res: Result<String, Error>)
        ensures
            url_outcome(res, endpoint_url(self@.base_url, "/v1/collections"@)),
    {
        self.endpoint("/v1/collections")
    }

    /// The URL of `GET`, `PATCH` and `DELETE /v1/collections/{id}`.
    pub fn collection_url(&self, collection_id: &str) -> (res: Result<String, Error>)
        ensures
            url_outcome(
                res,
                segment_endpoint_url(self@.base_url, "/v1/collections"@, collection_id@),
            ),
    {
        self.endpoint_with_segment("/v1/collections", collection_id)
    }
}

} // verus!
