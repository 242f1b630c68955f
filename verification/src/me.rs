//! Self-service endpoints `/v1/me/*`: profile, API keys, usage.

use crate::client::{endpoint_url, segment_endpoint_url, url_outcome, Client};
use crate::error::Error;
use crate::text::opt_view;
use vstd::prelude::*;

verus! {

/// Permission granted to a user or a key.
#[derive(Debug, Clone, Copy, PartialEq, Eq, Hash, Structural)]
pub enum PermissionType {
    /// Full administration of the gateway.
    Admin,
    /// Creation of public collections.
    CreatePublicCollection,
    /// Reading of the metrics (`/metrics`).
    ReadMetric,
    /// Declaration of models (provider).
    ProvideModels,
}

/// Kind of rate limit applied to a router (model).
#[derive(Debug, Clone, Copy, PartialEq, Eq, Hash, Structural)]
pub enum LimitType {
    /// Tokens per minute.
    Tpm,
    /// Tokens per day.
    Tpd,
    /// Requests per minute.
    Rpm,
    /// Requests per day.
    Rpd,
}

/// Rate limit on a given router (model).
#[derive(Debug, Clone, PartialEq, Eq, Structural)]
pub struct Limit {
    /// Identifier of the router (model).
    pub router_id: i64,
    /// Kind of the limit.
    pub kind: LimitType,
    /// Value of the limit (`None`: no ceiling).
    pub value: Option<i64>,
}

/// Body of `PATCH /v1/me/info`: the fields to update, all optional.
#[derive(Debug, Clone)]
pub struct UpdateUserInfo {
    /// New display name.
    pub name: Option<String>,
    /// New e-mail address.
    pub email: Option<String>,
    /// Current password (needed to change the password).
    pub current_password: Option<String>,
    /// New password.
    pub password: Option<String>,
}

impl Default for UpdateUserInfo {
    fn default() -> (res: Self)
        ensures
            res.name is None,
            res.email is None,
            res.current_password is None,
            res.password is None,
    {
        UpdateUserInfo { name: None, email: None, current_password: None, password: None }
    }
}

impl UpdateUserInfo {
    /// An empty update (no field changed).
    pub fn new() -> (res: Self)
        ensures
            res.name is None,
            res.email is None,
            res.current_password is None,
            res.password is None,
    {
        UpdateUserInfo { name: None, email: None, current_password: None, password: None }
    }

    /// Sets the new display name.
    pub fn name(self, name: &str) -> (res: Self)
        ensures
            opt_view(res.name) == Some(name@),
            res.email == self.email,
            res.current_password == self.current_password,
            res.password == self.password,
    {
        UpdateUserInfo { name: Some(name.to_owned()), ..self }
    }

    /// Sets the new e-mail address.
    pub fn email(self, email: &str) -> (res: Self)
        ensures
            res.name == self.name,
            opt_view(res.email) == Some(email@),
            res.current_password == self.current_password,
            res.password == self.password,
    {
        UpdateUserInfo { email: Some(email.to_owned()), ..self }
    }

    /// Sets both the current password and the new one.
    pub fn password(self, current: &str, new: &str) -> (res: Self)
        ensures
            res.name == self.name,
            res.email == self.email,
            opt_view(res.current_password) == Some(current@),
            opt_view(res.password) == Some(new@),
    {
        UpdateUserInfo {
            current_password: Some(current.to_owned()),
            password: Some(new.to_owned()),
            ..self
        }
    }
}

/// Body of `POST /v1/me/keys`: creation of an API key.
#[derive(Debug, Clone)]
pub struct CreateKey {
    /// Readable name of the key.
    pub name: String,
    /// Optional expiry (Unix timestamp).
    pub expires: Option<i64>,
}

impl CreateKey {
    /// A request for a named key without expiry.
    pub fn new(name: &str) -> (res: Self)
        ensures
            res.name@ == name@,
            res.expires is None,
    {
        CreateKey { name: name.to_owned(), expires: None }
    }

    /// Sets an expiry (Unix timestamp).
    pub fn expires(self, expires: i64) -> (res: Self)
        ensures
            res.name == self.name,
            res.expires == Some(expires),
    {
        CreateKey { expires: Some(expires), ..self }
    }
}

/// Answer of `POST /v1/me/keys`: the only time the full token is shown.
#[derive(Debug, Clone)]
pub struct CreateKeyResponse {
    /// Identifier of the created key.
    pub id: i64,
    /// Full token (to store at once; it cannot be read again).
    pub token: String,
}

/// An API key of the user.
#[derive(Debug, Clone)]
pub struct Key {
    /// Identifier of the key.
    pub id: i64,
    /// Readable name.
    pub name: String,
    /// Token (possibly masked).
    pub token: String,
    /// Expiry (Unix timestamp), if set.
    pub expires: Option<i64>,
    /// Creation (Unix timestamp).
    pub created: i64,
}

/// Answer of `GET /v1/me/keys`.
#[derive(Debug, Clone)]
pub struct Keys {
    /// Keys of the user.
    pub data: Vec<Key>,
}

/// Billable endpoint, to filter `GET /v1/me/usage`.
#[derive(Debug, Clone, Copy, PartialEq, Eq, Hash, Structural)]
pub enum EndpointUsage {
    /// `/v1/audio/transcriptions`.
    AudioTranscriptions,
    /// `/v1/chat/completions`.
    ChatCompletions,
    /// `/v1/embeddings`.
    Embeddings,
    /// `/v1/ocr`.
    Ocr,
    /// `/v1/rerank`.
    Rerank,
    /// `/v1/search`.
    Search,
}

/// Pagination and order of `GET /v1/me/keys`.
#[derive(Debug, Clone)]
pub struct KeysQuery {
    /// Pagination offset.
    pub offset: Option<u32>,
    /// Page size.
    pub limit: Option<u32>,
    /// Field to order by.
    pub order_by: Option<String>,
    /// Direction of the order (`asc` / `desc`).
    pub order_direction: Option<String>,
}

impl Default for KeysQuery {
    fn default() -> (res: Self)
        ensures
            res.offset is None,
            res.limit is None,
            res.order_by is None,
            res.order_direction is None,
    {
        KeysQuery { offset: None, limit: None, order_by: None, order_direction: None }
    }
}

impl KeysQuery {
    /// No parameter.
    pub fn new() -> (res: Self)
        ensures
            res.offset is None,
            res.limit is None,
            res.order_by is None,
            res.order_direction is None,
    {
        KeysQuery { offset: None, limit: None, order_by: None, order_direction: None }
    }

    /// Sets the pagination offset.
    pub fn offset(self, offset: u32) -> (res: Self)
        ensures
            res.offset == Some(offset),
            res.limit == self.limit,
            res.order_by == self.order_by,
            res.order_direction == self.order_direction,
    {
        KeysQuery { offset: Some(offset), ..self }
    }

    /// Sets the page size.
    pub fn limit(self, limit: u32) -> (res: Self)
        ensures
            res.offset == self.offset,
            res.limit == Some(limit),
            res.order_by == self.order_by,
            res.order_direction == self.order_direction,
    {
        KeysQuery { limit: Some(limit), ..self }
    }

    /// Sets both the field and the direction of the order.
    pub fn order(self, by: &str, direction: &str) -> (res: Self)
        ensures
            res.offset == self.offset,
            res.limit == self.limit,
            opt_view(res.order_by) == Some(by@),
            opt_view(res.order_direction) == Some(direction@),
    {
        KeysQuery {
            order_by: Some(by.to_owned()),
            order_direction: Some(direction.to_owned()),
            ..self
        }
    }
}

/// Filters of `GET /v1/me/usage`.
#[derive(Debug, Clone)]
pub struct UsageQuery {
    /// Pagination offset.
    pub offset: Option<u32>,
    /// Page size.
    pub limit: Option<u32>,
    /// Start of the time window (Unix timestamp).
    pub start_time: Option<i64>,
    /// End of the time window (Unix timestamp).
    pub end_time: Option<i64>,
    /// Restriction to one billable endpoint.
    pub endpoint: Option<EndpointUsage>,
}

impl Default for UsageQuery {
    fn default() -> (res: Self)
        ensures
            res.offset is None,
            res.limit is None,
            res.start_time is None,
            res.end_time is None,
            res.endpoint is None,
    {
        UsageQuery { offset: None, limit: None, start_time: None, end_time: None, endpoint: None }
    }
}

impl UsageQuery {
    /// No filter.
    pub fn new() -> (res: Self)
        ensures
            res.offset is None,
            res.limit is None,
            res.start_time is None,
            res.end_time is None,
            res.endpoint is None,
    {
        UsageQuery { offset: None, limit: None, start_time: None, end_time: None, endpoint: None }
    }

    /// Sets the pagination offset.
    pub fn offset(self, offset: u32) -> (res: Self)
        ensures
            res == (UsageQuery { offset: Some(offset), ..self }),
    {
        UsageQuery { offset: Some(offset), ..self }
    }

    /// Sets the page size.
    pub fn limit(self, limit: u32) -> (res: Self)
        ensures
            res == (UsageQuery { limit: Some(limit), ..self }),
    {
        UsageQuery { limit: Some(limit), ..self }
    }

    /// Sets both bounds of the time window (Unix timestamps).
    pub fn time_range(self, start: i64, end: i64) -> (res: Self)
        ensures
            res == (UsageQuery { start_time: Some(start), end_time: Some(end), ..self }),
    {
        UsageQuery { start_time: Some(start), end_time: Some(end), ..self }
    }

    /// Restricts to one billable endpoint.
    pub fn endpoint(self, endpoint: EndpointUsage) -> (res: Self)
        ensures
            res == (UsageQuery { endpoint: Some(endpoint), ..self }),
    {
        UsageQuery { endpoint: Some(endpoint), ..self }
    }
}

impl Client {
    /// The URL of `GET` and `PATCH /v1/me/info`.
    pub fn me_info_url(&self) -> (res: Result<String, Error>)
        ensures
            url_outcome(res, endpoint_url(self@.base_url, "/v1/me/info"@)),
    {
        self.endpoint("/v1/me/info")
    }

    /// The URL of `POST /v1/me/keys` and `GET /v1/me/keys`.
    pub fn keys_url(&self) -> (res: Result<String, Error>)
        ensures
            url_outcome(res, endpoint_url(self@.base_url, "/v1/me/keys"@)),
    {
        self.endpoint("/v1/me/keys")
    }

    /// The URL of `GET` and `DELETE /v1/me/keys/{key}`.
    pub fn key_url(&self, key_id: &str) -> (res: Result<String, Error>)
        ensures
            url_outcome(res, segment_endpoint_url(self@.base_url, "/v1/me/keys/"@, key_id@)),
    {
        self.endpoint_with_segment("/v1/me/keys/", key_id)
    }

    /// The URL of `GET /v1/me/usage`.
    pub fn usage_url(&self) -> (res: Result<String, Error>)
        ensures
            url_outcome(res, endpoint_url(self@.base_url, "/v1/me/usage"@)),
    {
        self.endpoint("/v1/me/usage")
    }
}

} // verus!
