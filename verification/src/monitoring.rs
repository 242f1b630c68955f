//! Monitoring endpoints: `GET /health`, `GET /health/models`, `GET /metrics`.

use crate::client::{endpoint_url, url_outcome, Client};
use crate::error::Error;
use vstd::prelude::*;

verus! {

/// Health of a model (it only escalates on the gateway's side).
#[derive(Debug, Clone, Copy, PartialEq, Eq, Hash, Structural)]
pub enum HealthStatus {
    /// Operational.
    Green,
    /// Degraded or loaded (upstream queue not empty).
    Yellow,
    /// Unavailable.
    Red,
}

/// Answer of `GET /health`: liveness of the gateway.
#[derive(Debug, Clone, PartialEq, Eq)]
pub struct Health {
    /// Global status (`"ok"` when the gateway answers).
    pub status: String,
}

/// Health of one model.
#[derive(Debug, Clone, PartialEq, Eq)]
pub struct ModelHealthStatus {
    /// Identifier of the model.
    pub id: String,
    /// Its health.
    pub status: HealthStatus,
}

/// Answer of `GET /health/models`.
#[derive(Debug, Clone, PartialEq, Eq)]
pub struct ModelsHealthResponse {
    /// Health per model.
    pub data: Vec<ModelHealthStatus>,
}

impl Client {
    /// The URL of `GET /health`.
    pub fn health_url(&self) -> (res: Result<String, Error>)
        ensures
            url_outcome(res, endpoint_url(self@.base_url, "/health"@)),
    {
        self.endpoint("/health")
    }

    /// The URL of `GET /health/models`.
    pub fn health_models_url(&self) -> (res: Result<String, Error>)
        ensures
            url_outcome(res, endpoint_url(self@.base_url, "/health/models"@)),
    {
        self.endpoint("/health/models")
    }

    /// The URL of `GET /metrics` (Prometheus text).
    pub fn metrics_url(&self) -> (res: Result<String, Error>)
        ensures
            url_outcome(res, endpoint_url(self@.base_url, "/metrics"@)),
    {
        self.endpoint("/metrics")
    }
}

} // verus!
