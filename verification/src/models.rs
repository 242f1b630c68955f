//! Endpoints `/v1/models` and `/v1/models/{model}`.

use crate::client::{endpoint_url, segment_endpoint_url, url_outcome, Client};
use crate::error::Error;
use vstd::prelude::*;

verus! {

/// Kind of model exposed by the gateway.
#[derive(Debug, Clone, Copy, PartialEq, Eq, Hash, Structural)]
pub enum ModelType {
    /// Speech to text.
    AutomaticSpeechRecognition,
    /// Vision and text to text.
    ImageTextToText,
    /// Image to text.
    ImageToText,
    /// Text classification.
    TextClassification,
    /// Embeddings.
    TextEmbeddingsInference,
    /// Text generation (chat / completion).
    TextGeneration,
}

impl Client {
    /// The URL of `GET /v1/models`.
    pub fn models_url(&self) -> (res: Result<String, Error>)
        ensures
            url_outcome(res, endpoint_url(self@.base_url, "/v1/models"@)),
    {
        self.endpoint("/v1/models")
    }

    /// The URL of `GET /v1/models/{model_id}`.
    pub fn model_url(&self, model_id: &str) -> (res: Result<String, Error>)
        ensures
            url_outcome(res, segment_endpoint_url(self@.base_url, "/v1/models/"@, model_id@)),
    {
        self.endpoint_with_segment("/v1/models/", model_id)
    }
}

} // verus!
