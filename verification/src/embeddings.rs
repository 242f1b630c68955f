//! Request of `POST /v1/embeddings`.

use crate::client::{endpoint_url, url_outcome, Client};
use crate::error::Error;
use vstd::prelude::*;

verus! {

/// Encoding of the returned vectors.
#[derive(Debug, Clone, Copy, PartialEq, Eq, Hash, Structural)]
pub enum EncodingFormat {
    /// Arrays of floats (the default).
    Float,
    /// Base64-encoded vectors (compact).
    Base64,
}

impl Default for EncodingFormat {
    fn default() -> (res: Self)
        ensures
            res == EncodingFormat::Float,
    {
        EncodingFormat::Float
    }
}

/// Input of an embeddings request: one text, a batch of texts, one
/// pre-encoded token sequence, or a batch of them.
#[derive(Debug, Clone)]
pub enum EmbeddingsInput {
    /// One text to embed.
    Text(String),
    /// Several texts in one request.
    TextBatch(Vec<String>),
    /// One sequence of already encoded tokens.
    Tokens(Vec<i64>),
    /// Several token sequences.
    TokensBatch(Vec<Vec<i64>>),
}

impl From<String> for EmbeddingsInput {
    fn from(s: String) -> (res: Self) {
        EmbeddingsInput::Text(s)
    }
}

impl vstd::std_specs::convert::FromSpecImpl<String> for EmbeddingsInput {
    open spec fn obeys_from_spec() -> bool {
        true
    }

    open spec fn from_spec(s: String) -> Self {
        EmbeddingsInput::Text(s)
    }
}

impl<'a> From<&'a str> for EmbeddingsInput {
    fn from(s: &'a str) -> (res: Self)
        ensures
            res matches EmbeddingsInput::Text(t) && t@ == s@,
    {
        EmbeddingsInput::Text(s.to_owned())
    }
}

/// The conversion from `&str` has no spec-level form: a `String` is not
/// determined by its characters in the spec model, so no spec function can
/// name the one that `from` returns. What `from` gives is stated in its own
/// `ensures`: the single text holding the characters of `s`.
impl<'a> vstd::std_specs::convert::FromSpecImpl<&'a str> for EmbeddingsInput {
    open spec fn obeys_from_spec() -> bool {
        false
    }

    open spec fn from_spec(s: &'a str) -> Self {
        EmbeddingsInput::Text(choose|t: String| t@ == s@)
    }
}

impl From<Vec<String>> for EmbeddingsInput {
    fn from(v: Vec<String>) -> (res: Self) {
        EmbeddingsInput::TextBatch(v)
    }
}

impl vstd::std_specs::convert::FromSpecImpl<Vec<String>> for EmbeddingsInput {
    open spec fn obeys_from_spec() -> bool {
        true
    }

    open spec fn from_spec(v: Vec<String>) -> Self {
        EmbeddingsInput::TextBatch(v)
    }
}

/// Body of `POST /v1/embeddings`.
#[derive(Debug, Clone)]
pub struct EmbeddingsRequest {
    /// Text(s) or tokens to embed.
    pub input: EmbeddingsInput,
    /// Identifier of the embedding model.
    pub model: String,
    /// Number of dimensions wanted (when the model supports it).
    pub dimensions: Option<u32>,
    /// Encoding of the vectors.
    pub encoding_format: Option<EncodingFormat>,
}

impl EmbeddingsRequest {
    /// A minimal request (input and model).
    pub fn new(input: EmbeddingsInput, model: &str) -> (res: Self)
        ensures
            res.input == input,
            res.model@ == model@,
            res.dimensions is None,
            res.encoding_format is None,
    {
        EmbeddingsRequest {
            input,
            model: model.to_owned(),
            dimensions: None,
            encoding_format: None,
        }
    }

    /// Sets the number of dimensions wanted.
    pub fn dimensions(self, dimensions: u32) -> (res: Self)
        ensures
            res.input == self.input,
            res.model == self.model,
            res.dimensions == Some(dimensions),
            res.encoding_format == self.encoding_format,
    {
        EmbeddingsRequest { dimensions: Some(dimensions), ..self }
    }

    /// Sets the encoding of the vectors.
    pub fn encoding_format(self, format: EncodingFormat) -> (res: Self)
        ensures
            res.input == self.input,
            res.model == self.model,
            res.dimensions == self.dimensions,
            res.encoding_format == Some(format),
    {
        EmbeddingsRequest { encoding_format: Some(format), ..self }
    }
}

impl Client {
    /// The URL of `POST /v1/embeddings`.
    pub fn embeddings_url(&self) -> (res: Result<String, Error>)
        ensures
            url_outcome(res, endpoint_url(self@.base_url, "/v1/embeddings"@)),
    {
        self.endpoint("/v1/embeddings")
    }
}

} // verus!

