//! Client library for the OpenGateLLM gateway: request and response model,
//! endpoint URL composition, response status handling and the decisions of
//! the streaming chat protocol, each with a verified contract.

pub mod chat;
pub mod client;
pub mod collections;
pub mod documents;
pub mod embeddings;
pub mod error;
pub mod me;
pub mod models;
pub mod monitoring;
pub mod rerank;
pub mod search;
pub mod stream;
pub mod text;
pub mod urls;

pub use chat::{
    Annotation, AnnotationUrlCitation, ChatContent, ChatMessage, ContentPart, CustomDetails,
    FinishReason, FunctionDetails, ImageUrl, Role, ServiceTier, Stop, ToolCall,
};
pub use client::{is_success_status, Client, ClientBuilder};
pub use collections::{
    Collection, CollectionRequest, CollectionUpdateRequest, CollectionVisibility, Collections,
    CollectionsQuery,
};
pub use documents::{CreateDocument, Document, DocumentResponse, Documents, DocumentsQuery};
pub use embeddings::{EmbeddingsInput, EmbeddingsRequest, EncodingFormat};
pub use error::Error;
pub use me::{
    CreateKey, CreateKeyResponse, EndpointUsage, Key, Keys, KeysQuery, Limit, LimitType,
    PermissionType, UpdateUserInfo, UsageQuery,
};
pub use models::ModelType;
pub use monitoring::{Health, HealthStatus, ModelHealthStatus, ModelsHealthResponse};
pub use rerank::CreateRerankBody;
pub use search::SearchMethod;
pub use stream::{
    chunk_payloads, is_done_event, ChoiceDelta, ChoiceDeltaToolCall, ChoiceDeltaToolCallFunction,
    ChunkStream, SseItem,
};
