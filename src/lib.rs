pub mod confidential;
pub mod config;
pub mod embeddings;
pub mod error;
pub mod json;
pub mod pipeline;
pub mod types;

pub use config::{AtomaServiceConfig, ModelModality};
pub use embeddings::{CreateEmbeddingRequest, EmbeddingInput, EmbeddingUsage, RequestModelEmbeddings};
pub use error::{AtomaProxyError, ErrorKind};
pub use types::{
    ConfidentialComputeRequest, ConfidentialComputeResponse, ConfidentialComputeStreamResponse, Usage,
};
