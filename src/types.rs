use vstd::prelude::*;

verus! {

/// A request for confidential computation: an encrypted payload and the
/// parameters of its encryption. Byte fields are base64 text.
#[derive(Clone, Debug, PartialEq, Eq)]
pub struct ConfidentialComputeRequest {
    /// The encrypted payload.
    pub ciphertext: String,
    /// The stack that pays for the request.
    pub stack_small_id: u64,
    /// The nonce of the encryption.
    pub nonce: String,
    /// The salt of the key derivation.
    pub salt: String,
    /// The client's X25519 public key.
    pub client_dh_public_key: String,
    /// The node's X25519 public key.
    pub node_dh_public_key: String,
    /// Hash of the plaintext body, for integrity checks.
    pub plaintext_body_hash: String,
    /// Whether the response is streamed.
    pub stream: Option<bool>,
    /// The requested model.
    pub model_name: String,
    /// Compute units known in advance, such as the pixels of an image generation.
    pub num_compute_units: Option<u64>,
}

/// Token usage of a confidential request.
#[derive(Clone, Debug, PartialEq, Eq)]
pub struct Usage {
    pub prompt_tokens: u64,
    /// Not set for embeddings.
    pub completion_tokens: Option<u64>,
    pub total_tokens: u64,
    /// Per-model details of the completion tokens, as JSON text.
    pub completion_tokens_details: Option<String>,
}

/// A node's response to a confidential request. Byte fields are base64 text.
#[derive(Clone, Debug, PartialEq, Eq)]
pub struct ConfidentialComputeResponse {
    /// The encrypted response body.
    pub ciphertext: String,
    /// The nonce of the encryption.
    pub nonce: String,
    /// Signature of the response body.
    pub signature: Option<String>,
    /// Hash of the response body.
    pub response_hash: Option<String>,
    pub usage: Option<Usage>,
}

/// One fragment of a streamed confidential response.
#[derive(Clone, Debug, PartialEq, Eq)]
pub struct ConfidentialComputeStreamResponse {
    pub data: ConfidentialComputeResponse,
}

} // verus!
