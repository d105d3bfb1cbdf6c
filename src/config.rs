use vstd::prelude::*;

verus! {

/// What a deployed model does.
#[derive(Clone, Copy, Debug, PartialEq, Eq, Structural)]
pub enum ModelModality {
    ChatCompletions,
    ImagesGenerations,
    Embeddings,
}

/// Configuration of the proxy service.
#[derive(Clone, Debug, PartialEq, Eq)]
pub struct AtomaServiceConfig {
    /// Address and port that the proxy's server binds to.
    pub service_bind_address: String,
    /// Names of the models the service offers.
    pub models: Vec<String>,
    /// Revision of each model.
    pub revisions: Vec<String>,
    /// Modalities of each model.
    pub modalities: Vec<Vec<ModelModality>>,
    /// Hugging Face API token, to fetch tokenizers.
    pub hf_token: String,
    /// Path of the open router models file.
    pub open_router_models_file: String,
}

} // verus!
