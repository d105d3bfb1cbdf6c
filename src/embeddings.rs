use vstd::prelude::*;

use crate::error::AtomaProxyError;
use crate::json::{json_str_field, str_field};

verus! {

/// Path of the confidential embeddings endpoint.
pub const CONFIDENTIAL_EMBEDDINGS_PATH: &'static str = "/v1/confidential/embeddings";

/// Path of the embeddings endpoint.
pub const EMBEDDINGS_PATH: &'static str = "/v1/embeddings";

/// The model member of an embeddings request body.
pub const MODEL: &'static str = "model";

/// The input member of an embeddings request body.
pub const INPUT: &'static str = "input";

/// An embeddings request reduced to what the proxy reads of it.
pub struct RequestModelEmbeddings {
    /// The name of the model that computes the embeddings.
    model: String,
    /// The text to embed.
    input: String,
}

/// The index of the first supported model named `model`, if any.
pub open spec fn model_position(models: Seq<String>, model: Seq<char>) -> Option<int> {
    if exists|i: int| 0 <= i < models.len() && #[trigger] models[i]@ == model {
        let i = choose|i: int|
            0 <= i < models.len() && #[trigger] models[i]@ == model && forall|j: int|
                0 <= j < i ==> #[trigger] models[j]@ != model;
        Some(i)
    } else {
        None
    }
}

/// The error that names a missing or mistyped member of the request body.
pub open spec fn missing_field(e: AtomaProxyError, message: Seq<char>) -> bool {
    &&& e is InvalidBody
    &&& e.message_view() == message
    &&& e.endpoint_view() == EMBEDDINGS_PATH@
}

impl RequestModelEmbeddings {
    pub closed spec fn model_view(&self) -> Seq<char> {
        self.model@
    }

    pub closed spec fn input_view(&self) -> Seq<char> {
        self.input@
    }

    /// Reads the request body: both `model` and `input` must be string members
    /// of a JSON object. The model is checked first.
    pub fn new(request: &[u8]) -> (r: Result<Self, AtomaProxyError>)
        ensures
            json_str_field(request@, MODEL@) is None ==> r is Err && missing_field(
                r->Err_0,
                "Model field is required"@,
            ),
            json_str_field(request@, MODEL@) is Some && json_str_field(request@, INPUT@) is None
                ==> r is Err && missing_field(r->Err_0, "Input field is required"@),
            r is Ok <==> (json_str_field(request@, MODEL@) is Some && json_str_field(
                request@,
                INPUT@,
            ) is Some),
            r is Ok ==> r->Ok_0.model_view() == json_str_field(request@, MODEL@)->0
                && r->Ok_0.input_view() == json_str_field(request@, INPUT@)->0,
    {
        let model = match str_field(request, MODEL) {
            Some(m) => m,
            None => {
                return Err(
                    AtomaProxyError::InvalidBody {
                        message: String::from_str("Model field is required"),
                        endpoint: String::from_str(EMBEDDINGS_PATH),
                    },
                );
            },
        };
        let input = match str_field(request, INPUT) {
            Some(i) => i,
            None => {
                return Err(
                    AtomaProxyError::InvalidBody {
                        message: String::from_str("Input field is required"),
                        endpoint: String::from_str(EMBEDDINGS_PATH),
                    },
                );
            },
        };
        Ok(Self { model, input })
    }

    /// The name of the requested model.
    pub fn get_model(&self) -> (r: String)
        ensures
            r@ == self.model_view(),
    {
        self.model.clone()
    }

    /// The text to embed.
    pub fn get_input(&self) -> (r: &str)
        ensures
            r@ == self.input_view(),
    {
        self.input.as_str()
    }

    /// Finds the tokenizer of the requested model: the index of the first
    /// entry of `models` with its name. An unsupported model is a client error.
    pub fn tokenizer_index(&self, models: &Vec<String>) -> (r: Result<usize, AtomaProxyError>)
        ensures
            model_position(models@, self.model_view()) is None <==> r is Err,
            r is Ok ==> model_position(models@, self.model_view()) == Some(r->Ok_0 as int),
            r is Err ==> r->Err_0 is InvalidBody && r->Err_0.message_view() == "Model not supported"@
                && r->Err_0.endpoint_view() == EMBEDDINGS_PATH@,
    {
        let mut i: usize = 0;
        while i < models.len()
            invariant
                i <= models@.len(),
                forall|j: int| 0 <= j < i ==> #[trigger] models@[j]@ != self.model@,
            decreases models@.len() - i,
        {
            if models[i] == self.model {
                assert(models@[i as int]@ == self.model@);
                proof {
                    let k = choose|k: int|
                        0 <= k < models@.len() && #[trigger] models@[k]@ == self.model@ && forall|
                            j: int,
                        | 0 <= j < k ==> #[trigger] models@[j]@ != self.model@;
                    if k < i {
                    } else if k > i {
                        assert(models@[i as int]@ != self.model@);
                    }
                }
                return Ok(i);
            }
            i = i + 1;
        }
        Err(
            AtomaProxyError::InvalidBody {
                message: String::from_str("Model not supported"),
                endpoint: String::from_str(EMBEDDINGS_PATH),
            },
        )
    }

    /// The compute units of the request: the number of token ids that the
    /// requested model's tokenizer gives for the input. `tokenize` stands for
    /// the supported models' tokenizers, by index; it returns the number of
    /// token ids or the tokenizer's error message.
    pub fn get_compute_units_estimate<F: Fn(usize, &str) -> Result<usize, String>>(
        &self,
        models: &Vec<String>,
        tokenize: F,
    ) -> (r: Result<u64, AtomaProxyError>)
        requires
            forall|i: usize, s: &str| #[trigger] tokenize.requires((i, s)),
        ensures
            model_position(models@, self.model_view()) is None ==> r is Err && r->Err_0 is InvalidBody
                && r->Err_0.message_view() == "Model not supported"@,
            model_position(models@, self.model_view()) is Some ==> exists|
                i: usize,
                s: &str,
                t: Result<usize, String>,
            |
                #![trigger tokenize.ensures((i, s), t)]
                i == model_position(models@, self.model_view())->0 && s@ == self.input_view()
                    && tokenize.ensures((i, s), t) && (t is Ok <==> r is Ok) && (t is Ok
                    ==> r->Ok_0 == t->Ok_0) && (t is Err ==> r->Err_0 is InternalError),
    {
        let index = self.tokenizer_index(models)?;
        let input = self.input.as_str();
        let tokenized = tokenize(index, input);
        Self::compute_units_from_tokens(tokenized)
    }

    /// The compute units of an embeddings request: the number of token ids
    /// that the model's tokenizer gave for the input. A tokenizer failure,
    /// given as its message, is an internal fault.
    pub fn compute_units_from_tokens(tokenized: Result<usize, String>) -> (r: Result<
        u64,
        AtomaProxyError,
    >)
        ensures
            tokenized is Ok <==> r is Ok,
            tokenized is Ok ==> r->Ok_0 == tokenized->Ok_0,
            tokenized is Err ==> r->Err_0 is InternalError && r->Err_0.message_view()
                == "Failed to encode input: "@ + tokenized->Err_0@ && r->Err_0.endpoint_view()
                == EMBEDDINGS_PATH@,
    {
        match tokenized {
            Ok(n) => Ok(n as u64),
            Err(e) => {
                let mut message = String::from_str("Failed to encode input: ");
                message.append(e.as_str());
                Err(
                    AtomaProxyError::InternalError {
                        message,
                        endpoint: String::from_str(EMBEDDINGS_PATH),
                    },
                )
            },
        }
    }
}

/// A request for embeddings, in the shape clients send it.
#[derive(Clone, Debug, PartialEq, Eq)]
pub struct CreateEmbeddingRequest {
    /// The model to use.
    pub model: String,
    /// The text, or texts, to embed.
    pub input: EmbeddingInput,
    /// An identifier of the end user.
    pub user: Option<String>,
    /// The format of the embeddings: "float" or "base64".
    pub encoding_format: Option<String>,
    /// The number of dimensions of the embeddings.
    pub dimensions: Option<u32>,
}

/// The input of an embeddings request: one text or several.
#[derive(Clone, Debug, PartialEq, Eq)]
pub enum EmbeddingInput {
    Single(String),
    Multiple(Vec<String>),
}

/// Token usage of an embeddings request.
#[derive(Clone, Copy, Debug, PartialEq, Eq, Structural)]
pub struct EmbeddingUsage {
    /// Tokens in the prompt.
    pub prompt_tokens: u32,
    /// Tokens used in all.
    pub total_tokens: u32,
}

} // verus!
