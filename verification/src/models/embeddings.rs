//! Requests for embedding vectors.

use vstd::prelude::*;

verus! {

/// What is to be embedded: text, or text already cut into tokens.
#[derive(Debug, Clone, PartialEq)]
pub enum EmbeddingInput {
    /// One text.
    String(String),
    /// Several texts.
    StringArray(Vec<String>),
    /// The tokens of one text.
    IntegerArray(Vec<u32>),
    /// The tokens of several texts.
    ArrayOfIntegerArray(Vec<Vec<u32>>),
}

/// How the embedding vectors are encoded in the answer.
#[derive(Debug, Clone, Copy, PartialEq, Eq, Structural)]
pub enum EncodingFormat {
    Float,
    Base64,
}

impl Default for EncodingFormat {
    fn default() -> (format: EncodingFormat)
        ensures
            format == EncodingFormat::Float,
    {
        EncodingFormat::Float
    }
}

/// A request to embed some input with a model.
#[derive(Debug, Clone, PartialEq)]
pub struct CreateEmbeddingRequest {
    /// The identifier of the model.
    pub model: String,
    /// The input to embed.
    pub input: Option<EmbeddingInput>,
    /// The encoding asked for; the service picks floats where none is named.
    pub encoding_format: Option<EncodingFormat>,
    /// An identifier of the end user, for abuse monitoring.
    pub user: Option<String>,
}

impl Default for CreateEmbeddingRequest {
    fn default() -> (request: CreateEmbeddingRequest)
        ensures
            request.model@.len() == 0,
            request.input is None,
            request.encoding_format is None,
            request.user is None,
    {
        CreateEmbeddingRequest {
            model: String::new(),
            input: None,
            encoding_format: None,
            user: None,
        }
    }
}

/// The tokens that an embedding request consumed.
#[derive(Debug, Clone, Copy, PartialEq, Eq, Structural)]
pub struct EmbeddingUsage {
    /// The tokens of the prompt.
    pub prompt_tokens: u32,
    /// All tokens of the request.
    pub total_tokens: u32,
}

} // verus!
