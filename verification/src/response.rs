//! Typed responses from the remote service, modelled as the plain
//! values the rendering reads.  Embedding vectors reach the library as
//! their dimension plus the already-rendered preview components, since
//! the rendering never computes on the raw numbers.

use vstd::prelude::*;

verus! {

/// Token usage statistics of a chat completion.
pub struct Usage {
    pub prompt_tokens: u32,
    pub completion_tokens: u32,
    pub total_tokens: u32,
}

/// The message inside one chat choice.
pub struct ChatResponseMessage {
    /// The speaking role, usually `assistant`.
    pub role: String,
    /// The text of the reply, when present.
    pub content: Option<String>,
    /// Opaque structured tool invocations, when present.
    pub tool_calls: Option<Vec<serde_json::Value>>,
}

/// A single choice of a chat completion.
pub struct ChatChoice {
    pub message: ChatResponseMessage,
    pub finish_reason: Option<String>,
}

/// A completed chat response.
pub struct ChatResponse {
    /// The choices, in order.
    pub choices: Vec<ChatChoice>,
    pub usage: Option<Usage>,
}

/// Token usage of an embedding request.
pub struct EmbeddingUsage {
    pub prompt_tokens: u32,
    pub total_tokens: u32,
}

/// One embedding vector, reduced to what the rendering reads: its
/// position, its length, and the first few components already
/// formatted to six decimal digits.
pub struct EmbeddingData {
    /// The vector's index in the response.
    pub index: usize,
    /// The full number of components.
    pub dim: usize,
    /// The leading components, at most five, each rendered to exactly
    /// six decimal digits.
    pub preview: Vec<String>,
}

/// A completed embedding response.
pub struct EmbeddingResponse {
    /// The vectors, in order.
    pub data: Vec<EmbeddingData>,
    pub usage: Option<EmbeddingUsage>,
}

/// Information about a single model.
pub struct ModelInfo {
    pub id: String,
    /// The owner, when the listing names one.
    pub owned_by: Option<String>,
}

/// The model listing.
pub struct ModelsResponse {
    /// The models, in order.
    pub data: Vec<ModelInfo>,
}

} // verus!
