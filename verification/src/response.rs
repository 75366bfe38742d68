//! OpenAI-compatible chat-completion response data.

use vstd::prelude::*;

verus! {

/// The message of one choice in a chat-completion response.
pub struct ResponseMessage {
    /// The model-generated text.
    pub content: String,
}

/// One choice of a chat-completion response.
pub struct Choice {
    pub message: ResponseMessage,
}

/// An OpenAI-compatible chat-completion response.
pub struct ChatCompletionResponse {
    /// The generated choices; the first one carries the refined text.
    pub choices: Vec<Choice>,
}

} // verus!
