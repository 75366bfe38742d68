//! OpenAI-compatible chat-completion request data.

use vstd::prelude::*;

verus! {

/// A role-tagged message of a chat-completion request.
pub struct ChatMessage {
    /// Role of the message, such as `system` or `user`.
    pub role: String,
    /// Content of the message.
    pub content: String,
}

impl ChatMessage {
    /// Creates a message from its role and content.
    pub fn new(role: String, content: String) -> (r: Self)
        ensures
            r.role == role,
            r.content == content,
    {
        ChatMessage { role, content }
    }
}

/// An OpenAI-compatible chat-completion request.
pub struct ChatCompletionRequest {
    /// Model name to use.
    pub model: String,
    /// The messages to send, in order.
    pub messages: Vec<ChatMessage>,
}

impl ChatCompletionRequest {
    /// Creates a request from the model name and the messages.
    pub fn new(model: String, messages: Vec<ChatMessage>) -> (r: Self)
        ensures
            r.model == model,
            r.messages == messages,
    {
        ChatCompletionRequest { model, messages }
    }
}

} // verus!
