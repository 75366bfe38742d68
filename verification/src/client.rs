//! The LLM client: request assembly and response extraction for the
//! refinement calls.  The HTTP transport itself is the binary's job.

use vstd::prelude::*;

verus! {

use vstd::string::*;
use crate::request::{ChatCompletionRequest, ChatMessage};
use crate::response::ChatCompletionResponse;
use crate::text::{trimmed, trim_str};

/// LLM-related errors.
#[derive(Debug)]
pub enum LLMError {
    /// The API call itself failed; holds the transport error message.
    ApiRequestFailed(String),
    /// The API answered with an unusable response.
    InvalidResponse(String),
    /// The refinement produced no usable text.
    RefinementFailed(String),
}

impl LLMError {
    /// The view of the message that `message` renders for this error.
    pub open spec fn spec_message(self) -> Seq<char> {
        match self {
            LLMError::ApiRequestFailed(detail) => "LLM API request failed: "@ + detail@,
            LLMError::InvalidResponse(detail) => "Invalid API response: "@ + detail@,
            LLMError::RefinementFailed(detail) => "Text refinement failed: "@ + detail@,
        }
    }

    /// Renders the error as a human-readable message.
    pub fn message(&self) -> (r: String)
        ensures
            r@ == self.spec_message(),
    {
        let mut r = String::new();
        match self {
            LLMError::ApiRequestFailed(detail) => {
                r.append("LLM API request failed: ");
                r.append(detail.as_str());
            },
            LLMError::InvalidResponse(detail) => {
                r.append("Invalid API response: ");
                r.append(detail.as_str());
            },
            LLMError::RefinementFailed(detail) => {
                r.append("Text refinement failed: ");
                r.append(detail.as_str());
            },
        }
        r
    }
}

/// LLM client settings for text refinement through an OpenAI-compatible
/// API.
pub struct LLMClient {
    /// Base URL of the service.
    pub base_url: String,
    /// Model name sent with every request.
    pub model: String,
    /// API key for authenticated endpoints; empty means no authentication.
    pub api_key: String,
}

impl LLMClient {
    /// Creates a client from the service URL, the model name, and the API
    /// key.
    pub fn new(base_url: String, model: String, api_key: String) -> (r: Self)
        ensures
            r.base_url == base_url,
            r.model == model,
            r.api_key == api_key,
    {
        LLMClient { base_url, model, api_key }
    }

    /// Assembles the chat-completion request for a refinement call: the
    /// system prompt followed by the user prompt, under this client's
    /// model.
    pub fn build_refinement_request(&self, system_prompt: String, user_prompt: String) -> (r:
        ChatCompletionRequest)
        ensures
            r.model == self.model,
            r.messages@.len() == 2,
            r.messages@[0].role@ == "system"@,
            r.messages@[0].content == system_prompt,
            r.messages@[1].role@ == "user"@,
            r.messages@[1].content == user_prompt,
    {
        let mut messages: Vec<ChatMessage> = Vec::new();
        messages.push(ChatMessage::new("system".to_owned(), system_prompt));
        messages.push(ChatMessage::new("user".to_owned(), user_prompt));
        ChatCompletionRequest::new(self.model.clone(), messages)
    }

    /// The `Authorization: Bearer` header for this client, or nothing when
    /// no API key is set.
    pub fn auth_headers(&self) -> (r: Option<Vec<(String, String)>>)
        ensures
            self.api_key@.len() == 0 ==> r is None,
            self.api_key@.len() != 0 ==> (match r {
                Some(headers) => headers@.len() == 1 && headers@[0].0@ == "Authorization"@
                    && headers@[0].1@ == "Bearer "@ + self.api_key@,
                None => false,
            }),
    {
        if self.api_key.as_str().is_empty() {
            return None;
        }
        let mut value = String::new();
        value.append("Bearer ");
        value.append(self.api_key.as_str());
        let mut headers: Vec<(String, String)> = Vec::new();
        headers.push(("Authorization".to_owned(), value));
        Some(headers)
    }

    /// Extracts the refined text out of a chat-completion response: the
    /// trimmed content of the first choice.  An empty choice list is an
    /// invalid response, and content that trims to nothing is a failed
    /// refinement.
    pub fn extract_refined_text(response: ChatCompletionResponse) -> (r: Result<String, LLMError>)
        ensures
            response.choices@.len() == 0 ==> (match r {
                Err(LLMError::InvalidResponse(msg)) => msg@ == "No choices in response"@,
                _ => false,
            }),
            response.choices@.len() > 0 && trimmed(response.choices@[0].message.content@).len()
                == 0 ==> (match r {
                Err(LLMError::RefinementFailed(msg)) => msg@ == "LLM returned empty content"@,
                _ => false,
            }),
            response.choices@.len() > 0 && trimmed(response.choices@[0].message.content@).len()
                != 0 ==> (match r {
                Ok(text) => text@ == trimmed(response.choices@[0].message.content@),
                Err(_) => false,
            }),
    {
        if response.choices.len() == 0 {
            return Err(LLMError::InvalidResponse("No choices in response".to_owned()));
        }
        let first = &response.choices[0];
        let refined = trim_str(first.message.content.as_str());
        if refined.is_empty() {
            return Err(LLMError::RefinementFailed("LLM returned empty content".to_owned()));
        }
        Ok(refined.to_owned())
    }
}

} // verus!
