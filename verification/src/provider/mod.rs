//! Provider-neutral local language-model types.
use vstd::prelude::*;

use crate::prompt::ChatMessage;
use crate::text::owned;

pub mod ollama;
pub mod stream;

verus! {

#[derive(Debug, Clone)]
pub struct GenerationRequest {
    pub model: String,
    pub messages: Vec<ChatMessage>,
    pub thinking: bool,
}

#[derive(Debug, Clone)]
pub enum GenerationEvent {
    Delta(String),
}

#[derive(Debug, Clone, PartialEq, Eq)]
pub struct ModelInfo {
    pub name: String,
}

#[derive(Debug, Clone, PartialEq, Eq)]
pub enum ProviderError {
    Unavailable(String),
    RequestFailed(String),
    InvalidResponse(String),
    Cancelled,
}

/// The text shown to the user for a provider error.
pub open spec fn provider_error_text(error: ProviderError) -> Seq<char> {
    match error {
        ProviderError::Unavailable(_) => "Ollama is not available. Start Ollama, then try again."@,
        ProviderError::RequestFailed(message) => message@,
        ProviderError::InvalidResponse(_) => "Ollama returned an unreadable response. Try again."@,
        ProviderError::Cancelled => "Generation cancelled."@,
    }
}

/// The error's own description: its message, or a fixed text for a
/// cancellation.
pub open spec fn provider_error_description(error: ProviderError) -> Seq<char> {
    match error {
        ProviderError::Unavailable(message) => message@,
        ProviderError::RequestFailed(message) => message@,
        ProviderError::InvalidResponse(message) => message@,
        ProviderError::Cancelled => "Generation cancelled"@,
    }
}

impl ProviderError {
    pub fn user_message(&self) -> (r: String)
        ensures
            r@ == provider_error_text(*self),
    {
        match self {
            ProviderError::Unavailable(_) => owned(
                "Ollama is not available. Start Ollama, then try again.",
            ),
            ProviderError::RequestFailed(message) => owned(message.as_str()),
            ProviderError::InvalidResponse(_) => owned(
                "Ollama returned an unreadable response. Try again.",
            ),
            ProviderError::Cancelled => owned("Generation cancelled."),
        }
    }

    /// The error's own description, as it is displayed.
    pub fn describe(&self) -> (r: String)
        ensures
            r@ == provider_error_description(*self),
    {
        match self {
            ProviderError::Unavailable(message) => owned(message.as_str()),
            ProviderError::RequestFailed(message) => owned(message.as_str()),
            ProviderError::InvalidResponse(message) => owned(message.as_str()),
            ProviderError::Cancelled => owned("Generation cancelled"),
        }
    }
}

} // verus!
