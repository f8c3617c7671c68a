//! Provider clients: what is sent to a provider, and what its answer comes to.

pub mod anthropic;
pub mod client;
pub mod factory;
pub mod mock;
pub mod openai;
pub mod status;

pub use crate::config::models::LlmParameters;
pub use anthropic::AnthropicClient;
pub use client::{ChatMessage, CompletionRequest, Header, LlmClient};
pub use factory::{create_llm_client, Client};
pub use mock::MockLlmClient;
pub use openai::OpenAiClient;
pub use status::HttpStatus;
