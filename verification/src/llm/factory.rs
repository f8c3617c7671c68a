//! Choosing the client that a configuration asks for.

use crate::config::models::{Config, LlmParameters};
use crate::error::{ErrorView, RephraserError};
use crate::llm::anthropic::AnthropicClient;
use crate::llm::client::{LlmClient, SettingsView};
use crate::llm::mock::{fresh, MockLlmClient, MockView};
use crate::llm::openai::OpenAiClient;
use crate::text::{push_str, str_eq, string_of};
use vstd::prelude::*;

verus! {

/// A client of one of the known providers.
pub enum Client {
    OpenAi(OpenAiClient),
    Anthropic(AnthropicClient),
    Mock(MockLlmClient),
}

/// A client of one of the known providers, as a mathematical value.
pub enum ClientView {
    OpenAi(SettingsView),
    Anthropic(SettingsView),
    Mock(MockView),
}

impl View for Client {
    type V = ClientView;

    open spec fn view(&self) -> ClientView {
        match self {
            Client::OpenAi(c) => ClientView::OpenAi(c@),
            Client::Anthropic(c) => ClientView::Anthropic(c@),
            Client::Mock(c) => ClientView::Mock(c@),
        }
    }
}

impl Client {
    /// The client's invariant: that of the variant it holds.
    pub open spec fn wf(&self) -> bool {
        match self {
            Client::Mock(c) => c.wf(),
            _ => true,
        }
    }
}

impl LlmClient for Client {
    open spec fn provider(&self) -> Seq<char> {
        match self {
            Client::OpenAi(c) => c.provider(),
            Client::Anthropic(c) => c.provider(),
            Client::Mock(c) => c.provider(),
        }
    }

    open spec fn model(&self) -> Seq<char> {
        match self {
            Client::OpenAi(c) => c.model(),
            Client::Anthropic(c) => c.model(),
            Client::Mock(c) => c.model(),
        }
    }

    fn provider_name(&self) -> (name: &str) {
        match self {
            Client::OpenAi(c) => c.provider_name(),
            Client::Anthropic(c) => c.provider_name(),
            Client::Mock(c) => c.provider_name(),
        }
    }

    fn model_name(&self) -> (name: &str) {
        match self {
            Client::OpenAi(c) => c.model_name(),
            Client::Anthropic(c) => c.model_name(),
            Client::Mock(c) => c.model_name(),
        }
    }
}

/// The settings of a vendor client made from a configuration and a credential.
pub open spec fn settings(
    model: Seq<char>,
    parameters: LlmParameters,
    api_key: Seq<char>,
) -> SettingsView {
    SettingsView {
        api_key,
        model,
        temperature: parameters.temperature,
        max_tokens: parameters.max_tokens as nat,
    }
}

/// The error that the credential of a vendor is not to be had.
pub open spec fn no_credential(api_key_env: Seq<char>) -> ErrorView {
    ErrorView::Config("Environment variable '"@ + api_key_env + "' not found"@)
}

/// The client that a configuration asks for. `api_key` is the value of the environment
/// variable that the configuration names, if it is set. The two vendors need it; the mock
/// does not look at it. Any other provider is an error of the configuration.
pub open spec fn selected(
    provider: Seq<char>,
    model: Seq<char>,
    api_key_env: Seq<char>,
    parameters: LlmParameters,
    api_key: Option<Seq<char>>,
) -> Result<ClientView, ErrorView> {
    if provider == "openai"@ {
        match api_key {
            Some(key) => Ok(ClientView::OpenAi(settings(model, parameters, key))),
            None => Err(no_credential(api_key_env)),
        }
    } else if provider == "anthropic"@ {
        match api_key {
            Some(key) => Ok(ClientView::Anthropic(settings(model, parameters, key))),
            None => Err(no_credential(api_key_env)),
        }
    } else if provider == "mock"@ {
        Ok(ClientView::Mock(fresh()))
    } else {
        Err(ErrorView::Config("Unknown provider: "@ + provider))
    }
}

/// What making a client came to, as a mathematical value.
pub open spec fn creation(r: Result<Client, RephraserError>) -> Result<ClientView, ErrorView> {
    match r {
        Ok(c) => Ok(c@),
        Err(e) => Err(e@),
    }
}

/// The error that the credential of a vendor is not to be had.
fn missing_credential(api_key_env: &str) -> (error: RephraserError)
    ensures
        error@ == no_credential(api_key_env@),
{
    let mut detail: Vec<char> = Vec::new();
    push_str(&mut detail, "Environment variable '");
    push_str(&mut detail, api_key_env);
    push_str(&mut detail, "' not found");
    RephraserError::Config(string_of(&detail))
}

/// The client that `config` asks for. `api_key` is the value of the environment variable
/// that `config` names, if it is set.
pub fn create_llm_client(config: &Config, api_key: Option<String>) -> (result: Result<
    Client,
    RephraserError,
>)
    ensures
        creation(result) == selected(
            config.llm.provider@,
            config.llm.model@,
            config.llm.api_key_env@,
            config.llm.parameters,
            match api_key {
                Some(key) => Some(key@),
                None => None,
            },
        ),
        result matches Ok(client) ==> client.wf(),
{
    let provider = config.llm.provider.as_str();
    let parameters = config.llm.parameters;
    if str_eq(provider, "openai") {
        match api_key {
            Some(key) => Ok(
                Client::OpenAi(
                    OpenAiClient::new(
                        key,
                        config.llm.model.clone(),
                        parameters.temperature,
                        parameters.max_tokens,
                    ),
                ),
            ),
            None => Err(missing_credential(config.llm.api_key_env.as_str())),
        }
    } else if str_eq(provider, "anthropic") {
        match api_key {
            Some(key) => Ok(
                Client::Anthropic(
                    AnthropicClient::new(
                        key,
                        config.llm.model.clone(),
                        parameters.temperature,
                        parameters.max_tokens,
                    ),
                ),
            ),
            None => Err(missing_credential(config.llm.api_key_env.as_str())),
        }
    } else if str_eq(provider, "mock") {
        Ok(Client::Mock(MockLlmClient::new()))
    } else {
        Err(RephraserError::Config(crate::text::concat_str("Unknown provider: ", provider)))
    }
}

} // verus!
