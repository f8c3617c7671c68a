use rephraser::config::{Config, Temperature};
use rephraser::llm::{create_llm_client, Client, LlmClient};
use rephraser::RephraserError;

fn config_for(provider: &str, model: &str, env: &str) -> Config {
    let mut config = Config::default();
    config.llm.provider = provider.to_string();
    config.llm.model = model.to_string();
    config.llm.api_key_env = env.to_string();
    config.llm.parameters.temperature = Temperature::from_bits(1.0_f32.to_bits());
    config.llm.parameters.max_tokens = 64;
    config
}

fn config_error(result: Result<Client, RephraserError>) -> String {
    match result {
        Err(RephraserError::Config(detail)) => detail,
        Err(other) => panic!("unexpected error: {:?}", other),
        Ok(_) => panic!("unexpected client"),
    }
}

#[test]
fn openai_is_made_from_the_configuration() {
    let config = config_for("openai", "gpt-4", "OPENAI_API_KEY");
    let client = create_llm_client(&config, Some("sk-test".to_string())).unwrap();
    assert_eq!(client.provider_name(), "openai");
    assert_eq!(client.model_name(), "gpt-4");
    match client {
        Client::OpenAi(inner) => {
            let request = inner.request("hi");
            assert_eq!(request.headers[0].value, "Bearer sk-test");
            assert_eq!(request.model, "gpt-4");
            assert_eq!(request.max_tokens, 64);
            assert_eq!(f32::from_bits(request.temperature.to_bits()), 1.0_f32);
        }
        _ => panic!("expected the OpenAI client"),
    }
}

#[test]
fn anthropic_is_made_from_the_configuration() {
    let config = config_for("anthropic", "sonnet-2024-02-29", "ANTHROPIC_API_KEY");
    let client = create_llm_client(&config, Some("key-test".to_string())).unwrap();
    assert_eq!(client.provider_name(), "anthropic");
    assert_eq!(client.model_name(), "sonnet-2024-02-29");
    match client {
        Client::Anthropic(inner) => {
            let request = inner.request("hi");
            assert_eq!(request.headers[0].value, "key-test");
            assert_eq!(request.max_tokens, 64);
            assert_eq!(f32::from_bits(request.temperature.to_bits()), 1.0_f32);
        }
        _ => panic!("expected the Anthropic client"),
    }
}

#[test]
fn mock_needs_no_credential() {
    let config = config_for("mock", "whatever", "UNSET");
    let client = create_llm_client(&config, None).unwrap();
    assert_eq!(client.provider_name(), "mock");
    assert_eq!(client.model_name(), "mock-model-v1");
    match client {
        Client::Mock(inner) => {
            assert_eq!(
                inner.complete("nothing").unwrap(),
                "[Mock LLM Response] Processed successfully."
            );
        }
        _ => panic!("expected the mock client"),
    }
    assert!(matches!(
        create_llm_client(&config, Some("ignored".to_string())),
        Ok(Client::Mock(_))
    ));
}

#[test]
fn vendors_need_a_credential() {
    let config = config_for("openai", "gpt-4", "OPENAI_API_KEY");
    assert_eq!(
        config_error(create_llm_client(&config, None)),
        "Environment variable 'OPENAI_API_KEY' not found"
    );
    let config = config_for("anthropic", "sonnet", "MY_KEY");
    assert_eq!(
        config_error(create_llm_client(&config, None)),
        "Environment variable 'MY_KEY' not found"
    );
}

#[test]
fn unknown_provider_is_a_configuration_error() {
    let config = config_for("gemini", "x", "KEY");
    assert_eq!(
        config_error(create_llm_client(&config, Some("k".to_string()))),
        "Unknown provider: gemini"
    );
    let config = config_for("OpenAI", "x", "KEY");
    assert_eq!(
        config_error(create_llm_client(&config, Some("k".to_string()))),
        "Unknown provider: OpenAI"
    );
    let config = config_for("", "x", "KEY");
    assert_eq!(config_error(create_llm_client(&config, None)), "Unknown provider: ");
}

#[test]
fn default_configuration_asks_for_openai() {
    let client = create_llm_client(&Config::default(), Some("k".to_string())).unwrap();
    assert!(matches!(client, Client::OpenAi(_)));
    assert_eq!(client.model_name(), "gpt-4o-mini");
}
