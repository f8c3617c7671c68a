use rephraser::config::models::{default_actions, default_max_tokens, default_temperature};
use rephraser::config::{Config, LlmParameters, OutputMethod, Temperature};

#[test]
fn test_config_default() {
    let config = Config::default();
    assert_eq!(config.llm.provider, "openai");
    assert_eq!(config.actions.len(), 3);
}

#[test]
fn default_configuration_in_full() {
    let config = Config::default();
    assert_eq!(config.llm.model, "gpt-4o-mini");
    assert_eq!(config.llm.api_key_env, "OPENAI_API_KEY");
    assert_eq!(config.llm.parameters.max_tokens, 500);
    assert_eq!(f32::from_bits(config.llm.parameters.temperature.to_bits()), 0.7_f32);
    assert_eq!(config.output.method, OutputMethod::Notification);
}

#[test]
fn default_parameters() {
    let parameters = LlmParameters::default();
    assert_eq!(parameters.max_tokens, 500);
    assert_eq!(parameters.temperature, Temperature::from_bits(0.7_f32.to_bits()));
    assert_eq!(default_max_tokens(), 500);
    assert_eq!(f32::from_bits(default_temperature().to_bits()), 0.7_f32);
}

#[test]
fn temperature_keeps_every_bit() {
    for value in [0.0_f32, 0.7, 1.0, 2.0, 0.333_333_34, -1.5, f32::MAX] {
        let carried = Temperature::from_bits(value.to_bits());
        assert_eq!(f32::from_bits(carried.to_bits()), value);
    }
}

#[test]
fn default_actions_in_full() {
    let actions = default_actions();
    assert_eq!(actions.len(), 3);
    assert_eq!(actions[0].name, "polite");
    assert_eq!(actions[0].display_name, "丁寧に");
    assert_eq!(
        actions[0].prompt_template,
        "以下のテキストを丁寧な表現に変換してください。元の意味を保ったまま、敬語や丁寧語を適切に使用してください。\n\nテキスト:\n{text}\n\n丁寧な表現:"
    );
    assert_eq!(actions[1].name, "organize");
    assert_eq!(actions[1].display_name, "整理する");
    assert_eq!(
        actions[1].prompt_template,
        "以下のテキストを論理的に整理し、読みやすく構造化してください。\n\nテキスト:\n{text}\n\n整理されたテキスト:"
    );
    assert_eq!(actions[2].name, "summarize");
    assert_eq!(actions[2].display_name, "要約");
    assert_eq!(
        actions[2].prompt_template,
        "以下のテキストを簡潔に要約してください。\n\nテキスト:\n{text}\n\n要約:"
    );
}

#[test]
fn cloned_action_is_the_same() {
    let actions = default_actions();
    let copy = actions[1].clone();
    assert_eq!(copy.name, actions[1].name);
    assert_eq!(copy.display_name, actions[1].display_name);
    assert_eq!(copy.prompt_template, actions[1].prompt_template);
}
