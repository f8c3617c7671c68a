use rephraser::llm::{LlmClient, MockLlmClient};

#[test]
fn test_mock_client_default_response() {
    let client = MockLlmClient::new();
    let result = client.complete("some random prompt").unwrap();
    assert!(result.contains("Mock LLM Response"));
}

#[test]
fn test_mock_client_polite_action() {
    let client = MockLlmClient::new();
    let result = client.complete("丁寧な表現に変換してください").unwrap();
    assert!(result.contains("お元気でしょうか"));
}

#[test]
fn test_mock_client_custom_response() {
    let mut client = MockLlmClient::new();
    client.add_response("custom", "Custom response");

    let result = client.complete("custom action").unwrap();
    assert_eq!(result, "Custom response");
}

#[test]
fn test_provider_info() {
    let client = MockLlmClient::new();
    assert_eq!(client.provider_name(), "mock");
    assert_eq!(client.model_name(), "mock-model-v1");
}

#[test]
fn canned_responses_in_full() {
    let client = MockLlmClient::new();
    assert_eq!(
        client.complete("please be polite").unwrap(),
        "こんにちは、お元気でしょうか。いつもありがとうございます。"
    );
    assert_eq!(
        client.complete("整理してください").unwrap(),
        "整理されたテキスト：\n\n1. 主要ポイント\n   - 項目A\n   - 項目B\n\n2. 詳細説明\n   - 説明1\n   - 説明2\n\n3. まとめ\n   - 結論"
    );
    assert_eq!(
        client.complete("要約してください").unwrap(),
        "要約: このテキストは主要な3つのポイントを含んでいます。"
    );
    assert_eq!(
        client.complete("nothing to see").unwrap(),
        "[Mock LLM Response] Processed successfully."
    );
    assert_eq!(client.complete("").unwrap(), "[Mock LLM Response] Processed successfully.");
}

#[test]
fn default_client_is_a_fresh_client() {
    let client = MockLlmClient::default();
    assert_eq!(
        client.complete("summarize this").unwrap(),
        "要約: このテキストは主要な3つのポイントを含んでいます。"
    );
}

#[test]
fn keys_are_tried_in_the_order_of_insertion() {
    let client = MockLlmClient::new();
    assert_eq!(client.extract_action("summarize and organize").unwrap(), "organize");
    assert_eq!(client.extract_action("organize, be polite").unwrap(), "polite");
}

#[test]
fn keys_come_before_markers() {
    let client = MockLlmClient::new();
    assert_eq!(client.extract_action("丁寧 summarize").unwrap(), "summarize");
    assert_eq!(client.extract_action("要約 整理 丁寧").unwrap(), "polite");
    assert_eq!(client.extract_action("要約 整理").unwrap(), "organize");
    assert_eq!(client.extract_action("要約").unwrap(), "summarize");
    assert!(client.extract_action("no marker").is_none());
}

#[test]
fn default_response_can_be_set() {
    let mut client = MockLlmClient::new();
    client.set_default_response("fallback");
    assert_eq!(client.complete("some random prompt").unwrap(), "fallback");
    assert!(client.complete("be polite").unwrap().contains("お元気でしょうか"));
}

#[test]
fn canned_response_can_be_replaced() {
    let mut client = MockLlmClient::new();
    client.add_response("polite", "Certainly.");
    assert_eq!(client.complete("polite").unwrap(), "Certainly.");
    assert_eq!(client.complete("丁寧").unwrap(), "Certainly.");
    assert_eq!(client.extract_action("organize polite").unwrap(), "polite");
}

#[test]
fn pipeline_runs_end_to_end_on_the_mock() {
    let resolver =
        rephraser::actions::ActionResolver::new(&rephraser::config::Config::default());
    let client = MockLlmClient::new();
    let prompt = resolver.resolve("polite", "やあ").unwrap();
    assert_eq!(
        client.complete(&prompt).unwrap(),
        "こんにちは、お元気でしょうか。いつもありがとうございます。"
    );
    let prompt = resolver.resolve("summarize", "long text").unwrap();
    assert_eq!(
        client.complete(&prompt).unwrap(),
        "要約: このテキストは主要な3つのポイントを含んでいます。"
    );
}
