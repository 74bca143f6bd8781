use git_relax::client::LlmClient;
use git_relax::provider::ProviderConfig;
use git_relax::wire::Role;

fn client(model: &str) -> LlmClient {
    LlmClient::new(ProviderConfig {
        api_key: "k".to_string(),
        model: model.to_string(),
        base_url: "https://example.invalid/v1/chat/completions".to_string(),
    })
}

#[test]
fn request_holds_exactly_two_messages_in_order() {
    let c = client("m");
    let req = c.build_request("the prompt", "the diff");
    assert_eq!(req.messages.len(), 2);
    assert!(matches!(req.messages[0].role, Role::System));
    assert_eq!(req.messages[0].content, "the prompt");
    assert!(matches!(req.messages[1].role, Role::User));
    assert_eq!(req.messages[1].content, "the diff");
    assert_eq!(req.model, "m");
}

#[test]
fn request_two_messages_even_with_empty_user_content() {
    let c = client("m");
    let req = c.build_request("the prompt", "");
    assert_eq!(req.messages.len(), 2);
    assert!(matches!(req.messages[1].role, Role::User));
    assert_eq!(req.messages[1].content, "");
}

#[test]
fn body_exact_for_plain_inputs() {
    let c = client("m");
    let body = c.request_body("s", "u");
    assert_eq!(
        body,
        "{\"model\":\"m\",\"messages\":[{\"role\":\"system\",\"content\":\"s\"},{\"role\":\"user\",\"content\":\"u\"}]}"
    );
}

#[test]
fn body_with_empty_user_content_still_sends_user_message() {
    let c = client("m");
    let body = c.request_body("s", "");
    assert_eq!(
        body,
        "{\"model\":\"m\",\"messages\":[{\"role\":\"system\",\"content\":\"s\"},{\"role\":\"user\",\"content\":\"\"}]}"
    );
}

#[test]
fn body_escapes_quotes_backslashes_and_control_characters() {
    let c = client("m");
    let body = c.request_body("s", "a\"b\\c\nd\re\tf\u{1}g");
    assert_eq!(
        body,
        "{\"model\":\"m\",\"messages\":[{\"role\":\"system\",\"content\":\"s\"},{\"role\":\"user\",\"content\":\"a\\\"b\\\\c\\nd\\re\\tf\\u0001g\"}]}"
    );
}

#[test]
fn body_parses_back_with_a_real_json_parser() {
    let c = client("test-model");
    let system = "Prompt with \"quotes\" and\nnewlines\t\u{1f}";
    let user = "diff --git a/x b/x\n+foo \\ bar\u{0}";
    let body = c.request_body(system, user);
    let v: serde_json::Value = serde_json::from_str(&body).unwrap();
    assert_eq!(v["model"].as_str().unwrap(), "test-model");
    let messages = v["messages"].as_array().unwrap();
    assert_eq!(messages.len(), 2);
    assert_eq!(messages[0]["role"].as_str().unwrap(), "system");
    assert_eq!(messages[0]["content"].as_str().unwrap(), system);
    assert_eq!(messages[1]["role"].as_str().unwrap(), "user");
    assert_eq!(messages[1]["content"].as_str().unwrap(), user);
}

#[test]
fn auth_header_carries_bearer_scheme_and_key() {
    let c = client("m");
    assert_eq!(c.auth_header(), "Bearer k");
}

#[test]
fn endpoint_is_the_configured_url() {
    let c = client("m");
    assert_eq!(c.endpoint(), "https://example.invalid/v1/chat/completions");
}
