use git_relax::errors::LlmError;
use git_relax::provider::resolve_provider;

const OPENROUTER_URL: &str = "https://openrouter.ai/api/v1/chat/completions";
const OPENAI_URL: &str = "https://api.openai.com/v1/chat/completions";

#[test]
fn source_a_only_selects_provider_a_default_model() {
    let cfg = resolve_provider(Some("ka".to_string()), None, None).unwrap();
    assert_eq!(cfg.api_key, "ka");
    assert_eq!(cfg.model, "google/gemini-2.0-flash-001");
    assert_eq!(cfg.base_url, OPENROUTER_URL);
}

#[test]
fn source_a_with_override_uses_override_verbatim() {
    let cfg = resolve_provider(
        Some("ka".to_string()),
        None,
        Some("Custom/Model-7 ".to_string()),
    )
    .unwrap();
    assert_eq!(cfg.model, "Custom/Model-7 ");
    assert_eq!(cfg.base_url, OPENROUTER_URL);
}

#[test]
fn both_sources_set_selects_provider_a() {
    let cfg = resolve_provider(Some("ka".to_string()), Some("kb".to_string()), None).unwrap();
    assert_eq!(cfg.api_key, "ka");
    assert_eq!(cfg.base_url, OPENROUTER_URL);
    assert_eq!(cfg.model, "google/gemini-2.0-flash-001");
}

#[test]
fn both_sources_and_override_still_provider_a() {
    let cfg = resolve_provider(
        Some("ka".to_string()),
        Some("kb".to_string()),
        Some("m".to_string()),
    )
    .unwrap();
    assert_eq!(cfg.api_key, "ka");
    assert_eq!(cfg.base_url, OPENROUTER_URL);
    assert_eq!(cfg.model, "m");
}

#[test]
fn source_b_only_selects_provider_b() {
    let cfg = resolve_provider(None, Some("kb".to_string()), None).unwrap();
    assert_eq!(cfg.api_key, "kb");
    assert_eq!(cfg.model, "gpt-4o-mini");
    assert_eq!(cfg.base_url, OPENAI_URL);
}

#[test]
fn source_b_with_override_uses_override() {
    let cfg = resolve_provider(None, Some("kb".to_string()), Some("m2".to_string())).unwrap();
    assert_eq!(cfg.model, "m2");
    assert_eq!(cfg.base_url, OPENAI_URL);
}

#[test]
fn neither_source_fails_with_missing_credentials() {
    let r = resolve_provider(None, None, None);
    assert!(matches!(r, Err(LlmError::MissingCredentials)));
}

#[test]
fn missing_credentials_even_with_override() {
    let r = resolve_provider(None, None, Some("m".to_string()));
    assert!(matches!(r, Err(LlmError::MissingCredentials)));
}

#[test]
fn missing_credentials_message_names_both_variables() {
    let e = resolve_provider(None, None, None).unwrap_err();
    let msg = e.message();
    assert!(msg.contains("OPENROUTER_API_KEY"));
    assert!(msg.contains("OPENAI_API_KEY"));
}
