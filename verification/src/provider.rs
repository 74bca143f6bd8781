use vstd::prelude::*;
use crate::errors::LlmError;

verus! {

/// Everything needed to address one hosted chat-completion provider:
/// the API key, the model identifier, and the endpoint URL. Resolved once
/// per client lifetime and never mutated afterwards.
#[derive(Debug)]
pub struct ProviderConfig {
    pub api_key: String,
    pub model: String,
    pub base_url: String,
}

pub open spec fn spec_openrouter_url() -> Seq<char> {
    "https://openrouter.ai/api/v1/chat/completions"@
}

pub open spec fn spec_openai_url() -> Seq<char> {
    "https://api.openai.com/v1/chat/completions"@
}

pub open spec fn spec_openrouter_default_model() -> Seq<char> {
    "google/gemini-2.0-flash-001"@
}

pub open spec fn spec_openai_default_model() -> Seq<char> {
    "gpt-4o-mini"@
}

/// The model actually used: the override value verbatim when one is
/// present, the provider's default otherwise.
pub open spec fn spec_chosen_model(model_override: Option<Seq<char>>, default_model: Seq<char>) -> Seq<char> {
    match model_override {
        Option::Some(m) => m,
        Option::None => default_model,
    }
}

/// Provider resolution as a mathematical function of the environment state:
/// the primary credential source (OpenRouter) wins whenever it is present,
/// the fallback source (OpenAI) is used otherwise, and with neither present
/// no configuration exists (`None`).
pub open spec fn spec_resolve(
    openrouter_key: Option<Seq<char>>,
    openai_key: Option<Seq<char>>,
    model_override: Option<Seq<char>>,
) -> Option<(Seq<char>, Seq<char>, Seq<char>)> {
    match openrouter_key {
        Option::Some(k) => Option::Some(
            (k, spec_chosen_model(model_override, spec_openrouter_default_model()), spec_openrouter_url()),
        ),
        Option::None => match openai_key {
            Option::Some(k) => Option::Some(
                (k, spec_chosen_model(model_override, spec_openai_default_model()), spec_openai_url()),
            ),
            Option::None => Option::None,
        },
    }
}

/// The configuration `c` is exactly what resolution yields for these inputs.
pub open spec fn spec_config_matches(c: ProviderConfig, key: Seq<char>, model: Seq<char>, url: Seq<char>) -> bool {
    &&& c.api_key@ == key
    &&& c.model@ == model
    &&& c.base_url@ == url
}

/// Select the provider configuration from the credential values found in
/// the environment. Pure: the caller reads the variables and passes their
/// values in, so no ambient state is consulted here and no network call is
/// ever attempted during resolution.
pub fn resolve_provider(
    openrouter_key: Option<String>,
    openai_key: Option<String>,
    model_override: Option<String>,
) -> (r: Result<ProviderConfig, LlmError>)
    ensures
        match spec_resolve(openrouter_key.deep_view(), openai_key.deep_view(), model_override.deep_view()) {
            Option::Some(cfg) => r matches Ok(c) && spec_config_matches(c, cfg.0, cfg.1, cfg.2),
            Option::None => r matches Err(e) && e is MissingCredentials,
        },
{
    match openrouter_key {
        Option::Some(key) => {
            let model = match model_override {
                Option::Some(m) => m,
                Option::None => String::from_str("google/gemini-2.0-flash-001"),
            };
            Ok(ProviderConfig {
                api_key: key,
                model,
                base_url: String::from_str("https://openrouter.ai/api/v1/chat/completions"),
            })
        },
        Option::None => match openai_key {
            Option::Some(key) => {
                let model = match model_override {
                    Option::Some(m) => m,
                    Option::None => String::from_str("gpt-4o-mini"),
                };
                Ok(ProviderConfig {
                    api_key: key,
                    model,
                    base_url: String::from_str("https://api.openai.com/v1/chat/completions"),
                })
            },
            Option::None => Err(LlmError::MissingCredentials),
        },
    }
}

/// With only the primary credential source set, resolution selects the
/// primary provider's endpoint and its default model — unless a model
/// override is present, in which case the override value is used verbatim.
pub proof fn lemma_source_a_selects_provider_a(key: Seq<char>, model_override: Option<Seq<char>>)
    ensures
        spec_resolve(Option::Some(key), Option::None, model_override) == Option::Some(
            (key, spec_chosen_model(model_override, spec_openrouter_default_model()), spec_openrouter_url()),
        ),
        model_override matches Option::Some(m) ==> spec_resolve(
            Option::Some(key),
            Option::None,
            model_override,
        ) == Option::Some((key, m, spec_openrouter_url())),
{
}

/// With both credential sources set, resolution behaves exactly as if only
/// the primary source were set: the primary source always wins.
pub proof fn lemma_source_a_precedence(
    key_a: Seq<char>,
    key_b: Seq<char>,
    model_override: Option<Seq<char>>,
)
    ensures
        spec_resolve(Option::Some(key_a), Option::Some(key_b), model_override) == spec_resolve(
            Option::Some(key_a),
            Option::None,
            model_override,
        ),
{
}

/// With neither credential source set, no configuration exists, whatever
/// the model override holds; `resolve_provider` then returns
/// `MissingCredentials` and nothing further can happen.
pub proof fn lemma_missing_credentials(model_override: Option<Seq<char>>)
    ensures
        spec_resolve(Option::None, Option::None, model_override) is None,
{
}

} // verus!
