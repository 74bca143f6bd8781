use vstd::prelude::*;

verus! {

/// Failure modes of the chat-completion exchange.
///
/// `MissingCredentials` arises before any request is made, when neither
/// credential source is set. `TransportFailure` records a request that could
/// not be sent or answered at all. `ProviderError` carries the raw response
/// body of a non-success status, so the caller can diagnose the rejection.
/// `EmptyCompletion` marks a well-formed response with zero choices, and
/// `MalformedResponse` a success status whose body did not hold the expected
/// shape.
#[derive(Debug)]
pub enum LlmError {
    MissingCredentials,
    TransportFailure(String),
    ProviderError(String),
    EmptyCompletion,
    MalformedResponse,
}

/// The user-facing text of each failure.
pub open spec fn spec_error_message(e: LlmError) -> Seq<char> {
    match e {
        LlmError::MissingCredentials => "Set OPENROUTER_API_KEY or OPENAI_API_KEY"@,
        LlmError::TransportFailure(d) => "request failed: "@ + d@,
        LlmError::ProviderError(b) => "API error: "@ + b@,
        LlmError::EmptyCompletion => "No response"@,
        LlmError::MalformedResponse => "malformed provider response"@,
    }
}

impl LlmError {
    /// A descriptive message for display; for a provider rejection it
    /// includes the raw response body verbatim.
    pub fn message(&self) -> (r: String)
        ensures
            r@ == spec_error_message(*self),
    {
        match self {
            LlmError::MissingCredentials => String::from_str(
                "Set OPENROUTER_API_KEY or OPENAI_API_KEY",
            ),
            LlmError::TransportFailure(d) => {
                let mut s = String::from_str("request failed: ");
                s.append(d.as_str());
                s
            },
            LlmError::ProviderError(b) => {
                let mut s = String::from_str("API error: ");
                s.append(b.as_str());
                s
            },
            LlmError::EmptyCompletion => String::from_str("No response"),
            LlmError::MalformedResponse => String::from_str("malformed provider response"),
        }
    }
}

} // verus!
