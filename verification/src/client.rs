use vstd::prelude::*;
use crate::errors::LlmError;
use crate::provider::ProviderConfig;
use crate::response::extract_choice_contents;
use crate::response::spec_response_choices;
use crate::wire::build_messages;
use crate::wire::request_body_of;
use crate::wire::spec_request_body;
use crate::wire::spec_request_built;
use crate::wire::ChatRequest;

verus! {

/// Does the status count as success, as HTTP has it: the 2xx range.
pub open spec fn spec_status_success(status: u16) -> bool {
    200 <= status < 300
}

/// The outcome is a provider rejection carrying `body` verbatim.
pub open spec fn spec_is_provider_error(r: Result<String, LlmError>, body: Seq<char>) -> bool {
    r matches Err(e) && (e matches LlmError::ProviderError(b) && b@ == body)
}

/// The outcome owed for a response with this status and body text: a
/// provider rejection carrying the body for a non-success status; on a
/// success status, the malformed-response failure when the body does not
/// parse to the expected shape, the empty-completion failure when it
/// parses to zero choices, and the first choice's content verbatim
/// otherwise.
pub open spec fn spec_exchange_outcome(
    status: u16,
    body: Seq<char>,
    r: Result<String, LlmError>,
) -> bool {
    &&& !spec_status_success(status) ==> spec_is_provider_error(r, body)
    &&& spec_status_success(status) ==> (match spec_response_choices(body) {
        Option::None => r matches Err(e) && e is MalformedResponse,
        Option::Some(cs) => if cs.len() == 0 {
            r matches Err(e) && e is EmptyCompletion
        } else {
            r matches Ok(s) && s@ == cs[0]
        },
    })
}

/// The two failures are the same failure: the same mode, carrying the
/// same text where the mode carries one.
pub open spec fn spec_same_failure(e1: LlmError, e2: LlmError) -> bool {
    match (e1, e2) {
        (LlmError::MissingCredentials, LlmError::MissingCredentials) => true,
        (LlmError::TransportFailure(a), LlmError::TransportFailure(b)) => a@ == b@,
        (LlmError::ProviderError(a), LlmError::ProviderError(b)) => a@ == b@,
        (LlmError::EmptyCompletion, LlmError::EmptyCompletion) => true,
        (LlmError::MalformedResponse, LlmError::MalformedResponse) => true,
        _ => false,
    }
}

/// The two outcomes agree: both succeed with the same text, or both fail
/// the same way.
pub open spec fn spec_same_outcome(
    r1: Result<String, LlmError>,
    r2: Result<String, LlmError>,
) -> bool {
    match (r1, r2) {
        (Ok(s1), Ok(s2)) => s1@ == s2@,
        (Err(e1), Err(e2)) => spec_same_failure(e1, e2),
        _ => false,
    }
}

/// Error taxonomy of one exchange: it succeeds exactly when the status is
/// a success, the body parses to the expected shape, and at least one
/// choice is present; otherwise it fails, and with the one failure mode
/// owed — never a transport or credential failure.
pub proof fn lemma_exchange_taxonomy(status: u16, body: Seq<char>, r: Result<String, LlmError>)
    requires
        spec_exchange_outcome(status, body, r),
    ensures
        r is Ok <==> (spec_status_success(status) && (spec_response_choices(body) matches Some(cs)
            && cs.len() > 0)),
        r matches Err(e) ==> !(e is TransportFailure) && !(e is MissingCredentials),
{
}

/// One exchange is deterministic: two outcomes owed for the same status
/// and the same body text agree — the same generated text, or the same
/// failure.
pub proof fn lemma_exchange_deterministic(
    status: u16,
    body: Seq<char>,
    r1: Result<String, LlmError>,
    r2: Result<String, LlmError>,
)
    requires
        spec_exchange_outcome(status, body, r1),
        spec_exchange_outcome(status, body, r2),
    ensures
        spec_same_outcome(r1, r2),
{
}

/// One chat-completion client: the resolved provider configuration, owned
/// by the client and never mutated over its lifetime.
pub struct LlmClient {
    pub config: ProviderConfig,
}

/// What one exchange returns for a parsed list of choices: with no choice
/// at all, the distinct empty-completion failure — never a successful
/// empty string — and otherwise the first choice's content, unmodified.
pub fn first_choice(choices: Vec<String>) -> (r: Result<String, LlmError>)
    ensures
        choices@.len() == 0 ==> (r matches Err(e) && e is EmptyCompletion),
        choices@.len() > 0 ==> (r matches Ok(s) && s@ == choices@[0]@),
{
    if choices.len() == 0 {
        Err(LlmError::EmptyCompletion)
    } else {
        let mut rest = choices;
        Ok(rest.remove(0))
    }
}

impl LlmClient {
    /// Take ownership of a resolved configuration.
    pub fn new(config: ProviderConfig) -> (r: Self)
        ensures
            r.config == config,
    {
        LlmClient { config }
    }

    /// The endpoint URL requests go to.
    pub fn endpoint(&self) -> (r: &str)
        ensures
            r@ == self.config.base_url@,
    {
        self.config.base_url.as_str()
    }

    /// The authorization header value: the bearer scheme carrying the key.
    pub fn auth_header(&self) -> (r: String)
        ensures
            r@ == "Bearer "@ + self.config.api_key@,
    {
        let mut s = String::from_str("Bearer ");
        s.append(self.config.api_key.as_str());
        s
    }

    /// Construct the request for one exchange: this client's model, and
    /// exactly two messages in fixed order — the system prompt first, the
    /// user content second.
    pub fn build_request(&self, system: &str, user: &str) -> (r: ChatRequest)
        ensures
            spec_request_built(r, self.config.model@, system@, user@),
    {
        let r = ChatRequest {
            model: String::from_str(self.config.model.as_str()),
            messages: build_messages(system, user),
        };
        r
    }

    /// The serialized body of the request for one exchange.
    pub fn request_body(&self, system: &str, user: &str) -> (r: String)
        ensures
            r@ == spec_request_body(self.config.model@, system@, user@),
    {
        let req = self.build_request(system, user);
        request_body_of(&req)
    }

    /// Decide the outcome of one exchange from the response's status and
    /// body — a pure function of the two. A non-success status is a
    /// provider rejection carrying the raw body verbatim, whatever the body
    /// holds. On a success status the body is parsed: a body without the
    /// expected shape is the malformed-response failure, zero choices are
    /// the distinct empty-completion failure — never a successful empty
    /// string — and otherwise the first choice's content is returned
    /// unmodified. No outcome of a completed exchange is a transport or
    /// credential failure.
    pub fn interpret_response(&self, status: u16, body: String) -> (r: Result<String, LlmError>)
        ensures
            spec_exchange_outcome(status, body@, r),
            r matches Err(e) ==> !(e is TransportFailure) && !(e is MissingCredentials),
    {
        if !(200 <= status && status < 300) {
            return Err(LlmError::ProviderError(body));
        }
        match extract_choice_contents(body.as_str()) {
            Option::None => Err(LlmError::MalformedResponse),
            Option::Some(choices) => first_choice(choices),
        }
    }
}

} // verus!
