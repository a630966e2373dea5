//! The query dispatcher: builds the shared prompt, plans the one outbound
//! call for the active backend, and normalizes whatever that call came back
//! with into one success-or-error result with a uniform failure contract.

use vstd::prelude::*;
use vstd::string::StringExecFns;

use crate::adapters::ChatRequest;
use crate::adapters::GenerateRequest;
use crate::adapters::build_chat_request;
use crate::adapters::build_generate_request;
use crate::adapters::chat_answer_available;
use crate::adapters::chat_requests_agree;
use crate::adapters::extract_chat_answer;
use crate::adapters::extract_generate_answer;
use crate::adapters::generate_requests_agree;
use crate::adapters::is_chat_request_for;
use crate::adapters::is_generate_request_for;
use crate::adapters::system_instruction;
use crate::json::chat_content_of;
use crate::json::generate_response_of;
use crate::provider::Provider;
use crate::provider::ProviderConfig;

verus! {

/// One failure of a dispatch, kept apart internally; every kind collapses
/// to one textual message at the dispatcher boundary.
pub enum DispatchError {
    /// The backend answered with a non-success status; carries the backend
    /// that failed and the response body verbatim as diagnostic text.
    Upstream { provider: Provider, body: String },
    /// The backend answered successfully but the body did not hold the
    /// expected shape; for the chat backend this includes an empty choices
    /// list.
    InvalidResponse,
    /// The outbound call itself could not be completed; carries the
    /// transport's own description.
    Transport { detail: String },
}

/// The literal label always prefixed to the caller's text.
pub open spec fn prompt_label() -> Seq<char> {
    "Questions:\n"@
}

/// The prefix of the description of an upstream (non-success status)
/// failure, which names the backend that failed.
pub open spec fn upstream_error_prefix_for(provider: Provider) -> Seq<char> {
    match provider {
        Provider::ChatCompletion => "API error: "@,
        Provider::LocalGenerate => "Local LLM API error: "@,
    }
}

/// The description of a malformed or empty success body.
pub open spec fn invalid_response_text() -> Seq<char> {
    "Invalid response from LLM API"@
}

/// The prefix of every error message the dispatcher reports.
pub open spec fn dispatch_error_prefix() -> Seq<char> {
    "Error calling LLM API: "@
}

/// The prefix of the credential header on a chat-completion call.
pub open spec fn bearer_prefix() -> Seq<char> {
    "Bearer "@
}

impl DispatchError {
    /// The description of one failure, as the dispatcher's message carries
    /// it after the uniform prefix.
    pub open spec fn describe_spec(&self) -> Seq<char> {
        match self {
            DispatchError::Upstream { provider, body } => upstream_error_prefix_for(*provider)
                + body@,
            DispatchError::InvalidResponse => invalid_response_text(),
            DispatchError::Transport { detail } => detail@,
        }
    }

    pub fn describe(&self) -> (r: String)
        ensures
            r@ == self.describe_spec(),
    {
        match self {
            DispatchError::Upstream { provider, body } => {
                let mut m = match provider {
                    Provider::ChatCompletion => String::from_str("API error: "),
                    Provider::LocalGenerate => String::from_str("Local LLM API error: "),
                };
                m.append(body.as_str());
                m
            },
            DispatchError::InvalidResponse => String::from_str("Invalid response from LLM API"),
            DispatchError::Transport { detail } => detail.clone(),
        }
    }
}

/// The normalized outcome of one dispatch. Exactly one of the two fields is
/// populated: an answer on success, a descriptive message on failure.
pub struct AdapterResult {
    pub response: Option<String>,
    pub error: Option<String>,
}

impl AdapterResult {
    /// Exactly one of the two fields is populated.
    pub open spec fn wf(&self) -> bool {
        self.response is Some <==> self.error is None
    }
}

/// What the outbound call came back with, as the transport hands it to the
/// dispatcher.
pub enum UpstreamOutcome {
    /// The backend answered: the HTTP status code and the body read as
    /// text.
    Response { status: u16, body: String },
    /// The call could not be completed (connection refused, name
    /// resolution, timeout); carries the transport's description.
    TransportFailure { detail: String },
}

/// The HTTP status codes that count as success.
pub open spec fn is_success_status(status: u16) -> bool {
    200 <= status < 300
}

fn success_status(status: u16) -> (r: bool)
    ensures
        r == is_success_status(status),
{
    200 <= status && status < 300
}

/// Builds the prompt handed to the active adapter: the literal label
/// "Questions:\n" always prefixed to the caller's text, even when the text
/// is empty.
pub fn build_prompt(text: &str) -> (r: String)
    ensures
        r@ == prompt_label() + text@,
{
    let mut p = String::from_str("Questions:\n");
    p.append(text);
    p
}

/// Wraps an adapter outcome as the dispatcher's result: a success keeps the
/// answer untouched; every failure collapses to one textual message under
/// the uniform prefix.
pub fn normalize(outcome: Result<String, DispatchError>) -> (r: AdapterResult)
    ensures
        r.wf(),
        outcome matches Ok(answer) ==> r.response == Some(answer) && r.error is None,
        outcome matches Err(e) ==> ({
            &&& r.response is None
            &&& r.error matches Some(m) && m@ == dispatch_error_prefix() + e.describe_spec()
        }),
{
    match outcome {
        Ok(answer) => AdapterResult { response: Some(answer), error: None },
        Err(e) => {
            let mut m = String::from_str("Error calling LLM API: ");
            let description = e.describe();
            m.append(description.as_str());
            AdapterResult { response: None, error: Some(m) }
        },
    }
}

/// The backend-specific body of the one outbound call.
pub enum RequestPayload {
    Chat(ChatRequest),
    Generate(GenerateRequest),
}

/// The one outbound call a dispatch performs: where to send it, the
/// credential header when the backend requires one, and the
/// backend-specific request body.
pub struct DispatchPlan {
    pub url: String,
    pub auth_header: Option<String>,
    pub payload: RequestPayload,
}

/// What the plan for one query under one configuration must hold. The chat
/// backend gets an authenticated call to the chat URL with the role-tagged
/// request; the local backend gets an unauthenticated call to the local URL
/// with the flat-prompt request. Either way the prompt inside the request
/// is the label followed by the query text.
pub open spec fn plan_matches(
    query: Seq<char>,
    config: ProviderConfig,
    plan: DispatchPlan,
) -> bool {
    match config.provider {
        Provider::ChatCompletion => {
            &&& plan.url@ == config.chat_url@
            &&& plan.auth_header matches Some(h) && h@ == bearer_prefix() + config.api_key@
            &&& plan.payload matches RequestPayload::Chat(req) && is_chat_request_for(
                req,
                prompt_label() + query,
            )
        },
        Provider::LocalGenerate => {
            &&& plan.url@ == config.local_url@
            &&& plan.auth_header is None
            &&& plan.payload matches RequestPayload::Generate(req) && is_generate_request_for(
                req,
                config.local_model@,
                prompt_label() + query,
            )
        },
    }
}

/// Plans one dispatch: builds the prompt from the query and the
/// backend-specific request for the active provider. The planned call is a
/// function of the query and the configuration alone.
pub fn plan_dispatch(query: &str, config: &ProviderConfig) -> (plan: DispatchPlan)
    ensures
        plan_matches(query@, *config, plan),
{
    let prompt = build_prompt(query);
    match config.provider {
        Provider::ChatCompletion => {
            let req = build_chat_request(prompt.as_str());
            let mut header = String::from_str("Bearer ");
            header.append(config.api_key.as_str());
            DispatchPlan {
                url: config.chat_url.clone(),
                auth_header: Some(header),
                payload: RequestPayload::Chat(req),
            }
        },
        Provider::LocalGenerate => {
            let req = build_generate_request(config.local_model.as_str(), prompt.as_str());
            DispatchPlan {
                url: config.local_url.clone(),
                auth_header: None,
                payload: RequestPayload::Generate(req),
            }
        },
    }
}

/// Law: whichever backend is active, the prompt inside the planned request
/// is the literal label "Questions:\n" followed by the query text — as the
/// user message content of a chat request, and as the tail of a generate
/// request's flat prompt behind the system instruction.
pub proof fn lemma_prompt_shape(query: Seq<char>, config: ProviderConfig, plan: DispatchPlan)
    requires
        plan_matches(query, config, plan),
    ensures
        plan.payload matches RequestPayload::Chat(req) ==> req.messages@[1].content@
            == prompt_label() + query,
        plan.payload matches RequestPayload::Generate(req) ==> req.prompt@
            == system_instruction() + "\n\n"@ + (prompt_label() + query),
{
}

/// Law: planning keeps no per-call state. One query under one
/// configuration admits one outbound call: any two plans that meet the
/// planning contract agree on the URL, on the credential header, and on
/// every field of the request body.
pub proof fn lemma_plan_deterministic(
    query: Seq<char>,
    config: ProviderConfig,
    p1: DispatchPlan,
    p2: DispatchPlan,
)
    requires
        plan_matches(query, config, p1),
        plan_matches(query, config, p2),
    ensures
        p1.url@ == p2.url@,
        p1.auth_header is Some <==> p2.auth_header is Some,
        p1.auth_header is Some ==> p1.auth_header.unwrap()@ == p2.auth_header.unwrap()@,
        match (p1.payload, p2.payload) {
            (RequestPayload::Chat(a), RequestPayload::Chat(b)) => chat_requests_agree(a, b),
            (RequestPayload::Generate(a), RequestPayload::Generate(b)) => generate_requests_agree(
                a,
                b,
            ),
            _ => false,
        },
{
}

/// What the result of one dispatch must hold, given the active backend and
/// what the outbound call came back with. A transport failure and a
/// non-success status pin the error text exactly; on a success status the
/// result carries the answer the active backend's envelope held, exactly
/// when it held one, and reports an invalid response otherwise.
pub open spec fn finish_matches(
    provider: Provider,
    outcome: UpstreamOutcome,
    r: AdapterResult,
) -> bool {
    &&& r.wf()
    &&& match outcome {
        UpstreamOutcome::TransportFailure { detail } => {
            &&& r.response is None
            &&& r.error matches Some(m) && m@ == dispatch_error_prefix() + detail@
        },
        UpstreamOutcome::Response { status, body } => {
            if !is_success_status(status) {
                &&& r.response is None
                &&& r.error matches Some(m) && m@ == dispatch_error_prefix()
                    + upstream_error_prefix_for(provider) + body@
            } else {
                match provider {
                    Provider::ChatCompletion => {
                        if chat_answer_available(body@) {
                            r.response matches Some(answer) && chat_content_of(body@) == Some(
                                answer@,
                            )
                        } else {
                            &&& r.response is None
                            &&& r.error matches Some(m) && m@ == dispatch_error_prefix()
                                + invalid_response_text()
                        }
                    },
                    Provider::LocalGenerate => {
                        if generate_response_of(body@) is Some {
                            r.response matches Some(answer) && generate_response_of(body@) == Some(
                                answer@,
                            )
                        } else {
                            &&& r.response is None
                            &&& r.error matches Some(m) && m@ == dispatch_error_prefix()
                                + invalid_response_text()
                        }
                    },
                }
            }
        },
    }
}

/// Law: completing a dispatch keeps no per-call state. For one backend and
/// one upstream outcome, any two results that meet the dispatch contract
/// agree: the same field is populated, with the same answer text or the
/// same error text.
pub proof fn lemma_finish_deterministic(
    provider: Provider,
    outcome: UpstreamOutcome,
    r1: AdapterResult,
    r2: AdapterResult,
)
    requires
        finish_matches(provider, outcome, r1),
        finish_matches(provider, outcome, r2),
    ensures
        r1.response is Some <==> r2.response is Some,
        r1.response is Some ==> r1.response.unwrap()@ == r2.response.unwrap()@,
        r1.error is Some <==> r2.error is Some,
        r1.error is Some ==> r1.error.unwrap()@ == r2.error.unwrap()@,
{
}

/// Completes one dispatch from what the outbound call came back with: a
/// transport failure and a non-success status become the uniform error
/// message; a success body is read by the active backend's adapter and the
/// outcome normalized.
pub fn finish_dispatch(provider: Provider, outcome: UpstreamOutcome) -> (r: AdapterResult)
    ensures
        finish_matches(provider, outcome, r),
{
    match outcome {
        UpstreamOutcome::TransportFailure { detail } => {
            normalize(Err(DispatchError::Transport { detail }))
        },
        UpstreamOutcome::Response { status, body } => {
            if !success_status(status) {
                let ghost b = body@;
                let r = normalize(Err(DispatchError::Upstream { provider, body }));
                proof {
                    assert(dispatch_error_prefix() + (upstream_error_prefix_for(provider) + b)
                        =~= dispatch_error_prefix() + upstream_error_prefix_for(provider) + b);
                }
                r
            } else {
                match provider {
                    Provider::ChatCompletion => normalize(extract_chat_answer(body.as_str())),
                    Provider::LocalGenerate => normalize(extract_generate_answer(body.as_str())),
                }
            }
        },
    }
}

} // verus!
