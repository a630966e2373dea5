//! Backend protocol adapters: each backend's request body is built here with
//! an exact contract, and each backend's success envelope is read here. The
//! two backends differ in message structuring (role-tagged list against a
//! flat concatenated prompt), in the credential requirement, and in the
//! response envelope; those three differences live in this module alone.

use vstd::prelude::*;
use vstd::string::StringExecFns;

use crate::dispatch::DispatchError;
use crate::json;

verus! {

/// Sampling temperature sent to both backends, carried in tenths (the relay
/// never computes with it; the transport layer renders it as 0.7 on the
/// wire).
pub const TEMPERATURE_TENTHS: u32 = 7;

/// Cap on the generated output length sent to both backends.
pub const MAX_OUTPUT_TOKENS: u32 = 500;

/// One role-tagged message of a chat-completion request.
pub struct ChatMessage {
    pub role: String,
    pub content: String,
}

/// The wire shape of a chat-completion request: an ordered message list, a
/// fixed model identifier, and the fixed generation parameters.
pub struct ChatRequest {
    pub model: String,
    pub messages: Vec<ChatMessage>,
    pub temperature_tenths: u32,
    pub max_tokens: u32,
}

/// The wire shape of a local generation request: one flat prompt string, a
/// model identifier, a streaming flag fixed to off, and the fixed
/// generation parameters.
pub struct GenerateRequest {
    pub model: String,
    pub prompt: String,
    pub stream: bool,
    pub temperature_tenths: u32,
    pub num_predict: u32,
}

/// The fixed assistant persona and formatting rules, identical across all
/// requests and both backends.
pub open spec fn system_instruction() -> Seq<char> {
    "You are a helpful assistant that answers questions about highlighted text from PDFs and websites. Be concise and informative. Prefer clarity over verbosity. Do not use LaTeX formatting. If there are no explicit questions, consider what questions could be asked and answer them."@
}

pub fn system_instruction_str() -> (r: &'static str)
    ensures
        r@ == system_instruction(),
{
    "You are a helpful assistant that answers questions about highlighted text from PDFs and websites. Be concise and informative. Prefer clarity over verbosity. Do not use LaTeX formatting. If there are no explicit questions, consider what questions could be asked and answer them."
}

/// The fixed model identifier sent to the chat-completion backend.
pub open spec fn chat_model_name() -> Seq<char> {
    "gpt-4o"@
}

pub fn chat_model_name_str() -> (r: &'static str)
    ensures
        r@ == chat_model_name(),
{
    "gpt-4o"
}

/// What a chat-completion request built for one prompt must hold: the fixed
/// model, exactly two messages — the system instruction, then the prompt as
/// the user message — and the fixed generation parameters.
pub open spec fn is_chat_request_for(req: ChatRequest, prompt: Seq<char>) -> bool {
    &&& req.model@ == chat_model_name()
    &&& req.messages@.len() == 2
    &&& req.messages@[0].role@ == "system"@
    &&& req.messages@[0].content@ == system_instruction()
    &&& req.messages@[1].role@ == "user"@
    &&& req.messages@[1].content@ == prompt
    &&& req.temperature_tenths == TEMPERATURE_TENTHS
    &&& req.max_tokens == MAX_OUTPUT_TOKENS
}

/// What a local generation request built for one prompt must hold: the
/// configured model, the system instruction concatenated directly ahead of
/// the prompt (this backend has no message-role concept), streaming off,
/// and the fixed generation parameters.
pub open spec fn is_generate_request_for(
    req: GenerateRequest,
    model: Seq<char>,
    prompt: Seq<char>,
) -> bool {
    &&& req.model@ == model
    &&& req.prompt@ == system_instruction() + "\n\n"@ + prompt
    &&& req.stream == false
    &&& req.temperature_tenths == TEMPERATURE_TENTHS
    &&& req.num_predict == MAX_OUTPUT_TOKENS
}

/// Two chat-completion requests carry the same wire content.
pub open spec fn chat_requests_agree(a: ChatRequest, b: ChatRequest) -> bool {
    &&& a.model@ == b.model@
    &&& a.messages@.len() == b.messages@.len()
    &&& forall|i: int|
        0 <= i < a.messages@.len() ==> a.messages@[i].role@ == b.messages@[i].role@
            && a.messages@[i].content@ == b.messages@[i].content@
    &&& a.temperature_tenths == b.temperature_tenths
    &&& a.max_tokens == b.max_tokens
}

/// Two local generation requests carry the same wire content.
pub open spec fn generate_requests_agree(a: GenerateRequest, b: GenerateRequest) -> bool {
    &&& a.model@ == b.model@
    &&& a.prompt@ == b.prompt@
    &&& a.stream == b.stream
    &&& a.temperature_tenths == b.temperature_tenths
    &&& a.num_predict == b.num_predict
}

/// Builds the chat-completion request for one prompt.
pub fn build_chat_request(prompt: &str) -> (r: ChatRequest)
    ensures
        is_chat_request_for(r, prompt@),
{
    let mut messages: Vec<ChatMessage> = Vec::new();
    messages.push(
        ChatMessage {
            role: String::from_str("system"),
            content: String::from_str(system_instruction_str()),
        },
    );
    messages.push(
        ChatMessage { role: String::from_str("user"), content: String::from_str(prompt) },
    );
    ChatRequest {
        model: String::from_str(chat_model_name_str()),
        messages,
        temperature_tenths: TEMPERATURE_TENTHS,
        max_tokens: MAX_OUTPUT_TOKENS,
    }
}

/// Builds the local generation request for one prompt.
pub fn build_generate_request(model: &str, prompt: &str) -> (r: GenerateRequest)
    ensures
        is_generate_request_for(r, model@, prompt@),
{
    let mut full = String::from_str(system_instruction_str());
    full.append("\n\n");
    full.append(prompt);
    GenerateRequest {
        model: String::from_str(model),
        prompt: full,
        stream: false,
        temperature_tenths: TEMPERATURE_TENTHS,
        num_predict: MAX_OUTPUT_TOKENS,
    }
}

/// The choices list was present as a list and held at least one entry.
pub open spec fn has_nonempty_choices(choice_count: Option<usize>) -> bool {
    choice_count matches Some(n) && n > 0
}

/// Decides the chat adapter's outcome from what the success envelope held:
/// the number of entries of the choices list (absent when the list was
/// missing or not a list) and the first choice's message content (absent
/// when missing or not a string). The answer is the content, exactly when
/// the list was non-empty and the content was a string; everything else is
/// an invalid response, never a silent empty answer.
pub fn chat_outcome(choice_count: Option<usize>, content: Option<String>) -> (r: Result<
    String,
    DispatchError,
>)
    ensures
        r is Ok <==> has_nonempty_choices(choice_count) && content is Some,
        r matches Ok(answer) ==> content == Some(answer),
        r matches Err(e) ==> e == DispatchError::InvalidResponse,
{
    match choice_count {
        Some(n) if n > 0 => match content {
            Some(answer) => Ok(answer),
            None => Err(DispatchError::InvalidResponse),
        },
        _ => Err(DispatchError::InvalidResponse),
    }
}

/// Decides the local generation adapter's outcome from what the success
/// envelope held: the "response" field's string content (absent when
/// missing or not a string). The answer is that content, exactly when it
/// was a string; its absence is an invalid response, never a silent empty
/// answer.
pub fn generate_outcome(response: Option<String>) -> (r: Result<String, DispatchError>)
    ensures
        r is Ok <==> response is Some,
        r matches Ok(answer) ==> response == Some(answer),
        r matches Err(e) ==> e == DispatchError::InvalidResponse,
{
    match response {
        Some(answer) => Ok(answer),
        None => Err(DispatchError::InvalidResponse),
    }
}

/// The chat-completion body holds an answer: its choices list is present
/// and non-empty, and the first choice's message content is a string.
pub open spec fn chat_answer_available(body: Seq<char>) -> bool {
    has_nonempty_choices(json::chat_choice_count_of(body)) && json::chat_content_of(body) is Some
}

/// Reads the chat-completion success envelope: the answer is the first
/// choice's message content, returned exactly when the choices list is
/// non-empty and the content is a string. A body that is not JSON, a
/// missing or ill-typed part, and an empty choices list are all an invalid
/// response.
pub fn extract_chat_answer(body: &str) -> (r: Result<String, DispatchError>)
    ensures
        r is Ok <==> chat_answer_available(body@),
        r matches Ok(answer) ==> json::chat_content_of(body@) == Some(answer@),
        r matches Err(e) ==> e == DispatchError::InvalidResponse,
{
    let choice_count = json::chat_choice_count(body);
    let content = json::chat_content(body);
    chat_outcome(choice_count, content)
}

/// Reads the local generation success envelope: the answer is the flat
/// "response" string field, returned exactly when that field is a string.
/// A body that is not JSON and a missing or ill-typed field are an invalid
/// response.
pub fn extract_generate_answer(body: &str) -> (r: Result<String, DispatchError>)
    ensures
        r is Ok <==> json::generate_response_of(body@) is Some,
        r matches Ok(answer) ==> json::generate_response_of(body@) == Some(answer@),
        r matches Err(e) ==> e == DispatchError::InvalidResponse,
{
    let response = json::generate_response(body);
    generate_outcome(response)
}

} // verus!
