//! The JSON surface the adapters rely on. Each lookup an envelope needs is
//! one trusted function from the body text to plain values; what it returns
//! is a function of the body alone, so each result bears a name that the
//! adapters' contracts speak of. Every decision taken on the lookup results
//! is made in verified code.

use vstd::prelude::*;

verus! {

/// The element count of the "choices" list of a chat-completion body:
/// present exactly when the body parses as JSON and holds a list at
/// "choices".
pub uninterp spec fn chat_choice_count_of(body: Seq<char>) -> Option<usize>;

/// The first choice's message content of a chat-completion body: present
/// exactly when the body parses as JSON and holds a string at
/// "choices[0].message.content".
pub uninterp spec fn chat_content_of(body: Seq<char>) -> Option<Seq<char>>;

/// The "response" field of a local generation body: present exactly when
/// the body parses as JSON and holds a string at "response".
pub uninterp spec fn generate_response_of(body: Seq<char>) -> Option<Seq<char>>;

/// Relies on serde_json::from_str, Value::pointer and Value::as_array: the
/// element count of the body's "choices" list; `None` when the body is not
/// JSON or holds no list there. The result depends on the body text alone.
#[verifier::external_body]
pub(crate) fn chat_choice_count(body: &str) -> (r: Option<usize>)
    ensures
        r == chat_choice_count_of(body@),
{
    let doc: serde_json::Value = serde_json::from_str(body).ok()?;
    let count: usize = doc.pointer("/choices")?.as_array()?.len();
    Some(count)
}

/// Relies on serde_json::from_str, Value::pointer and Value::as_str: the
/// string at the body's "choices[0].message.content"; `None` when the body
/// is not JSON or holds no string there. The result depends on the body
/// text alone.
#[verifier::external_body]
pub(crate) fn chat_content(body: &str) -> (r: Option<String>)
    ensures
        r is Some <==> chat_content_of(body@) is Some,
        r matches Some(s) ==> chat_content_of(body@) == Some(s@),
{
    let doc: serde_json::Value = serde_json::from_str(body).ok()?;
    let content = doc.pointer("/choices/0/message/content")?.as_str()?;
    Some(content.to_owned())
}

/// Relies on serde_json::from_str, Value::pointer and Value::as_str: the
/// string at the body's "response" field; `None` when the body is not JSON
/// or holds no string there. The result depends on the body text alone.
#[verifier::external_body]
pub(crate) fn generate_response(body: &str) -> (r: Option<String>)
    ensures
        r is Some <==> generate_response_of(body@) is Some,
        r matches Some(s) ==> generate_response_of(body@) == Some(s@),
{
    let doc: serde_json::Value = serde_json::from_str(body).ok()?;
    let response = doc.pointer("/response")?.as_str()?;
    Some(response.to_owned())
}

} // verus!
