//! Provider selection: which upstream backend is active, and the immutable
//! process-lifetime configuration that binds it.

use vstd::prelude::*;
use vstd::string::StrSliceExecFns;
use vstd::string::StringExecFns;

verus! {

/// Which upstream backend is active for the lifetime of the process.
#[derive(Clone, Copy, Debug, PartialEq, Eq, Structural)]
pub enum Provider {
    /// A multi-message chat API: role-tagged messages, bearer credential.
    ChatCompletion,
    /// A single-prompt local generation API: flat prompt, no credential.
    LocalGenerate,
}

/// Immutable configuration chosen once at startup and shared read-only by
/// every request for the remainder of the process lifetime.
pub struct ProviderConfig {
    pub provider: Provider,
    /// Credential for the chat backend; empty when none was supplied.
    pub api_key: String,
    /// Endpoint of the chat-completions backend.
    pub chat_url: String,
    /// Endpoint of the local generation backend.
    pub local_url: String,
    /// Model identifier sent to the local generation backend.
    pub local_model: String,
}

/// Lower-cases one Unicode scalar value when it is an ASCII capital letter.
pub open spec fn lower_code(u: u32) -> u32 {
    if 65 <= u && u <= 90 {
        (u + 32) as u32
    } else {
        u
    }
}

/// Two characters are equal up to ASCII letter case.
pub open spec fn chars_eq_ignore_ascii_case(a: char, b: char) -> bool {
    lower_code(a as u32) == lower_code(b as u32)
}

/// Two strings are equal up to ASCII letter case.
pub open spec fn str_eq_ignore_ascii_case(a: Seq<char>, b: Seq<char>) -> bool {
    a.len() == b.len() && (forall|i: int|
        0 <= i < a.len() ==> chars_eq_ignore_ascii_case(a[i], b[i]))
}

/// The provider names that select the Local-Generate backend, compared
/// without regard to ASCII letter case.
pub open spec fn is_local_name(s: Seq<char>) -> bool {
    str_eq_ignore_ascii_case(s, "local"@) || str_eq_ignore_ascii_case(s, "llama"@)
}

/// The backend selected by a provider name: "local" and "llama" (in any
/// letter case) pick the Local-Generate backend; everything else picks the
/// Chat-Completion backend, the default.
pub open spec fn spec_select_provider(s: Seq<char>) -> Provider {
    if is_local_name(s) {
        Provider::LocalGenerate
    } else {
        Provider::ChatCompletion
    }
}

fn lower_code_exec(u: u32) -> (r: u32)
    ensures
        r == lower_code(u),
{
    if 65 <= u && u <= 90 {
        u + 32
    } else {
        u
    }
}

fn eq_ignore_ascii_case(a: &str, b: &str) -> (r: bool)
    ensures
        r == str_eq_ignore_ascii_case(a@, b@),
{
    let alen = a.unicode_len();
    let blen = b.unicode_len();
    if alen != blen {
        return false;
    }
    let mut i: usize = 0;
    while i < alen
        invariant
            i <= alen,
            alen == a@.len(),
            alen == b@.len(),
            forall|j: int| 0 <= j < i ==> chars_eq_ignore_ascii_case(a@[j], b@[j]),
        decreases alen - i,
    {
        let ca = a.get_char(i);
        let cb = b.get_char(i);
        if lower_code_exec(ca as u32) != lower_code_exec(cb as u32) {
            return false;
        }
        i += 1;
    }
    true
}

/// Resolves a provider name to the backend it selects.
pub fn select_provider(name: &str) -> (p: Provider)
    ensures
        p == spec_select_provider(name@),
{
    if eq_ignore_ascii_case(name, "local") || eq_ignore_ascii_case(name, "llama") {
        Provider::LocalGenerate
    } else {
        Provider::ChatCompletion
    }
}

/// Endpoint of the chat-completions backend, a fixed literal.
pub open spec fn chat_completions_url() -> Seq<char> {
    "https://api.openai.com/v1/chat/completions"@
}

pub fn chat_completions_url_str() -> (r: &'static str)
    ensures
        r@ == chat_completions_url(),
{
    "https://api.openai.com/v1/chat/completions"
}

/// Default endpoint of the local generation backend, used when none is
/// configured.
pub open spec fn default_local_url() -> Seq<char> {
    "http://localhost:11434/api/generate"@
}

pub fn default_local_url_str() -> (r: &'static str)
    ensures
        r@ == default_local_url(),
{
    "http://localhost:11434/api/generate"
}

/// Default model identifier for the local generation backend.
pub open spec fn default_local_model() -> Seq<char> {
    "llama3"@
}

pub fn default_local_model_str() -> (r: &'static str)
    ensures
        r@ == default_local_model(),
{
    "llama3"
}

/// Builds the process-lifetime configuration from the raw settings, applying
/// the documented defaults. An absent provider name selects the
/// Chat-Completion backend. The second component of the result is true when
/// the chosen backend requires a credential but none was supplied; that
/// condition is a startup warning, never a startup failure — the first
/// dispatch will then fail with the upstream's authentication error.
pub fn build_config(
    provider_name: Option<&str>,
    api_key: Option<String>,
    local_url: Option<String>,
    local_model: Option<String>,
) -> (r: (ProviderConfig, bool))
    ensures
        r.0.provider == (match provider_name {
            Some(n) => spec_select_provider(n@),
            None => Provider::ChatCompletion,
        }),
        r.0.api_key@ == (match api_key {
            Some(k) => k@,
            None => Seq::<char>::empty(),
        }),
        r.0.chat_url@ == chat_completions_url(),
        r.0.local_url@ == (match local_url {
            Some(u) => u@,
            None => default_local_url(),
        }),
        r.0.local_model@ == (match local_model {
            Some(m) => m@,
            None => default_local_model(),
        }),
        r.1 == (r.0.provider == Provider::ChatCompletion && api_key is None),
{
    let provider = match provider_name {
        Some(n) => select_provider(n),
        None => Provider::ChatCompletion,
    };
    let credential_missing = api_key.is_none();
    let key = match api_key {
        Some(k) => k,
        None => String::new(),
    };
    let lurl = match local_url {
        Some(u) => u,
        None => String::from_str(default_local_url_str()),
    };
    let model = match local_model {
        Some(m) => m,
        None => String::from_str(default_local_model_str()),
    };
    let warn = provider == Provider::ChatCompletion && credential_missing;
    let config = ProviderConfig {
        provider,
        api_key: key,
        chat_url: String::from_str(chat_completions_url_str()),
        local_url: lurl,
        local_model: model,
    };
    (config, warn)
}

} // verus!
