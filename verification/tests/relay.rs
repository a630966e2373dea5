use llm_relay::adapters::ChatRequest;
use llm_relay::adapters::GenerateRequest;
use llm_relay::adapters::build_chat_request;
use llm_relay::adapters::build_generate_request;
use llm_relay::adapters::chat_outcome;
use llm_relay::adapters::generate_outcome;
use llm_relay::dispatch::AdapterResult;
use llm_relay::dispatch::DispatchPlan;
use llm_relay::dispatch::RequestPayload;
use llm_relay::dispatch::UpstreamOutcome;
use llm_relay::dispatch::build_prompt;
use llm_relay::dispatch::finish_dispatch;
use llm_relay::dispatch::plan_dispatch;
use llm_relay::provider::Provider;
use llm_relay::provider::ProviderConfig;
use llm_relay::provider::build_config;
use llm_relay::provider::select_provider;

fn chat_config(key: &str) -> ProviderConfig {
    let (config, _) = build_config(
        Some("openai"),
        Some(key.to_string()),
        None,
        None,
    );
    config
}

fn local_config() -> ProviderConfig {
    let (config, _) = build_config(Some("local"), None, None, None);
    config
}

fn ok_response(body: &str) -> UpstreamOutcome {
    UpstreamOutcome::Response { status: 200, body: body.to_string() }
}

#[test]
fn prompt_prefixes_label() {
    let p = build_prompt("What is the capital of France?");
    assert_eq!(p, "Questions:\nWhat is the capital of France?");
}

#[test]
fn prompt_label_kept_on_empty_text() {
    let p = build_prompt("");
    assert_eq!(p, "Questions:\n");
}

#[test]
fn local_names_select_local_generate() {
    assert_eq!(select_provider("local"), Provider::LocalGenerate);
    assert_eq!(select_provider("llama"), Provider::LocalGenerate);
    assert_eq!(select_provider("LOCAL"), Provider::LocalGenerate);
    assert_eq!(select_provider("Llama"), Provider::LocalGenerate);
    assert_eq!(select_provider("lLaMa"), Provider::LocalGenerate);
}

#[test]
fn other_names_select_chat_completion() {
    assert_eq!(select_provider("openai"), Provider::ChatCompletion);
    assert_eq!(select_provider(""), Provider::ChatCompletion);
    assert_eq!(select_provider("remote"), Provider::ChatCompletion);
    assert_eq!(select_provider("llamas"), Provider::ChatCompletion);
    assert_eq!(select_provider("loca"), Provider::ChatCompletion);
}

#[test]
fn absent_name_defaults_to_chat_completion() {
    let (config, _) = build_config(None, Some("sk-test".to_string()), None, None);
    assert_eq!(config.provider, Provider::ChatCompletion);
}

#[test]
fn config_applies_documented_defaults() {
    let (config, _) = build_config(Some("local"), None, None, None);
    assert_eq!(config.provider, Provider::LocalGenerate);
    assert_eq!(config.api_key, "");
    assert_eq!(config.chat_url, "https://api.openai.com/v1/chat/completions");
    assert_eq!(config.local_url, "http://localhost:11434/api/generate");
    assert_eq!(config.local_model, "llama3");
}

#[test]
fn config_keeps_supplied_settings() {
    let (config, warn) = build_config(
        Some("llama"),
        Some("sk-test".to_string()),
        Some("http://127.0.0.1:8080/api/generate".to_string()),
        Some("llama2".to_string()),
    );
    assert_eq!(config.provider, Provider::LocalGenerate);
    assert_eq!(config.api_key, "sk-test");
    assert_eq!(config.local_url, "http://127.0.0.1:8080/api/generate");
    assert_eq!(config.local_model, "llama2");
    assert!(!warn);
}

#[test]
fn missing_credential_warns_only_for_chat() {
    let (_, warn_chat) = build_config(Some("openai"), None, None, None);
    assert!(warn_chat);
    let (_, warn_local) = build_config(Some("local"), None, None, None);
    assert!(!warn_local);
    let (_, warn_supplied) = build_config(Some("openai"), Some("sk-test".to_string()), None, None);
    assert!(!warn_supplied);
}

#[test]
fn chat_request_shape() {
    let req: ChatRequest = build_chat_request("Questions:\nhello");
    assert_eq!(req.model, "gpt-4o");
    assert_eq!(req.messages.len(), 2);
    assert_eq!(req.messages[0].role, "system");
    assert!(req.messages[0].content.contains("helpful assistant"));
    assert_eq!(req.messages[1].role, "user");
    assert_eq!(req.messages[1].content, "Questions:\nhello");
    assert_eq!(req.temperature_tenths, 7);
    assert_eq!(req.max_tokens, 500);
}

#[test]
fn generate_request_shape() {
    let req: GenerateRequest = build_generate_request("llama3", "Questions:\nhello");
    assert_eq!(req.model, "llama3");
    assert!(req.prompt.starts_with("You are a helpful assistant"));
    assert!(req.prompt.ends_with("\n\nQuestions:\nhello"));
    assert!(!req.stream);
    assert_eq!(req.temperature_tenths, 7);
    assert_eq!(req.num_predict, 500);
}

#[test]
fn chat_plan_is_authenticated_and_carries_prompt() {
    let plan: DispatchPlan = plan_dispatch("hello", &chat_config("sk-test"));
    assert_eq!(plan.url, "https://api.openai.com/v1/chat/completions");
    assert_eq!(plan.auth_header.as_deref(), Some("Bearer sk-test"));
    match plan.payload {
        RequestPayload::Chat(req) => {
            assert_eq!(req.messages[1].content, "Questions:\nhello");
        }
        RequestPayload::Generate(_) => panic!("chat configuration must plan a chat request"),
    }
}

#[test]
fn local_plan_is_unauthenticated_and_carries_prompt() {
    let plan: DispatchPlan = plan_dispatch("hello", &local_config());
    assert_eq!(plan.url, "http://localhost:11434/api/generate");
    assert!(plan.auth_header.is_none());
    match plan.payload {
        RequestPayload::Generate(req) => {
            assert!(req.prompt.ends_with("\n\nQuestions:\nhello"));
            assert_eq!(req.model, "llama3");
        }
        RequestPayload::Chat(_) => panic!("local configuration must plan a generate request"),
    }
}

#[test]
fn chat_outcome_needs_a_choice_and_a_content() {
    assert_eq!(chat_outcome(Some(1), Some("a".to_string())).ok(), Some("a".to_string()));
    assert!(chat_outcome(Some(0), Some("a".to_string())).is_err());
    assert!(chat_outcome(None, Some("a".to_string())).is_err());
    assert!(chat_outcome(Some(2), None).is_err());
}

#[test]
fn generate_outcome_needs_the_response_field() {
    assert_eq!(generate_outcome(Some("42".to_string())).ok(), Some("42".to_string()));
    assert!(generate_outcome(None).is_err());
}

#[test]
fn chat_success_returns_first_choice_content() {
    let body = "{\"choices\":[{\"message\":{\"role\":\"assistant\",\"content\":\"Paris is the capital of France.\"}}]}";
    let result: AdapterResult = finish_dispatch(Provider::ChatCompletion, ok_response(body));
    assert_eq!(result.response.as_deref(), Some("Paris is the capital of France."));
    assert!(result.error.is_none());
}

#[test]
fn chat_first_of_several_choices_wins() {
    let body = "{\"choices\":[{\"message\":{\"content\":\"first\"}},{\"message\":{\"content\":\"second\"}}]}";
    let result = finish_dispatch(Provider::ChatCompletion, ok_response(body));
    assert_eq!(result.response.as_deref(), Some("first"));
}

#[test]
fn chat_empty_choices_is_invalid_response() {
    let result = finish_dispatch(Provider::ChatCompletion, ok_response("{\"choices\":[]}"));
    assert!(result.response.is_none());
    let message = result.error.expect("an empty choices list must fail");
    assert!(message.contains("Invalid response"));
}

#[test]
fn chat_malformed_body_is_invalid_response() {
    for body in ["not json at all", "{\"choices\":7}", "{\"answers\":[]}", "", "{\"choices\":[{\"message\":{\"content\":42}}]}"] {
        let result = finish_dispatch(Provider::ChatCompletion, ok_response(body));
        assert!(result.response.is_none());
        let message = result.error.expect("a malformed body must fail");
        assert!(message.contains("Invalid response"));
    }
}

#[test]
fn non_success_status_reports_body_verbatim() {
    let outcome = UpstreamOutcome::Response { status: 401, body: "invalid_api_key".to_string() };
    let result = finish_dispatch(Provider::ChatCompletion, outcome);
    assert!(result.response.is_none());
    let message = result.error.expect("a non-success status must fail");
    assert!(message.contains("Error calling LLM API"));
    assert!(message.contains("invalid_api_key"));
    assert_eq!(message, "Error calling LLM API: API error: invalid_api_key");
}

#[test]
fn non_success_status_names_the_local_backend() {
    let outcome = UpstreamOutcome::Response { status: 500, body: "model not loaded".to_string() };
    let result = finish_dispatch(Provider::LocalGenerate, outcome);
    assert_eq!(
        result.error.as_deref(),
        Some("Error calling LLM API: Local LLM API error: model not loaded")
    );
}

#[test]
fn generate_success_returns_response_field() {
    let body = "{\"model\":\"llama3\",\"response\":\"42\"}";
    let result = finish_dispatch(Provider::LocalGenerate, ok_response(body));
    assert_eq!(result.response.as_deref(), Some("42"));
    assert!(result.error.is_none());
}

#[test]
fn generate_missing_field_is_invalid_response() {
    for body in ["{\"model\":\"llama3\"}", "{\"response\":7}", "nonsense"] {
        let result = finish_dispatch(Provider::LocalGenerate, ok_response(body));
        assert!(result.response.is_none());
        assert!(result.error.expect("a missing field must fail").contains("Invalid response"));
    }
}

#[test]
fn transport_failure_is_reported_with_prefix() {
    let outcome = UpstreamOutcome::TransportFailure { detail: "connection refused".to_string() };
    let result = finish_dispatch(Provider::ChatCompletion, outcome);
    assert!(result.response.is_none());
    assert_eq!(result.error.as_deref(), Some("Error calling LLM API: connection refused"));
}

#[test]
fn status_edges_of_the_success_range() {
    let ok_body = "{\"model\":\"llama3\",\"response\":\"yes\"}";
    let at_edge = finish_dispatch(Provider::LocalGenerate, UpstreamOutcome::Response {
        status: 299,
        body: ok_body.to_string(),
    });
    assert_eq!(at_edge.response.as_deref(), Some("yes"));
    let past_edge = finish_dispatch(Provider::LocalGenerate, UpstreamOutcome::Response {
        status: 300,
        body: ok_body.to_string(),
    });
    assert!(past_edge.response.is_none());
}

#[test]
fn repeated_dispatch_of_one_outcome_is_identical() {
    let body = "{\"choices\":[{\"message\":{\"content\":\"Paris is the capital of France.\"}}]}";
    let first = finish_dispatch(Provider::ChatCompletion, ok_response(body));
    let second = finish_dispatch(Provider::ChatCompletion, ok_response(body));
    assert_eq!(first.response, second.response);
    assert_eq!(first.error, second.error);
    let failing = UpstreamOutcome::Response { status: 401, body: "invalid_api_key".to_string() };
    let failing_again = UpstreamOutcome::Response { status: 401, body: "invalid_api_key".to_string() };
    let e1 = finish_dispatch(Provider::ChatCompletion, failing);
    let e2 = finish_dispatch(Provider::ChatCompletion, failing_again);
    assert_eq!(e1.error, e2.error);
}

#[test]
fn repeated_planning_of_one_query_is_identical() {
    let config = local_config();
    let p1 = plan_dispatch("same question", &config);
    let p2 = plan_dispatch("same question", &config);
    assert_eq!(p1.url, p2.url);
    assert_eq!(p1.auth_header, p2.auth_header);
    match (p1.payload, p2.payload) {
        (RequestPayload::Generate(a), RequestPayload::Generate(b)) => {
            assert_eq!(a.model, b.model);
            assert_eq!(a.prompt, b.prompt);
        }
        _ => panic!("a local configuration must plan generate requests"),
    }
}
