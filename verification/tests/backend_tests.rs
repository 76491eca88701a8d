use grokrs::chat_backend::{
    BackendError, ChatRequest, GrokBackendConfig, GrokChatBackend, RequestInput, StreamEvent,
    StreamTurn,
};
use grokrs::json::{Json, JsonNumber};
use grokrs::repl::ChatBackend;
use grokrs::search::{BuiltinTool, SearchConfig, SearchMode};

fn stateless_config() -> GrokBackendConfig {
    GrokBackendConfig {
        model: "grok-4".into(),
        stateful: false,
        search: SearchConfig::default(),
        cache_key: None,
    }
}

fn stateful_config() -> GrokBackendConfig {
    GrokBackendConfig {
        model: "grok-4".into(),
        stateful: true,
        search: SearchConfig::default(),
        cache_key: None,
    }
}

fn config_with_cache_key(key: &str) -> GrokBackendConfig {
    GrokBackendConfig {
        model: "grok-4".into(),
        stateful: false,
        search: SearchConfig::default(),
        cache_key: Some(key.to_owned()),
    }
}

fn is_text(req: &ChatRequest, expected: &str) -> bool {
    matches!(&req.input, RequestInput::Text(t) if t == expected)
}

fn obj(members: Vec<(&str, Json)>) -> Json {
    Json::Object(members.into_iter().map(|(k, v)| (k.to_owned(), v)).collect())
}

fn num(v: u64) -> Json {
    Json::Number(JsonNumber {
        as_u64: Some(v),
        as_i64: i64::try_from(v).ok(),
    })
}

#[test]
fn new_backend_has_correct_initial_state() {
    let backend = GrokChatBackend::new(stateless_config());
    assert_eq!(backend.model(), "grok-4");
    assert!(backend.system_instructions().is_none());
    assert!(backend.previous_response_id().is_none());
    assert!(!backend.is_stateful());
}

#[test]
fn new_stateful_backend_has_correct_initial_state() {
    let backend = GrokChatBackend::new(stateful_config());
    assert_eq!(backend.model(), "grok-4");
    assert!(backend.is_stateful());
    assert!(backend.previous_response_id().is_none());
}

#[test]
fn set_model_changes_model() {
    let mut backend = GrokChatBackend::new(stateless_config());
    backend.set_model("grok-4-mini");
    assert_eq!(backend.model(), "grok-4-mini");
}

#[test]
fn set_system_stores_instructions() {
    let mut backend = GrokChatBackend::new(stateless_config());
    backend.set_system("You are a helpful assistant.");
    assert_eq!(
        backend.system_instructions(),
        Some("You are a helpful assistant.")
    );
}

#[test]
fn clear_resets_state() {
    let mut backend = GrokChatBackend::new(stateful_config());
    backend.set_system("instructions");
    backend.set_previous_response_id("resp_123");
    backend.clear();
    assert!(backend.system_instructions().is_none());
    assert!(backend.previous_response_id().is_none());
    assert_eq!(backend.model(), "grok-4");
}

#[test]
fn build_request_stateless_uses_text_input() {
    let backend = GrokChatBackend::new(stateless_config());
    let req = backend.build_request("hello");
    assert_eq!(req.model, "grok-4");
    assert!(!req.store);
    assert!(req.stream);
    assert!(req.previous_response_id.is_none());
    assert!(req.instructions.is_none());
    assert!(req.included.is_none());
    assert!(is_text(&req, "hello"));
}

#[test]
fn build_request_stateless_with_system() {
    let mut backend = GrokChatBackend::new(stateless_config());
    backend.set_system("Be concise");
    let req = backend.build_request("hello");
    assert_eq!(req.instructions.as_deref(), Some("Be concise"));
}

#[test]
fn build_request_stateless_ignores_previous_response_id() {
    let mut backend = GrokChatBackend::new(stateless_config());
    backend.set_previous_response_id("resp_old");
    let req = backend.build_request("hello");
    assert!(!req.store);
    assert!(req.previous_response_id.is_none());
    assert!(is_text(&req, "hello"));
}

#[test]
fn build_request_stateful_first_turn() {
    let backend = GrokChatBackend::new(stateful_config());
    let req = backend.build_request("hello");
    assert!(req.store);
    assert!(req.previous_response_id.is_none());
    assert!(is_text(&req, "hello"));
    assert_eq!(
        req.included,
        Some(vec!["reasoning.encrypted_content".to_owned()])
    );
}

#[test]
fn build_request_stateful_subsequent_turn() {
    let mut backend = GrokChatBackend::new(stateful_config());
    backend.set_previous_response_id("resp_abc123");
    let req = backend.build_request("follow up");
    assert!(req.store);
    assert_eq!(req.previous_response_id.as_deref(), Some("resp_abc123"));
    match &req.input {
        RequestInput::Items { reasoning, message } => {
            assert!(reasoning.is_empty());
            assert_eq!(message, "follow up");
        }
        other => panic!("expected items, got {other:?}"),
    }
}

#[test]
fn build_request_reflects_model_change() {
    let mut backend = GrokChatBackend::new(stateless_config());
    backend.set_model("grok-4-mini");
    assert_eq!(backend.build_request("test").model, "grok-4-mini");
}

#[test]
fn build_request_without_cache_key_has_none() {
    let backend = GrokChatBackend::new(stateless_config());
    assert!(backend.build_request("hello").prompt_cache_key.is_none());
}

#[test]
fn build_request_with_cache_key_sets_prompt_cache_key() {
    let backend = GrokChatBackend::new(config_with_cache_key("my-system-prompt"));
    assert_eq!(
        backend.build_request("hello").prompt_cache_key.as_deref(),
        Some("my-system-prompt")
    );
}

#[test]
fn new_backend_stores_cache_key_from_config() {
    let backend = GrokChatBackend::new(config_with_cache_key("persistent-cache-key"));
    assert_eq!(backend.cache_key(), Some("persistent-cache-key"));
}

#[test]
fn debug_output_shows_key_fields() {
    let mut backend = GrokChatBackend::new(stateful_config());
    backend.set_system("test instructions");
    backend.set_previous_response_id("resp_debug");
    let debug = format!("{backend:?}");
    assert!(debug.contains("grok-4"));
    assert!(debug.contains("stateful: true"));
    assert!(debug.contains("resp_debug"));
    assert!(debug.contains("test instructions"));
}

#[test]
fn build_request_no_search_has_no_tools() {
    let backend = GrokChatBackend::new(stateless_config());
    let req = backend.build_request("hello");
    assert!(req.tools.is_none());
    assert!(req.search_parameters.is_none());
}

#[test]
fn build_request_web_search_adds_tool() {
    let config = GrokBackendConfig {
        search: SearchConfig {
            web_search: true,
            ..Default::default()
        },
        ..stateless_config()
    };
    let req = GrokChatBackend::new(config).build_request("search for rust");
    let tools = req.tools.expect("should have tools");
    assert_eq!(tools, vec![BuiltinTool::WebSearch]);
    assert_eq!(tools[0].tool_type(), "web_search");
    assert!(req.search_parameters.is_none());
}

#[test]
fn build_request_both_search_with_params() {
    let config = GrokBackendConfig {
        search: SearchConfig {
            web_search: true,
            x_search: true,
            from_date: Some("2025-01-01".into()),
            to_date: Some("2025-06-30".into()),
            max_results: Some(5),
            citations: true,
        },
        ..stateless_config()
    };
    let req = GrokChatBackend::new(config).build_request("search everything");
    let tools = req.tools.expect("should have tools");
    assert_eq!(tools, vec![BuiltinTool::WebSearch, BuiltinTool::XSearch]);
    let params = req.search_parameters.expect("should have search_parameters");
    assert_eq!(params.from_date.as_deref(), Some("2025-01-01"));
    assert_eq!(params.to_date.as_deref(), Some("2025-06-30"));
    assert_eq!(params.max_search_results, Some(5));
    assert_eq!(params.return_citations, Some(true));
    assert_eq!(params.mode, Some(SearchMode::Auto));
}

#[test]
fn build_request_search_with_stateful() {
    let config = GrokBackendConfig {
        search: SearchConfig {
            web_search: true,
            ..Default::default()
        },
        ..stateful_config()
    };
    let req = GrokChatBackend::new(config).build_request("hello");
    assert!(req.tools.is_some());
    assert!(req.store);
}

#[test]
fn streamed_turn_accumulates_and_chains() {
    let mut backend = GrokChatBackend::new(stateful_config());
    let mut turn = StreamTurn::new();
    assert_eq!(
        turn.on_event(&mut backend, StreamEvent::OutputTextDelta { delta: "Hel".into() }),
        Ok(Some("Hel".to_owned()))
    );
    assert_eq!(
        turn.on_event(&mut backend, StreamEvent::ContentDelta { text: Some("lo".into()) }),
        Ok(Some("lo".to_owned()))
    );
    assert_eq!(turn.on_event(&mut backend, StreamEvent::ContentDelta { text: None }), Ok(None));
    assert_eq!(turn.on_event(&mut backend, StreamEvent::Other), Ok(None));
    let completed = obj(vec![
        ("id", Json::Str("resp_2".into())),
        (
            "usage",
            obj(vec![("input_tokens", num(3)), ("output_tokens", num(4))]),
        ),
        (
            "output",
            Json::Array(vec![obj(vec![
                ("type", Json::Str("reasoning".into())),
                ("encrypted_content", Json::Str("blob".into())),
            ])]),
        ),
    ]);
    assert_eq!(
        turn.on_event(&mut backend, StreamEvent::Completed { response: completed }),
        Ok(None)
    );
    let (reply, tail) = turn.finish(&mut backend);
    assert_eq!(reply.text, "Hello");
    assert_eq!(reply.usage.input_tokens, 3);
    assert_eq!(reply.usage.output_tokens, 4);
    assert_eq!(reply.previous_response_id.as_deref(), Some("resp_2"));
    assert_eq!(tail, "\n");
    assert_eq!(backend.previous_response_id(), Some("resp_2"));
    match backend.build_request("next").input {
        RequestInput::Items { reasoning, message } => {
            assert_eq!(reasoning.len(), 1);
            assert_eq!(reasoning[0].encrypted_content, "blob");
            assert_eq!(message, "next");
        }
        other => panic!("expected items, got {other:?}"),
    }
}

#[test]
fn stateless_turn_does_not_chain() {
    let mut backend = GrokChatBackend::new(stateless_config());
    let mut turn = StreamTurn::new();
    let completed = obj(vec![("id", Json::Str("resp_9".into()))]);
    let _ = turn.on_event(&mut backend, StreamEvent::Completed { response: completed });
    let (reply, tail) = turn.finish(&mut backend);
    assert_eq!(reply.previous_response_id.as_deref(), Some("resp_9"));
    assert_eq!(tail, "");
    assert!(backend.previous_response_id().is_none());
}

#[test]
fn failed_response_reports_api_error() {
    let mut backend = GrokChatBackend::new(stateless_config());
    let mut turn = StreamTurn::new();
    let failed = obj(vec![(
        "error",
        obj(vec![
            ("message", Json::Str("rate limited".into())),
            ("code", num(429)),
        ]),
    )]);
    let err = turn
        .on_event(&mut backend, StreamEvent::Failed { response: failed })
        .unwrap_err();
    assert_eq!(
        err,
        BackendError::Api {
            status: 429,
            message: "rate limited".into()
        }
    );
    assert_eq!(err.to_string(), "API error (429): rate limited");
    let err = turn
        .on_event(&mut backend, StreamEvent::Failed { response: obj(vec![]) })
        .unwrap_err();
    assert_eq!(
        err,
        BackendError::Api {
            status: 500,
            message: "unknown API error".into()
        }
    );
    let err = turn
        .on_event(&mut backend, StreamEvent::Error("reset".into()))
        .unwrap_err();
    assert_eq!(err.to_string(), "transport error: reset");
    assert_eq!(BackendError::Cancelled.to_string(), "request cancelled");
}
