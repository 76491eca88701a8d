use grokrs::chat::{chat_backend_config, ChatArgs};
use grokrs::chat_backend::StreamEvent;
use grokrs::commands::{
    chat_store_actions, session_totals_line, ApiCommand, AuthCommand, CollectionsCommand,
    OneShotStream, StoreAction, StreamOutput,
};
use grokrs::json::{Json, JsonNumber};
use grokrs::config::{
    AppConfig, ChatConfig, ModelConfig, PolicyConfig, SessionConfig, WorkspaceConfig,
};
use grokrs::generate::GenerateCommand;
use grokrs::models::ModelsCommand;
use grokrs::search::SearchConfig;
use grokrs::sessions::SessionsCommand;
use grokrs::store::{CostGroupByArg, OutputFormat, StoreCommand, UsageTotals};

fn config(chat: Option<ChatConfig>) -> AppConfig {
    AppConfig {
        workspace: WorkspaceConfig {
            name: "test".into(),
            root: ".".into(),
        },
        model: ModelConfig {
            provider: "xai".into(),
            default_model: "grok-4".into(),
        },
        policy: PolicyConfig {
            allow_network: true,
            allow_shell: false,
            allow_workspace_writes: false,
            max_patch_bytes: 0,
        },
        session: SessionConfig {
            approval_mode: "allow".into(),
            transcript_dir: ".grokrs/sessions".into(),
        },
        api: None,
        management_api: None,
        store: None,
        agent: None,
        chat,
        mcp: None,
    }
}

fn chat_section(model: Option<&str>, system: Option<&str>, stateful: bool) -> ChatConfig {
    ChatConfig {
        default_model: model.map(|m| m.to_string()),
        system_prompt: system.map(|s| s.to_string()),
        stateful,
        history_file: ".grokrs/history".into(),
        max_conversation_tokens: 100_000,
    }
}

fn args() -> ChatArgs {
    ChatArgs {
        model: None,
        system: None,
        stateful: false,
        resume: None,
        search: false,
        x_search: false,
        no_search: false,
        search_from_date: None,
        search_to_date: None,
        search_max_results: None,
        citations: false,
        cache_key: None,
    }
}

#[test]
fn chat_backend_config_falls_back_to_model_section() {
    let (backend, system) = chat_backend_config(&args(), &config(None), SearchConfig::default());
    assert_eq!(backend.model, "grok-4");
    assert!(!backend.stateful);
    assert_eq!(backend.cache_key, None);
    assert_eq!(system, None);
}

#[test]
fn chat_backend_config_uses_chat_section_defaults() {
    let cfg = config(Some(chat_section(Some("grok-4-mini"), Some("Be brief."), true)));
    let (backend, system) = chat_backend_config(&args(), &cfg, SearchConfig::default());
    assert_eq!(backend.model, "grok-4-mini");
    assert!(backend.stateful);
    assert_eq!(system.as_deref(), Some("Be brief."));
}

#[test]
fn chat_backend_config_flags_override_chat_section() {
    let cfg = config(Some(chat_section(Some("grok-4-mini"), Some("Be brief."), false)));
    let mut a = args();
    a.model = Some("grok-3".into());
    a.system = Some("Answer in French.".into());
    a.stateful = true;
    a.cache_key = Some("k1".into());
    let mut search = SearchConfig::default();
    search.web_search = true;
    let (backend, system) = chat_backend_config(&a, &cfg, search);
    assert_eq!(backend.model, "grok-3");
    assert!(backend.stateful);
    assert!(backend.search.web_search);
    assert_eq!(backend.cache_key.as_deref(), Some("k1"));
    assert_eq!(system.as_deref(), Some("Answer in French."));
}

#[test]
fn command_enums_hold_their_arguments() {
    let api = ApiCommand::Search {
        query: "rust".into(),
        collection_ids: vec!["c1".into(), "c2".into()],
        filter: None,
        limit: Some(5),
    };
    assert_eq!(api.clone(), api);
    assert_ne!(AuthCommand::Doctor, AuthCommand::Test);
    let col = CollectionsCommand::Delete {
        collection_id: "c1".into(),
        yes: true,
    };
    assert!(matches!(col, CollectionsCommand::Delete { yes: true, .. }));
    let gen = GenerateCommand::Video {
        prompt: "a cat".into(),
        model: None,
        aspect_ratio: None,
        duration: Some(5),
        resolution: None,
        extend: None,
    };
    assert!(matches!(gen, GenerateCommand::Video { duration: Some(5), .. }));
    let models = ModelsCommand::List {
        model_type: "language".into(),
        json: false,
    };
    assert!(matches!(models, ModelsCommand::List { json: false, .. }));
    let sessions = SessionsCommand::Transcript {
        id: "abc".into(),
        max_body: 500,
    };
    assert!(matches!(sessions, SessionsCommand::Transcript { max_body: 500, .. }));
    let store = StoreCommand::Cost {
        group_by: CostGroupByArg::Day,
        format: OutputFormat::Csv,
        since: None,
        until: None,
        session: None,
    };
    assert!(matches!(
        store,
        StoreCommand::Cost {
            group_by: CostGroupByArg::Day,
            format: OutputFormat::Csv,
            ..
        }
    ));
}

fn num(v: u64) -> Json {
    Json::Number(JsonNumber {
        as_u64: Some(v),
        as_i64: i64::try_from(v).ok(),
    })
}

fn obj(members: Vec<(&str, Json)>) -> Json {
    Json::Object(members.into_iter().map(|(k, v)| (k.to_owned(), v)).collect())
}

#[test]
fn one_shot_stream_collects_text_and_usage() {
    let mut st = OneShotStream::new();
    let (out, stop) = st.on_event(StreamEvent::OutputTextDelta { delta: "Hel".into() });
    assert_eq!(out, StreamOutput::Text("Hel".into()));
    assert!(!stop);
    st.on_event(StreamEvent::ContentDelta { text: Some("lo".into()) });
    st.on_event(StreamEvent::ContentDelta { text: None });
    let (out, _) = st.on_event(StreamEvent::FunctionCallArgumentsDone { arguments: "{}".into() });
    assert_eq!(out, StreamOutput::Diagnostic("[function_call] {}".into()));
    let response = obj(vec![(
        "usage",
        obj(vec![("input_tokens", num(12)), ("output_tokens", num(30))]),
    )]);
    let (out, stop) = st.on_event(StreamEvent::Completed { response });
    assert_eq!(out, StreamOutput::Diagnostic("\n[usage] input=12 output=30 total=42".into()));
    assert!(!stop);
    assert_eq!(st.response_body, "Hello");
    assert!(st.found_text);
    assert_eq!((st.usage_input, st.usage_output), (12, 30));
    let (out, stop) = st.on_event(StreamEvent::Error("connection reset".into()));
    assert_eq!(out, StreamOutput::Nothing);
    assert!(stop);
    assert_eq!(st.stream_error.as_deref(), Some("connection reset"));
}

#[test]
fn one_shot_stream_prefers_reported_total() {
    let mut st = OneShotStream::new();
    let response = obj(vec![(
        "usage",
        obj(vec![("input_tokens", num(1)), ("output_tokens", num(2)), ("total_tokens", num(10))]),
    )]);
    let (out, _) = st.on_event(StreamEvent::Completed { response });
    assert_eq!(out, StreamOutput::Diagnostic("\n[usage] input=1 output=2 total=10".into()));
    let (out, _) = st.on_event(StreamEvent::Completed { response: obj(vec![]) });
    assert_eq!(out, StreamOutput::Nothing);
}

#[test]
fn chat_store_actions_after_success_and_failure() {
    let mut st = OneShotStream::new();
    st.on_event(StreamEvent::OutputTextDelta { delta: "answer".into() });
    assert_eq!(
        chat_store_actions(Some(7), &st),
        vec![
            StoreAction::LogResponse {
                transcript_id: 7,
                status: 200,
                body: Some("answer".into()),
                input_tokens: 0,
                output_tokens: 0,
            },
            StoreAction::Transition { state: "Ready".into() },
            StoreAction::Transition { state: "Closed".into() },
        ]
    );
    let empty = OneShotStream::new();
    assert!(matches!(
        chat_store_actions(Some(1), &empty)[0],
        StoreAction::LogResponse { body: None, .. }
    ));
    st.on_event(StreamEvent::Error("boom".into()));
    assert_eq!(
        chat_store_actions(None, &st),
        vec![StoreAction::Transition { state: "Failed: boom".into() }]
    );
    assert_eq!(
        chat_store_actions(Some(3), &st)[0],
        StoreAction::LogError { transcript_id: 3, error: "boom".into() }
    );
}

#[test]
fn session_totals_line_only_for_sessions_with_requests() {
    let mut totals = UsageTotals {
        request_count: 0,
        total_input_tokens: 0,
        total_output_tokens: 0,
        total_reasoning_tokens: 0,
        total_cost_ticks: 0,
    };
    assert_eq!(session_totals_line("0123456789abcdef", &totals), None);
    totals.request_count = 2;
    totals.total_input_tokens = 100;
    totals.total_output_tokens = 50;
    totals.total_reasoning_tokens = 5;
    assert_eq!(
        session_totals_line("0123456789abcdef", &totals).as_deref(),
        Some("[session 01234567] requests=2 input_tokens=100 output_tokens=50 reasoning_tokens=5")
    );
    assert_eq!(
        session_totals_line("abc", &totals).as_deref(),
        Some("[session abc] requests=2 input_tokens=100 output_tokens=50 reasoning_tokens=5")
    );
}
