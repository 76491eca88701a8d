use grokrs::config::{
    check_deprecated_model, deprecated_family, resolve_profile_from, store_path,
    validate_profile_name, AgentConfig, ApiConfig, AppConfig, ChatConfig, ConfigError,
    ManagementApiConfig, McpConfig, McpServerConfig, ModelConfig, PolicyConfig, SessionConfig,
    StoreConfig, WorkspaceConfig,
};
use grokrs::layers::{deep_merge, ConfigValue};
use grokrs::session::{Session, SessionState, Untrusted};

/// The configuration the sample `grokrs.toml` describes.
fn base_config() -> AppConfig {
    AppConfig {
        workspace: WorkspaceConfig {
            name: "grokrs".into(),
            root: ".".into(),
        },
        model: ModelConfig {
            provider: "xai".into(),
            default_model: "grok-4".into(),
        },
        policy: PolicyConfig {
            allow_network: false,
            allow_shell: false,
            allow_workspace_writes: true,
            max_patch_bytes: 1024,
        },
        session: SessionConfig {
            approval_mode: "interactive".into(),
            transcript_dir: ".grokrs/sessions".into(),
        },
        api: None,
        management_api: None,
        store: None,
        agent: None,
        chat: None,
        mcp: None,
    }
}

fn empty_api() -> ApiConfig {
    ApiConfig {
        api_key_env: None,
        base_url: None,
        timeout_secs: None,
        max_retries: None,
    }
}

fn empty_management() -> ManagementApiConfig {
    ManagementApiConfig {
        management_key_env: None,
        base_url: None,
        timeout_secs: None,
        max_retries: None,
    }
}

fn mcp_server(url: &str) -> McpServerConfig {
    McpServerConfig {
        url: url.into(),
        label: None,
        allowed_tools: None,
        trust_rank: McpServerConfig::default_trust_rank(),
        timeout_secs: McpServerConfig::default_timeout_secs(),
    }
}

// ---------------------------------------------------------------------------
// Summary
// ---------------------------------------------------------------------------

#[test]
fn summary_core_fields_exact() {
    assert_eq!(
        base_config().summary(),
        "workspace=grokrs model=grok-4 provider=xai allow_network=false allow_shell=false \
         allow_workspace_writes=true approval_mode=interactive \
         transcript_dir=.grokrs/sessions max_patch_bytes=1024"
    );
}

#[test]
fn summary_includes_api_fields_when_present() {
    let mut config = base_config();
    config.api = Some(ApiConfig {
        api_key_env: Some("XAI_API_KEY".into()),
        base_url: Some("https://api.x.ai".into()),
        timeout_secs: Some(120),
        max_retries: Some(3),
    });
    let summary = config.summary();
    assert!(summary.contains("api_key_env=XAI_API_KEY"));
    assert!(summary.contains("base_url=https://api.x.ai"));
    assert!(summary.contains("timeout_secs=120"));
    assert!(summary.contains("max_retries=3"));
}

#[test]
fn summary_omits_api_fields_when_absent() {
    let summary = base_config().summary();
    assert!(!summary.contains("api_key_env"));
    assert!(!summary.contains("base_url"));
    assert!(!summary.contains("timeout_secs"));
    assert!(!summary.contains("max_retries"));
}

#[test]
fn summary_uses_defaults_for_omitted_api_fields() {
    let mut config = base_config();
    config.api = Some(empty_api());
    let summary = config.summary();
    assert!(summary.contains("api_key_env=XAI_API_KEY"));
    assert!(summary.contains("base_url=https://api.x.ai"));
    assert!(summary.contains("timeout_secs=120"));
    assert!(summary.contains("max_retries=3"));
}

#[test]
fn summary_includes_management_fields_when_present() {
    let mut config = base_config();
    config.management_api = Some(ManagementApiConfig {
        management_key_env: Some("XAI_MANAGEMENT_API_KEY".into()),
        base_url: Some("https://management-api.x.ai".into()),
        timeout_secs: Some(60),
        max_retries: Some(2),
    });
    let summary = config.summary();
    assert!(summary.contains("management_key_env=XAI_MANAGEMENT_API_KEY"));
    assert!(summary.contains("management_base_url=https://management-api.x.ai"));
    assert!(summary.contains("management_timeout_secs=60"));
    assert!(summary.contains("management_max_retries=2"));
}

#[test]
fn summary_omits_management_fields_when_absent() {
    let summary = base_config().summary();
    assert!(!summary.contains("management_key_env"));
    assert!(!summary.contains("management_base_url"));
}

#[test]
fn summary_uses_defaults_for_omitted_management_fields() {
    let mut config = base_config();
    config.management_api = Some(empty_management());
    let summary = config.summary();
    assert!(summary.contains("management_key_env=XAI_MANAGEMENT_API_KEY"));
    assert!(summary.contains("management_base_url=https://management-api.x.ai"));
    assert!(summary.contains("management_timeout_secs=120"));
    assert!(summary.contains("management_max_retries=3"));
}

#[test]
fn store_config_defaults_path_when_section_present_but_path_absent() {
    let store = StoreConfig::default();
    assert_eq!(store.path, ".grokrs/state.db");
    assert_eq!(StoreConfig::default_path(), ".grokrs/state.db");
}

#[test]
fn store_path_falls_back_to_default() {
    let mut config = base_config();
    assert_eq!(store_path(&config), ".grokrs/state.db");
    config.store = Some(StoreConfig {
        path: "custom/store.db".into(),
    });
    assert_eq!(store_path(&config), "custom/store.db");
}

#[test]
fn summary_includes_store_path_when_present() {
    let mut config = base_config();
    config.store = Some(StoreConfig {
        path: "custom/store.db".into(),
    });
    assert!(config.summary().contains("store_path=custom/store.db"));
}

#[test]
fn summary_omits_store_when_absent() {
    assert!(!base_config().summary().contains("store_path"));
}

#[test]
fn agent_config_bare_section_uses_defaults() {
    let agent = AgentConfig::default();
    assert_eq!(agent.max_iterations, 10);
    assert_eq!(agent.default_trust, "untrusted");
    assert!(!agent.enable_search);
    assert_eq!(agent.memory_limit, AgentConfig::default_memory_limit());
}

#[test]
fn summary_includes_agent_fields_when_present() {
    let mut config = base_config();
    config.agent = Some(AgentConfig {
        max_iterations: 15,
        ..AgentConfig::default()
    });
    let summary = config.summary();
    assert!(summary.contains("agent_max_iterations=15"));
    assert!(summary.contains("agent_default_trust=untrusted"));
    assert!(summary.contains("agent_enable_search=false"));
}

#[test]
fn summary_omits_agent_when_absent() {
    assert!(!base_config().summary().contains("agent_"));
}

#[test]
fn chat_config_bare_section_uses_defaults() {
    let chat = ChatConfig::default();
    assert!(chat.default_model.is_none());
    assert!(chat.system_prompt.is_none());
    assert!(!chat.stateful);
    assert_eq!(chat.history_file, ".grokrs/chat_history");
    assert_eq!(chat.max_conversation_tokens, 100_000);
}

#[test]
fn summary_includes_chat_fields_when_present() {
    let mut config = base_config();
    config.chat = Some(ChatConfig {
        stateful: true,
        ..ChatConfig::default()
    });
    let summary = config.summary();
    assert!(summary.contains("chat_stateful=true"));
    assert!(summary.contains("chat_default_model=(inherit)"));
    assert!(summary.contains("chat_history_file=.grokrs/chat_history"));
    assert!(summary.contains("chat_max_conversation_tokens=100000"));
}

#[test]
fn summary_shows_system_prompt_prefix() {
    let mut config = base_config();
    config.chat = Some(ChatConfig {
        system_prompt: Some("é".repeat(30)),
        ..ChatConfig::default()
    });
    let summary = config.summary();
    // 25 two-byte characters fit in the first 50 bytes.
    let expected = format!(" chat_system_prompt={}...", "é".repeat(25));
    assert!(summary.ends_with(&expected), "got: {summary}");
}

#[test]
fn summary_omits_chat_when_absent() {
    assert!(!base_config().summary().contains("chat_"));
}

#[test]
fn mcp_server_defaults() {
    let server = mcp_server("http://localhost:9090");
    assert_eq!(server.trust_rank, 1);
    assert_eq!(server.timeout_secs, 30);
    assert!(server.label.is_none());
    assert!(server.allowed_tools.is_none());
}

#[test]
fn summary_includes_mcp_when_present() {
    let mut config = base_config();
    config.mcp = Some(McpConfig {
        servers: vec![("test".into(), mcp_server("http://localhost:8080"))],
    });
    let summary = config.summary();
    assert!(summary.contains("mcp_servers=1"));
    assert!(summary.contains("test"));
}

#[test]
fn summary_lists_mcp_server_names_in_order() {
    let mut config = base_config();
    config.mcp = Some(McpConfig {
        servers: vec![
            ("server_a".into(), mcp_server("http://a")),
            ("server_b".into(), mcp_server("http://b")),
        ],
    });
    assert!(config
        .summary()
        .ends_with(" mcp_servers=2 mcp_server_names=[server_a,server_b]"));
}

#[test]
fn summary_omits_mcp_when_absent() {
    assert!(!base_config().summary().contains("mcp_"));
}

// ---------------------------------------------------------------------------
// Profiles
// ---------------------------------------------------------------------------

#[test]
fn validate_profile_name_accepts_valid_names() {
    assert!(validate_profile_name("dev").is_ok());
    assert!(validate_profile_name("staging").is_ok());
    assert!(validate_profile_name("prod").is_ok());
    assert!(validate_profile_name("my-profile").is_ok());
    assert!(validate_profile_name("my_profile").is_ok());
    assert!(validate_profile_name("dev123").is_ok());
    assert!(validate_profile_name("A-B_C").is_ok());
}

#[test]
fn validate_profile_name_rejects_invalid_names() {
    assert!(validate_profile_name("").is_err());
    assert!(validate_profile_name("dev/staging").is_err());
    assert!(validate_profile_name("my profile").is_err());
    assert!(validate_profile_name("../escape").is_err());
    assert!(validate_profile_name("name.toml").is_err());
    assert!(validate_profile_name("a b").is_err());
}

#[test]
fn invalid_profile_name_error_message() {
    let err = validate_profile_name("../evil").unwrap_err();
    assert_eq!(
        err,
        ConfigError::InvalidProfileName {
            name: "../evil".into()
        }
    );
    assert!(err.to_string().contains("invalid profile name"));
}

#[test]
fn profile_path_from_base_config() {
    let path = AppConfig::profile_path("configs/grokrs.example.toml", "dev");
    assert_eq!(path, "configs/grokrs.dev.toml");
}

#[test]
fn profile_path_from_absolute_base() {
    let path = AppConfig::profile_path("/etc/grokrs/grokrs.toml", "staging");
    assert_eq!(path, "/etc/grokrs/grokrs.staging.toml");
}

#[test]
fn profile_overlay_path_cases() {
    assert_eq!(AppConfig::profile_overlay_path("grokrs.toml", None), Ok(None));
    assert_eq!(
        AppConfig::profile_overlay_path("conf/grokrs.toml", Some("dev")),
        Ok(Some("conf/grokrs.dev.toml".to_owned()))
    );
    assert_eq!(
        AppConfig::profile_overlay_path("grokrs.toml", Some("../evil")),
        Err(ConfigError::InvalidProfileName {
            name: "../evil".into()
        })
    );
}

#[test]
fn profile_not_found_message() {
    let e = ConfigError::ProfileNotFound {
        path: "grokrs.nonexistent.toml".into(),
    };
    assert_eq!(
        e.to_string(),
        "profile config not found: grokrs.nonexistent.toml"
    );
}

#[test]
fn resolve_profile_flag_takes_precedence() {
    assert_eq!(
        resolve_profile_from(Some("dev"), Some("staging")),
        Some("dev".to_owned())
    );
}

#[test]
fn resolve_profile_falls_back_to_env() {
    assert_eq!(
        resolve_profile_from(None, Some("staging")),
        Some("staging".to_owned())
    );
}

#[test]
fn resolve_profile_none_when_nothing_set() {
    assert_eq!(resolve_profile_from(None, None), None);
}

#[test]
fn resolve_profile_ignores_empty_env() {
    assert_eq!(resolve_profile_from(None, Some("")), None);
}

// ---------------------------------------------------------------------------
// Deprecated models
// ---------------------------------------------------------------------------

#[test]
fn deprecated_model_check_exact_grok_2() {
    assert_eq!(deprecated_family("grok-2"), Some("grok-2"));
    let w = check_deprecated_model("grok-2").expect("warning");
    assert!(w.contains("deprecated model 'grok-2'"));
}

#[test]
fn deprecated_model_check_grok_2_variant() {
    assert_eq!(deprecated_family("grok-2-1212"), Some("grok-2"));
    assert!(check_deprecated_model("grok-2-1212").is_some());
}

#[test]
fn deprecated_model_check_exact_grok_3() {
    assert_eq!(deprecated_family("grok-3"), Some("grok-3"));
}

#[test]
fn deprecated_model_check_grok_3_variant() {
    assert_eq!(deprecated_family("grok-3-turbo"), Some("grok-3"));
    assert_eq!(deprecated_family("grok-3-mini"), Some("grok-3"));
}

#[test]
fn deprecated_model_check_current_model_no_warn() {
    assert!(check_deprecated_model("grok-4").is_none());
    assert!(check_deprecated_model("grok-4-mini").is_none());
    assert!(check_deprecated_model("grok-4-turbo").is_none());
}

#[test]
fn deprecated_model_check_does_not_match_grok_20_or_similar() {
    assert!(check_deprecated_model("grok-20").is_none());
    assert!(check_deprecated_model("grok-30").is_none());
}

#[test]
fn deprecated_model_prefix_match_requires_hyphen_separator() {
    assert!(check_deprecated_model("grok-2foo").is_none());
}

#[test]
fn deprecated_model_check_is_deterministic() {
    for _ in 0..5 {
        assert_eq!(
            check_deprecated_model("grok-3-turbo"),
            check_deprecated_model("grok-3-turbo")
        );
        assert!(check_deprecated_model("grok-4").is_none());
    }
}

// ---------------------------------------------------------------------------
// Layered configuration
// ---------------------------------------------------------------------------

#[derive(Debug, PartialEq)]
enum V {
    Bool(bool),
    Int(i64),
    Str(&'static str),
}

fn leaf(v: V) -> ConfigValue<V> {
    ConfigValue::Leaf(v)
}

fn table(entries: Vec<(&str, ConfigValue<V>)>) -> ConfigValue<V> {
    ConfigValue::Table(
        entries
            .into_iter()
            .map(|(k, v)| (k.to_owned(), v))
            .collect(),
    )
}

fn at<'a>(v: &'a ConfigValue<V>, path: &[&str]) -> Option<&'a ConfigValue<V>> {
    let mut cur = v;
    for k in path {
        cur = cur.get(k)?;
    }
    Some(cur)
}

fn leaf_at<'a>(v: &'a ConfigValue<V>, path: &[&str]) -> Option<&'a V> {
    match at(v, path) {
        Some(ConfigValue::Leaf(x)) => Some(x),
        _ => None,
    }
}

fn base_document() -> ConfigValue<V> {
    table(vec![
        (
            "workspace",
            table(vec![("name", leaf(V::Str("grokrs"))), ("root", leaf(V::Str(".")))]),
        ),
        (
            "model",
            table(vec![
                ("provider", leaf(V::Str("xai"))),
                ("default_model", leaf(V::Str("grok-4"))),
            ]),
        ),
        (
            "policy",
            table(vec![
                ("allow_network", leaf(V::Bool(false))),
                ("allow_shell", leaf(V::Bool(false))),
                ("allow_workspace_writes", leaf(V::Bool(true))),
                ("max_patch_bytes", leaf(V::Int(1024))),
            ]),
        ),
        (
            "session",
            table(vec![
                ("approval_mode", leaf(V::Str("interactive"))),
                ("transcript_dir", leaf(V::Str(".grokrs/sessions"))),
            ]),
        ),
    ])
}

#[test]
fn deep_merge_replaces_leaf_values() {
    let mut base = table(vec![(
        "policy",
        table(vec![
            ("allow_network", leaf(V::Bool(false))),
            ("allow_shell", leaf(V::Bool(false))),
            ("max_patch_bytes", leaf(V::Int(1024))),
        ]),
    )]);
    let overlay = table(vec![(
        "policy",
        table(vec![("allow_network", leaf(V::Bool(true)))]),
    )]);
    deep_merge(&mut base, overlay);
    assert_eq!(leaf_at(&base, &["policy", "allow_network"]), Some(&V::Bool(true)));
    assert_eq!(leaf_at(&base, &["policy", "allow_shell"]), Some(&V::Bool(false)));
    assert_eq!(leaf_at(&base, &["policy", "max_patch_bytes"]), Some(&V::Int(1024)));
}

#[test]
fn deep_merge_adds_new_sections() {
    let mut base = base_document();
    let overlay = table(vec![(
        "agent",
        table(vec![
            ("max_iterations", leaf(V::Int(25))),
            ("default_trust", leaf(V::Str("admin"))),
        ]),
    )]);
    deep_merge(&mut base, overlay);
    assert_eq!(leaf_at(&base, &["agent", "max_iterations"]), Some(&V::Int(25)));
    assert_eq!(leaf_at(&base, &["agent", "default_trust"]), Some(&V::Str("admin")));
    assert!(at(&base, &["workspace"]).is_some());
    assert!(at(&base, &["policy"]).is_some());
}

#[test]
fn deep_merge_nested_tables_merge_recursively() {
    let mut base = table(vec![(
        "api",
        table(vec![
            ("base_url", leaf(V::Str("https://api.x.ai"))),
            ("timeout_secs", leaf(V::Int(120))),
            ("max_retries", leaf(V::Int(3))),
        ]),
    )]);
    let overlay = table(vec![("api", table(vec![("timeout_secs", leaf(V::Int(60)))]))]);
    deep_merge(&mut base, overlay);
    assert_eq!(leaf_at(&base, &["api", "base_url"]), Some(&V::Str("https://api.x.ai")));
    assert_eq!(leaf_at(&base, &["api", "timeout_secs"]), Some(&V::Int(60)));
    assert_eq!(leaf_at(&base, &["api", "max_retries"]), Some(&V::Int(3)));
}

#[test]
fn deep_merge_overlay_replaces_non_table_with_non_table() {
    let mut base = table(vec![(
        "session",
        table(vec![("approval_mode", leaf(V::Str("interactive")))]),
    )]);
    let overlay = table(vec![(
        "session",
        table(vec![("approval_mode", leaf(V::Str("allow")))]),
    )]);
    deep_merge(&mut base, overlay);
    assert_eq!(
        leaf_at(&base, &["session", "approval_mode"]),
        Some(&V::Str("allow"))
    );
}

#[test]
fn deep_merge_full_config_round_trip() {
    let mut base = base_document();
    let overlay = table(vec![
        (
            "policy",
            table(vec![
                ("allow_network", leaf(V::Bool(true))),
                ("allow_shell", leaf(V::Bool(true))),
            ]),
        ),
        ("session", table(vec![("approval_mode", leaf(V::Str("allow")))])),
        (
            "agent",
            table(vec![
                ("max_iterations", leaf(V::Int(25))),
                ("default_trust", leaf(V::Str("admin"))),
                ("enable_search", leaf(V::Bool(true))),
            ]),
        ),
        ("chat", table(vec![("stateful", leaf(V::Bool(true)))])),
    ]);
    deep_merge(&mut base, overlay);

    assert_eq!(leaf_at(&base, &["policy", "allow_network"]), Some(&V::Bool(true)));
    assert_eq!(leaf_at(&base, &["policy", "allow_shell"]), Some(&V::Bool(true)));
    assert_eq!(leaf_at(&base, &["session", "approval_mode"]), Some(&V::Str("allow")));

    assert_eq!(
        leaf_at(&base, &["policy", "allow_workspace_writes"]),
        Some(&V::Bool(true))
    );
    assert_eq!(leaf_at(&base, &["policy", "max_patch_bytes"]), Some(&V::Int(1024)));
    assert_eq!(leaf_at(&base, &["workspace", "name"]), Some(&V::Str("grokrs")));
    assert_eq!(leaf_at(&base, &["model", "default_model"]), Some(&V::Str("grok-4")));
    assert_eq!(
        leaf_at(&base, &["session", "transcript_dir"]),
        Some(&V::Str(".grokrs/sessions"))
    );

    assert_eq!(leaf_at(&base, &["agent", "max_iterations"]), Some(&V::Int(25)));
    assert_eq!(leaf_at(&base, &["agent", "default_trust"]), Some(&V::Str("admin")));
    assert_eq!(leaf_at(&base, &["agent", "enable_search"]), Some(&V::Bool(true)));
    assert_eq!(leaf_at(&base, &["chat", "stateful"]), Some(&V::Bool(true)));
    assert!(at(&base, &["chat", "history_file"]).is_none());
}

#[test]
fn deep_merge_plain_value_replaces_table_and_back() {
    let mut base = table(vec![("a", table(vec![("b", leaf(V::Int(1)))]))]);
    deep_merge(&mut base, table(vec![("a", leaf(V::Int(7)))]));
    assert_eq!(leaf_at(&base, &["a"]), Some(&V::Int(7)));
    assert!(at(&base, &["a", "b"]).is_none());

    deep_merge(&mut base, table(vec![("a", table(vec![("c", leaf(V::Int(2)))]))]));
    assert_eq!(leaf_at(&base, &["a", "c"]), Some(&V::Int(2)));
    assert!(at(&base, &["a", "b"]).is_none());
}

#[test]
fn deep_merge_empty_overlay_keeps_base() {
    let mut base = base_document();
    deep_merge(&mut base, table(vec![]));
    assert_eq!(leaf_at(&base, &["policy", "max_patch_bytes"]), Some(&V::Int(1024)));
    assert_eq!(leaf_at(&base, &["workspace", "name"]), Some(&V::Str("grokrs")));
}

// ---------------------------------------------------------------------------
// Sessions
// ---------------------------------------------------------------------------

#[test]
fn session_transitions_state() {
    let mut session = Session::<Untrusted>::new("s1".to_string());
    assert_eq!(session.state(), &SessionState::Created);
    session.transition(SessionState::Ready);
    assert_eq!(session.state(), &SessionState::Ready);
    assert_eq!(session.id(), "s1");
}

#[test]
fn session_counts_state_transitions() {
    let mut session = Session::<Untrusted>::new("s2".to_string());
    assert_eq!(session.state_transitions(), 0);
    assert_eq!(session.total_turns(), 0);

    session.transition(SessionState::Ready);
    assert_eq!(session.state_transitions(), 1);
    assert_eq!(session.total_turns(), 0);

    session.transition(SessionState::RunningTurn);
    assert_eq!(session.state_transitions(), 2);
    assert_eq!(session.total_turns(), 1);

    session.transition(SessionState::Ready);
    assert_eq!(session.state_transitions(), 3);
    assert_eq!(session.total_turns(), 1);

    session.transition(SessionState::RunningTurn);
    assert_eq!(session.state_transitions(), 4);
    assert_eq!(session.total_turns(), 2);

    session.transition(SessionState::Closed);
    assert_eq!(session.state_transitions(), 5);
    assert_eq!(session.total_turns(), 2);
}

#[test]
fn session_state_display() {
    assert_eq!(SessionState::Created.to_string(), "created");
    assert_eq!(SessionState::Ready.to_string(), "ready");
    assert_eq!(SessionState::RunningTurn.to_string(), "running_turn");
    assert_eq!(SessionState::WaitingApproval.to_string(), "waiting_approval");
    assert_eq!(SessionState::Closed.to_string(), "closed");
    assert_eq!(
        SessionState::Failed("oops".into()).to_string(),
        "failed:oops"
    );
}

#[test]
fn mcp_section_well_formed_only_with_distinct_names() {
    let mut config = base_config();
    assert!(config.is_well_formed());
    config.mcp = Some(McpConfig {
        servers: vec![
            ("a".to_string(), mcp_server("http://a")),
            ("b".to_string(), mcp_server("http://b")),
        ],
    });
    assert!(config.is_well_formed());
    config.mcp = Some(McpConfig {
        servers: vec![
            ("a".to_string(), mcp_server("http://a")),
            ("b".to_string(), mcp_server("http://b")),
            ("a".to_string(), mcp_server("http://c")),
        ],
    });
    assert!(!config.is_well_formed());
}
