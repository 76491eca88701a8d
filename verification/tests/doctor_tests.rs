use grokrs::calendar::days_to_ymd;
use grokrs::config::{
    AgentConfig, AppConfig, ChatConfig, McpConfig, McpServerConfig, ModelConfig, PolicyConfig,
    SessionConfig, WorkspaceConfig,
};
use grokrs::doctor::{
    doctor_approval_mode, doctor_core_features, doctor_mcp, doctor_memory_line,
    doctor_model_freshness, model_looks_deprecated, network_ready, print_decision,
    APPROVAL_ALLOW_WARNING, CHAT_BLOCKED,
};
use grokrs::policy::{Decision, Effect, PolicyEngine};
use grokrs::sessions::epoch_to_rfc3339;
use grokrs::store::{
    doctor_store_line, status_missing_lines, status_sessions_line, usage_lines, StoreProbe,
    UsageTotals,
};

fn config(allow_network: bool, approval_mode: &str) -> AppConfig {
    AppConfig {
        workspace: WorkspaceConfig {
            name: "test".into(),
            root: ".".into(),
        },
        model: ModelConfig {
            provider: "xai".into(),
            default_model: "grok-4".into(),
        },
        policy: PolicyConfig {
            allow_network,
            allow_shell: false,
            allow_workspace_writes: true,
            max_patch_bytes: 1024,
        },
        session: SessionConfig {
            approval_mode: approval_mode.into(),
            transcript_dir: ".grokrs/sessions".into(),
        },
        api: None,
        management_api: None,
        store: None,
        agent: None,
        chat: None,
        mcp: None,
    }
}

fn network_decision(config: &AppConfig) -> Decision {
    PolicyEngine::new(config.policy.clone()).evaluate(&Effect::NetworkConnect {
        host: "api.x.ai".to_string(),
    })
}

#[test]
fn doctor_core_features_when_network_is_ready() {
    let cfg = config(true, "allow");
    let decision = network_decision(&cfg);
    let ready = network_ready(&decision, &cfg.session.approval_mode);
    assert!(ready);
    let lines = doctor_core_features(&cfg, ready, &decision, 3, 5, 7);
    assert_eq!(lines[0], "chat=ready");
    assert_eq!(
        lines[1],
        "agent=ready (tools: untrusted=3, interactive=5, admin=7)"
    );
    assert_eq!(lines[2], "policy_fs_write=allow");
    assert_eq!(lines[3], "policy_process_spawn=deny");
    assert!(lines.contains(&"search=ready (web_search, x_search via --search/--x-search flags)".to_string()));
    assert!(lines.contains(&"sessions=ready (list, show, transcript, clean via grokrs sessions)".to_string()));
}

#[test]
fn doctor_core_features_when_network_is_denied() {
    let cfg = config(false, "allow");
    let decision = network_decision(&cfg);
    let ready = network_ready(&decision, &cfg.session.approval_mode);
    assert!(!ready);
    let lines = doctor_core_features(&cfg, ready, &decision, 0, 1, 2);
    assert_eq!(lines[0], CHAT_BLOCKED);
    assert_eq!(
        lines[1],
        "agent=blocked: network access denied (tools: untrusted=0, interactive=1, admin=2)"
    );
    assert!(lines.contains(&"policy_network=deny".to_string()));
    assert!(lines.contains(&"models=blocked: requires network access".to_string()));
}

#[test]
fn network_readiness_depends_on_approval_mode_for_ask() {
    let ask = Decision::Ask { reason: "needs approval" };
    assert!(network_ready(&ask, "allow"));
    assert!(!network_ready(&ask, "interactive"));
    assert!(!network_ready(&ask, "deny"));
    assert!(network_ready(&Decision::Allow { reason: "ok" }, "deny"));
    assert!(!network_ready(&Decision::Deny { reason: "no" }, "allow"));
}

#[test]
fn doctor_approval_mode_warns_on_allow() {
    let lines = doctor_approval_mode(&config(true, "allow"));
    assert_eq!(lines, vec![APPROVAL_ALLOW_WARNING.to_string()]);
    assert!(lines[0].contains("*** SECURITY WARNING ***"));
}

#[test]
fn doctor_approval_mode_reports_sections() {
    let mut cfg = config(true, "interactive");
    cfg.agent = Some(AgentConfig {
        max_iterations: 12,
        default_trust: "interactive".into(),
        enable_search: true,
        memory_limit: 50,
    });
    cfg.chat = Some(ChatConfig {
        default_model: None,
        system_prompt: None,
        stateful: false,
        history_file: ".grokrs/history".into(),
        max_conversation_tokens: 100000,
    });
    let lines = doctor_approval_mode(&cfg);
    assert_eq!(
        lines,
        vec![
            "approval_mode=interactive".to_string(),
            "agent_config: max_iterations=12 default_trust=interactive enable_search=true".to_string(),
            "chat_config: default_model=(inherit) stateful=false max_conversation_tokens=100000".to_string(),
        ]
    );
}

#[test]
fn doctor_model_freshness_flags_deprecated_names() {
    assert!(model_looks_deprecated("grok-beta"));
    assert!(model_looks_deprecated("grok-2-preview"));
    assert!(model_looks_deprecated("grok-1"));
    assert!(!model_looks_deprecated("grok-4"));

    let mut cfg = config(true, "deny");
    assert_eq!(
        doctor_model_freshness(&cfg),
        vec!["[ok] model_freshness=ok default_model=grok-4".to_string()]
    );
    cfg.model.default_model = "grok-3-legacy".into();
    cfg.chat = Some(ChatConfig {
        default_model: Some("grok-beta".into()),
        system_prompt: None,
        stateful: false,
        history_file: ".grokrs/history".into(),
        max_conversation_tokens: 1000,
    });
    let lines = doctor_model_freshness(&cfg);
    assert_eq!(lines.len(), 2);
    assert_eq!(
        lines[0],
        "[warn] model_freshness=WARN default_model=grok-3-legacy appears deprecated; update [model].default_model"
    );
    assert_eq!(
        lines[1],
        "[warn] model_freshness=WARN chat.default_model=grok-beta appears deprecated; update [chat].default_model"
    );
}

#[test]
fn print_decision_labels_each_kind() {
    assert_eq!(print_decision(&Decision::Allow { reason: "r1" }), "allow: r1");
    assert_eq!(print_decision(&Decision::Ask { reason: "r2" }), "ask: r2");
    assert_eq!(print_decision(&Decision::Deny { reason: "r3" }), "deny: r3");
}

fn server(url: &str, label: Option<&str>) -> McpServerConfig {
    McpServerConfig {
        url: url.into(),
        label: label.map(|l| l.to_string()),
        allowed_tools: None,
        trust_rank: 1,
        timeout_secs: 30,
    }
}

#[test]
fn doctor_mcp_lists_servers_sorted_by_name() {
    let mut cfg = config(true, "deny");
    assert_eq!(
        doctor_mcp(&cfg).0,
        vec!["[--] mcp=not configured (add [mcp] section to enable)".to_string()]
    );
    cfg.mcp = Some(McpConfig { servers: vec![] });
    assert_eq!(
        doctor_mcp(&cfg).0,
        vec!["[--] mcp=configured but no servers defined".to_string()]
    );
    cfg.mcp = Some(McpConfig {
        servers: vec![
            ("zeta".to_string(), server("http://z", None)),
            ("alpha".to_string(), server("http://a", Some("Alpha"))),
        ],
    });
    let (lines, names) = doctor_mcp(&cfg);
    assert_eq!(names, vec!["alpha".to_string(), "zeta".to_string()]);
    assert_eq!(
        lines,
        vec![
            "[ok] mcp=2 server(s) configured".to_string(),
            "     mcp.alpha: url=http://a label=Alpha trust_rank=1 timeout=30s".to_string(),
            "     mcp.zeta: url=http://z label=zeta trust_rank=1 timeout=30s".to_string(),
        ]
    );
}

#[test]
fn doctor_memory_line_uses_agent_limit_or_default() {
    let mut cfg = config(true, "deny");
    assert_eq!(
        doctor_memory_line(3, &cfg, 12, ".grokrs/state.db"),
        "[ok] memory=3/50 entries store_size=12KB (.grokrs/state.db)"
    );
    cfg.agent = Some(AgentConfig {
        max_iterations: 10,
        default_trust: "untrusted".into(),
        enable_search: false,
        memory_limit: 200,
    });
    assert_eq!(
        doctor_memory_line(0, &cfg, 0, "db"),
        "[ok] memory=0/200 entries store_size=0KB (db)"
    );
}

#[test]
fn doctor_store_line_for_each_probe() {
    assert_eq!(
        doctor_store_line("/w/.grokrs/state.db", &StoreProbe::NotCreated),
        "store=not_created path=/w/.grokrs/state.db"
    );
    assert_eq!(
        doctor_store_line(
            "db",
            &StoreProbe::Opened {
                schema_version: 4,
                total_sessions: 10,
                active_sessions: 2,
                total_cost_ticks: -5,
            }
        ),
        "store=ok path=db schema_version=4 total_sessions=10 active_sessions=2 total_cost_ticks=-5"
    );
    assert_eq!(
        doctor_store_line("db", &StoreProbe::Failed { error: "locked".into() }),
        "store=error path=db error=locked"
    );
}

#[test]
fn store_usage_lines_for_session_and_all() {
    let totals = UsageTotals {
        request_count: 3,
        total_input_tokens: 120,
        total_output_tokens: 45,
        total_reasoning_tokens: 0,
        total_cost_ticks: 900,
    };
    assert_eq!(
        usage_lines(Some("abc"), &totals),
        vec![
            "Usage for session: abc".to_string(),
            "  requests:         3".to_string(),
            "  input_tokens:     120".to_string(),
            "  output_tokens:    45".to_string(),
            "  reasoning_tokens: 0".to_string(),
        ]
    );
    assert_eq!(usage_lines(None, &totals)[0], "Usage across all sessions:");
}

#[test]
fn store_status_lines() {
    assert_eq!(
        status_sessions_line(12, 3),
        "  sessions:       12 total, 3 active"
    );
    assert_eq!(
        status_missing_lines("/w/db"),
        vec![
            "Store status:".to_string(),
            "  database: /w/db (not created yet)".to_string(),
            "  No store database exists. Run an API command to create one.".to_string(),
        ]
    );
}

#[test]
fn calendar_steps_through_month_and_year_ends() {
    // 1970 is not a leap year: day 58 is Feb 28 and day 59 is Mar 1.
    assert_eq!(days_to_ymd(0), (1970, 1, 1));
    assert_eq!(days_to_ymd(58), (1970, 2, 28));
    assert_eq!(days_to_ymd(59), (1970, 3, 1));
    assert_eq!(days_to_ymd(364), (1970, 12, 31));
    assert_eq!(days_to_ymd(365), (1971, 1, 1));
    // 2000 is a leap year (divisible by 400).
    assert_eq!(epoch_to_rfc3339(951_782_400), "2000-02-29T00:00:00Z");
    // 2100 is not (divisible by 100 but not by 400).
    assert_eq!(epoch_to_rfc3339(4_107_456_000), "2100-02-28T00:00:00Z");
    assert_eq!(epoch_to_rfc3339(4_107_542_400), "2100-03-01T00:00:00Z");
}
