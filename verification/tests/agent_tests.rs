use grokrs::agent::{
    build_system_prompt, check_network_allowed, dry_run_result, exit_code_for_anyhow_public,
    exit_code_for_tool_loop_error, extract_text_output, format_usage_line, memory_fetch_count,
    parse_trust_rank, plan_agent_run, plan_failure_exit_code, resolve_approval_mode,
    resolve_task, resolve_timeout, summarize_tool_call, task_needs_stdin, tool_result_event,
    HeadlessEvent, tool_error_exit_code, usage_total, AgentArgs,
    AgentExitCode, ContentBlock, MemoryEntry, OutputFormat, OutputItem, PlanFailure,
    ToolLoopFailure,
};
use grokrs::config::{
    AgentConfig, AppConfig, ModelConfig, PolicyConfig, SessionConfig, WorkspaceConfig,
};
use grokrs::text::truncate_utf8;

fn test_config(allow_network: bool) -> AppConfig {
    AppConfig {
        workspace: WorkspaceConfig {
            name: "test".into(),
            root: ".".into(),
        },
        model: ModelConfig {
            provider: "xai".into(),
            default_model: "grok-4".into(),
        },
        policy: PolicyConfig {
            allow_network,
            allow_shell: false,
            allow_workspace_writes: false,
            max_patch_bytes: 0,
        },
        session: SessionConfig {
            approval_mode: "interactive".into(),
            transcript_dir: ".grokrs/sessions".into(),
        },
        api: None,
        management_api: None,
        store: None,
        agent: None,
        chat: None,
        mcp: None,
    }
}

fn args(task: Option<&str>) -> AgentArgs {
    AgentArgs {
        task: task.map(|t| t.to_string()),
        trust: None,
        max_iterations: None,
        model: None,
        system: None,
        dry_run: false,
        search: false,
        x_search: false,
        citations: false,
        headless: false,
        output: OutputFormat::Text,
        timeout: None,
        approval_mode: None,
        mcp_servers: Vec::new(),
        cache_key: None,
    }
}

#[test]
fn parse_trust_rank_untrusted() {
    assert_eq!(parse_trust_rank("untrusted").unwrap(), 0);
}

#[test]
fn parse_trust_rank_interactive() {
    assert_eq!(parse_trust_rank("interactive").unwrap(), 1);
}

#[test]
fn parse_trust_rank_admin() {
    assert_eq!(parse_trust_rank("admin").unwrap(), 2);
}

#[test]
fn parse_trust_rank_unknown_is_error() {
    let err = parse_trust_rank("superuser").unwrap_err();
    let msg = format!("{err}");
    assert!(msg.contains("superuser"), "error should mention the value: {msg}");
    assert_eq!(
        msg,
        "unknown trust level: 'superuser'\nValid values: untrusted, interactive, admin"
    );
}

#[test]
fn agent_check_network_denied_returns_error() {
    let config = test_config(false);
    let err = check_network_allowed(&config).unwrap_err();
    assert!(err.contains("Network access is denied"), "msg: {err}");
}

#[test]
fn check_network_allowed_returns_ok() {
    let config = test_config(true);
    assert!(check_network_allowed(&config).is_ok());
}

#[test]
fn truncate_utf8_ascii() {
    assert_eq!(truncate_utf8("hello", 10), "hello");
    assert_eq!(truncate_utf8("hello world", 5), "hello");
}

#[test]
fn truncate_utf8_multibyte_boundary() {
    let s = "café";
    assert_eq!(s.len(), 5);
    assert_eq!(truncate_utf8(s, 4), "caf");
    assert_eq!(truncate_utf8(s, 5), "café");
    assert_eq!(truncate_utf8(s, 3), "caf");
}

#[test]
fn truncate_utf8_emoji() {
    let s = "hi🦀bye";
    assert_eq!(s.len(), 9);
    assert_eq!(truncate_utf8(s, 3), "hi");
    assert_eq!(truncate_utf8(s, 6), "hi🦀");
}

#[test]
fn exit_code_values_are_stable() {
    assert_eq!(AgentExitCode::Success.code(), 0);
    assert_eq!(AgentExitCode::AgentError.code(), 1);
    assert_eq!(AgentExitCode::PolicyDenial.code(), 2);
    assert_eq!(AgentExitCode::ApiError.code(), 3);
    assert_eq!(AgentExitCode::Timeout.code(), 4);
}

#[test]
fn exit_code_success_is_zero() {
    assert_eq!(AgentExitCode::Success.code(), 0);
}

#[test]
fn exit_code_agent_error_is_one() {
    assert_eq!(AgentExitCode::AgentError.code(), 1);
}

#[test]
fn exit_code_policy_denial_is_two() {
    assert_eq!(AgentExitCode::PolicyDenial.code(), 2);
}

#[test]
fn exit_code_api_error_is_three() {
    assert_eq!(AgentExitCode::ApiError.code(), 3);
}

#[test]
fn exit_code_timeout_is_four() {
    assert_eq!(AgentExitCode::Timeout.code(), 4);
}

#[test]
fn exit_code_max_iterations() {
    let err = ToolLoopFailure::MaxIterationsExceeded { iterations: 10, max: 10 };
    assert_eq!(exit_code_for_tool_loop_error(&err), AgentExitCode::AgentError);
}

#[test]
fn exit_code_invalid_config() {
    let err = ToolLoopFailure::InvalidConfiguration { message: "bad config".to_owned() };
    assert_eq!(exit_code_for_tool_loop_error(&err), AgentExitCode::AgentError);
}

#[test]
fn exit_code_execution_failed_policy_denied() {
    let err = ToolLoopFailure::ExecutionFailed {
        name: "write_file".to_owned(),
        error: "policy denied tool 'write_file'".into(),
    };
    assert_eq!(exit_code_for_tool_loop_error(&err), AgentExitCode::PolicyDenial);
}

#[test]
fn exit_code_execution_failed_generic() {
    let err = ToolLoopFailure::ExecutionFailed {
        name: "read_file".to_owned(),
        error: "file not found".into(),
    };
    assert_eq!(exit_code_for_tool_loop_error(&err), AgentExitCode::AgentError);
}

#[test]
fn exit_code_transport() {
    let err = ToolLoopFailure::Transport { message: "API error (429): rate limit".to_owned() };
    assert_eq!(exit_code_for_tool_loop_error(&err), AgentExitCode::ApiError);
}

#[test]
fn anyhow_network_denied_maps_to_policy() {
    let err = "Network access is denied by policy";
    assert_eq!(exit_code_for_anyhow_public(err), AgentExitCode::PolicyDenial);
}

#[test]
fn anyhow_api_client_maps_to_api_error() {
    let err = "failed to construct API client: missing key";
    assert_eq!(exit_code_for_anyhow_public(err), AgentExitCode::ApiError);
}

#[test]
fn anyhow_generic_maps_to_agent_error() {
    let err = "something else went wrong";
    assert_eq!(exit_code_for_anyhow_public(err), AgentExitCode::AgentError);
}

#[test]
fn headless_defaults_approval_mode_to_deny() {
    assert_eq!(resolve_approval_mode(None, true, "interactive"), "deny");
}

#[test]
fn headless_approval_mode_can_be_overridden() {
    assert_eq!(resolve_approval_mode(Some("allow"), true, "interactive"), "allow");
}

#[test]
fn interactive_uses_config_approval_mode() {
    assert_eq!(resolve_approval_mode(None, false, "interactive"), "interactive");
}

#[test]
fn headless_default_timeout_300s() {
    assert_eq!(resolve_timeout(None, true), Some(300));
}

#[test]
fn interactive_no_default_timeout() {
    assert_eq!(resolve_timeout(None, false), None);
}

#[test]
fn explicit_timeout_overrides_default() {
    assert_eq!(resolve_timeout(Some(60), true), Some(60));
}

#[test]
fn summarize_read_file() {
    let summary = summarize_tool_call("read_file", r#"{"path": "src/main.rs"}"#);
    assert_eq!(summary, "src/main.rs");
}

#[test]
fn summarize_write_file() {
    let summary = summarize_tool_call("write_file", r#"{"path": "out.txt", "content": "hi"}"#);
    assert_eq!(summary, "out.txt");
}

#[test]
fn summarize_run_command() {
    let summary = summarize_tool_call("run_command", r#"{"command": "cargo test"}"#);
    assert_eq!(summary, "cargo test");
}

#[test]
fn summarize_long_command_is_truncated() {
    let long_cmd = "a".repeat(100);
    let args = format!(r#"{{"command": "{long_cmd}"}}"#);
    let summary = summarize_tool_call("run_command", &args);
    assert!(summary.len() <= 83, "should be truncated: len={}", summary.len());
    assert!(summary.ends_with("..."));
}

#[test]
fn summarize_invalid_json_falls_back() {
    let summary = summarize_tool_call("unknown", "not json");
    assert_eq!(summary, "not json");
}

#[test]
fn summarize_multibyte_command_truncates_safely() {
    let long_emoji_cmd = "🦀".repeat(100);
    let args = format!(r#"{{"command": "{long_emoji_cmd}"}}"#);
    let summary = summarize_tool_call("run_command", &args);
    assert!(summary.ends_with("..."));
    assert_eq!(summary, format!("{}...", "🦀".repeat(19)));
}

#[test]
fn extract_text_from_message() {
    let output = vec![OutputItem::Message {
        content: vec![ContentBlock::Text { text: "Hello, world!".to_string() }],
    }];
    assert_eq!(extract_text_output(&output), "Hello, world!");
}

#[test]
fn extract_text_skips_function_calls() {
    let output = vec![
        OutputItem::Other,
        OutputItem::Message {
            content: vec![ContentBlock::Text { text: "Done!".to_string() }],
        },
    ];
    assert_eq!(extract_text_output(&output), "Done!");
}

#[test]
fn extract_text_empty_output() {
    assert!(extract_text_output(&[]).is_empty());
}

#[test]
fn extract_text_joins_blocks_with_newlines() {
    let output = vec![
        OutputItem::Message {
            content: vec![
                ContentBlock::Text { text: "a".to_string() },
                ContentBlock::Other,
                ContentBlock::InputText { text: "b".to_string() },
            ],
        },
        OutputItem::Message {
            content: vec![ContentBlock::Text { text: "c".to_string() }],
        },
    ];
    assert_eq!(extract_text_output(&output), "a\nb\nc");
}

#[test]
fn plan_uses_flags_then_config_then_defaults() {
    let config = test_config(true);
    let plan = plan_agent_run(&args(Some("t")), &config).unwrap();
    assert_eq!(plan.trust, "untrusted");
    assert_eq!(plan.trust_rank, 0);
    assert_eq!(plan.max_iterations, 10);
    assert_eq!(plan.model, "grok-4");
    assert_eq!(plan.approval_mode, "interactive");
    assert_eq!(plan.timeout_secs, None);
    assert_eq!(plan.memory_limit, 50);
    assert!(!plan.search.web_search);

    let mut config = test_config(true);
    config.agent = Some(AgentConfig {
        max_iterations: 20,
        default_trust: "admin".to_string(),
        enable_search: true,
        memory_limit: 7,
    });
    let mut a = args(Some("t"));
    a.headless = true;
    a.max_iterations = Some(3);
    let plan = plan_agent_run(&a, &config).unwrap();
    assert_eq!(plan.trust_rank, 2);
    assert_eq!(plan.max_iterations, 3);
    assert_eq!(plan.approval_mode, "deny");
    assert_eq!(plan.timeout_secs, Some(300));
    assert_eq!(plan.memory_limit, 7);
    assert!(plan.search.web_search);
}

#[test]
fn plan_fails_without_network_or_with_bad_trust() {
    let err = plan_agent_run(&args(Some("t")), &test_config(false)).unwrap_err();
    assert!(matches!(err, PlanFailure::NetworkDenied { .. }));
    assert_eq!(plan_failure_exit_code(&err), AgentExitCode::PolicyDenial);
    let mut a = args(Some("t"));
    a.trust = Some("root".to_string());
    let err = plan_agent_run(&a, &test_config(true)).unwrap_err();
    assert_eq!(
        err,
        PlanFailure::UnknownTrust {
            message: "unknown trust level: 'root'\nValid values: untrusted, interactive, admin"
                .to_string()
        }
    );
    assert_eq!(plan_failure_exit_code(&err), AgentExitCode::AgentError);
}

#[test]
fn system_prompt_with_memories() {
    let memories = vec![MemoryEntry {
        category: "pref".to_string(),
        key: "style".to_string(),
        value: "terse".to_string(),
    }];
    let p = build_system_prompt(Some("Be nice."), &memories).unwrap();
    assert_eq!(
        p,
        "Be nice.\n\n## Cross-Session Memory (1 memory)\nThe following memories were saved from previous sessions:\n\n- [pref] style: terse\n\nYou can use the `remember`, `recall`, and `forget` tools to manage memories."
    );
    assert_eq!(build_system_prompt(Some("x"), &[]), Some("x".to_string()));
    assert_eq!(build_system_prompt(None, &[]), None);
    let two = vec![memories[0].clone(), memories[0].clone()];
    assert!(build_system_prompt(None, &two).unwrap().contains("(2 memories)"));
    assert_eq!(memory_fetch_count(50), 20);
    assert_eq!(memory_fetch_count(5), 5);
}

#[test]
fn dry_run_and_tool_errors() {
    assert_eq!(
        dry_run_result("read_file"),
        r#"{"dry_run": true, "tool": "read_file", "message": "dry-run: tool not executed"}"#
    );
    assert_eq!(tool_error_exit_code("policy denied tool 'x'"), AgentExitCode::PolicyDenial);
    assert_eq!(tool_error_exit_code("boom"), AgentExitCode::AgentError);
}

#[test]
fn usage_lines() {
    assert_eq!(usage_total(100, 50, None), 150);
    assert_eq!(usage_total(100, 50, Some(160)), 160);
    assert_eq!(format_usage_line(500, 100, 600, Some(200)), "[usage] input=500 (200 cached) output=100 total=600");
    assert_eq!(format_usage_line(500, 100, 600, Some(0)), "[usage] input=500 output=100 total=600");
    assert_eq!(format_usage_line(5, 1, 6, None), "[usage] input=5 output=1 total=6");
}

#[test]
fn resolve_task_from_arg() {
    let a = args(Some("do the thing"));
    let task = resolve_task(&a, None).unwrap();
    assert_eq!(task, "do the thing");
}

#[test]
fn resolve_task_missing_in_interactive_mode_is_error() {
    let a = args(None);
    let err = resolve_task(&a, None).unwrap_err();
    assert!(err.contains("task argument is required"), "unexpected error: {err}");
}

#[test]
fn resolve_task_reads_trimmed_stdin_in_headless_mode() {
    let mut a = args(None);
    a.headless = true;
    assert!(task_needs_stdin(&a));
    assert_eq!(resolve_task(&a, Some("  summarize the repo\n")).unwrap(), "summarize the repo");
    let err = resolve_task(&a, Some(" \n\t ")).unwrap_err();
    assert_eq!(
        err,
        "no task provided: pass a task argument or pipe via stdin in headless mode"
    );
    let with_task = args(Some("given"));
    assert!(!task_needs_stdin(&with_task));
}

#[test]
fn tool_result_event_reports_output_or_error() {
    assert_eq!(
        tool_result_event("read_file", &Ok("contents".to_string())),
        HeadlessEvent::ToolResult {
            name: "read_file".into(),
            output: "contents".into()
        }
    );
    assert_eq!(
        tool_result_event("run_command", &Err("policy denied: shell".to_string())),
        HeadlessEvent::Error {
            message: "policy denied: shell".into(),
            exit_code: 2
        }
    );
    assert_eq!(
        tool_result_event("run_command", &Err("exit status 1".to_string())),
        HeadlessEvent::Error {
            message: "exit status 1".into(),
            exit_code: 1
        }
    );
}
