use grokrs::config::PolicyConfig;
use grokrs::executor::{check_tool_call, describe_effect, tool_outcome, PolicyGatedExecutor};
use grokrs::mcp::{
    filter_allowed_tools, mcp_server_host, mcp_tool_name, sanitize_label, server_host_from_parsed,
    McpToolAdapter,
};
use grokrs::policy::{Effect, PolicyEngine};

fn permissive_engine() -> PolicyEngine {
    PolicyEngine::new(PolicyConfig {
        allow_network: true,
        allow_shell: true,
        allow_workspace_writes: true,
        max_patch_bytes: 1024,
    })
}

fn restrictive_engine() -> PolicyEngine {
    PolicyEngine::new(PolicyConfig {
        allow_network: false,
        allow_shell: false,
        allow_workspace_writes: false,
        max_patch_bytes: 1024,
    })
}

/// The built-in tools as a session sees them: name and needed trust rank.
fn builtin_rank(name: &str) -> Option<u8> {
    match name {
        "read_file" | "list_directory" => Some(0),
        "write_file" => Some(1),
        "run_command" => Some(2),
        _ => None,
    }
}

fn available(rank: u8) -> Vec<String> {
    ["read_file", "list_directory", "write_file", "run_command"]
        .iter()
        .filter(|n| builtin_rank(n).unwrap() <= rank)
        .map(|n| n.to_string())
        .collect()
}

fn execute(
    executor: &PolicyGatedExecutor,
    name: &str,
    classified: Result<Vec<Effect>, String>,
) -> Result<(), String> {
    executor.check(
        name,
        builtin_rank(name),
        &available(executor.trust_rank()),
        &classified,
    )
}

#[test]
fn unknown_tool_returns_error() {
    let executor = PolicyGatedExecutor::new(permissive_engine(), "allow".into(), 2);
    let err = execute(&executor, "nonexistent_tool", Ok(vec![])).unwrap_err();
    assert!(err.contains("unknown tool 'nonexistent_tool'"));
    assert!(err.contains("read_file"));
    assert_eq!(
        err,
        "unknown tool 'nonexistent_tool'. Available tools: read_file, list_directory, write_file, run_command"
    );
}

#[test]
fn trust_rank_too_low_returns_error() {
    let executor = PolicyGatedExecutor::new(permissive_engine(), "allow".into(), 0);
    let err = execute(
        &executor,
        "write_file",
        Ok(vec![Effect::FsWrite("x.txt".into())]),
    )
    .unwrap_err();
    assert!(err.contains("requires trust rank"));
    assert_eq!(
        err,
        "tool 'write_file' requires trust rank 1 but current session has rank 0"
    );
}

#[test]
fn malformed_json_returns_error() {
    let executor = PolicyGatedExecutor::new(permissive_engine(), "allow".into(), 0);
    let err = execute(
        &executor,
        "read_file",
        Err("failed to deserialize input: expected value".into()),
    )
    .unwrap_err();
    assert!(err.contains("classify") || err.contains("deserialize"));
}

#[test]
fn invalid_path_returns_error() {
    let executor = PolicyGatedExecutor::new(permissive_engine(), "allow".into(), 0);
    let err = execute(
        &executor,
        "read_file",
        Err("path must be workspace-relative, got absolute path '/etc/passwd'".into()),
    )
    .unwrap_err();
    assert!(err.contains("classify") || err.contains("path") || err.contains("absolute"));
}

#[test]
fn read_is_allowed_even_under_restrictive_policy() {
    let executor = PolicyGatedExecutor::new(restrictive_engine(), "deny".into(), 0);
    assert_eq!(
        execute(&executor, "read_file", Ok(vec![Effect::FsRead("hello.txt".into())])),
        Ok(())
    );
}

#[test]
fn write_file_denied_by_policy() {
    let executor = PolicyGatedExecutor::new(restrictive_engine(), "allow".into(), 1);
    let err = execute(
        &executor,
        "write_file",
        Ok(vec![Effect::FsWrite("out.txt".into())]),
    )
    .unwrap_err();
    assert!(err.contains("policy denied"));
    assert!(err.contains("write_file"));
    assert_eq!(
        err,
        "policy denied tool 'write_file' for effect FsWrite(\"out.txt\"): workspace writes are disabled by config"
    );
}

fn shell_engine() -> PolicyEngine {
    PolicyEngine::new(PolicyConfig {
        allow_network: false,
        allow_shell: true,
        allow_workspace_writes: true,
        max_patch_bytes: 1024,
    })
}

#[test]
fn shell_command_allowed_with_approval_mode_allow() {
    let executor = PolicyGatedExecutor::new(shell_engine(), "allow".into(), 2);
    let effects = vec![Effect::ProcessSpawn {
        program: "echo".into(),
    }];
    assert!(execute(&executor, "run_command", Ok(effects)).is_ok());
}

#[test]
fn shell_command_denied_with_approval_mode_deny() {
    let executor = PolicyGatedExecutor::new(shell_engine(), "deny".into(), 2);
    let effects = vec![Effect::ProcessSpawn {
        program: "echo".into(),
    }];
    let err = execute(&executor, "run_command", Ok(effects)).unwrap_err();
    assert!(err.contains("policy denied"));
}

#[test]
fn shell_command_denied_with_approval_mode_interactive() {
    let executor = PolicyGatedExecutor::new(shell_engine(), "interactive".into(), 2);
    let effects = vec![Effect::ProcessSpawn {
        program: "echo".into(),
    }];
    let err = execute(&executor, "run_command", Ok(effects)).unwrap_err();
    assert!(err.contains("approval required"));
}

#[test]
fn first_refused_effect_is_reported() {
    let engine = PolicyEngine::new(PolicyConfig {
        allow_network: false,
        allow_shell: true,
        allow_workspace_writes: true,
        max_patch_bytes: 1024,
    });
    let effects = Ok(vec![
        Effect::FsRead("a".into()),
        Effect::NetworkConnect {
            host: "example.com".into(),
        },
        Effect::ProcessSpawn {
            program: "sh".into(),
        },
    ]);
    let err = check_tool_call("t", Some(0), &vec![], 0, &effects, &engine, "allow").unwrap_err();
    assert_eq!(
        err,
        "policy denied tool 't' for effect NetworkConnect { host: \"example.com\" }: network access is denied by default"
    );
}

#[test]
fn effects_are_described() {
    assert_eq!(
        describe_effect(&Effect::ProcessSpawn {
            program: "ls".into()
        }),
        "ProcessSpawn { program: \"ls\" }"
    );
    assert_eq!(describe_effect(&Effect::FsRead("a.txt".into())), "FsRead(\"a.txt\")");
}

#[test]
fn tool_failures_are_wrapped() {
    assert_eq!(tool_outcome("t", Ok("out".into())), Ok("out".to_owned()));
    assert_eq!(
        tool_outcome("t", Err("boom".into())),
        Err("tool 't' execution failed: boom".to_owned())
    );
}

#[test]
fn registry_accessor_returns_registry() {
    let executor = PolicyGatedExecutor::new(permissive_engine(), "allow".into(), 2);
    assert_eq!(executor.trust_rank(), 2);
}

// ---------------------------------------------------------------------------
// MCP tools
// ---------------------------------------------------------------------------

#[test]
fn sanitize_label_basic() {
    assert_eq!(sanitize_label("my-server"), "my_server");
    assert_eq!(sanitize_label("My Server"), "my_server");
    assert_eq!(sanitize_label("server.local"), "server_local");
    assert_eq!(sanitize_label("abc123"), "abc123");
}

#[test]
fn sanitize_label_keeps_unicode_letters() {
    assert_eq!(sanitize_label("Café Ü"), "café_Ü");
}

#[test]
fn prefixed_name_with_label() {
    let adapter = McpToolAdapter::new(
        "read_file".into(),
        Some("Read a file".into()),
        "localhost".into(),
        Some("my-server"),
        1,
    );
    assert_eq!(adapter.name(), "mcp_my_server_read_file");
}

#[test]
fn prefixed_name_without_label() {
    let adapter = McpToolAdapter::new("ping".into(), None, "localhost".into(), None, 1);
    assert_eq!(adapter.name(), "mcp_ping");
    assert_eq!(mcp_tool_name(None, "ping"), "mcp_ping");
}

#[test]
fn mcp_name_returns_original() {
    let adapter = McpToolAdapter::new("test_tool".into(), None, "localhost".into(), Some("srv"), 1);
    assert_eq!(adapter.mcp_name(), "test_tool");
}

#[test]
fn description_from_definition() {
    let adapter = McpToolAdapter::new(
        "tool".into(),
        Some("A useful tool".into()),
        "localhost".into(),
        None,
        1,
    );
    assert_eq!(adapter.description(), "A useful tool");
}

#[test]
fn description_fallback_when_none() {
    let adapter = McpToolAdapter::new("tool".into(), None, "localhost".into(), None, 1);
    assert_eq!(adapter.description(), "MCP tool (no description)");
}

#[test]
fn min_trust_rank_configurable() {
    let adapter_0 = McpToolAdapter::new("tool".into(), None, "localhost".into(), None, 0);
    assert_eq!(adapter_0.min_trust_rank(), 0);
    let adapter_2 = McpToolAdapter::new("tool".into(), None, "localhost".into(), None, 2);
    assert_eq!(adapter_2.min_trust_rank(), 2);
}

#[test]
fn classify_returns_network_connect() {
    let adapter = McpToolAdapter::new("tool".into(), None, "tools.example.com".into(), None, 1);
    let effects = adapter.classify();
    assert_eq!(effects.len(), 1);
    assert!(matches!(
        &effects[0],
        Effect::NetworkConnect { host } if host == "tools.example.com"
    ));
}

#[test]
fn classify_empty_input_returns_network_connect() {
    let adapter = McpToolAdapter::new("ping".into(), None, "localhost".into(), None, 1);
    assert_eq!(adapter.classify().len(), 1);
}

#[test]
fn debug_format() {
    let adapter = McpToolAdapter::new("tool".into(), None, "localhost".into(), Some("test"), 1);
    let debug = format!("{adapter:?}");
    assert!(debug.contains("McpToolAdapter"));
    assert!(debug.contains("mcp_test_tool"));
}

#[test]
fn server_host_from_url() {
    assert_eq!(
        mcp_server_host("http://localhost:8080/mcp"),
        Ok("localhost".to_owned())
    );
    assert!(mcp_server_host("not a url").is_err());
    assert_eq!(
        server_host_from_parsed(Some(None), "data:text/plain,x"),
        Ok("unknown".to_owned())
    );
    assert_eq!(
        server_host_from_parsed(None, "::"),
        Err("invalid MCP server URL: ::".to_owned())
    );
}

#[test]
fn allowlist_keeps_named_tools_in_order() {
    let names = vec!["query".to_owned(), "drop".to_owned(), "list_tables".to_owned()];
    let allow = Some(vec!["list_tables".to_owned(), "query".to_owned()]);
    assert_eq!(
        filter_allowed_tools(names.clone(), &allow),
        vec!["query".to_owned(), "list_tables".to_owned()]
    );
    assert_eq!(filter_allowed_tools(names.clone(), &None), names);
}
