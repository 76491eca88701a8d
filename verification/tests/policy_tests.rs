use grokrs::config::PolicyConfig;
use grokrs::policy::{
    format_decision_short, gate_decision, resolve_decision, Decision, Effect, GateDecision,
    PolicyEngine, ResolvedDecision,
};

fn sample_policy() -> PolicyEngine {
    PolicyEngine::new(PolicyConfig {
        allow_network: false,
        allow_shell: false,
        allow_workspace_writes: true,
        max_patch_bytes: 1024,
    })
}

#[test]
fn denies_network_by_default() {
    let decision = sample_policy().evaluate(&Effect::NetworkConnect {
        host: "api.x.ai".into(),
    });
    assert_eq!(
        decision,
        Decision::Deny {
            reason: "network access is denied by default"
        }
    );
}

#[test]
fn allows_workspace_write_when_enabled() {
    let effect = Effect::FsWrite("docs/design/overview.md".to_string());
    let decision = sample_policy().evaluate(&effect);
    assert_eq!(
        decision,
        Decision::Allow {
            reason: "workspace writes are allowed by config"
        }
    );
}

#[test]
fn reads_are_always_allowed() {
    let engine = PolicyEngine::new(PolicyConfig {
        allow_network: false,
        allow_shell: false,
        allow_workspace_writes: false,
        max_patch_bytes: 0,
    });
    assert_eq!(
        engine.evaluate(&Effect::FsRead("src/main.rs".to_string())),
        Decision::Allow {
            reason: "workspace reads are allowed"
        }
    );
    assert_eq!(
        engine.evaluate(&Effect::FsWrite("x".to_string())),
        Decision::Deny {
            reason: "workspace writes are disabled by config"
        }
    );
    assert_eq!(
        engine.evaluate(&Effect::ProcessSpawn {
            program: "cargo".to_string()
        }),
        Decision::Deny {
            reason: "shell spawn is denied by default"
        }
    );
}

#[test]
fn enabled_shell_and_network_ask() {
    let engine = PolicyEngine::new(PolicyConfig {
        allow_network: true,
        allow_shell: true,
        allow_workspace_writes: false,
        max_patch_bytes: 0,
    });
    assert_eq!(
        engine.evaluate(&Effect::ProcessSpawn {
            program: "cargo".to_string()
        }),
        Decision::Ask {
            reason: "shell spawn requires explicit approval flow"
        }
    );
    assert_eq!(
        engine.evaluate(&Effect::NetworkConnect {
            host: "api.x.ai".to_string()
        }),
        Decision::Ask {
            reason: "network access requires explicit approval flow"
        }
    );
}

#[test]
fn allow_decision_passes_through_all_modes() {
    let decision = Decision::Allow {
        reason: "workspace reads are allowed",
    };
    for mode in &["allow", "deny", "interactive", "unknown"] {
        assert_eq!(
            resolve_decision(decision.clone(), mode),
            ResolvedDecision::Allow,
            "Allow should pass through for approval_mode={mode}"
        );
    }
}

#[test]
fn deny_decision_passes_through_all_modes() {
    let decision = Decision::Deny {
        reason: "network access is denied by default",
    };
    for mode in &["allow", "deny", "interactive", "unknown"] {
        let resolved = resolve_decision(decision.clone(), mode);
        assert!(
            matches!(resolved, ResolvedDecision::Deny { .. }),
            "Deny should pass through for approval_mode={mode}"
        );
    }
}

#[test]
fn ask_with_allow_mode_permits() {
    let decision = Decision::Ask {
        reason: "network access requires explicit approval flow",
    };
    assert_eq!(resolve_decision(decision, "allow"), ResolvedDecision::Allow);
}

#[test]
fn ask_with_deny_mode_denies() {
    let decision = Decision::Ask {
        reason: "network access requires explicit approval flow",
    };
    let resolved = resolve_decision(decision, "deny");
    match resolved {
        ResolvedDecision::Deny { reason } => {
            assert!(reason.contains("network access requires explicit approval flow"));
        }
        other => panic!("expected Deny, got {other:?}"),
    }
}

#[test]
fn ask_with_interactive_mode_denies_with_helpful_message() {
    let decision = Decision::Ask {
        reason: "shell spawn requires explicit approval flow",
    };
    let resolved = resolve_decision(decision, "interactive");
    match resolved {
        ResolvedDecision::Deny { reason } => {
            assert!(reason.contains("approval required"));
            assert!(reason.contains("interactive"));
            assert!(reason.contains("shell spawn"));
        }
        other => panic!("expected Deny, got {other:?}"),
    }
}

#[test]
fn ask_with_unknown_mode_denies() {
    let decision = Decision::Ask {
        reason: "some effect",
    };
    let resolved = resolve_decision(decision, "gibberish");
    assert!(matches!(resolved, ResolvedDecision::Deny { .. }));
}

#[test]
fn ask_with_interactive_mode_exact_message() {
    let resolved = resolve_decision(Decision::Ask { reason: "x" }, "interactive");
    assert_eq!(
        resolved,
        ResolvedDecision::Deny {
            reason: "approval required (approval_mode='interactive'): x. Set approval_mode = 'allow' in [session] config to bypass, or wait for the approval broker.".to_string()
        }
    );
}

fn engine(allow_network: bool) -> PolicyEngine {
    PolicyEngine::new(PolicyConfig {
        allow_network,
        allow_shell: false,
        allow_workspace_writes: false,
        max_patch_bytes: 0,
    })
}

#[test]
fn gate_maps_approval_modes() {
    assert_eq!(gate_decision(&engine(true), "allow", "management-api.x.ai"), GateDecision::Allow);
    assert_eq!(
        gate_decision(&engine(true), "deny", "management-api.x.ai"),
        GateDecision::Deny {
            reason: "network access requires explicit approval flow".to_string()
        }
    );
    assert_eq!(gate_decision(&engine(true), "interactive", "api.x.ai"), GateDecision::Ask);
    assert_eq!(
        gate_decision(&engine(false), "allow", "api.x.ai"),
        GateDecision::Deny {
            reason: "network access is denied by default".to_string()
        }
    );
}

#[test]
fn decision_short_names() {
    assert_eq!(format_decision_short(&Decision::Allow { reason: "a" }), "allow");
    assert_eq!(format_decision_short(&Decision::Ask { reason: "a" }), "ask");
    assert_eq!(format_decision_short(&Decision::Deny { reason: "a" }), "deny");
}
