use grokrs::config::PolicyConfig;
use grokrs::policy::{gate_decision, GateDecision, PolicyEngine};

fn engine(allow_network: bool) -> PolicyEngine {
    PolicyEngine::new(PolicyConfig {
        allow_network,
        allow_shell: false,
        allow_workspace_writes: false,
        max_patch_bytes: 0,
    })
}

#[test]
fn api_approval_mode_allow_maps_ask_to_allow() {
    let decision = gate_decision(&engine(true), "allow", "api.x.ai");
    assert!(
        matches!(decision, GateDecision::Allow),
        "expected Allow for allow_network=true, approval_mode='allow', got {decision:?}"
    );
}

#[test]
fn api_approval_mode_deny_maps_ask_to_deny() {
    let decision = gate_decision(&engine(true), "deny", "api.x.ai");
    assert!(
        matches!(decision, GateDecision::Deny { .. }),
        "expected Deny for allow_network=true, approval_mode='deny', got {decision:?}"
    );
}

#[test]
fn api_approval_mode_interactive_keeps_ask() {
    let decision = gate_decision(&engine(true), "interactive", "api.x.ai");
    assert!(
        matches!(decision, GateDecision::Ask),
        "expected Ask for allow_network=true, approval_mode='interactive', got {decision:?}"
    );
}

#[test]
fn approval_mode_unknown_value_treated_as_interactive() {
    let decision = gate_decision(&engine(true), "banana", "api.x.ai");
    assert!(
        matches!(decision, GateDecision::Ask),
        "expected Ask for allow_network=true, approval_mode='banana', got {decision:?}"
    );
}

#[test]
fn allow_decision_never_downgraded_by_approval_mode_deny() {
    let decision = gate_decision(&engine(false), "deny", "api.x.ai");
    assert!(
        matches!(decision, GateDecision::Deny { .. }),
        "expected Deny for allow_network=false, approval_mode='deny', got {decision:?}"
    );
}

#[test]
fn allow_decision_never_downgraded_by_approval_mode_interactive() {
    let decision = gate_decision(&engine(false), "interactive", "api.x.ai");
    assert!(
        matches!(decision, GateDecision::Deny { .. }),
        "expected Deny for allow_network=false, approval_mode='interactive', got {decision:?}"
    );
}

#[test]
fn deny_decision_never_upgraded_by_approval_mode_allow() {
    let decision = gate_decision(&engine(false), "allow", "api.x.ai");
    assert!(
        matches!(decision, GateDecision::Deny { .. }),
        "expected Deny for allow_network=false, approval_mode='allow', got {decision:?}"
    );
}

#[test]
fn deny_decision_never_upgraded_by_approval_mode_interactive() {
    let decision = gate_decision(&engine(false), "interactive", "api.x.ai");
    assert!(
        matches!(decision, GateDecision::Deny { .. }),
        "expected Deny for allow_network=false, approval_mode='interactive', got {decision:?}"
    );
}

#[test]
fn policy_bridge_maps_deny_to_deny() {
    let decision = gate_decision(&engine(false), "interactive", "api.x.ai");
    assert!(
        matches!(decision, GateDecision::Deny { .. }),
        "expected Deny for allow_network=false, approval_mode='interactive', got {decision:?}"
    );
}

#[test]
fn policy_bridge_maps_ask_to_ask() {
    let decision = gate_decision(&engine(true), "interactive", "api.x.ai");
    assert!(
        matches!(decision, GateDecision::Ask),
        "expected Ask for allow_network=true, approval_mode='interactive', got {decision:?}"
    );
}

#[test]
fn collections_approval_mode_allow_maps_ask_to_allow() {
    let decision = gate_decision(&engine(true), "allow", "management-api.x.ai");
    assert!(
        matches!(decision, GateDecision::Allow),
        "expected Allow for allow_network=true, approval_mode='allow', got {decision:?}"
    );
}

#[test]
fn collections_approval_mode_deny_maps_ask_to_deny() {
    let decision = gate_decision(&engine(true), "deny", "management-api.x.ai");
    assert!(
        matches!(decision, GateDecision::Deny { .. }),
        "expected Deny for allow_network=true, approval_mode='deny', got {decision:?}"
    );
}

#[test]
fn collections_approval_mode_interactive_keeps_ask() {
    let decision = gate_decision(&engine(true), "interactive", "management-api.x.ai");
    assert!(
        matches!(decision, GateDecision::Ask),
        "expected Ask for allow_network=true, approval_mode='interactive', got {decision:?}"
    );
}

#[test]
fn approval_mode_unknown_treated_as_interactive() {
    let decision = gate_decision(&engine(true), "something-else", "management-api.x.ai");
    assert!(
        matches!(decision, GateDecision::Ask),
        "expected Ask for allow_network=true, approval_mode='something-else', got {decision:?}"
    );
}

#[test]
fn allow_decision_never_downgraded_by_deny_mode() {
    let decision = gate_decision(&engine(false), "deny", "management-api.x.ai");
    assert!(
        matches!(decision, GateDecision::Deny { .. }),
        "expected Deny for allow_network=false, approval_mode='deny', got {decision:?}"
    );
}

#[test]
fn deny_decision_never_upgraded_by_allow_mode() {
    let decision = gate_decision(&engine(false), "allow", "management-api.x.ai");
    assert!(
        matches!(decision, GateDecision::Deny { .. }),
        "expected Deny for allow_network=false, approval_mode='allow', got {decision:?}"
    );
}

#[test]
fn deny_decision_never_upgraded_by_interactive_mode() {
    let decision = gate_decision(&engine(false), "interactive", "management-api.x.ai");
    assert!(
        matches!(decision, GateDecision::Deny { .. }),
        "expected Deny for allow_network=false, approval_mode='interactive', got {decision:?}"
    );
}

#[test]
fn policy_bridge_maps_deny() {
    let decision = gate_decision(&engine(false), "interactive", "management-api.x.ai");
    assert!(
        matches!(decision, GateDecision::Deny { .. }),
        "expected Deny for allow_network=false, approval_mode='interactive', got {decision:?}"
    );
}

#[test]
fn policy_bridge_maps_ask() {
    let decision = gate_decision(&engine(true), "interactive", "management-api.x.ai");
    assert!(
        matches!(decision, GateDecision::Ask),
        "expected Ask for allow_network=true, approval_mode='interactive', got {decision:?}"
    );
}
