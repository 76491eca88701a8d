//! The deny-by-default policy engine: classification of effects into
//! allow / ask / deny decisions, and the approval-mode resolution that turns
//! an `Ask` into a final answer.

use vstd::prelude::*;
use crate::text::{owned, str_eq};
use crate::config::PolicyConfig;

verus! {

/// An effect a tool call wants to have on the outside world. File effects
/// carry the workspace-relative path they touch.
#[derive(Debug, Clone, PartialEq, Eq)]
pub enum Effect {
    FsRead(String),
    FsWrite(String),
    ProcessSpawn { program: String },
    NetworkConnect { host: String },
}

/// The answer of the policy engine for one effect.
#[derive(Debug, Clone, PartialEq, Eq)]
pub enum Decision {
    Allow { reason: &'static str },
    Ask { reason: &'static str },
    Deny { reason: &'static str },
}

/// The policy engine: a fixed configuration that decides effects.
#[derive(Debug, Clone)]
pub struct PolicyEngine {
    config: PolicyConfig,
}

/// The decision of the engine with configuration `config` for `effect`.
pub open spec fn spec_evaluate(config: PolicyConfig, effect: Effect) -> Decision {
    match effect {
        Effect::FsRead(_) => Decision::Allow { reason: "workspace reads are allowed" },
        Effect::FsWrite(_) => if config.allow_workspace_writes {
            Decision::Allow { reason: "workspace writes are allowed by config" }
        } else {
            Decision::Deny { reason: "workspace writes are disabled by config" }
        },
        Effect::ProcessSpawn { .. } => if config.allow_shell {
            Decision::Ask { reason: "shell spawn requires explicit approval flow" }
        } else {
            Decision::Deny { reason: "shell spawn is denied by default" }
        },
        Effect::NetworkConnect { .. } => if config.allow_network {
            Decision::Ask { reason: "network access requires explicit approval flow" }
        } else {
            Decision::Deny { reason: "network access is denied by default" }
        },
    }
}

/// The decision for a network connection, which does not depend on the host.
pub open spec fn spec_network_decision(config: PolicyConfig) -> Decision {
    if config.allow_network {
        Decision::Ask { reason: "network access requires explicit approval flow" }
    } else {
        Decision::Deny { reason: "network access is denied by default" }
    }
}

impl PolicyEngine {
    /// The configuration the engine decides by.
    pub closed spec fn config(&self) -> PolicyConfig {
        self.config
    }

    pub fn new(config: PolicyConfig) -> (engine: Self)
        ensures
            engine.config() == config,
    {
        PolicyEngine { config }
    }

    /// Decide an effect.
    pub fn evaluate(&self, effect: &Effect) -> (d: Decision)
        ensures
            d == spec_evaluate(self.config(), *effect),
    {
        match effect {
            Effect::FsRead(_) => Decision::Allow { reason: "workspace reads are allowed" },
            Effect::FsWrite(_) => if self.config.allow_workspace_writes {
                Decision::Allow { reason: "workspace writes are allowed by config" }
            } else {
                Decision::Deny { reason: "workspace writes are disabled by config" }
            },
            Effect::ProcessSpawn { .. } => if self.config.allow_shell {
                Decision::Ask { reason: "shell spawn requires explicit approval flow" }
            } else {
                Decision::Deny { reason: "shell spawn is denied by default" }
            },
            Effect::NetworkConnect { .. } => if self.config.allow_network {
                Decision::Ask { reason: "network access requires explicit approval flow" }
            } else {
                Decision::Deny { reason: "network access is denied by default" }
            },
        }
    }
}

/// Reads are always allowed; nothing is ever allowed outright but reads and
/// enabled workspace writes; a disabled switch always denies.
pub proof fn lemma_fail_closed(config: PolicyConfig, effect: Effect)
    ensures
        spec_evaluate(config, effect) is Allow ==> (effect is FsRead || (effect is FsWrite
            && config.allow_workspace_writes)),
        effect is FsRead ==> spec_evaluate(config, effect) is Allow,
        (effect is NetworkConnect && !config.allow_network) ==> spec_evaluate(config, effect) is Deny,
        (effect is ProcessSpawn && !config.allow_shell) ==> spec_evaluate(config, effect) is Deny,
        (effect is FsWrite && !config.allow_workspace_writes) ==> spec_evaluate(config, effect) is Deny,
        (effect is NetworkConnect || effect is ProcessSpawn) ==> !(spec_evaluate(config, effect) is Allow),
        effect is NetworkConnect ==> spec_evaluate(config, effect) == spec_network_decision(config),
{
}

/// The outcome of an effect after the approval mode has been applied: the
/// tool call either proceeds or is refused with a reason.
#[derive(Debug, Clone, PartialEq, Eq)]
pub enum ResolvedDecision {
    Allow,
    Deny { reason: String },
}

/// The denial text for an `Ask` under an approval mode that has no broker.
pub open spec fn approval_required_message(mode: Seq<char>, reason: Seq<char>) -> Seq<char> {
    "approval required (approval_mode='"@ + mode + "'): "@ + reason + APPROVAL_REQUIRED_TAIL@
}

pub const APPROVAL_REQUIRED_TAIL: &'static str = ". \
    Set approval_mode = 'allow' in [session] config to bypass, \
    or wait for the approval broker.";

/// Whether `r` denies with exactly the text `msg`.
pub open spec fn denies_with(r: ResolvedDecision, msg: Seq<char>) -> bool {
    r matches ResolvedDecision::Deny { reason } && reason@ == msg
}

/// Apply the approval mode to a decision: `Allow` and `Deny` pass through
/// unchanged; `Ask` becomes `Allow` under `"allow"`, a plain denial under
/// `"deny"`, and a denial asking for approval under any other mode.
pub fn resolve_decision(decision: Decision, approval_mode: &str) -> (r: ResolvedDecision)
    ensures
        match decision {
            Decision::Allow { .. } => r is Allow,
            Decision::Deny { reason } => denies_with(r, reason@),
            Decision::Ask { reason } => if approval_mode@ == "allow"@ {
                r is Allow
            } else if approval_mode@ == "deny"@ {
                denies_with(r, reason@)
            } else {
                denies_with(r, approval_required_message(approval_mode@, reason@))
            },
        },
{
    match decision {
        Decision::Allow { .. } => ResolvedDecision::Allow,
        Decision::Deny { reason } => ResolvedDecision::Deny { reason: owned(reason) },
        Decision::Ask { reason } => {
            if str_eq(approval_mode, "allow") {
                ResolvedDecision::Allow
            } else if str_eq(approval_mode, "deny") {
                ResolvedDecision::Deny { reason: owned(reason) }
            } else {
                let mut msg = owned("approval required (approval_mode='");
                msg.append(approval_mode);
                msg.append("'): ");
                msg.append(reason);
                msg.append(APPROVAL_REQUIRED_TAIL);
                ResolvedDecision::Deny { reason: msg }
            }
        },
    }
}

/// The approval mode never weakens the engine: an effect the engine denies
/// is denied under every mode, and an effect the engine allows is allowed
/// under every mode. Only `Ask` depends on the mode, and only `"allow"`
/// lets it through.
pub proof fn lemma_resolution_monotone(decision: Decision, mode: Seq<char>, r: ResolvedDecision)
    requires
        match decision {
            Decision::Allow { .. } => r is Allow,
            Decision::Deny { reason } => denies_with(r, reason@),
            Decision::Ask { reason } => if mode == "allow"@ {
                r is Allow
            } else if mode == "deny"@ {
                denies_with(r, reason@)
            } else {
                denies_with(r, approval_required_message(mode, reason@))
            },
        },
    ensures
        decision is Deny ==> r is Deny,
        decision is Allow ==> r is Allow,
        (r is Allow) <==> (decision is Allow || (decision is Ask && mode == "allow"@)),
{
}

/// What a network gate tells the transport for one host: proceed, refuse,
/// or ask the (not yet available) approval broker.
#[derive(Debug, Clone, PartialEq, Eq)]
pub enum GateDecision {
    Allow,
    Deny { reason: String },
    Ask,
}

/// What the network gate tells the transport about a host: the decision
/// for network access, with `Ask` resolved by the approval mode; modes
/// other than `"allow"` and `"deny"` keep it as `Ask`.
pub fn gate_decision(engine: &PolicyEngine, approval_mode: &str, host: &str) -> (g: GateDecision)
    ensures
        match spec_network_decision(engine.config()) {
            Decision::Allow { .. } => g is Allow,
            Decision::Deny { reason } => g matches GateDecision::Deny { reason: r } && r@ == reason@,
            Decision::Ask { reason } => if approval_mode@ == "allow"@ {
                g is Allow
            } else if approval_mode@ == "deny"@ {
                g matches GateDecision::Deny { reason: r } && r@ == reason@
            } else {
                g is Ask
            },
        },
{
    let effect = Effect::NetworkConnect { host: owned(host) };
    match engine.evaluate(&effect) {
        Decision::Allow { .. } => GateDecision::Allow,
        Decision::Ask { reason } => {
            if str_eq(approval_mode, "allow") {
                GateDecision::Allow
            } else if str_eq(approval_mode, "deny") {
                GateDecision::Deny { reason: owned(reason) }
            } else {
                GateDecision::Ask
            }
        },
        Decision::Deny { reason } => GateDecision::Deny { reason: owned(reason) },
    }
}

/// The short name of a decision's kind.
pub fn format_decision_short(decision: &Decision) -> (s: &'static str)
    ensures
        s == match *decision {
            Decision::Allow { .. } => "allow",
            Decision::Ask { .. } => "ask",
            Decision::Deny { .. } => "deny",
        },
{
    match decision {
        Decision::Allow { .. } => "allow",
        Decision::Ask { .. } => "ask",
        Decision::Deny { .. } => "deny",
    }
}

} // verus!
