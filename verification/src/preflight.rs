//! Checks the commands make before they touch the network: the policy must
//! allow network access and the approval mode must not block it, and the
//! collections commands also need a `[management_api]` section.

use vstd::prelude::*;
use crate::config::AppConfig;
use crate::policy::{Decision, Effect, PolicyEngine, spec_network_decision};
use crate::text::{owned, str_eq};

verus! {

pub const CHAT_NETWORK_DENIED: &'static str = "Network access is denied by policy.\n\
     \n\
     The `grokrs chat` command requires network access to reach the xAI API.\n\
     To opt in, set `allow_network = true` in your config file:\n\
     \n\
     [policy]\n\
     allow_network = true\n\
     \n\
     Then set `approval_mode` in [session] to control how network requests\n\
     are approved:\n\
     \n\
     [session]\n\
     approval_mode = \"allow\"   # bypass approval (development only)\n\
     \n\
     Config file location: use --config <path> or the default configs/grokrs.example.toml";

pub const VOICE_NETWORK_DENIED: &'static str = "Network access is denied by policy.\n\
     \n\
     The `grokrs voice` command requires network access to reach the xAI Voice Agent API.\n\
     To opt in, set `allow_network = true` in your config file:\n\
     \n\
     [policy]\n\
     allow_network = true\n\
     \n\
     Then set `approval_mode` in [session] to control how network requests\n\
     are approved:\n\
     \n\
     [session]\n\
     approval_mode = \"allow\"   # bypass approval (development only)";

pub const APPROVAL_MODE_DENY: &'static str = "Network access requires approval but approval_mode is 'deny'.\n\
     Set approval_mode = 'allow' in [session] config to bypass.";

pub const CHAT_BROKER_MISSING: &'static str = "Network access requires approval but the approval broker is not yet implemented.\n\
     Set approval_mode = 'allow' in [session] config to bypass approval,\n\
     or wait for the approval broker.";

pub const VOICE_BROKER_MISSING: &'static str = "Network access requires approval but the approval broker is not yet implemented.\n\
     Set approval_mode = 'allow' in [session] config to bypass approval.";

pub const API_NETWORK_DENIED: &'static str = "Network access is denied by policy.\n\
     \n\
     To opt in to approval-gated network access, set `allow_network = true`\n\
     in your config file:\n\
     \n\
     [policy]\n\
     allow_network = true\n\
     \n\
     Note: with `allow_network = true`, network requests require explicit\n\
     approval via the approval broker (not yet implemented). Until the\n\
     approval surface is available, API commands will return an\n\
     ApprovalRequired error.\n\
     \n\
     Config file location: use --config <path> or the default configs/grokrs.example.toml";

pub const MODELS_NETWORK_DENIED: &'static str = "Network access is denied by policy.\n\
     \n\
     The models command requires network access to query the xAI API.\n\
     To enable, set `allow_network = true` in your config file:\n\
     \n\
     [policy]\n\
     allow_network = true\n\
     \n\
     Config file location: use --config <path> or the default configs/grokrs.example.toml";

pub const GENERATE_NETWORK_DENIED: &'static str = "Network access is denied by policy.\n\
     \n\
     The generate command requires network access to communicate with the xAI API.\n\
     To enable, set `allow_network = true` in your config file:\n\
     \n\
     [policy]\n\
     allow_network = true\n\
     \n\
     Config file location: use --config <path> or the default configs/grokrs.example.toml";

pub const MANAGEMENT_NOT_CONFIGURED: &'static str = "Management API is not configured.\n\
     \n\
     Add a [management_api] section to your config file:\n\
     \n\
     [management_api]\n\
     management_key_env = \"XAI_MANAGEMENT_API_KEY\"\n\
     base_url = \"https://management-api.x.ai\"\n\
     timeout_secs = 120\n\
     max_retries = 3\n\
     \n\
     Then set the XAI_MANAGEMENT_API_KEY environment variable to your\n\
     Management API key (this is separate from the inference API key\n\
     set via XAI_API_KEY).\n\
     \n\
     Config file location: use --config <path> or the default configs/grokrs.example.toml";

pub const MANAGEMENT_NETWORK_DENIED: &'static str = "Network access is denied by policy.\n\
     \n\
     To use the Collections Management API, set `allow_network = true`\n\
     in your config file:\n\
     \n\
     [policy]\n\
     allow_network = true\n\
     \n\
     Config file location: use --config <path> or the default configs/grokrs.example.toml";

/// Whether a configuration lets an interactive command reach the API: the
/// network is allowed and the approval mode is `"allow"`.
pub open spec fn network_ready(c: AppConfig) -> bool {
    c.policy.allow_network && c.session.approval_mode@ == "allow"@
}

/// The answer of an interactive command's network check: denied outright,
/// blocked by a `"deny"` approval mode, blocked for want of an approval
/// broker, or allowed.
pub open spec fn spec_network_check(c: AppConfig, denied: Seq<char>, broker: Seq<char>) -> Option<Seq<char>> {
    if !c.policy.allow_network {
        Some(denied)
    } else if c.session.approval_mode@ == "allow"@ {
        None
    } else if c.session.approval_mode@ == "deny"@ {
        Some(APPROVAL_MODE_DENY@)
    } else {
        Some(broker)
    }
}

fn network_check(config: &AppConfig, denied: &'static str, broker: &'static str) -> (r: Result<(), String>)
    ensures
        match spec_network_check(*config, denied@, broker@) {
            None => r is Ok,
            Some(m) => r matches Err(e) && e@ == m,
        },
{
    if !config.policy.allow_network {
        return Err(owned(denied));
    }
    let engine = PolicyEngine::new(config.policy.clone());
    let decision = engine.evaluate(&Effect::NetworkConnect { host: owned("api.x.ai") });
    match decision {
        Decision::Allow { .. } => Ok(()),
        Decision::Ask { .. } => {
            let mode = config.session.approval_mode.as_str();
            if str_eq(mode, "allow") {
                Ok(())
            } else if str_eq(mode, "deny") {
                Err(owned(APPROVAL_MODE_DENY))
            } else {
                Err(owned(broker))
            }
        },
        Decision::Deny { reason } => {
            let mut m = owned("Network access denied by policy: ");
            m.append(reason);
            Err(m)
        },
    }
}

/// The network check of `grokrs chat`.
pub fn chat_check_network_policy(config: &AppConfig) -> (r: Result<(), String>)
    ensures
        match spec_network_check(*config, CHAT_NETWORK_DENIED@, CHAT_BROKER_MISSING@) {
            None => r is Ok,
            Some(m) => r matches Err(e) && e@ == m,
        },
        r is Ok <==> network_ready(*config),
{
    network_check(config, CHAT_NETWORK_DENIED, CHAT_BROKER_MISSING)
}

/// The network check of `grokrs voice`.
pub fn voice_check_network_policy(config: &AppConfig) -> (r: Result<(), String>)
    ensures
        match spec_network_check(*config, VOICE_NETWORK_DENIED@, VOICE_BROKER_MISSING@) {
            None => r is Ok,
            Some(m) => r matches Err(e) && e@ == m,
        },
        r is Ok <==> network_ready(*config),
{
    network_check(config, VOICE_NETWORK_DENIED, VOICE_BROKER_MISSING)
}

/// The network check of `grokrs models`: only the policy switch counts.
pub fn models_check_network_allowed(config: &AppConfig) -> (r: Result<(), String>)
    ensures
        r is Ok <==> config.policy.allow_network,
        r matches Err(e) ==> e@ == MODELS_NETWORK_DENIED@,
{
    if !config.policy.allow_network {
        return Err(owned(MODELS_NETWORK_DENIED));
    }
    Ok(())
}

/// The network check of `grokrs api`: only the policy switch counts.
pub fn api_check_network_allowed(config: &AppConfig) -> (r: Result<(), String>)
    ensures
        r is Ok <==> config.policy.allow_network,
        r matches Err(e) ==> e@ == API_NETWORK_DENIED@,
{
    if !config.policy.allow_network {
        return Err(owned(API_NETWORK_DENIED));
    }
    Ok(())
}

/// The network check of `grokrs generate`: only the policy switch counts.
pub fn generate_check_network_allowed(config: &AppConfig) -> (r: Result<(), String>)
    ensures
        r is Ok <==> config.policy.allow_network,
        r matches Err(e) ==> e@ == GENERATE_NETWORK_DENIED@,
{
    if !config.policy.allow_network {
        return Err(owned(GENERATE_NETWORK_DENIED));
    }
    Ok(())
}

/// The check of `grokrs collections`: a `[management_api]` section must be
/// present, then network access must be allowed.
pub fn check_management_config(config: &AppConfig) -> (r: Result<(), String>)
    ensures
        r is Ok <==> (config.management_api is Some && config.policy.allow_network),
        config.management_api is None ==> (r matches Err(e) && e@ == MANAGEMENT_NOT_CONFIGURED@),
        config.management_api is Some && !config.policy.allow_network ==> (r matches Err(e)
            && e@ == MANAGEMENT_NETWORK_DENIED@),
{
    if config.management_api.is_none() {
        return Err(owned(MANAGEMENT_NOT_CONFIGURED));
    }
    if !config.policy.allow_network {
        return Err(owned(MANAGEMENT_NETWORK_DENIED));
    }
    Ok(())
}

} // verus!
