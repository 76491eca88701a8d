//! The report of `grokrs doctor`: which features the configuration makes
//! ready, what the policy decides for typical effects, the approval mode,
//! and whether the configured models look deprecated.

use vstd::prelude::*;
use crate::config::{AppConfig, PolicyConfig};
use crate::policy::{format_decision_short, spec_evaluate, spec_network_decision, Decision, Effect, PolicyEngine};
use crate::text::{bool_text, contains, dec, opt_view, owned, push_bool, push_u64, spec_contains, str_eq};

verus! {

/// The texts of a list of lines.
pub open spec fn lines_view(v: Seq<String>) -> Seq<Seq<char>> {
    Seq::new(v.len(), |i: int| v[i]@)
}

/// Whether the network decision lets the interactive commands run: allowed,
/// or asked with the approval mode `"allow"`.
pub open spec fn spec_network_ready(d: Decision, mode: Seq<char>) -> bool {
    match d {
        Decision::Allow { .. } => true,
        Decision::Ask { .. } => mode == "allow"@,
        Decision::Deny { .. } => false,
    }
}

/// Whether the network decision lets the interactive commands run.
pub fn network_ready(decision: &Decision, approval_mode: &str) -> (r: bool)
    ensures
        r == spec_network_ready(*decision, approval_mode@),
{
    match decision {
        Decision::Allow { .. } => true,
        Decision::Ask { .. } => str_eq(approval_mode, "allow"),
        Decision::Deny { .. } => false,
    }
}

/// The tool counts line fragment.
pub open spec fn tools_text(u: nat, i: nat, a: nat) -> Seq<char> {
    "(tools: untrusted="@ + dec(u) + ", interactive="@ + dec(i) + ", admin="@ + dec(a) + ")"@
}

pub const CHAT_BLOCKED: &'static str = "chat=blocked: network access denied. Set allow_network=true in [policy] and approval_mode=allow in [session]";
pub const SEARCH_READY: &'static str = "search=ready (web_search, x_search via --search/--x-search flags)";
pub const SEARCH_BLOCKED: &'static str = "search=blocked: requires network access";
pub const GENERATE_READY: &'static str = "generate=ready (image, video via grokrs generate)";
pub const GENERATE_BLOCKED: &'static str = "generate=blocked: requires network access";
pub const MODELS_READY: &'static str = "models=ready (list, info, pricing via grokrs models)";
pub const MODELS_BLOCKED: &'static str = "models=blocked: requires network access";
pub const SESSIONS_READY: &'static str = "sessions=ready (list, show, transcript, clean via grokrs sessions)";
pub const SESSIONS_BLOCKED: &'static str = "sessions=blocked: store path is empty";

/// The core feature lines of the report, given whether the network is
/// ready, the network decision and the number of tools at each trust rank.
pub open spec fn core_feature_lines(c: AppConfig, ready: bool, net: Decision, u: nat, i: nat, a: nat) -> Seq<Seq<char>> {
    seq![
        if ready { "chat=ready"@ } else { CHAT_BLOCKED@ },
        (if ready { "agent=ready "@ } else { "agent=blocked: network access denied "@ }) + tools_text(u, i, a),
        "policy_fs_write="@ + short_name(write_decision_of(c.policy)),
        "policy_process_spawn="@ + short_name(spawn_decision_of(c.policy)),
        "policy_network="@ + short_name(net),
        if ready { SEARCH_READY@ } else { SEARCH_BLOCKED@ },
        if ready { GENERATE_READY@ } else { GENERATE_BLOCKED@ },
        if ready { MODELS_READY@ } else { MODELS_BLOCKED@ },
        if store_path_ok(c) { SESSIONS_READY@ } else { SESSIONS_BLOCKED@ },
    ]
}

/// The decision for a workspace write.
pub open spec fn write_decision_of(p: PolicyConfig) -> Decision {
    if p.allow_workspace_writes {
        Decision::Allow { reason: "workspace writes are allowed by config" }
    } else {
        Decision::Deny { reason: "workspace writes are disabled by config" }
    }
}

/// The decision for spawning a process.
pub open spec fn spawn_decision_of(p: PolicyConfig) -> Decision {
    if p.allow_shell {
        Decision::Ask { reason: "shell spawn requires explicit approval flow" }
    } else {
        Decision::Deny { reason: "shell spawn is denied by default" }
    }
}

/// The short name of a decision.
pub open spec fn short_name(d: Decision) -> Seq<char> {
    match d {
        Decision::Allow { .. } => "allow"@,
        Decision::Ask { .. } => "ask"@,
        Decision::Deny { .. } => "deny"@,
    }
}

/// Sessions need a store path: either the default or a non-empty one.
pub open spec fn store_path_ok(c: AppConfig) -> bool {
    match c.store {
        Some(s) => s.path@.len() > 0,
        None => true,
    }
}

fn tools_fragment(out: &mut String, u: usize, i: usize, a: usize)
    ensures
        final(out)@ == old(out)@ + tools_text(u as nat, i as nat, a as nat),
{
    out.append("(tools: untrusted=");
    push_u64(out, u as u64);
    out.append(", interactive=");
    push_u64(out, i as u64);
    out.append(", admin=");
    push_u64(out, a as u64);
    out.append(")");
    assert(final(out)@ =~= old(out)@ + tools_text(u as nat, i as nat, a as nat));
}

fn labelled(label: &str, value: &str) -> (s: String)
    ensures
        s@ == label@ + value@,
{
    let mut s = owned(label);
    s.append(value);
    s
}

/// The core feature lines of the doctor report.
pub fn doctor_core_features(
    config: &AppConfig,
    network_is_ready: bool,
    network_decision: &Decision,
    tools_untrusted: usize,
    tools_interactive: usize,
    tools_admin: usize,
) -> (lines: Vec<String>)
    ensures
        lines_view(lines@) == core_feature_lines(*config, network_is_ready, *network_decision,
            tools_untrusted as nat, tools_interactive as nat, tools_admin as nat),
{
    let engine = PolicyEngine::new(config.policy);
    let mut lines: Vec<String> = Vec::new();
    lines.push(if network_is_ready { owned("chat=ready") } else { owned(CHAT_BLOCKED) });
    let mut agent = if network_is_ready { owned("agent=ready ") } else { owned("agent=blocked: network access denied ") };
    tools_fragment(&mut agent, tools_untrusted, tools_interactive, tools_admin);
    lines.push(agent);
    let fs = engine.evaluate(&Effect::FsWrite(owned("test.txt")));
    lines.push(labelled("policy_fs_write=", format_decision_short(&fs)));
    let spawn = engine.evaluate(&Effect::ProcessSpawn { program: owned("cargo") });
    lines.push(labelled("policy_process_spawn=", format_decision_short(&spawn)));
    lines.push(labelled("policy_network=", format_decision_short(network_decision)));
    lines.push(if network_is_ready { owned(SEARCH_READY) } else { owned(SEARCH_BLOCKED) });
    lines.push(if network_is_ready { owned(GENERATE_READY) } else { owned(GENERATE_BLOCKED) });
    lines.push(if network_is_ready { owned(MODELS_READY) } else { owned(MODELS_BLOCKED) });
    let store_ok = match &config.store {
        Some(s) => s.path.unicode_len() > 0,
        None => true,
    };
    lines.push(if store_ok { owned(SESSIONS_READY) } else { owned(SESSIONS_BLOCKED) });
    assert(lines_view(lines@) =~= core_feature_lines(*config, network_is_ready, *network_decision,
        tools_untrusted as nat, tools_interactive as nat, tools_admin as nat));
    lines
}

pub const APPROVAL_ALLOW_WARNING: &'static str = "approval_mode=allow  *** SECURITY WARNING ***\n\
     \n\
     approval_mode='allow' bypasses the interactive approval gate: every\n\
     Ask decision (network, shell, filesystem write) is automatically\n\
     approved without human review. This is intended for local development\n\
     only and MUST NOT be used in shared, automated, or production\n\
     environments where tool misuse or prompt-injection could cause harm.\n\
     \n\
     Risks when approval_mode='allow' is active:\n\
     - Network: any model-requested host is contacted without confirmation\n\
     - Shell:   model-requested commands execute without review\n\
     - Writes:  workspace files are modified without review\n\
     \n\
     To harden: set approval_mode='interactive' or approval_mode='deny'\n\
     in the [session] section of your config.";

/// The approval-mode lines of the report: a security warning for
/// `"allow"`, else the mode; then the `[agent]` and `[chat]` settings when
/// present.
pub open spec fn approval_mode_lines(c: AppConfig) -> Seq<Seq<char>> {
    seq![if c.session.approval_mode@ == "allow"@ { APPROVAL_ALLOW_WARNING@ } else { "approval_mode="@ + c.session.approval_mode@ }]
        + match c.agent {
            Some(a) => seq!["agent_config: max_iterations="@ + dec(a.max_iterations as nat) + " default_trust="@
                + a.default_trust@ + " enable_search="@ + bool_text(a.enable_search)],
            None => Seq::empty(),
        }
        + match c.chat {
            Some(ch) => seq!["chat_config: default_model="@ + crate::config::or_text(ch.default_model, "(inherit)"@)
                + " stateful="@ + bool_text(ch.stateful) + " max_conversation_tokens="@
                + dec(ch.max_conversation_tokens as nat)],
            None => Seq::empty(),
        }
}

/// The approval-mode lines of the doctor report.
pub fn doctor_approval_mode(config: &AppConfig) -> (lines: Vec<String>)
    ensures
        lines_view(lines@) == approval_mode_lines(*config),
{
    let mut lines: Vec<String> = Vec::new();
    let mode = config.session.approval_mode.as_str();
    if str_eq(mode, "allow") {
        lines.push(owned(APPROVAL_ALLOW_WARNING));
    } else {
        lines.push(labelled("approval_mode=", mode));
    }
    match &config.agent {
        Some(a) => {
            let mut l = owned("agent_config: max_iterations=");
            push_u64(&mut l, a.max_iterations as u64);
            l.append(" default_trust=");
            l.append(a.default_trust.as_str());
            l.append(" enable_search=");
            push_bool(&mut l, a.enable_search);
            lines.push(l);
        },
        None => {},
    }
    match &config.chat {
        Some(ch) => {
            let mut l = owned("chat_config: default_model=");
            match &ch.default_model {
                Some(m) => l.append(m.as_str()),
                None => l.append("(inherit)"),
            }
            l.append(" stateful=");
            push_bool(&mut l, ch.stateful);
            l.append(" max_conversation_tokens=");
            push_u64(&mut l, ch.max_conversation_tokens);
            lines.push(l);
        },
        None => {},
    }
    assert(lines_view(lines@) =~= approval_mode_lines(*config));
    lines
}

/// Whether a model name contains a pattern of deprecated models.
pub open spec fn looks_deprecated(model: Seq<char>) -> bool {
    spec_contains(model, "grok-1"@) || spec_contains(model, "grok-beta"@) || spec_contains(model, "-preview"@)
        || spec_contains(model, "-legacy"@) || spec_contains(model, "-old"@) || spec_contains(model, "-deprecated"@)
}

/// Whether a model name contains a pattern of deprecated models.
pub fn model_looks_deprecated(model: &str) -> (r: bool)
    ensures
        r == looks_deprecated(model@),
{
    contains(model, "grok-1") || contains(model, "grok-beta") || contains(model, "-preview")
        || contains(model, "-legacy") || contains(model, "-old") || contains(model, "-deprecated")
}

/// The model freshness lines: a warning or an all-clear for the default
/// model, and a warning for a deprecated chat model.
pub open spec fn freshness_lines(c: AppConfig) -> Seq<Seq<char>> {
    let m = c.model.default_model@;
    seq![if looks_deprecated(m) {
        "[warn] model_freshness=WARN default_model="@ + m + " appears deprecated; update [model].default_model"@
    } else {
        "[ok] model_freshness=ok default_model="@ + m
    }] + match c.chat {
        Some(ch) => match ch.default_model {
            Some(cm) => if looks_deprecated(cm@) {
                seq!["[warn] model_freshness=WARN chat.default_model="@ + cm@ + " appears deprecated; update [chat].default_model"@]
            } else {
                Seq::empty()
            },
            None => Seq::empty(),
        },
        None => Seq::empty(),
    }
}

/// The model freshness lines of the doctor report.
pub fn doctor_model_freshness(config: &AppConfig) -> (lines: Vec<String>)
    ensures
        lines_view(lines@) == freshness_lines(*config),
{
    let mut lines: Vec<String> = Vec::new();
    let m = config.model.default_model.as_str();
    if model_looks_deprecated(m) {
        let mut l = owned("[warn] model_freshness=WARN default_model=");
        l.append(m);
        l.append(" appears deprecated; update [model].default_model");
        lines.push(l);
    } else {
        lines.push(labelled("[ok] model_freshness=ok default_model=", m));
    }
    match &config.chat {
        Some(ch) => match &ch.default_model {
            Some(cm) => {
                if model_looks_deprecated(cm.as_str()) {
                    let mut l = owned("[warn] model_freshness=WARN chat.default_model=");
                    l.append(cm.as_str());
                    l.append(" appears deprecated; update [chat].default_model");
                    lines.push(l);
                }
            },
            None => {},
        },
        None => {},
    }
    assert(lines_view(lines@) =~= freshness_lines(*config));
    lines
}

/// The line `grokrs eval` prints for a decision.
pub open spec fn decision_line(d: Decision) -> Seq<char> {
    match d {
        Decision::Allow { reason } => "allow: "@ + reason@,
        Decision::Ask { reason } => "ask: "@ + reason@,
        Decision::Deny { reason } => "deny: "@ + reason@,
    }
}

/// The line `grokrs eval` prints for a decision.
pub fn print_decision(decision: &Decision) -> (s: String)
    ensures
        s@ == decision_line(*decision),
{
    match decision {
        Decision::Allow { reason } => labelled("allow: ", reason),
        Decision::Ask { reason } => labelled("ask: ", reason),
        Decision::Deny { reason } => labelled("deny: ", reason),
    }
}

/// Calls `slice::sort_unstable` on server names. Its documentation promises
/// an ascending sort, and `String` orders by bytes, which for UTF-8 is the
/// order of the characters; what is stated is that the names are the same
/// ones, ascending.
#[verifier::external_body]
fn sort_names(names: &mut Vec<String>)
    ensures
        crate::text::texts(final(names)@).to_multiset() == crate::text::texts(old(names)@).to_multiset(),
        forall|i: int, j: int|
            0 <= i < j < final(names)@.len() ==> !crate::text::text_less(#[trigger] final(names)@[j]@, #[trigger] final(names)@[i]@),
{
    names.sort_unstable();
}

/// The configured server named `name`, if any.
pub open spec fn server_named(servers: Seq<(String, crate::config::McpServerConfig)>, name: Seq<char>) -> Option<crate::config::McpServerConfig>
    decreases servers.len(),
{
    if servers.len() == 0 {
        None
    } else if servers[0].0@ == name {
        Some(servers[0].1)
    } else {
        server_named(servers.drop_first(), name)
    }
}

/// The doctor line of one MCP server.
pub open spec fn mcp_server_line(name: Seq<char>, srv: crate::config::McpServerConfig) -> Seq<char> {
    "     mcp."@ + name + ": url="@ + srv.url@ + " label="@ + match srv.label { Some(l) => l@, None => name }
        + " trust_rank="@ + dec(srv.trust_rank as nat) + " timeout="@ + dec(srv.timeout_secs as nat) + "s"@
}

fn find_server<'a>(servers: &'a Vec<(String, crate::config::McpServerConfig)>, name: &str) -> (r: Option<&'a crate::config::McpServerConfig>)
    ensures
        match r {
            Some(x) => server_named(servers@, name@) == Some(*x),
            None => server_named(servers@, name@) is None,
        },
{
    let n = servers.len();
    let mut i: usize = 0;
    assert(servers@.subrange(0, n as int) =~= servers@);
    while i < n
        invariant
            n == servers@.len(),
            i <= n,
            server_named(servers@, name@) == server_named(servers@.subrange(i as int, n as int), name@),
        decreases n - i,
    {
        let ghost sub = servers@.subrange(i as int, n as int);
        assert(sub.drop_first() =~= servers@.subrange(i + 1, n as int));
        if str_eq(servers[i].0.as_str(), name) {
            return Some(&servers[i].1);
        }
        i = i + 1;
    }
    None
}

/// The MCP lines of the doctor report.
pub open spec fn mcp_doctor_lines(mcp: Option<crate::config::McpConfig>, sorted: Seq<Seq<char>>) -> Seq<Seq<char>> {
    match mcp {
        None => seq!["[--] mcp=not configured (add [mcp] section to enable)"@],
        Some(m) => if m.servers@.len() == 0 {
            seq!["[--] mcp=configured but no servers defined"@]
        } else {
            seq!["[ok] mcp="@ + dec(m.servers@.len()) + " server(s) configured"@]
                + Seq::new(sorted.len(), |i: int| match server_named(m.servers@, sorted[i]) {
                    Some(srv) => mcp_server_line(sorted[i], srv),
                    None => Seq::empty(),
                })
        },
    }
}

/// The MCP lines of the doctor report, with the server names in ascending
/// order (returned beside the lines).
pub fn doctor_mcp(config: &AppConfig) -> (r: (Vec<String>, Vec<String>))
    requires
        config.wf(),
    ensures
        lines_view(r.0@) == mcp_doctor_lines(config.mcp, crate::text::texts(r.1@)),
        config.mcp matches Some(m) ==> crate::text::texts(r.1@).to_multiset()
            == crate::config::server_names(m.servers@).to_multiset(),
        forall|i: int, j: int|
            0 <= i < j < r.1@.len() ==> !crate::text::text_less(#[trigger] r.1@[j]@, #[trigger] r.1@[i]@),
{
    let mut lines: Vec<String> = Vec::new();
    let mut names: Vec<String> = Vec::new();
    match &config.mcp {
        None => {
            lines.push(owned("[--] mcp=not configured (add [mcp] section to enable)"));
        },
        Some(m) => {
            let n = m.servers.len();
            if n == 0 {
                lines.push(owned("[--] mcp=configured but no servers defined"));
                assert(crate::text::texts(names@) =~= crate::config::server_names(m.servers@));
            } else {
                let mut head = owned("[ok] mcp=");
                push_u64(&mut head, n as u64);
                head.append(" server(s) configured");
                lines.push(head);
                let mut i: usize = 0;
                while i < n
                    invariant
                        n == m.servers@.len(),
                        i <= n,
                        crate::text::texts(names@) == crate::config::server_names(m.servers@).take(i as int),
                    decreases n - i,
                {
                    crate::text::push_line(&mut names, owned(m.servers[i].0.as_str()));
                    i = i + 1;
                    assert(crate::text::texts(names@) =~= crate::config::server_names(m.servers@).take(i as int));
                }
                assert(crate::config::server_names(m.servers@).take(n as int) =~= crate::config::server_names(m.servers@));
                let ghost unsorted = crate::text::texts(names@);
                assert(unsorted == crate::config::server_names(m.servers@));
                sort_names(&mut names);
                assert(crate::text::texts(names@).to_multiset() == unsorted.to_multiset());
                let ghost head_lines = lines_view(lines@);
                let k = names.len();
                let mut j: usize = 0;
                while j < k
                    invariant
                        k == names@.len(),
                        j <= k,
                        lines_view(lines@) == head_lines + Seq::new(j as nat, |t: int| match server_named(m.servers@, names@[t]@) {
                            Some(srv) => mcp_server_line(names@[t]@, srv),
                            None => Seq::<char>::empty(),
                        }),
                    decreases k - j,
                {
                    let name = names[j].as_str();
                    let line = match find_server(&m.servers, name) {
                        Some(srv) => {
                            let mut l = owned("     mcp.");
                            l.append(name);
                            l.append(": url=");
                            l.append(srv.url.as_str());
                            l.append(" label=");
                            match &srv.label {
                                Some(lb) => l.append(lb.as_str()),
                                None => l.append(name),
                            }
                            l.append(" trust_rank=");
                            push_u64(&mut l, srv.trust_rank as u64);
                            l.append(" timeout=");
                            push_u64(&mut l, srv.timeout_secs);
                            l.append("s");
                            assert(l@ =~= mcp_server_line(name@, *srv));
                            l
                        },
                        None => String::new(),
                    };
                    let ghost prev = lines@;
                    crate::text::push_line(&mut lines, line);
                    proof {
                        assert(lines_view(prev) =~= crate::text::texts(prev));
                        assert(lines_view(lines@) =~= crate::text::texts(lines@));
                    }
                    j = j + 1;
                    assert(lines_view(lines@) =~= head_lines + Seq::new(j as nat, |t: int| match server_named(m.servers@, names@[t]@) {
                        Some(srv) => mcp_server_line(names@[t]@, srv),
                        None => Seq::<char>::empty(),
                    }));
                }
            }
        },
    }
    assert(lines_view(lines@) =~= mcp_doctor_lines(config.mcp, crate::text::texts(names@)));
    (lines, names)
}

pub const VOICE_AGENT_DISABLED: &'static str = "[--] voice_agent=disabled (audio feature not compiled in; rebuild with --features audio)";
pub const MEMORY_NOT_CREATED: &'static str = "[--] memory=store not created yet (run an agent task to initialise)";

/// The memory line of the doctor report for a store holding `count`
/// memories in a file of `size_kb` KiB at `path`; the limit is the agent's,
/// 50 without an `[agent]` section.
pub open spec fn memory_line(count: i64, config: AppConfig, size_kb: u64, path: Seq<char>) -> Seq<char> {
    "[ok] memory="@ + crate::text::dec_int(count as int) + "/"@
        + crate::text::dec_int(match config.agent { Some(a) => a.memory_limit as int, None => 50 })
        + " entries store_size="@ + dec(size_kb as nat) + "KB ("@ + path + ")"@
}

/// Format the memory line of the doctor report.
pub fn doctor_memory_line(count: i64, config: &AppConfig, size_kb: u64, path: &str) -> (s: String)
    ensures
        s@ == memory_line(count, *config, size_kb, path@),
{
    let mut s = owned("[ok] memory=");
    crate::text::push_i64(&mut s, count);
    s.append("/");
    let limit: i64 = match &config.agent {
        Some(a) => a.memory_limit,
        None => 50,
    };
    crate::text::push_i64(&mut s, limit);
    s.append(" entries store_size=");
    push_u64(&mut s, size_kb);
    s.append("KB (");
    s.append(path);
    s.append(")");
    s
}

} // verus!
