//! The decisions of `grokrs agent`: stable exit codes, how failures map to
//! them, trust levels, approval mode and timeout resolution, the run plan
//! taken from flags and configuration, and the texts the agent prints.

use vstd::prelude::*;
use crate::config::{AppConfig, DEFAULT_TRUST};
use crate::policy::{Decision, PolicyEngine, spec_network_decision};
use crate::search::SearchConfig;
use crate::json::{citations_of_items, sources_block};
use crate::text::{
    boundary_at_or_before, contains, dec, opt_str_view, opt_view, owned, push_u64, spec_contains, str_eq,
    trim, trimmed, truncate_utf8, utf8_prefix,
};
use vstd::utf8::*;
use vstd::string::StringSliceAdditionalSpecFns;

verus! {

/// Process exit codes of the agent command; a stable interface for scripts.
#[derive(Debug, Clone, Copy, PartialEq, Eq)]
pub enum AgentExitCode {
    /// The task completed.
    Success,
    /// An agent-level error, such as exceeding the iteration limit.
    AgentError,
    /// A tool was blocked by policy.
    PolicyDenial,
    /// A transport or API error.
    ApiError,
    /// The run exceeded its timeout.
    Timeout,
}

/// The number of an exit code.
pub open spec fn exit_number(c: AgentExitCode) -> int {
    match c {
        AgentExitCode::Success => 0,
        AgentExitCode::AgentError => 1,
        AgentExitCode::PolicyDenial => 2,
        AgentExitCode::ApiError => 3,
        AgentExitCode::Timeout => 4,
    }
}

impl AgentExitCode {
    /// The number to pass to the operating system.
    pub fn code(self) -> (n: i32)
        ensures
            n == exit_number(self),
    {
        match self {
            AgentExitCode::Success => 0,
            AgentExitCode::AgentError => 1,
            AgentExitCode::PolicyDenial => 2,
            AgentExitCode::ApiError => 3,
            AgentExitCode::Timeout => 4,
        }
    }

    /// The number as it appears in JSON error events.
    pub fn as_u8(self) -> (n: u8)
        ensures
            n == exit_number(self),
    {
        match self {
            AgentExitCode::Success => 0,
            AgentExitCode::AgentError => 1,
            AgentExitCode::PolicyDenial => 2,
            AgentExitCode::ApiError => 3,
            AgentExitCode::Timeout => 4,
        }
    }
}

/// Distinct exit codes have distinct numbers, all in `0..=4`.
pub proof fn lemma_exit_codes_distinct(a: AgentExitCode, b: AgentExitCode)
    ensures
        0 <= exit_number(a) <= 4,
        exit_number(a) == exit_number(b) <==> a == b,
{
}

/// Why the tool-calling loop stopped without an answer.
#[derive(Debug, Clone, PartialEq, Eq)]
pub enum ToolLoopFailure {
    MaxIterationsExceeded { iterations: u32, max: u32 },
    InvalidConfiguration { message: String },
    /// A tool call failed; `error` is the tool error's text.
    ExecutionFailed { name: String, error: String },
    /// The request could not be carried out; `message` is the transport
    /// error's text.
    Transport { message: String },
}

/// The exit code of a loop failure: a failed tool call whose error text
/// mentions a policy denial is a policy denial, transport failures are API
/// errors, and everything else is an agent error.
pub open spec fn spec_loop_exit(f: ToolLoopFailure) -> AgentExitCode {
    match f {
        ToolLoopFailure::MaxIterationsExceeded { .. } => AgentExitCode::AgentError,
        ToolLoopFailure::InvalidConfiguration { .. } => AgentExitCode::AgentError,
        ToolLoopFailure::ExecutionFailed { error, .. } => if spec_contains(error@, "policy denied"@) {
            AgentExitCode::PolicyDenial
        } else {
            AgentExitCode::AgentError
        },
        ToolLoopFailure::Transport { .. } => AgentExitCode::ApiError,
    }
}

/// Map a loop failure to its exit code.
pub fn exit_code_for_tool_loop_error(err: &ToolLoopFailure) -> (c: AgentExitCode)
    ensures
        c == spec_loop_exit(*err),
{
    match err {
        ToolLoopFailure::MaxIterationsExceeded { .. } => AgentExitCode::AgentError,
        ToolLoopFailure::InvalidConfiguration { .. } => AgentExitCode::AgentError,
        ToolLoopFailure::ExecutionFailed { error, .. } => {
            if contains(error.as_str(), "policy denied") {
                AgentExitCode::PolicyDenial
            } else {
                AgentExitCode::AgentError
            }
        },
        ToolLoopFailure::Transport { .. } => AgentExitCode::ApiError,
    }
}

/// The exit code of an error raised before the loop, judged by its full
/// message (all causes included).
pub open spec fn spec_error_exit(msg: Seq<char>) -> AgentExitCode {
    if spec_contains(msg, "Network access is denied"@) || spec_contains(msg, "policy denied"@) {
        AgentExitCode::PolicyDenial
    } else if spec_contains(msg, "failed to construct API client"@) || spec_contains(msg, "transport"@) {
        AgentExitCode::ApiError
    } else {
        AgentExitCode::AgentError
    }
}

/// Errors raised before the loop end with stable exit codes: a policy
/// refusal (network denied, policy denied) is a policy denial (2); otherwise
/// a transport failure or a client that could not be built is an API error
/// (3); anything else is an agent error (1).
pub proof fn lemma_pre_loop_exit_codes(msg: Seq<char>)
    ensures
        (spec_contains(msg, "Network access is denied"@) || spec_contains(msg, "policy denied"@))
            ==> exit_number(spec_error_exit(msg)) == 2,
        !spec_contains(msg, "Network access is denied"@) && !spec_contains(msg, "policy denied"@)
            && spec_contains(msg, "transport"@) ==> exit_number(spec_error_exit(msg)) == 3,
        !spec_contains(msg, "Network access is denied"@) && !spec_contains(msg, "policy denied"@)
            && spec_contains(msg, "failed to construct API client"@) ==> exit_number(spec_error_exit(msg)) == 3,
        !spec_contains(msg, "Network access is denied"@) && !spec_contains(msg, "policy denied"@)
            && !spec_contains(msg, "transport"@) && !spec_contains(msg, "failed to construct API client"@)
            ==> exit_number(spec_error_exit(msg)) == 1,
{
}

/// Map the message of an error raised before the loop to an exit code.
fn exit_code_for_anyhow(msg: &str) -> (c: AgentExitCode)
    ensures
        c == spec_error_exit(msg@),
{
    if contains(msg, "Network access is denied") || contains(msg, "policy denied") {
        AgentExitCode::PolicyDenial
    } else if contains(msg, "failed to construct API client") || contains(msg, "transport") {
        AgentExitCode::ApiError
    } else {
        AgentExitCode::AgentError
    }
}

/// Map the full message of an error that escaped the agent run to an exit
/// code; used by the program's entry point in headless mode.
pub fn exit_code_for_anyhow_public(msg: &str) -> (c: AgentExitCode)
    ensures
        c == spec_error_exit(msg@),
        (spec_contains(msg@, "Network access is denied"@) || spec_contains(msg@, "policy denied"@))
            ==> c == AgentExitCode::PolicyDenial,
        !spec_contains(msg@, "Network access is denied"@) && !spec_contains(msg@, "policy denied"@)
            && (spec_contains(msg@, "transport"@) || spec_contains(msg@, "failed to construct API client"@))
            ==> c == AgentExitCode::ApiError,
        !spec_contains(msg@, "Network access is denied"@) && !spec_contains(msg@, "policy denied"@)
            && !spec_contains(msg@, "transport"@) && !spec_contains(msg@, "failed to construct API client"@)
            ==> c == AgentExitCode::AgentError,
{
    exit_code_for_anyhow(msg)
}

/// The rank of a trust level name.
pub open spec fn spec_trust_rank(trust: Seq<char>) -> Option<u8> {
    if trust == "untrusted"@ {
        Some(0u8)
    } else if trust == "interactive"@ {
        Some(1u8)
    } else if trust == "admin"@ {
        Some(2u8)
    } else {
        None
    }
}

pub const TRUST_VALUES: &'static str = "'\nValid values: untrusted, interactive, admin";

/// The error for an unknown trust level name.
pub open spec fn unknown_trust_message(trust: Seq<char>) -> Seq<char> {
    "unknown trust level: '"@ + trust + TRUST_VALUES@
}

/// The rank of a trust level name, or the error naming the unknown value.
pub fn parse_trust_rank(trust: &str) -> (r: Result<u8, String>)
    ensures
        match spec_trust_rank(trust@) {
            Some(rank) => r == Ok::<u8, String>(rank),
            None => r matches Err(m) && m@ == unknown_trust_message(trust@),
        },
{
    if str_eq(trust, "untrusted") {
        Ok(0)
    } else if str_eq(trust, "interactive") {
        Ok(1)
    } else if str_eq(trust, "admin") {
        Ok(2)
    } else {
        let mut m = owned("unknown trust level: '");
        m.append(trust);
        m.append(TRUST_VALUES);
        Err(m)
    }
}

/// The approval mode of a run: the override if given, `"deny"` in headless
/// mode, else the configured mode.
pub open spec fn spec_approval_mode(over: Option<Seq<char>>, headless: bool, configured: Seq<char>) -> Seq<char> {
    match over {
        Some(m) => m,
        None => if headless { "deny"@ } else { configured },
    }
}

/// Resolve the approval mode of a run.
pub fn resolve_approval_mode(approval_override: Option<&str>, headless: bool, configured: &str) -> (m: String)
    ensures
        m@ == spec_approval_mode(crate::text::opt_str_view(approval_override), headless, configured@),
{
    match approval_override {
        Some(m) => owned(m),
        None => if headless { owned("deny") } else { owned(configured) },
    }
}

/// The timeout of a run: the explicit one, else 300 seconds in headless
/// mode and none interactively.
pub open spec fn spec_timeout(explicit: Option<u64>, headless: bool) -> Option<u64> {
    match explicit {
        Some(t) => Some(t),
        None => if headless { Some(300u64) } else { None },
    }
}

/// Resolve the timeout of a run, in seconds.
pub fn resolve_timeout(explicit: Option<u64>, headless: bool) -> (t: Option<u64>)
    ensures
        t == spec_timeout(explicit, headless),
{
    match explicit {
        Some(t) => Some(t),
        None => if headless { Some(300) } else { None },
    }
}

pub const AGENT_NETWORK_DENIED: &'static str = "Network access is denied by policy.\n\
     \n\
     The agent command requires network access to communicate with the xAI API.\n\
     To enable, set `allow_network = true` in your config file:\n\
     \n\
     [policy]\n\
     allow_network = true\n\
     \n\
     Config file location: use --config <path> or the default configs/grokrs.example.toml";

/// Refuse to start when the configuration denies network access.
pub fn check_network_allowed(config: &AppConfig) -> (r: Result<(), String>)
    ensures
        r is Ok <==> config.policy.allow_network,
        r matches Err(m) ==> m@ == AGENT_NETWORK_DENIED@,
{
    if !config.policy.allow_network {
        return Err(owned(AGENT_NETWORK_DENIED));
    }
    Ok(())
}

/// How results are printed.
#[derive(Debug, Clone, Copy, PartialEq, Eq)]
pub enum OutputFormat {
    /// Human-readable text.
    Text,
    /// Newline-delimited JSON events on standard output.
    Json,
}

/// One event of the JSON event stream of headless mode.
#[derive(Debug, Clone, PartialEq, Eq)]
pub enum HeadlessEvent {
    ToolCall { name: String, arguments: String },
    ToolResult { name: String, output: String },
    Message { content: String },
    Error { message: String, exit_code: u8 },
    Usage { input_tokens: u64, output_tokens: u64, total_tokens: u64 },
}

/// The flags of `grokrs agent`.
#[derive(Debug, Clone)]
pub struct AgentArgs {
    pub task: Option<String>,
    pub trust: Option<String>,
    pub max_iterations: Option<u32>,
    pub model: Option<String>,
    pub system: Option<String>,
    pub dry_run: bool,
    pub search: bool,
    pub x_search: bool,
    pub citations: bool,
    pub headless: bool,
    pub output: OutputFormat,
    pub timeout: Option<u64>,
    pub approval_mode: Option<String>,
    pub mcp_servers: Vec<String>,
    pub cache_key: Option<String>,
}

/// The outcome of an agent run that did not fail outright.
#[derive(Debug, Clone, Copy, PartialEq, Eq)]
pub struct AgentResult {
    pub exit_code: AgentExitCode,
}

/// Everything the agent run decides from its flags and the configuration
/// before it contacts anything.
#[derive(Debug, Clone)]
pub struct AgentPlan {
    pub approval_mode: String,
    pub timeout_secs: Option<u64>,
    pub trust: String,
    pub trust_rank: u8,
    pub model: String,
    pub max_iterations: u32,
    pub search: SearchConfig,
    pub memory_limit: i64,
}

/// Why an agent run cannot start.
#[derive(Debug, Clone, PartialEq, Eq)]
pub enum PlanFailure {
    /// Network access is denied; the run ends with a policy denial.
    NetworkDenied { message: String },
    /// The trust level is not one of the known names.
    UnknownTrust { message: String },
}

/// The trust level name of a run: the flag, else `[agent].default_trust`,
/// else `untrusted`.
pub open spec fn spec_trust_name(args: AgentArgs, config: AppConfig) -> Seq<char> {
    match args.trust {
        Some(t) => t@,
        None => match config.agent {
            Some(a) => a.default_trust@,
            None => DEFAULT_TRUST@,
        },
    }
}

pub const TASK_REQUIRED: &'static str = "task argument is required in interactive mode.\n\
     Usage: grokrs agent '<task description>'\n\
     In headless mode you can pipe via stdin: echo 'task' | grokrs agent --headless";

pub const NO_TASK_PROVIDED: &'static str = "no task provided: pass a task argument or pipe via stdin in headless mode";

/// Whether the task has to be read from standard input: headless mode
/// without a task argument.
pub fn task_needs_stdin(args: &AgentArgs) -> (r: bool)
    ensures
        r == (args.task is None && args.headless),
{
    args.task.is_none() && args.headless
}

/// The task of an agent run: the task argument; in headless mode without
/// one, the trimmed text read from standard input (no text counts as
/// empty), which must not be empty; otherwise an error.
pub open spec fn spec_resolve_task(args: AgentArgs, stdin_text: Option<Seq<char>>) -> Result<Seq<char>, Seq<char>> {
    match args.task {
        Some(t) => Ok(t@),
        None => if args.headless {
            let t = trimmed(match stdin_text { Some(s) => s, None => Seq::empty() });
            if t.len() == 0 { Err(NO_TASK_PROVIDED@) } else { Ok(t) }
        } else {
            Err(TASK_REQUIRED@)
        },
    }
}

/// The task of an agent run, from the task argument or, in headless mode,
/// the text read from standard input.
pub fn resolve_task(args: &AgentArgs, stdin_text: Option<&str>) -> (r: Result<String, String>)
    ensures
        match (r, spec_resolve_task(*args, match stdin_text { Some(s) => Some(s@), None => None })) {
            (Ok(a), Ok(b)) => a@ == b,
            (Err(a), Err(b)) => a@ == b,
            _ => false,
        },
{
    match &args.task {
        Some(t) => Ok(t.clone()),
        None => {
            if args.headless {
                let text: &str = match stdin_text {
                    Some(s) => s,
                    None => "",
                };
                proof {
                    reveal_strlit("");
                }
                let t = trim(text);
                if t.unicode_len() == 0 {
                    Err(owned(NO_TASK_PROVIDED))
                } else {
                    Ok(owned(t))
                }
            } else {
                Err(owned(TASK_REQUIRED))
            }
        },
    }
}

/// Plan an agent run: resolve the approval mode and timeout, require
/// network access, resolve the trust level, model, iteration limit, search
/// tools and memory limit, flags first, then `[agent]`, then defaults.
pub fn plan_agent_run(args: &AgentArgs, config: &AppConfig) -> (r: Result<AgentPlan, PlanFailure>)
    ensures
        !config.policy.allow_network ==> (r matches Err(PlanFailure::NetworkDenied { message })
            && message@ == AGENT_NETWORK_DENIED@),
        config.policy.allow_network && spec_trust_rank(spec_trust_name(*args, *config)) is None
            ==> (r matches Err(PlanFailure::UnknownTrust { message })
            && message@ == unknown_trust_message(spec_trust_name(*args, *config))),
        (r is Ok) <==> (config.policy.allow_network && spec_trust_rank(spec_trust_name(*args, *config)) is Some),
        r matches Ok(p) ==> {
            &&& p.approval_mode@ == spec_approval_mode(opt_view(args.approval_mode), args.headless, config.session.approval_mode@)
            &&& p.timeout_secs == spec_timeout(args.timeout, args.headless)
            &&& p.trust@ == spec_trust_name(*args, *config)
            &&& Some(p.trust_rank) == spec_trust_rank(p.trust@)
            &&& p.model@ == match args.model { Some(m) => m@, None => config.model.default_model@ }
            &&& p.max_iterations == match args.max_iterations {
                Some(n) => n,
                None => match config.agent { Some(a) => a.max_iterations, None => 10u32 },
            }
            &&& p.search.web_search == (args.search || (config.agent matches Some(a) && a.enable_search))
            &&& p.search.x_search == args.x_search
            &&& p.search.citations == args.citations
            &&& p.search.from_date is None && p.search.to_date is None && p.search.max_results is None
            &&& p.memory_limit == match config.agent { Some(a) => a.memory_limit, None => 50i64 }
        },
{
    let over = match &args.approval_mode {
        Some(m) => Some(m.as_str()),
        None => None,
    };
    let approval_mode = resolve_approval_mode(over, args.headless, config.session.approval_mode.as_str());
    let timeout_secs = resolve_timeout(args.timeout, args.headless);
    match check_network_allowed(config) {
        Err(message) => return Err(PlanFailure::NetworkDenied { message }),
        Ok(()) => {},
    }
    let trust = match &args.trust {
        Some(t) => owned(t.as_str()),
        None => match &config.agent {
            Some(a) => owned(a.default_trust.as_str()),
            None => owned(DEFAULT_TRUST),
        },
    };
    let trust_rank = match parse_trust_rank(trust.as_str()) {
        Ok(r) => r,
        Err(message) => return Err(PlanFailure::UnknownTrust { message }),
    };
    let model = match &args.model {
        Some(m) => owned(m.as_str()),
        None => owned(config.model.default_model.as_str()),
    };
    let max_iterations = match args.max_iterations {
        Some(n) => n,
        None => match &config.agent {
            Some(a) => a.max_iterations,
            None => 10,
        },
    };
    let enable_search_from_config = match &config.agent {
        Some(a) => a.enable_search,
        None => false,
    };
    let search = SearchConfig {
        web_search: args.search || enable_search_from_config,
        x_search: args.x_search,
        from_date: None,
        to_date: None,
        max_results: None,
        citations: args.citations,
    };
    let memory_limit = match &config.agent {
        Some(a) => a.memory_limit,
        None => 50,
    };
    Ok(AgentPlan { approval_mode, timeout_secs, trust, trust_rank, model, max_iterations, search, memory_limit })
}

/// The exit code a failed plan ends the run with.
pub fn plan_failure_exit_code(f: &PlanFailure) -> (c: AgentExitCode)
    ensures
        match *f {
            PlanFailure::NetworkDenied { .. } => c == AgentExitCode::PolicyDenial,
            PlanFailure::UnknownTrust { message } => c == spec_error_exit(message@),
        },
{
    match f {
        PlanFailure::NetworkDenied { .. } => AgentExitCode::PolicyDenial,
        PlanFailure::UnknownTrust { message } => exit_code_for_anyhow(message.as_str()),
    }
}

/// A memory saved by an earlier session.
#[derive(Debug, Clone)]
pub struct MemoryEntry {
    pub category: String,
    pub key: String,
    pub value: String,
}

/// The prompt line of a memory.
pub open spec fn memory_line(m: MemoryEntry) -> Seq<char> {
    "\n- ["@ + m.category@ + "] "@ + m.key@ + ": "@ + m.value@
}

/// The prompt lines of the first `k` memories.
pub open spec fn memory_lines(ms: Seq<MemoryEntry>, k: int) -> Seq<char>
    decreases k,
{
    if k <= 0 { Seq::empty() } else { memory_lines(ms, k - 1) + memory_line(ms[k - 1]) }
}

pub const MEMORY_HEADER_TAIL: &'static str = ")\nThe following memories were saved from previous sessions:\n";
pub const MEMORY_FOOTER: &'static str = "\n\nYou can use the `remember`, `recall`, and `forget` tools to manage memories.";

/// The memory part of the system prompt: none without memories.
pub open spec fn memory_section(ms: Seq<MemoryEntry>) -> Option<Seq<char>> {
    if ms.len() == 0 {
        None
    } else {
        Some("\n\n## Cross-Session Memory ("@ + dec(ms.len()) + " memor"@
            + (if ms.len() == 1 { "y"@ } else { "ies"@ }) + MEMORY_HEADER_TAIL@
            + memory_lines(ms, ms.len() as int) + MEMORY_FOOTER@)
    }
}

/// The system prompt: the user's prompt followed by the memory section,
/// whichever of them there is, or none.
pub open spec fn spec_system_prompt(user: Option<Seq<char>>, ms: Seq<MemoryEntry>) -> Option<Seq<char>> {
    match (user, memory_section(ms)) {
        (Some(p), Some(m)) => Some(p + m),
        (Some(p), None) => Some(p),
        (None, Some(m)) => Some(m),
        (None, None) => None,
    }
}

/// How many memories to fetch for the prompt: the memory limit, at most 20.
pub fn memory_fetch_count(memory_limit: i64) -> (n: i64)
    ensures
        n == if memory_limit < 20 { memory_limit } else { 20 },
{
    if memory_limit < 20 { memory_limit } else { 20 }
}

/// Build the system prompt from the user's prompt and the memories
/// fetched for it.
pub fn build_system_prompt(user_system: Option<&str>, memories: &[MemoryEntry]) -> (r: Option<String>)
    ensures
        opt_view(r) == spec_system_prompt(opt_str_view(user_system), memories@),
{
    let n = memories.len();
    let section = if n == 0 {
        None
    } else {
        let mut s = owned("\n\n## Cross-Session Memory (");
        push_u64(&mut s, n as u64);
        s.append(" memor");
        if n == 1 {
            s.append("y");
        } else {
            s.append("ies");
        }
        s.append(MEMORY_HEADER_TAIL);
        let ghost head = s@;
        let mut i: usize = 0;
        while i < n
            invariant
                n == memories@.len(),
                i <= n,
                s@ == head + memory_lines(memories@, i as int),
            decreases n - i,
        {
            let m = &memories[i];
            s.append("\n- [");
            s.append(m.category.as_str());
            s.append("] ");
            s.append(m.key.as_str());
            s.append(": ");
            s.append(m.value.as_str());
            i = i + 1;
            assert(s@ =~= head + memory_lines(memories@, i as int));
        }
        s.append(MEMORY_FOOTER);
        Some(s)
    };
    match (user_system, section) {
        (Some(p), Some(m)) => {
            let mut out = owned(p);
            out.append(m.as_str());
            Some(out)
        },
        (Some(p), None) => Some(owned(p)),
        (None, Some(m)) => Some(m),
        (None, None) => None,
    }
}

/// A content block of a model message.
#[derive(Debug, Clone)]
pub enum ContentBlock {
    Text { text: String },
    InputText { text: String },
    Other,
}

/// An item of a model response: a message with content blocks, a web or
/// X search call with its results, or anything else (tool calls,
/// reasoning).
#[derive(Debug)]
pub enum OutputItem {
    Message { content: Vec<ContentBlock> },
    WebSearchCall { search_results: Option<Vec<crate::json::Json>> },
    XSearchCall { search_results: Option<Vec<crate::json::Json>> },
    Other,
}

/// The texts of a list of content blocks.
pub open spec fn block_texts(bs: Seq<ContentBlock>) -> Seq<Seq<char>>
    decreases bs.len(),
{
    if bs.len() == 0 {
        Seq::empty()
    } else {
        block_texts(bs.drop_last()) + match bs.last() {
            ContentBlock::Text { text } => seq![text@],
            ContentBlock::InputText { text } => seq![text@],
            ContentBlock::Other => Seq::empty(),
        }
    }
}

/// The texts of the messages of a response, in order.
pub open spec fn output_texts(items: Seq<OutputItem>) -> Seq<Seq<char>>
    decreases items.len(),
{
    if items.len() == 0 {
        Seq::empty()
    } else {
        output_texts(items.drop_last()) + match items.last() {
            OutputItem::Message { content } => block_texts(content@),
            _ => Seq::empty(),
        }
    }
}

/// The texts joined, a newline before each text once something has been
/// collected.
pub open spec fn collect_texts(ts: Seq<Seq<char>>) -> Seq<char>
    decreases ts.len(),
{
    if ts.len() == 0 {
        Seq::empty()
    } else {
        let acc = collect_texts(ts.drop_last());
        if acc.len() == 0 { ts.last() } else { acc + "\n"@ + ts.last() }
    }
}

fn push_text(out: &mut String, t: &str, ghost_texts: Ghost<Seq<Seq<char>>>)
    requires
        old(out)@ == collect_texts(ghost_texts@),
    ensures
        final(out)@ == collect_texts(ghost_texts@.push(t@)),
{
    assert(ghost_texts@.push(t@).drop_last() =~= ghost_texts@);
    if out.unicode_len() > 0 {
        out.append("\n");
    }
    out.append(t);
}

/// The answer text of a response: the text blocks of its messages.
pub fn extract_text_output(output: &[OutputItem]) -> (s: String)
    ensures
        s@ == collect_texts(output_texts(output@)),
{
    let mut text = String::new();
    let n = output.len();
    let mut i: usize = 0;
    while i < n
        invariant
            n == output@.len(),
            i <= n,
            text@ == collect_texts(output_texts(output@.take(i as int))),
        decreases n - i,
    {
        assert(output@.take(i + 1).drop_last() =~= output@.take(i as int));
        match &output[i] {
            OutputItem::Message { content } => {
                let ghost before = output_texts(output@.take(i as int));
                let m = content.len();
                let mut j: usize = 0;
                while j < m
                    invariant
                        m == content@.len(),
                        j <= m,
                        text@ == collect_texts(before + block_texts(content@.take(j as int))),
                    decreases m - j,
                {
                    assert(content@.take(j + 1).drop_last() =~= content@.take(j as int));
                    match &content[j] {
                        ContentBlock::Text { text: t } | ContentBlock::InputText { text: t } => {
                            push_text(&mut text, t.as_str(), Ghost(before + block_texts(content@.take(j as int))));
                            assert(before + block_texts(content@.take(j as int)) + seq![t@]
                                =~= (before + block_texts(content@.take(j as int))).push(t@));
                            assert(block_texts(content@.take(j + 1)) == block_texts(content@.take(j as int)) + seq![t@]);
                            assert(before + block_texts(content@.take(j + 1)) =~= (before + block_texts(content@.take(j as int))).push(t@));
                        },
                        ContentBlock::Other => {
                            assert(block_texts(content@.take(j + 1)) =~= block_texts(content@.take(j as int)));
                        },
                    }
                    j = j + 1;
                }
                assert(content@.take(m as int) =~= content@);
            },
            _ => {
                assert(output_texts(output@.take(i + 1)) =~= output_texts(output@.take(i as int)));
            },
        }
        i = i + 1;
    }
    assert(output@.take(n as int) =~= output@);
    text
}

/// The member `key` of the JSON value in `text`, as `serde_json` reads it:
/// `None` when the text is not JSON, is not an object, or has no member of
/// that name; `Some(None)` when the member is not a string; else the string.
pub uninterp spec fn json_member(text: Seq<char>, key: Seq<char>) -> Option<Option<Seq<char>>>;

/// Calls `serde_json::from_str` and then `Value::get` and `Value::as_str`
/// on the result. What counts as JSON and how escapes decode is
/// `serde_json`'s, so the result is only named.
#[verifier::external_body]
pub(crate) fn json_member_text(text: &str, key: &str) -> (r: Option<Option<String>>)
    ensures
        crate::mcp::opt_opt_view(r) == json_member(text@, key@),
{
    serde_json::from_str::<serde_json::Value>(text)
        .ok()
        .and_then(|v| v.get(key).map(|f| f.as_str().map(|t| t.to_owned())))
}

/// The string of a looked-up member, if it is one.
pub open spec fn member_string(m: Option<Option<Seq<char>>>) -> Option<Seq<char>> {
    match m {
        Some(Some(t)) => Some(t),
        _ => None,
    }
}

/// A text shortened for a one-line summary: unchanged up to 80 bytes,
/// else its longest prefix within 77 bytes followed by `...`.
pub open spec fn short_text(t: Seq<char>) -> Seq<char> {
    if encode_utf8(t).len() > 80 { utf8_prefix(t, 77) + "..."@ } else { t }
}

fn shorten(t: &str) -> (r: String)
    ensures
        r@ == short_text(t@),
{
    if t.as_bytes().len() > 80 {
        let mut s = owned(truncate_utf8(t, 77));
        s.append("...");
        s
    } else {
        owned(t)
    }
}

/// The one-line summary of a tool call from the looked-up `path` and
/// `command` members of its arguments: the path, else the (shortened)
/// command, else the shortened arguments.
pub open spec fn summary_from_members(path: Option<Option<Seq<char>>>, command: Option<Option<Seq<char>>>, arguments: Seq<char>) -> Seq<char> {
    match member_string(path) {
        Some(p) => p,
        None => match member_string(command) {
            Some(c) => short_text(c),
            None => short_text(arguments),
        },
    }
}

/// The one-line summary of a tool call: the `path` argument of file tools,
/// else the (shortened) `command` argument, else the shortened arguments.
pub open spec fn spec_summarize_tool_call(arguments: Seq<char>) -> Seq<char> {
    summary_from_members(json_member(arguments, "path"@), json_member(arguments, "command"@), arguments)
}

/// Summarize a tool call from the `path` and `command` members read from
/// its arguments.
pub fn summarize_from_members(path: Option<Option<String>>, command: Option<Option<String>>, arguments: &str) -> (s: String)
    ensures
        s@ == summary_from_members(crate::mcp::opt_opt_view(path), crate::mcp::opt_opt_view(command), arguments@),
{
    match path {
        Some(Some(p)) => p,
        _ => match command {
            Some(Some(c)) => shorten(c.as_str()),
            _ => shorten(arguments),
        },
    }
}

/// Summarize a tool call for the progress log.
pub fn summarize_tool_call(name: &str, arguments: &str) -> (s: String)
    ensures
        s@ == spec_summarize_tool_call(arguments@),
{
    let path = json_member_text(arguments, "path");
    let command = json_member_text(arguments, "command");
    summarize_from_members(path, command, arguments)
}

/// The result a dry run reports for a tool call instead of running it.
pub open spec fn dry_run_text(name: Seq<char>) -> Seq<char> {
    "{\"dry_run\": true, \"tool\": \""@ + name + "\", \"message\": \"dry-run: tool not executed\"}"@
}

/// The result a dry run reports for a tool call.
pub fn dry_run_result(name: &str) -> (s: String)
    ensures
        s@ == dry_run_text(name@),
{
    let mut s = owned("{\"dry_run\": true, \"tool\": \"");
    s.append(name);
    s.append("\", \"message\": \"dry-run: tool not executed\"}");
    s
}

/// The exit code an error event of a failed tool call carries: a policy
/// denial when the error says so, else an agent error.
pub fn tool_error_exit_code(error: &str) -> (c: AgentExitCode)
    ensures
        c == if spec_contains(error@, "policy denied"@) { AgentExitCode::PolicyDenial } else { AgentExitCode::AgentError },
{
    if contains(error, "policy denied") {
        AgentExitCode::PolicyDenial
    } else {
        AgentExitCode::AgentError
    }
}

/// The event of headless mode that reports how a tool call ended: its
/// output, or its error with the exit code of a failed tool call.
pub fn tool_result_event(name: &str, result: &Result<String, String>) -> (e: HeadlessEvent)
    ensures
        match *result {
            Ok(out) => e matches HeadlessEvent::ToolResult { name: n, output: o } && n@ == name@ && o@ == out@,
            Err(err) => e matches HeadlessEvent::Error { message: m, exit_code: c } && m@ == err@
                && c == exit_number(if spec_contains(err@, "policy denied"@) {
                    AgentExitCode::PolicyDenial
                } else {
                    AgentExitCode::AgentError
                }),
        },
{
    match result {
        Ok(out) => HeadlessEvent::ToolResult { name: owned(name), output: out.clone() },
        Err(err) => HeadlessEvent::Error {
            message: err.clone(),
            exit_code: tool_error_exit_code(err.as_str()).as_u8(),
        },
    }
}

/// The refusal of a run with no tools at its trust level.
pub open spec fn no_tools_message(trust: Seq<char>) -> Seq<char> {
    "no tools available at trust level '"@ + trust + "'"@
}

/// A run needs at least one tool at its trust level.
pub fn check_tools_available(trust: &str, tool_count: usize) -> (r: Result<(), String>)
    ensures
        tool_count > 0 ==> r is Ok,
        tool_count == 0 ==> (r matches Err(e) && e@ == no_tools_message(trust@)),
{
    if tool_count == 0 {
        let mut e = owned("no tools available at trust level '");
        e.append(trust);
        e.append("'");
        return Err(e);
    }
    Ok(())
}

/// The token usage a completed run reports.
#[derive(Debug, Clone, Copy, PartialEq, Eq)]
pub struct RunUsage {
    pub input_tokens: u64,
    pub output_tokens: u64,
    pub total_tokens: Option<u64>,
    pub cached_tokens: Option<u64>,
}

/// How the tool loop of a run ended.
#[derive(Debug)]
pub enum AgentOutcome {
    /// The loop finished with a response: its output items and usage.
    Completed { output: Vec<OutputItem>, usage: Option<RunUsage> },
    /// The loop failed; `message` is the failure's text.
    Failed { failure: ToolLoopFailure, message: String },
    /// The run took longer than its timeout of `secs` seconds.
    TimedOut { secs: u64 },
}

/// What ends a run: the text for standard output and standard error, the
/// events of the JSON stream (written only in JSON mode), the session
/// states the store records, and the exit code or the error.
#[derive(Debug)]
pub struct AgentReport {
    pub stdout: String,
    pub stderr: String,
    pub events: Vec<HeadlessEvent>,
    pub transitions: Vec<String>,
    pub result: Result<AgentExitCode, String>,
}

/// The texts of a list of strings.
pub open spec fn string_views(v: Seq<String>) -> Seq<Seq<char>> {
    Seq::new(v.len(), |i: int| v[i]@)
}

/// The text a completed run prints: its message texts.
pub open spec fn run_text(items: Seq<OutputItem>) -> Seq<char> {
    collect_texts(output_texts(items))
}

/// The total tokens of a run's usage.
pub open spec fn run_total(u: RunUsage) -> u64 {
    match u.total_tokens {
        Some(t) => t,
        None => (u.input_tokens + u.output_tokens) as u64,
    }
}

/// The message of a timed-out run.
pub open spec fn timeout_message(secs: u64) -> Seq<char> {
    "agent timed out after "@ + dec(secs as nat) + "s"@
}

/// What ends a run, by how its tool loop ended. A completed run prints its
/// text (in text mode; in JSON mode a message event carries it, and only a
/// non-empty text is reported), its citations (text mode only) and its
/// usage, and closes the session. A failed or timed-out run reports an
/// error event and fails the session; in headless mode it ends with the
/// exit code of the failure, otherwise with an error.
pub fn finish_agent_run(outcome: AgentOutcome, output: OutputFormat, headless: bool) -> (r: AgentReport)
    requires
        outcome matches AgentOutcome::Completed { usage: Some(u), .. } ==> (u.total_tokens is None
            ==> u.input_tokens + u.output_tokens <= u64::MAX),
    ensures
        match outcome {
            AgentOutcome::Completed { output: items, usage } => {
                let text = run_text(items@);
                &&& r.stdout@ == (if output is Text && text.len() > 0 { text + "\n"@ } else { Seq::empty() })
                &&& r.stderr@ == (if output is Text { sources_block(citations_of_items(items@)) } else { Seq::empty() })
                    + match usage {
                        Some(u) => usage_line(u.input_tokens as nat, u.output_tokens as nat, run_total(u) as nat,
                            u.cached_tokens) + "\n"@,
                        None => Seq::empty(),
                    }
                &&& r.events@.len() == (if text.len() > 0 { 1int } else { 0int }) + (if usage is Some { 1int } else { 0int })
                &&& text.len() > 0 ==> (r.events@[0] matches HeadlessEvent::Message { content } && content@ == text)
                &&& usage matches Some(u) ==> (r.events@.last() matches HeadlessEvent::Usage {
                        input_tokens, output_tokens, total_tokens }
                    && input_tokens == u.input_tokens && output_tokens == u.output_tokens && total_tokens == run_total(u))
                &&& string_views(r.transitions@) == seq!["Ready"@, "Closed"@]
                &&& r.result == Ok::<AgentExitCode, String>(AgentExitCode::Success)
            },
            AgentOutcome::Failed { failure, message } => {
                &&& r.stdout@ == Seq::<char>::empty()
                &&& r.stderr@ == (if headless { "[agent] failed: "@ + message@ + "\n"@ } else { Seq::empty() })
                &&& r.events@.len() == 1
                &&& r.events@[0] matches HeadlessEvent::Error { message: m, exit_code: c }
                &&& m@ == message@ && c == exit_number(spec_loop_exit(failure))
                &&& string_views(r.transitions@) == seq!["Failed: "@ + message@]
                &&& headless ==> r.result == Ok::<AgentExitCode, String>(spec_loop_exit(failure))
                &&& !headless ==> (r.result matches Err(e) && e@ == "agent failed: "@ + message@)
            },
            AgentOutcome::TimedOut { secs } => {
                let msg = timeout_message(secs);
                &&& r.stdout@ == Seq::<char>::empty()
                &&& r.stderr@ == "[agent] "@ + msg + "\n"@
                &&& r.events@.len() == 1
                &&& r.events@[0] matches HeadlessEvent::Error { message: m, exit_code: c }
                &&& m@ == msg && c == 4
                &&& string_views(r.transitions@) == seq!["Failed: "@ + msg]
                &&& headless ==> r.result == Ok::<AgentExitCode, String>(AgentExitCode::Timeout)
                &&& !headless ==> (r.result matches Err(e) && e@ == msg)
            },
        },
{
    let text_mode = match output {
        OutputFormat::Text => true,
        OutputFormat::Json => false,
    };
    match outcome {
        AgentOutcome::Completed { output: items, usage } => {
            let text = extract_text_output(items.as_slice());
            let mut stdout = String::new();
            let mut events: Vec<HeadlessEvent> = Vec::new();
            if text.unicode_len() > 0 {
                if text_mode {
                    stdout.append(text.as_str());
                    stdout.append("\n");
                }
                events.push(HeadlessEvent::Message { content: text });
            }
            let mut stderr = String::new();
            if text_mode {
                let citations = crate::json::extract_citations_from_output(items.as_slice());
                let block = crate::search::format_citations(citations.as_slice());
                proof {
                    crate::json::lemma_format_by_views(citations@);
                }
                stderr.append(block.as_str());
            }
            match usage {
                Some(u) => {
                    let total = usage_total(u.input_tokens, u.output_tokens, u.total_tokens);
                    events.push(HeadlessEvent::Usage {
                        input_tokens: u.input_tokens,
                        output_tokens: u.output_tokens,
                        total_tokens: total,
                    });
                    let line = format_usage_line(u.input_tokens, u.output_tokens, total, u.cached_tokens);
                    stderr.append(line.as_str());
                    stderr.append("\n");
                },
                None => {},
            }
            let mut transitions: Vec<String> = Vec::new();
            transitions.push(owned("Ready"));
            transitions.push(owned("Closed"));
            assert(string_views(transitions@) =~= seq!["Ready"@, "Closed"@]);
            AgentReport { stdout, stderr, events, transitions, result: Ok(AgentExitCode::Success) }
        },
        AgentOutcome::Failed { failure, message } => {
            let code = exit_code_for_tool_loop_error(&failure);
            let mut stderr = String::new();
            if headless {
                stderr.append("[agent] failed: ");
                stderr.append(message.as_str());
                stderr.append("\n");
            }
            let mut state = owned("Failed: ");
            state.append(message.as_str());
            let mut transitions: Vec<String> = Vec::new();
            transitions.push(state);
            assert(string_views(transitions@) =~= seq!["Failed: "@ + message@]);
            let result = if headless {
                Ok(code)
            } else {
                let mut e = owned("agent failed: ");
                e.append(message.as_str());
                Err(e)
            };
            let mut events: Vec<HeadlessEvent> = Vec::new();
            events.push(HeadlessEvent::Error { message, exit_code: code.as_u8() });
            AgentReport { stdout: String::new(), stderr, events, transitions, result }
        },
        AgentOutcome::TimedOut { secs } => {
            let mut msg = owned("agent timed out after ");
            push_u64(&mut msg, secs);
            msg.append("s");
            let mut stderr = owned("[agent] ");
            stderr.append(msg.as_str());
            stderr.append("\n");
            let mut state = owned("Failed: ");
            state.append(msg.as_str());
            let mut transitions: Vec<String> = Vec::new();
            transitions.push(state);
            assert(string_views(transitions@) =~= seq!["Failed: "@ + timeout_message(secs)]);
            let result = if headless { Ok(AgentExitCode::Timeout) } else { Err(msg.clone()) };
            let mut events: Vec<HeadlessEvent> = Vec::new();
            events.push(HeadlessEvent::Error { message: msg, exit_code: AgentExitCode::Timeout.as_u8() });
            AgentReport { stdout: String::new(), stderr, events, transitions, result }
        },
    }
}

/// The usage line printed after a run; the total is the reported one, else
/// the sum, and the cache note appears only for a positive cached count.
pub open spec fn usage_line(input: nat, output: nat, total: nat, cached: Option<u64>) -> Seq<char> {
    match cached {
        Some(c) if c > 0 => "[usage] input="@ + dec(input) + " ("@ + dec(c as nat) + " cached) output="@
            + dec(output) + " total="@ + dec(total),
        _ => "[usage] input="@ + dec(input) + " output="@ + dec(output) + " total="@ + dec(total),
    }
}

/// The total tokens of a run: the reported total, else input plus output.
pub fn usage_total(input: u64, output: u64, reported: Option<u64>) -> (t: u64)
    requires
        reported is None ==> input + output <= u64::MAX,
    ensures
        t == match reported { Some(r) => r as int, None => input + output },
{
    match reported {
        Some(r) => r,
        None => input + output,
    }
}

/// The usage line of a run.
pub fn format_usage_line(input: u64, output: u64, total: u64, cached: Option<u64>) -> (s: String)
    ensures
        s@ == usage_line(input as nat, output as nat, total as nat, cached),
{
    let mut s = owned("[usage] input=");
    push_u64(&mut s, input);
    match cached {
        Some(c) if c > 0 => {
            s.append(" (");
            push_u64(&mut s, c);
            s.append(" cached) output=");
        },
        _ => {
            s.append(" output=");
        },
    }
    push_u64(&mut s, output);
    s.append(" total=");
    push_u64(&mut s, total);
    assert(s@ =~= usage_line(input as nat, output as nat, total as nat, cached));
    s
}

} // verus!
