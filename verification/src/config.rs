//! The application configuration model: the sections of the TOML file, their
//! defaults, profile-name rules and the one-line summary printed by
//! `show-config`.

use vstd::prelude::*;
use vstd::utf8::*;
use vstd::string::StringSliceAdditionalSpecFns;
use crate::text::{
    ascii_alnum, bool_text, dec, dec_int, is_ascii_alnum, join, lemma_join_step, owned, push_bool,
    push_i64, push_u64,
    spec_starts_with, starts_with, opt_view, opt_str_view, str_eq, truncate_utf8, utf8_prefix,
};

verus! {

/// The `[workspace]` section.
#[derive(Debug, Clone)]
pub struct WorkspaceConfig {
    pub name: String,
    pub root: String,
}

/// The `[model]` section.
#[derive(Debug, Clone)]
pub struct ModelConfig {
    pub provider: String,
    pub default_model: String,
}

/// The `[policy]` section.
#[derive(Debug, Clone, Copy)]
pub struct PolicyConfig {
    pub allow_network: bool,
    pub allow_shell: bool,
    pub allow_workspace_writes: bool,
    pub max_patch_bytes: u64,
}

/// The `[session]` section.
#[derive(Debug, Clone)]
pub struct SessionConfig {
    pub approval_mode: String,
    pub transcript_dir: String,
}

/// The optional `[api]` section. Secrets are never stored: `api_key_env`
/// names the environment variable that holds the key.
#[derive(Debug, Clone)]
pub struct ApiConfig {
    pub api_key_env: Option<String>,
    pub base_url: Option<String>,
    pub timeout_secs: Option<u64>,
    pub max_retries: Option<u32>,
}

/// The optional `[management_api]` section.
#[derive(Debug, Clone)]
pub struct ManagementApiConfig {
    pub management_key_env: Option<String>,
    pub base_url: Option<String>,
    pub timeout_secs: Option<u64>,
    pub max_retries: Option<u32>,
}

/// The optional `[store]` section.
#[derive(Debug, Clone)]
pub struct StoreConfig {
    pub path: String,
}

/// The optional `[agent]` section.
#[derive(Debug, Clone)]
pub struct AgentConfig {
    pub max_iterations: u32,
    pub default_trust: String,
    pub enable_search: bool,
    pub memory_limit: i64,
}

/// The optional `[chat]` section.
#[derive(Debug, Clone)]
pub struct ChatConfig {
    pub default_model: Option<String>,
    pub system_prompt: Option<String>,
    pub stateful: bool,
    pub history_file: String,
    pub max_conversation_tokens: u64,
}

/// One `[mcp.servers.<name>]` entry.
#[derive(Debug, Clone)]
pub struct McpServerConfig {
    pub url: String,
    pub label: Option<String>,
    pub allowed_tools: Option<Vec<String>>,
    pub trust_rank: u8,
    pub timeout_secs: u64,
}

/// The optional `[mcp]` section: named server definitions, in the order the
/// loader produced them. Well-formed when no two share a name (`wf`), as
/// the keys of the TOML table they come from.
#[derive(Debug, Clone)]
pub struct McpConfig {
    pub servers: Vec<(String, McpServerConfig)>,
}

/// The whole configuration file.
#[derive(Debug, Clone)]
pub struct AppConfig {
    pub workspace: WorkspaceConfig,
    pub model: ModelConfig,
    pub policy: PolicyConfig,
    pub session: SessionConfig,
    pub api: Option<ApiConfig>,
    pub management_api: Option<ManagementApiConfig>,
    pub store: Option<StoreConfig>,
    pub agent: Option<AgentConfig>,
    pub chat: Option<ChatConfig>,
    pub mcp: Option<McpConfig>,
}

pub const DEFAULT_STORE_PATH: &'static str = ".grokrs/state.db";
pub const DEFAULT_TRUST: &'static str = "untrusted";
pub const DEFAULT_HISTORY_FILE: &'static str = ".grokrs/chat_history";

impl StoreConfig {
    /// The store path used when `[store]` has no `path`.
    pub fn default_path() -> (s: String)
        ensures
            s@ == DEFAULT_STORE_PATH@,
    {
        owned(DEFAULT_STORE_PATH)
    }

    /// The default store section.
    pub fn default() -> (c: StoreConfig)
        ensures
            c.path@ == DEFAULT_STORE_PATH@,
    {
        StoreConfig { path: Self::default_path() }
    }
}

impl AgentConfig {
    /// Iteration cap when `[agent]` leaves it out.
    pub fn default_max_iterations() -> (n: u32)
        ensures
            n == 10,
    {
        10
    }

    /// Trust level when `[agent]` leaves it out.
    pub fn default_trust() -> (s: String)
        ensures
            s@ == DEFAULT_TRUST@,
    {
        owned(DEFAULT_TRUST)
    }

    /// Memory cap when `[agent]` leaves it out.
    pub fn default_memory_limit() -> (n: i64)
        ensures
            n == 50,
    {
        50
    }

    /// The defaults of a bare `[agent]` section.
    pub fn default() -> (c: AgentConfig)
        ensures
            c.max_iterations == 10,
            c.default_trust@ == DEFAULT_TRUST@,
            !c.enable_search,
            c.memory_limit == 50,
    {
        AgentConfig {
            max_iterations: Self::default_max_iterations(),
            default_trust: Self::default_trust(),
            enable_search: false,
            memory_limit: Self::default_memory_limit(),
        }
    }
}

impl ChatConfig {
    /// History file when `[chat]` leaves it out.
    pub fn default_history_file() -> (s: String)
        ensures
            s@ == DEFAULT_HISTORY_FILE@,
    {
        owned(DEFAULT_HISTORY_FILE)
    }

    /// Token warning threshold when `[chat]` leaves it out.
    pub fn default_max_conversation_tokens() -> (n: u64)
        ensures
            n == 100_000,
    {
        100_000
    }

    /// The defaults of a bare `[chat]` section.
    pub fn default() -> (c: ChatConfig)
        ensures
            c.default_model is None,
            c.system_prompt is None,
            !c.stateful,
            c.history_file@ == DEFAULT_HISTORY_FILE@,
            c.max_conversation_tokens == 100_000,
    {
        ChatConfig {
            default_model: None,
            system_prompt: None,
            stateful: false,
            history_file: Self::default_history_file(),
            max_conversation_tokens: Self::default_max_conversation_tokens(),
        }
    }
}

impl McpServerConfig {
    /// Trust rank of a server's tools when the entry leaves it out.
    pub fn default_trust_rank() -> (n: u8)
        ensures
            n == 1,
    {
        1
    }

    /// Request timeout when the entry leaves it out.
    pub fn default_timeout_secs() -> (n: u64)
        ensures
            n == 30,
    {
        30
    }
}

/// The store path of a configuration: `[store].path`, else the default.
pub open spec fn spec_store_path(config: AppConfig) -> Seq<char> {
    match config.store {
        Some(s) => s.path@,
        None => DEFAULT_STORE_PATH@,
    }
}

/// The store path of a configuration, relative to the workspace root.
pub fn store_path(config: &AppConfig) -> (s: String)
    ensures
        s@ == spec_store_path(*config),
{
    match &config.store {
        Some(s) => owned(s.path.as_str()),
        None => owned(DEFAULT_STORE_PATH),
    }
}

/// Why a configuration could not be produced.
#[derive(Debug, Clone, PartialEq, Eq)]
pub enum ConfigError {
    /// The file could not be read; `reason` is the I/O error's text.
    Read { path: String, reason: String },
    /// The file is not valid TOML for the configuration; `reason` is the
    /// parser's text.
    Parse { path: String, reason: String },
    InvalidProfileName { name: String },
    ProfileNotFound { path: String },
    MergeError { reason: String },
}

pub const INVALID_PROFILE_TAIL: &'static str = "': profile names must be non-empty and contain only alphanumeric characters, hyphens, and underscores";

/// The message of a configuration error.
pub open spec fn config_error_text(e: ConfigError) -> Seq<char> {
    match e {
        ConfigError::Read { path, reason } => "failed to read config "@ + path@ + ": "@ + reason@,
        ConfigError::Parse { path, reason } => "failed to parse config "@ + path@ + ": "@ + reason@,
        ConfigError::InvalidProfileName { name } => "invalid profile name '"@ + name@ + INVALID_PROFILE_TAIL@,
        ConfigError::ProfileNotFound { path } => "profile config not found: "@ + path@,
        ConfigError::MergeError { reason } => "failed to merge profile config: "@ + reason@,
    }
}

impl ConfigError {
    /// The message of the error.
    pub fn to_string(&self) -> (s: String)
        ensures
            s@ == config_error_text(*self),
    {
        match self {
            ConfigError::Read { path, reason } => {
                let mut s = owned("failed to read config ");
                s.append(path.as_str());
                s.append(": ");
                s.append(reason.as_str());
                s
            },
            ConfigError::Parse { path, reason } => {
                let mut s = owned("failed to parse config ");
                s.append(path.as_str());
                s.append(": ");
                s.append(reason.as_str());
                s
            },
            ConfigError::InvalidProfileName { name } => {
                let mut s = owned("invalid profile name '");
                s.append(name.as_str());
                s.append(INVALID_PROFILE_TAIL);
                s
            },
            ConfigError::ProfileNotFound { path } => {
                let mut s = owned("profile config not found: ");
                s.append(path.as_str());
                s
            },
            ConfigError::MergeError { reason } => {
                let mut s = owned("failed to merge profile config: ");
                s.append(reason.as_str());
                s
            },
        }
    }
}

/// A profile name is non-empty and made of ASCII letters, digits, `-` and `_`.
pub open spec fn valid_profile_name(name: Seq<char>) -> bool {
    &&& name.len() > 0
    &&& forall|i: int| 0 <= i < name.len() ==> is_ascii_alnum(#[trigger] name[i]) || name[i] == '-'
        || name[i] == '_'
}

/// Accept a valid profile name; reject any other with `InvalidProfileName`.
pub fn validate_profile_name(name: &str) -> (r: Result<(), ConfigError>)
    ensures
        r is Ok <==> valid_profile_name(name@),
        r matches Err(e) ==> e matches ConfigError::InvalidProfileName { name: n } && n@ == name@,
{
    let n = name.unicode_len();
    let mut ok = n > 0;
    let mut i: usize = 0;
    while i < n
        invariant
            n == name@.len(),
            i <= n,
            ok == (n > 0 && forall|j: int| 0 <= j < i ==> is_ascii_alnum(#[trigger] name@[j])
                || name@[j] == '-' || name@[j] == '_'),
        decreases n - i,
    {
        let c = name.get_char(i);
        if !(ascii_alnum(c) || c == '-' || c == '_') {
            ok = false;
        }
        i = i + 1;
    }
    if ok {
        Ok(())
    } else {
        Err(ConfigError::InvalidProfileName { name: owned(name) })
    }
}

/// The active profile: the `--profile` flag if given, else the value of the
/// profile environment variable if set and non-empty, else none.
pub open spec fn spec_resolve_profile(flag: Option<Seq<char>>, env: Option<Seq<char>>) -> Option<Seq<char>> {
    match flag {
        Some(f) => Some(f),
        None => match env {
            Some(e) => if e.len() > 0 { Some(e) } else { None },
            None => None,
        },
    }
}

/// Choose the active profile from the flag and the environment value.
pub fn resolve_profile_from(flag: Option<&str>, env_value: Option<&str>) -> (r: Option<String>)
    ensures
        opt_view(r) == spec_resolve_profile(opt_str_view(flag), opt_str_view(env_value)),
{
    match flag {
        Some(f) => Some(owned(f)),
        None => match env_value {
            Some(e) => if e.unicode_len() > 0 { Some(owned(e)) } else { None },
            None => None,
        },
    }
}

/// Whether a model name belongs to the family named by `prefix`: it is the
/// prefix itself or the prefix followed by `-` and a variant.
pub open spec fn in_family(name: Seq<char>, prefix: Seq<char>) -> bool {
    name == prefix || spec_starts_with(name, prefix + "-"@)
}

/// The deprecated family a model name belongs to, checking `grok-2` first.
pub open spec fn spec_deprecated_family(name: Seq<char>) -> Option<Seq<char>> {
    if in_family(name, "grok-2"@) {
        Some("grok-2"@)
    } else if in_family(name, "grok-3"@) {
        Some("grok-3"@)
    } else {
        None
    }
}

fn family_match(name: &str, prefix: &str, prefix_dash: &str) -> (r: bool)
    requires
        prefix_dash@ == prefix@ + "-"@,
    ensures
        r == in_family(name@, prefix@),
{
    str_eq(name, prefix) || starts_with(name, prefix_dash)
}

/// The deprecated family of a model name, if any.
pub fn deprecated_family(model_name: &str) -> (r: Option<&'static str>)
    ensures
        opt_str_view(r) == spec_deprecated_family(model_name@),
{
    proof {
        reveal_strlit("grok-2");
        reveal_strlit("grok-2-");
        reveal_strlit("grok-3");
        reveal_strlit("grok-3-");
        reveal_strlit("-");
        assert("grok-2-"@ =~= "grok-2"@ + "-"@);
        assert("grok-3-"@ =~= "grok-3"@ + "-"@);
    }
    if family_match(model_name, "grok-2", "grok-2-") {
        Some("grok-2")
    } else if family_match(model_name, "grok-3", "grok-3-") {
        Some("grok-3")
    } else {
        None
    }
}

pub const DEPRECATION_TAIL: &'static str = " family has been superseded by grok-4. Continuing\n\
    with the configured model, but you should update your config:\n\
    \n\
    [model]\n\
    default_model = \"grok-4\"\n\
    \n\
    Run `grokrs models list` to see all currently available models.\n";

/// The startup warning for a model of a deprecated family.
pub open spec fn deprecation_warning(model: Seq<char>, family: Seq<char>) -> Seq<char> {
    "WARNING: config references deprecated model '"@ + model + "'.\n\nThe "@ + family + DEPRECATION_TAIL@
}

/// The deprecation warning to print for the configured model, if it belongs
/// to a deprecated family; at most one warning per model.
pub fn check_deprecated_model(model_name: &str) -> (r: Option<String>)
    ensures
        match spec_deprecated_family(model_name@) {
            Some(f) => r matches Some(w) && w@ == deprecation_warning(model_name@, f),
            None => r is None,
        },
{
    match deprecated_family(model_name) {
        Some(family) => {
            let mut w = owned("WARNING: config references deprecated model '");
            w.append(model_name);
            w.append("'.\n\nThe ");
            w.append(family);
            w.append(DEPRECATION_TAIL);
            Some(w)
        },
        None => None,
    }
}

/// The parent directory of a path as `std::path::Path::parent` computes it.
pub uninterp spec fn path_parent(path: Seq<char>) -> Option<Seq<char>>;

/// The path `base` joined with `child` as `std::path::Path::join` computes it.
pub uninterp spec fn path_join(base: Seq<char>, child: Seq<char>) -> Seq<char>;

/// Calls `std::path::Path::parent`; the parent of a UTF-8 path is a prefix of
/// it, so its text is exact. Nothing more is stated of which prefix.
#[verifier::external_body]
fn parent_of(path: &str) -> (r: Option<String>)
    ensures
        opt_view(r) == path_parent(path@),
{
    std::path::Path::new(path).parent().map(|p| p.to_string_lossy().into_owned())
}

/// Calls `std::path::Path::join`; both operands are UTF-8, so the text of
/// the result is exact. Nothing more is stated of the result.
#[verifier::external_body]
pub(crate) fn join_path(base: &str, child: &str) -> (r: String)
    ensures
        r@ == path_join(base@, child@),
{
    std::path::Path::new(base).join(child).to_string_lossy().into_owned()
}

/// The file name of a profile overlay.
pub open spec fn profile_file_name(profile: Seq<char>) -> Seq<char> {
    "grokrs."@ + profile + ".toml"@
}

/// The path of a profile overlay: `grokrs.<profile>.toml` in the directory
/// of the base configuration file (the current directory when it has none).
pub open spec fn spec_profile_path(base: Seq<char>, profile: Seq<char>) -> Seq<char> {
    let dir = match path_parent(base) {
        Some(d) => d,
        None => "."@,
    };
    path_join(dir, profile_file_name(profile))
}

impl AppConfig {
    /// The path of the overlay file for `profile_name` next to `base_path`.
    pub fn profile_path(base_path: &str, profile_name: &str) -> (p: String)
        ensures
            p@ == spec_profile_path(base_path@, profile_name@),
    {
        let dir = match parent_of(base_path) {
            Some(d) => d,
            None => owned("."),
        };
        let mut file = owned("grokrs.");
        file.append(profile_name);
        file.append(".toml");
        join_path(dir.as_str(), file.as_str())
    }

    /// The overlay file to lay over the base configuration, if a profile is
    /// asked for: none without a profile; an invalid name is refused before
    /// any path is formed.
    pub fn profile_overlay_path(base_path: &str, profile: Option<&str>) -> (r: Result<Option<String>, ConfigError>)
        ensures
            match profile {
                None => r matches Ok(None),
                Some(name) => if valid_profile_name(name@) {
                    r matches Ok(Some(p)) && p@ == spec_profile_path(base_path@, name@)
                } else {
                    r matches Err(ConfigError::InvalidProfileName { name: n }) && n@ == name@
                },
            },
    {
        match profile {
            None => Ok(None),
            Some(name) => match validate_profile_name(name) {
                Ok(()) => Ok(Some(AppConfig::profile_path(base_path, name))),
                Err(e) => Err(e),
            },
        }
    }
}

/// The text of an optional string, or `default` when absent.
pub open spec fn or_text(o: Option<String>, default: Seq<char>) -> Seq<char> {
    match o {
        Some(s) => s@,
        None => default,
    }
}

/// The model part of the summary.
pub open spec fn identity_summary(c: AppConfig) -> Seq<char> {
    "workspace="@ + c.workspace.name@ + " model="@ + c.model.default_model@ + " provider="@
        + c.model.provider@
}

/// The policy switches part of the summary.
pub open spec fn switches_summary(p: PolicyConfig) -> Seq<char> {
    " allow_network="@ + bool_text(p.allow_network) + " allow_shell="@ + bool_text(p.allow_shell)
        + " allow_workspace_writes="@ + bool_text(p.allow_workspace_writes)
}

/// The session and patch-limit part of the summary.
pub open spec fn session_summary(c: AppConfig) -> Seq<char> {
    " approval_mode="@ + c.session.approval_mode@ + " transcript_dir="@ + c.session.transcript_dir@
        + " max_patch_bytes="@ + dec(c.policy.max_patch_bytes as nat)
}

/// The part of the summary every configuration has.
pub open spec fn core_summary(c: AppConfig) -> Seq<char> {
    identity_summary(c) + switches_summary(c.policy) + session_summary(c)
}

/// The `[api]` part of the summary, with the documented defaults.
pub open spec fn api_summary(a: Option<ApiConfig>) -> Seq<char> {
    match a {
        None => Seq::empty(),
        Some(api) => " api_key_env="@ + or_text(api.api_key_env, "XAI_API_KEY"@) + " base_url="@
            + or_text(api.base_url, "https://api.x.ai"@) + " timeout_secs="@
            + dec(api.timeout_secs.unwrap_or(120) as nat) + " max_retries="@
            + dec(api.max_retries.unwrap_or(3) as nat),
    }
}

/// The `[management_api]` part of the summary, with the documented defaults.
pub open spec fn management_summary(m: Option<ManagementApiConfig>) -> Seq<char> {
    match m {
        None => Seq::empty(),
        Some(mgmt) => " management_key_env="@ + or_text(mgmt.management_key_env, "XAI_MANAGEMENT_API_KEY"@)
            + " management_base_url="@ + or_text(mgmt.base_url, "https://management-api.x.ai"@)
            + " management_timeout_secs="@ + dec(mgmt.timeout_secs.unwrap_or(120) as nat)
            + " management_max_retries="@ + dec(mgmt.max_retries.unwrap_or(3) as nat),
    }
}

/// The `[store]` part of the summary.
pub open spec fn store_summary(s: Option<StoreConfig>) -> Seq<char> {
    match s {
        None => Seq::empty(),
        Some(store) => " store_path="@ + store.path@,
    }
}

/// The `[agent]` part of the summary.
pub open spec fn agent_summary(a: Option<AgentConfig>) -> Seq<char> {
    match a {
        None => Seq::empty(),
        Some(agent) => " agent_max_iterations="@ + dec(agent.max_iterations as nat)
            + " agent_default_trust="@ + agent.default_trust@ + " agent_enable_search="@
            + bool_text(agent.enable_search),
    }
}

/// The `[chat]` part of the summary; a system prompt shows as its first 50
/// bytes (never splitting a character) followed by `...`.
pub open spec fn chat_summary(c: Option<ChatConfig>) -> Seq<char> {
    match c {
        None => Seq::empty(),
        Some(chat) => " chat_default_model="@ + or_text(chat.default_model, "(inherit)"@)
            + " chat_stateful="@ + bool_text(chat.stateful) + " chat_history_file="@
            + chat.history_file@ + " chat_max_conversation_tokens="@
            + dec(chat.max_conversation_tokens as nat) + match chat.system_prompt {
                Some(sys) => " chat_system_prompt="@ + utf8_prefix(sys@, 50) + "..."@,
                None => Seq::empty(),
            },
    }
}

/// The names of the configured MCP servers, in order.
pub open spec fn server_names(servers: Seq<(String, McpServerConfig)>) -> Seq<Seq<char>> {
    Seq::new(servers.len(), |i: int| servers[i].0@)
}

/// No two servers share a name.
pub open spec fn names_distinct(servers: Seq<(String, McpServerConfig)>) -> bool {
    forall|i: int, j: int| 0 <= i < j < servers.len() ==> #[trigger] servers[i].0@ != #[trigger] servers[j].0@
}

impl McpConfig {
    /// The section is well-formed: server names are distinct.
    pub open spec fn wf(&self) -> bool {
        names_distinct(self.servers@)
    }

    /// Whether the server names are distinct.
    pub fn has_distinct_names(&self) -> (r: bool)
        ensures
            r == self.wf(),
    {
        let n = self.servers.len();
        let mut i: usize = 0;
        while i < n
            invariant
                n == self.servers@.len(),
                i <= n,
                forall|a: int, b: int| 0 <= a < i && a < b < n ==> #[trigger] self.servers@[a].0@ != #[trigger] self.servers@[b].0@,
            decreases n - i,
        {
            let mut j: usize = i + 1;
            while j < n
                invariant
                    n == self.servers@.len(),
                    i < n,
                    i < j <= n,
                    forall|b: int| i < b < j ==> self.servers@[i as int].0@ != #[trigger] self.servers@[b].0@,
                decreases n - j,
            {
                if str_eq(self.servers[i].0.as_str(), self.servers[j].0.as_str()) {
                    return false;
                }
                j = j + 1;
            }
            i = i + 1;
        }
        true
    }
}

impl AppConfig {
    /// The configuration is well-formed: its `[mcp]` section, if any, is.
    pub open spec fn wf(&self) -> bool {
        self.mcp matches Some(m) ==> m.wf()
    }

    /// Whether the configuration is well-formed.
    pub fn is_well_formed(&self) -> (r: bool)
        ensures
            r == self.wf(),
    {
        match &self.mcp {
            Some(m) => m.has_distinct_names(),
            None => true,
        }
    }
}

/// The `[mcp]` part of the summary.
pub open spec fn mcp_summary(m: Option<McpConfig>) -> Seq<char> {
    match m {
        None => Seq::empty(),
        Some(mcp) => " mcp_servers="@ + dec(mcp.servers@.len()) + " mcp_server_names=["@
            + join(server_names(mcp.servers@), ","@) + "]"@,
    }
}

/// The one-line summary of a configuration.
pub open spec fn spec_summary(c: AppConfig) -> Seq<char> {
    core_summary(c) + api_summary(c.api) + management_summary(c.management_api) + store_summary(c.store)
        + agent_summary(c.agent) + chat_summary(c.chat) + mcp_summary(c.mcp)
}

fn push_or(out: &mut String, o: &Option<String>, default: &str)
    ensures
        final(out)@ == old(out)@ + or_text(*o, default@),
{
    match o {
        Some(s) => out.append(s.as_str()),
        None => out.append(default),
    }
}

fn push_identity(out: &mut String, c: &AppConfig)
    ensures
        final(out)@ == old(out)@ + identity_summary(*c),
{
    out.append("workspace=");
    out.append(c.workspace.name.as_str());
    out.append(" model=");
    out.append(c.model.default_model.as_str());
    out.append(" provider=");
    out.append(c.model.provider.as_str());
    assert(final(out)@ =~= old(out)@ + identity_summary(*c));
}

fn push_switches(out: &mut String, p: &PolicyConfig)
    ensures
        final(out)@ == old(out)@ + switches_summary(*p),
{
    out.append(" allow_network=");
    push_bool(out, p.allow_network);
    out.append(" allow_shell=");
    push_bool(out, p.allow_shell);
    out.append(" allow_workspace_writes=");
    push_bool(out, p.allow_workspace_writes);
    assert(final(out)@ =~= old(out)@ + switches_summary(*p));
}

fn push_session(out: &mut String, c: &AppConfig)
    ensures
        final(out)@ == old(out)@ + session_summary(*c),
{
    out.append(" approval_mode=");
    out.append(c.session.approval_mode.as_str());
    out.append(" transcript_dir=");
    out.append(c.session.transcript_dir.as_str());
    out.append(" max_patch_bytes=");
    push_u64(out, c.policy.max_patch_bytes);
    assert(final(out)@ =~= old(out)@ + session_summary(*c));
}

fn push_core(out: &mut String, c: &AppConfig)
    ensures
        final(out)@ == old(out)@ + core_summary(*c),
{
    push_identity(out, c);
    push_switches(out, &c.policy);
    push_session(out, c);
    assert(final(out)@ =~= old(out)@ + core_summary(*c));
}

fn push_api(out: &mut String, a: &Option<ApiConfig>)
    ensures
        final(out)@ == old(out)@ + api_summary(*a),
{
    match a {
        None => {
            assert(old(out)@ + api_summary(*a) =~= old(out)@);
        },
        Some(api) => {
            out.append(" api_key_env=");
            push_or(out, &api.api_key_env, "XAI_API_KEY");
            out.append(" base_url=");
            push_or(out, &api.base_url, "https://api.x.ai");
            out.append(" timeout_secs=");
            let t = match api.timeout_secs { Some(t) => t, None => 120 };
            push_u64(out, t);
            out.append(" max_retries=");
            let r = match api.max_retries { Some(r) => r, None => 3 };
            push_u64(out, r as u64);
            assert(final(out)@ =~= old(out)@ + api_summary(*a));
        },
    }
}

fn push_management(out: &mut String, m: &Option<ManagementApiConfig>)
    ensures
        final(out)@ == old(out)@ + management_summary(*m),
{
    match m {
        None => {
            assert(old(out)@ + management_summary(*m) =~= old(out)@);
        },
        Some(mgmt) => {
            out.append(" management_key_env=");
            push_or(out, &mgmt.management_key_env, "XAI_MANAGEMENT_API_KEY");
            out.append(" management_base_url=");
            push_or(out, &mgmt.base_url, "https://management-api.x.ai");
            out.append(" management_timeout_secs=");
            let t = match mgmt.timeout_secs { Some(t) => t, None => 120 };
            push_u64(out, t);
            out.append(" management_max_retries=");
            let r = match mgmt.max_retries { Some(r) => r, None => 3 };
            push_u64(out, r as u64);
            assert(final(out)@ =~= old(out)@ + management_summary(*m));
        },
    }
}

fn push_store_agent(out: &mut String, c: &AppConfig)
    ensures
        final(out)@ == old(out)@ + store_summary(c.store) + agent_summary(c.agent),
{
    let ghost start = out@;
    match &c.store {
        None => {},
        Some(store) => {
            out.append(" store_path=");
            out.append(store.path.as_str());
        },
    }
    assert(out@ =~= start + store_summary(c.store));
    let ghost mid = out@;
    match &c.agent {
        None => {},
        Some(agent) => {
            out.append(" agent_max_iterations=");
            push_u64(out, agent.max_iterations as u64);
            out.append(" agent_default_trust=");
            out.append(agent.default_trust.as_str());
            out.append(" agent_enable_search=");
            push_bool(out, agent.enable_search);
        },
    }
    assert(out@ =~= mid + agent_summary(c.agent));
}

fn push_chat(out: &mut String, c: &Option<ChatConfig>)
    ensures
        final(out)@ == old(out)@ + chat_summary(*c),
{
    match c {
        None => {
            assert(old(out)@ + chat_summary(*c) =~= old(out)@);
        },
        Some(chat) => {
            out.append(" chat_default_model=");
            push_or(out, &chat.default_model, "(inherit)");
            out.append(" chat_stateful=");
            push_bool(out, chat.stateful);
            out.append(" chat_history_file=");
            out.append(chat.history_file.as_str());
            out.append(" chat_max_conversation_tokens=");
            push_u64(out, chat.max_conversation_tokens);
            let ghost mid = out@;
            match &chat.system_prompt {
                Some(sys) => {
                    out.append(" chat_system_prompt=");
                    out.append(truncate_utf8(sys.as_str(), 50));
                    out.append("...");
                },
                None => {},
            }
            assert(final(out)@ =~= old(out)@ + chat_summary(*c));
        },
    }
}

fn push_mcp(out: &mut String, m: &Option<McpConfig>)
    ensures
        final(out)@ == old(out)@ + mcp_summary(*m),
{
    match m {
        None => {
            assert(old(out)@ + mcp_summary(*m) =~= old(out)@);
        },
        Some(mcp) => {
            let n = mcp.servers.len();
            out.append(" mcp_servers=");
            push_u64(out, n as u64);
            out.append(" mcp_server_names=[");
            let ghost names = server_names(mcp.servers@);
            let ghost start = out@;
            let mut i: usize = 0;
            while i < n
                invariant
                    n == mcp.servers@.len(),
                    names == server_names(mcp.servers@),
                    i <= n,
                    out@ == start + join(names.take(i as int), ","@),
                decreases n - i,
            {
                if i > 0 {
                    out.append(",");
                    proof { lemma_join_step(names, ","@, i as int); }
                } else {
                    assert(join(names.take(1), ","@) == names[0]);
                    assert(join(names.take(0), ","@) =~= Seq::<char>::empty());
                }
                out.append(mcp.servers[i].0.as_str());
                i = i + 1;
                assert(out@ =~= start + join(names.take(i as int), ","@));
            }
            assert(names.take(n as int) =~= names);
            out.append("]");
            assert(final(out)@ =~= old(out)@ + mcp_summary(*m));
        },
    }
}

impl AppConfig {
    /// The one-line summary printed by `show-config`: the core settings,
    /// then each optional section that is present, with defaults filled in.
    pub fn summary(&self) -> (s: String)
        requires
            self.wf(),
        ensures
            s@ == spec_summary(*self),
    {
        let mut s = String::new();
        push_core(&mut s, self);
        push_api(&mut s, &self.api);
        push_management(&mut s, &self.management_api);
        push_store_agent(&mut s, self);
        push_chat(&mut s, &self.chat);
        push_mcp(&mut s, &self.mcp);
        assert(s@ =~= spec_summary(*self));
        s
    }
}

} // verus!
