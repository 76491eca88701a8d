//! Model Context Protocol servers: how their tools are named in the tool
//! registry, which host a server URL names, whether policy lets the agent
//! connect to it, and which discovered tools an allowlist keeps.

use vstd::prelude::*;
use crate::policy::{Decision, Effect, PolicyEngine, spec_network_decision};
use crate::text::{ascii_lower, is_ascii_alnum, lower_char, owned, push_char, str_eq};

verus! {

/// Whether `char::is_alphanumeric` holds of `c` (the Unicode `Alphabetic`
/// or `Numeric` property).
pub uninterp spec fn unicode_alphanumeric(c: char) -> bool;

/// Calls `char::is_alphanumeric`. Its documentation defines it by the
/// Unicode `Alphabetic` and `Numeric` properties; among ASCII characters
/// these are exactly the letters and digits. Nothing more is stated.
#[verifier::external_body]
fn is_alphanumeric(c: char) -> (r: bool)
    ensures
        r == unicode_alphanumeric(c),
        (c as u32) < 128 ==> r == is_ascii_alnum(c),
{
    c.is_alphanumeric()
}

/// A server label made safe for tool names: alphanumeric characters are
/// ASCII-lowercased and every other character becomes `_`.
pub open spec fn spec_sanitize_label(label: Seq<char>) -> Seq<char> {
    Seq::new(label.len(), |i: int| if unicode_alphanumeric(label[i]) { ascii_lower(label[i]) } else { '_' })
}

/// Sanitize a server label for use in tool name prefixes.
pub fn sanitize_label(label: &str) -> (r: String)
    ensures
        r@ == spec_sanitize_label(label@),
        forall|i: int| 0 <= i < label@.len() && (label@[i] as u32) < 128 ==> #[trigger] r@[i] == if is_ascii_alnum(
            label@[i],
        ) {
            ascii_lower(label@[i])
        } else {
            '_'
        },
{
    let n = label.unicode_len();
    let mut out = String::new();
    let mut i: usize = 0;
    while i < n
        invariant
            n == label@.len(),
            i <= n,
            out@ == spec_sanitize_label(label@).take(i as int),
            forall|k: int| 0 <= k < i && (label@[k] as u32) < 128 ==> unicode_alphanumeric(#[trigger] label@[k])
                == is_ascii_alnum(label@[k]),
        decreases n - i,
    {
        let c = label.get_char(i);
        let alnum = is_alphanumeric(c);
        if alnum {
            push_char(&mut out, lower_char(c));
        } else {
            push_char(&mut out, '_');
        }
        i = i + 1;
        assert(out@ =~= spec_sanitize_label(label@).take(i as int));
    }
    assert(spec_sanitize_label(label@).take(n as int) =~= spec_sanitize_label(label@));
    out
}

/// The registry name of an MCP tool: `mcp_<label>_<tool>` with the
/// sanitized server label, or `mcp_<tool>` for a server without a label.
pub open spec fn spec_mcp_tool_name(label: Option<Seq<char>>, tool: Seq<char>) -> Seq<char> {
    match label {
        Some(l) => "mcp_"@ + spec_sanitize_label(l) + "_"@ + tool,
        None => "mcp_"@ + tool,
    }
}

/// The registry name of an MCP tool.
pub fn mcp_tool_name(server_label: Option<&str>, tool_name: &str) -> (r: String)
    ensures
        r@ == spec_mcp_tool_name(crate::text::opt_str_view(server_label), tool_name@),
{
    let mut name = owned("mcp_");
    match server_label {
        Some(label) => {
            let s = sanitize_label(label);
            name.append(s.as_str());
            name.append("_");
        },
        None => {},
    }
    name.append(tool_name);
    name
}

/// The result of parsing a URL with the `url` crate and asking for its
/// host: `None` when the text is not a URL, else the host when it has one.
pub uninterp spec fn url_host_of(url: Seq<char>) -> Option<Option<Seq<char>>>;

/// Calls `url::Url::parse` and then `Url::host_str`. Only the outcome is
/// stated, by name: which texts are URLs and what their host is follows the
/// WHATWG URL standard that the crate implements.
#[verifier::external_body]
fn parse_url_host(url: &str) -> (r: Option<Option<String>>)
    ensures
        opt_opt_view(r) == url_host_of(url@),
{
    match url::Url::parse(url) {
        Ok(u) => Some(u.host_str().map(|h| h.to_owned())),
        Err(_) => None,
    }
}

/// The host of a parsed server URL (`unknown` when it names none), or the
/// error for a text that did not parse as a URL.
pub open spec fn host_from_parsed(parsed: Option<Option<Seq<char>>>, url: Seq<char>) -> Result<Seq<char>, Seq<char>> {
    match parsed {
        None => Err("invalid MCP server URL: "@ + url),
        Some(None) => Ok("unknown"@),
        Some(Some(h)) => Ok(h),
    }
}

/// The host an MCP server URL names, as the `url` crate reads it.
pub open spec fn spec_server_host(url: Seq<char>) -> Result<Seq<char>, Seq<char>> {
    host_from_parsed(url_host_of(url), url)
}

/// The view of an optional optional string.
pub open spec fn opt_opt_view(o: Option<Option<String>>) -> Option<Option<Seq<char>>> {
    match o {
        None => None,
        Some(h) => Some(crate::text::opt_view(h)),
    }
}

/// The host of a server URL from the outcome of parsing it: `None` when
/// the text is not a URL, else the host the URL has, if any.
pub fn server_host_from_parsed(parsed: Option<Option<String>>, url: &str) -> (r: Result<String, String>)
    ensures
        match host_from_parsed(opt_opt_view(parsed), url@) {
            Ok(h) => r matches Ok(s) && s@ == h,
            Err(e) => r matches Err(m) && m@ == e,
        },
{
    match parsed {
        None => {
            let mut m = owned("invalid MCP server URL: ");
            m.append(url);
            Err(m)
        },
        Some(None) => Ok(owned("unknown")),
        Some(Some(h)) => Ok(h),
    }
}

/// The host of an MCP server URL.
pub fn mcp_server_host(url: &str) -> (r: Result<String, String>)
    ensures
        match spec_server_host(url@) {
            Ok(h) => r matches Ok(s) && s@ == h,
            Err(e) => r matches Err(m) && m@ == e,
        },
{
    let parsed = parse_url_host(url);
    server_host_from_parsed(parsed, url)
}

/// Whether policy lets the agent connect to an MCP server on `host`, and
/// the error when it does not.
pub open spec fn spec_mcp_connect(d: Decision, mode: Seq<char>, host: Seq<char>) -> Option<Seq<char>> {
    match d {
        Decision::Allow { .. } => None,
        Decision::Ask { reason } => if mode == "allow"@ {
            None
        } else if mode == "deny"@ {
            Some("network access to MCP server '"@ + host + "' denied: "@ + reason@)
        } else {
            Some("network access to MCP server '"@ + host + "' requires approval: "@ + reason@)
        },
        Decision::Deny { reason } => Some("network access to MCP server '"@ + host + "' denied by policy: "@ + reason@),
    }
}

/// Check that policy and the approval mode allow connecting to an MCP
/// server on `host`.
pub fn check_mcp_connect(engine: &PolicyEngine, approval_mode: &str, host: &str) -> (r: Result<(), String>)
    ensures
        match spec_mcp_connect(spec_network_decision(engine.config()), approval_mode@, host@) {
            None => r is Ok,
            Some(m) => r matches Err(e) && e@ == m,
        },
{
    let effect = Effect::NetworkConnect { host: owned(host) };
    match engine.evaluate(&effect) {
        Decision::Allow { .. } => Ok(()),
        Decision::Ask { reason } => {
            if str_eq(approval_mode, "allow") {
                Ok(())
            } else if str_eq(approval_mode, "deny") {
                let mut m = owned("network access to MCP server '");
                m.append(host);
                m.append("' denied: ");
                m.append(reason);
                Err(m)
            } else {
                let mut m = owned("network access to MCP server '");
                m.append(host);
                m.append("' requires approval: ");
                m.append(reason);
                Err(m)
            }
        },
        Decision::Deny { reason } => {
            let mut m = owned("network access to MCP server '");
            m.append(host);
            m.append("' denied by policy: ");
            m.append(reason);
            Err(m)
        },
    }
}

/// An MCP tool as the tool registry sees it.
pub struct McpToolView {
    pub name: Seq<char>,
    pub description: Option<Seq<char>>,
    pub server_host: Seq<char>,
    pub min_rank: u8,
    pub prefixed_name: Seq<char>,
}

/// A tool discovered on an MCP server, registered under a prefixed name.
/// Every call of it is a network connection to the server's host.
#[derive(Debug)]
pub struct McpToolAdapter {
    name: String,
    description: Option<String>,
    server_host: String,
    min_rank: u8,
    prefixed_name: String,
}

pub const NO_DESCRIPTION: &'static str = "MCP tool (no description)";

impl McpToolAdapter {
    /// The tool as a value.
    pub closed spec fn view(&self) -> McpToolView {
        McpToolView {
            name: self.name@,
            description: crate::text::opt_view(self.description),
            server_host: self.server_host@,
            min_rank: self.min_rank,
            prefixed_name: self.prefixed_name@,
        }
    }

    /// Register the tool `tool_name` of the server on `server_host`, whose
    /// label (if any) prefixes the registry name; `min_rank` is the trust
    /// rank a session needs to use it.
    pub fn new(
        tool_name: String,
        description: Option<String>,
        server_host: String,
        server_label: Option<&str>,
        min_rank: u8,
    ) -> (t: Self)
        ensures
            t.view() == (McpToolView {
                name: tool_name@,
                description: crate::text::opt_view(description),
                server_host: server_host@,
                min_rank,
                prefixed_name: spec_mcp_tool_name(crate::text::opt_str_view(server_label), tool_name@),
            }),
    {
        let prefixed_name = mcp_tool_name(server_label, tool_name.as_str());
        McpToolAdapter { name: tool_name, description, server_host, min_rank, prefixed_name }
    }

    /// The registry name.
    pub fn name(&self) -> (s: &str)
        ensures
            s@ == self.view().prefixed_name,
    {
        self.prefixed_name.as_str()
    }

    /// The tool's own name on its server.
    pub fn mcp_name(&self) -> (s: &str)
        ensures
            s@ == self.view().name,
    {
        self.name.as_str()
    }

    /// The server's description of the tool, or a fixed note without one.
    pub fn description(&self) -> (s: &str)
        ensures
            s@ == match self.view().description {
                Some(d) => d,
                None => NO_DESCRIPTION@,
            },
    {
        match &self.description {
            Some(d) => d.as_str(),
            None => NO_DESCRIPTION,
        }
    }

    /// The trust rank a session needs to use the tool.
    pub fn min_trust_rank(&self) -> (r: u8)
        ensures
            r == self.view().min_rank,
    {
        self.min_rank
    }

    /// The effects of calling the tool, whatever its input: one network
    /// connection to the server's host.
    pub fn classify(&self) -> (r: Vec<Effect>)
        ensures
            r@.len() == 1,
            r@[0] matches Effect::NetworkConnect { host } && host@ == self.view().server_host,
    {
        let mut v: Vec<Effect> = Vec::new();
        v.push(Effect::NetworkConnect { host: owned(self.server_host.as_str()) });
        v
    }
}

/// Whether `name` is one of `list`.
pub open spec fn listed(list: Seq<String>, name: Seq<char>) -> bool {
    exists|i: int| 0 <= i < list.len() && list[i]@ == name
}

/// Whether `name` is in `list`.
pub fn is_listed(list: &Vec<String>, name: &str) -> (r: bool)
    ensures
        r == listed(list@, name@),
{
    let n = list.len();
    let mut i: usize = 0;
    while i < n
        invariant
            n == list@.len(),
            i <= n,
            forall|k: int| 0 <= k < i ==> list@[k]@ != name@,
        decreases n - i,
    {
        if str_eq(list[i].as_str(), name) {
            return true;
        }
        i = i + 1;
    }
    false
}

/// The tool names an allowlist keeps, in discovery order: all of them
/// without an allowlist, else those the allowlist names.
pub open spec fn spec_allowed(names: Seq<String>, allowlist: Option<Seq<String>>) -> Seq<String> {
    match allowlist {
        None => names,
        Some(list) => names.filter(|n: String| listed(list, n@)),
    }
}

/// Keep the discovered tools the allowlist names.
pub fn filter_allowed_tools(names: Vec<String>, allowlist: &Option<Vec<String>>) -> (r: Vec<String>)
    ensures
        r@ == spec_allowed(names@, match allowlist { Some(l) => Some(l@), None => None }),
{
    match allowlist {
        None => names,
        Some(list) => {
            let n = names.len();
            let mut kept: Vec<String> = Vec::new();
            let mut i: usize = 0;
            while i < n
                invariant
                    n == names@.len(),
                    i <= n,
                    kept@ == names@.take(i as int).filter(|m: String| listed(list@, m@)),
                decreases n - i,
            {
                let name = &names[i];
                proof {
                    reveal_with_fuel(Seq::filter, 1);
                    assert(names@.take(i + 1).drop_last() =~= names@.take(i as int));
                }
                if is_listed(list, name.as_str()) {
                    kept.push(name.clone());
                }
                i = i + 1;
            }
            assert(names@.take(n as int) =~= names@);
            kept
        },
    }
}

} // verus!
