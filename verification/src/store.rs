//! The `grokrs store` subcommands: their arguments, and the lines that the
//! status, usage and doctor reports print from the totals the store holds.
//! The cost in dollars, a floating-point rendering, is printed by the caller.

use vstd::prelude::*;
use crate::text::{dec, dec_int, owned, push_i64, push_u64};

verus! {

/// The grouping dimension of a cost report.
#[derive(Debug, Clone, Copy, PartialEq, Eq, Structural)]
pub enum CostGroupByArg {
    /// By model name.
    Model,
    /// By date (YYYY-MM-DD).
    Day,
    /// By session ID.
    Session,
    /// By API endpoint.
    Endpoint,
}

/// The output format of a cost report.
#[derive(Debug, Clone, Copy, PartialEq, Eq, Structural)]
pub enum OutputFormat {
    /// A fixed-width table.
    Table,
    /// A JSON object with rows and summary.
    Json,
    /// Comma-separated values with a header.
    Csv,
}

/// The store subcommands.
#[derive(Debug, Clone, PartialEq, Eq)]
pub enum StoreCommand {
    /// Database path, schema version, session count, total cost.
    Status,
    /// Token usage and cost summary, for one session or all.
    Usage { session: Option<String> },
    /// Cost breakdown.
    Cost {
        group_by: CostGroupByArg,
        format: OutputFormat,
        since: Option<String>,
        until: Option<String>,
        session: Option<String>,
    },
}

/// Usage totals as the store reports them.
#[derive(Debug, Clone, Copy, PartialEq, Eq, Structural)]
pub struct UsageTotals {
    pub request_count: i64,
    pub total_input_tokens: i64,
    pub total_output_tokens: i64,
    pub total_reasoning_tokens: i64,
    pub total_cost_ticks: i64,
}

/// The texts of a list of lines.
pub open spec fn lines_of(v: Seq<String>) -> Seq<Seq<char>> {
    Seq::new(v.len(), |i: int| v[i]@)
}

/// The integer lines of `grokrs store usage`: a heading naming the session
/// (or all sessions), then requests and the three token totals.
pub open spec fn spec_usage_lines(session: Option<Seq<char>>, t: UsageTotals) -> Seq<Seq<char>> {
    seq![
        match session {
            Some(sid) => "Usage for session: "@ + sid,
            None => "Usage across all sessions:"@,
        },
        "  requests:         "@ + dec_int(t.request_count as int),
        "  input_tokens:     "@ + dec_int(t.total_input_tokens as int),
        "  output_tokens:    "@ + dec_int(t.total_output_tokens as int),
        "  reasoning_tokens: "@ + dec_int(t.total_reasoning_tokens as int),
    ]
}

fn labelled_i64(label: &str, n: i64) -> (s: String)
    ensures
        s@ == label@ + dec_int(n as int),
{
    let mut s = owned(label);
    push_i64(&mut s, n);
    s
}

/// The lines of `grokrs store usage` before the cost line.
pub fn usage_lines(session: Option<&str>, totals: &UsageTotals) -> (lines: Vec<String>)
    ensures
        lines_of(lines@) == spec_usage_lines(
            match session { Some(s) => Some(s@), None => None },
            *totals,
        ),
{
    let mut lines: Vec<String> = Vec::new();
    match session {
        Some(sid) => {
            let mut s = owned("Usage for session: ");
            s.append(sid);
            lines.push(s);
        },
        None => lines.push(owned("Usage across all sessions:")),
    }
    lines.push(labelled_i64("  requests:         ", totals.request_count));
    lines.push(labelled_i64("  input_tokens:     ", totals.total_input_tokens));
    lines.push(labelled_i64("  output_tokens:    ", totals.total_output_tokens));
    lines.push(labelled_i64("  reasoning_tokens: ", totals.total_reasoning_tokens));
    assert(lines_of(lines@) =~= spec_usage_lines(
        match session { Some(s) => Some(s@), None => None },
        *totals,
    ));
    lines
}

/// The sessions line of `grokrs store status`.
pub open spec fn spec_status_sessions_line(total: i64, active: nat) -> Seq<char> {
    "  sessions:       "@ + dec_int(total as int) + " total, "@ + dec(active) + " active"@
}

/// The sessions line of `grokrs store status`.
pub fn status_sessions_line(total: i64, active: usize) -> (s: String)
    ensures
        s@ == spec_status_sessions_line(total, active as nat),
{
    let mut s = labelled_i64("  sessions:       ", total);
    s.append(" total, ");
    push_u64(&mut s, active as u64);
    s.append(" active");
    s
}

/// The lines of `grokrs store status` when the database does not exist yet.
pub open spec fn spec_status_missing_lines(db_path: Seq<char>) -> Seq<Seq<char>> {
    seq![
        "Store status:"@,
        "  database: "@ + db_path + " (not created yet)"@,
        "  No store database exists. Run an API command to create one."@,
    ]
}

/// The lines of `grokrs store status` when the database does not exist yet.
pub fn status_missing_lines(db_path: &str) -> (lines: Vec<String>)
    ensures
        lines_of(lines@) == spec_status_missing_lines(db_path@),
{
    let mut lines: Vec<String> = Vec::new();
    lines.push(owned("Store status:"));
    let mut s = owned("  database: ");
    s.append(db_path);
    s.append(" (not created yet)");
    lines.push(s);
    lines.push(owned("  No store database exists. Run an API command to create one."));
    assert(lines_of(lines@) =~= spec_status_missing_lines(db_path@));
    lines
}

/// What the doctor learned of the store.
#[derive(Debug, Clone, PartialEq, Eq)]
pub enum StoreProbe {
    /// No database file at the path.
    NotCreated,
    /// The database opened; its schema version, session counts and cost.
    Opened { schema_version: i64, total_sessions: i64, active_sessions: u64, total_cost_ticks: i64 },
    /// The database could not be opened.
    Failed { error: String },
}

/// The store line of `grokrs doctor`.
pub open spec fn spec_doctor_store_line(path: Seq<char>, probe: StoreProbe) -> Seq<char> {
    match probe {
        StoreProbe::NotCreated => "store=not_created path="@ + path,
        StoreProbe::Opened { schema_version, total_sessions, active_sessions, total_cost_ticks } =>
            "store=ok path="@ + path + " schema_version="@ + dec_int(schema_version as int)
                + " total_sessions="@ + dec_int(total_sessions as int) + " active_sessions="@
                + dec(active_sessions as nat) + " total_cost_ticks="@ + dec_int(total_cost_ticks as int),
        StoreProbe::Failed { error } => "store=error path="@ + path + " error="@ + error@,
    }
}

/// The store line of `grokrs doctor`.
pub fn doctor_store_line(path: &str, probe: &StoreProbe) -> (s: String)
    ensures
        s@ == spec_doctor_store_line(path@, *probe),
{
    match probe {
        StoreProbe::NotCreated => {
            let mut s = owned("store=not_created path=");
            s.append(path);
            s
        },
        StoreProbe::Opened { schema_version, total_sessions, active_sessions, total_cost_ticks } => {
            let mut s = owned("store=ok path=");
            s.append(path);
            s.append(" schema_version=");
            push_i64(&mut s, *schema_version);
            s.append(" total_sessions=");
            push_i64(&mut s, *total_sessions);
            s.append(" active_sessions=");
            push_u64(&mut s, *active_sessions);
            s.append(" total_cost_ticks=");
            push_i64(&mut s, *total_cost_ticks);
            s
        },
        StoreProbe::Failed { error } => {
            let mut s = owned("store=error path=");
            s.append(path);
            s.append(" error=");
            s.append(error.as_str());
            s
        },
    }
}

} // verus!
