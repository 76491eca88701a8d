//! Server-side search settings shared by `chat` and `agent`: which search
//! tools to enable, the search parameters, ISO dates, and the numbered
//! citation list printed after an answer.

use vstd::prelude::*;
use crate::text::{dec, owned, push_u64};

verus! {

/// The built-in search tools the API offers.
#[derive(Debug, Clone, Copy, PartialEq, Eq)]
pub enum BuiltinTool {
    WebSearch,
    XSearch,
}

impl BuiltinTool {
    /// The tool's `type` name in requests.
    pub fn tool_type(&self) -> (s: &'static str)
        ensures
            s == match *self {
                BuiltinTool::WebSearch => "web_search",
                BuiltinTool::XSearch => "x_search",
            },
    {
        match self {
            BuiltinTool::WebSearch => "web_search",
            BuiltinTool::XSearch => "x_search",
        }
    }
}

/// How the server decides whether to search.
#[derive(Debug, Clone, Copy, PartialEq, Eq)]
pub enum SearchMode {
    Auto,
    On,
    Off,
}

/// Search parameters sent with a request.
#[derive(Debug, Clone, PartialEq, Eq)]
pub struct SearchParameters {
    pub mode: Option<SearchMode>,
    pub sources: Option<Vec<String>>,
    pub from_date: Option<String>,
    pub to_date: Option<String>,
    pub max_search_results: Option<u32>,
    pub return_citations: Option<bool>,
}

/// Search settings resolved from the command-line flags.
#[derive(Debug, Clone)]
pub struct SearchConfig {
    pub web_search: bool,
    pub x_search: bool,
    pub from_date: Option<String>,
    pub to_date: Option<String>,
    pub max_results: Option<u32>,
    pub citations: bool,
}

impl Default for SearchConfig {
    fn default() -> (c: SearchConfig)
        ensures
            !c.web_search,
            !c.x_search,
            c.from_date is None,
            c.to_date is None,
            c.max_results is None,
            !c.citations,
    {
        SearchConfig {
            web_search: false,
            x_search: false,
            from_date: None,
            to_date: None,
            max_results: None,
            citations: false,
        }
    }
}

/// The search tools a configuration enables, web search first.
pub open spec fn spec_builtin_tools(c: SearchConfig) -> Seq<BuiltinTool> {
    (if c.web_search { seq![BuiltinTool::WebSearch] } else { Seq::empty() })
        + (if c.x_search { seq![BuiltinTool::XSearch] } else { Seq::empty() })
}

/// Whether a configuration asks for any parameter beyond the tools.
pub open spec fn has_params(c: SearchConfig) -> bool {
    c.from_date is Some || c.to_date is Some || c.max_results is Some || c.citations
}

/// The search parameters carry a configuration's settings: automatic mode,
/// no source list, its dates and result limit, and citations requested
/// only when asked for.
pub open spec fn params_of(q: SearchParameters, c: SearchConfig) -> bool {
    &&& q.mode == Some(SearchMode::Auto)
    &&& q.sources is None
    &&& crate::text::opt_view(q.from_date) == crate::text::opt_view(c.from_date)
    &&& crate::text::opt_view(q.to_date) == crate::text::opt_view(c.to_date)
    &&& q.max_search_results == c.max_results
    &&& q.return_citations == if c.citations { Some(true) } else { None }
}

impl SearchConfig {
    /// Whether no search tool is enabled.
    pub fn is_empty(&self) -> (r: bool)
        ensures
            r == (!self.web_search && !self.x_search),
    {
        !self.web_search && !self.x_search
    }

    /// The search tools to add to a request.
    pub fn builtin_tools(&self) -> (v: Vec<BuiltinTool>)
        ensures
            v@ == spec_builtin_tools(*self),
    {
        let mut tools = Vec::new();
        if self.web_search {
            tools.push(BuiltinTool::WebSearch);
        }
        if self.x_search {
            tools.push(BuiltinTool::XSearch);
        }
        assert(tools@ =~= spec_builtin_tools(*self));
        tools
    }

    /// The search parameters to send: none when no tool is enabled or no
    /// parameter is set; otherwise automatic mode with the dates, the result
    /// limit, and citations requested only when asked for.
    pub fn search_parameters(&self) -> (p: Option<SearchParameters>)
        ensures
            (p is Some) <==> (!self.is_empty_spec() && has_params(*self)),
            p matches Some(q) ==> params_of(q, *self),
    {
        if self.is_empty() {
            return None;
        }
        let wanted = self.from_date.is_some() || self.to_date.is_some() || self.max_results.is_some()
            || self.citations;
        if !wanted {
            return None;
        }
        Some(SearchParameters {
            mode: Some(SearchMode::Auto),
            sources: None,
            from_date: clone_opt(&self.from_date),
            to_date: clone_opt(&self.to_date),
            max_search_results: self.max_results,
            return_citations: if self.citations { Some(true) } else { None },
        })
    }

    /// Whether no search tool is enabled.
    pub open spec fn is_empty_spec(&self) -> bool {
        !self.web_search && !self.x_search
    }
}

/// A copy of an optional string.
pub fn clone_opt(o: &Option<String>) -> (r: Option<String>)
    ensures
        crate::text::opt_view(r) == crate::text::opt_view(*o),
{
    match o {
        Some(s) => Some(s.clone()),
        None => None,
    }
}

/// A source the answer cites.
#[derive(Debug, Clone, PartialEq, Eq)]
pub struct Citation {
    pub url: String,
    pub title: Option<String>,
}

/// The line for the citation numbered `n`.
pub open spec fn citation_line(n: nat, c: Citation) -> Seq<char> {
    match c.title {
        Some(t) => "  ["@ + dec(n) + "] "@ + t@ + " — "@ + c.url@ + "\n"@,
        None => "  ["@ + dec(n) + "] "@ + c.url@ + "\n"@,
    }
}

/// The lines for the first `k` citations, numbered from 1.
pub open spec fn citation_lines(cs: Seq<Citation>, k: int) -> Seq<char>
    decreases k,
{
    if k <= 0 {
        Seq::empty()
    } else {
        citation_lines(cs, k - 1) + citation_line(k as nat, cs[k - 1])
    }
}

/// The citation block: empty when there are no citations, else a
/// `Sources:` heading and one numbered line per citation.
pub open spec fn spec_format_citations(cs: Seq<Citation>) -> Seq<char> {
    if cs.len() == 0 {
        Seq::empty()
    } else {
        "\nSources:\n"@ + citation_lines(cs, cs.len() as int)
    }
}

/// Format citations as numbered references.
pub fn format_citations(citations: &[Citation]) -> (s: String)
    ensures
        s@ == spec_format_citations(citations@),
{
    let n = citations.len();
    if n == 0 {
        return String::new();
    }
    let mut out = owned("\nSources:\n");
    let mut i: usize = 0;
    while i < n
        invariant
            n == citations@.len(),
            i <= n,
            out@ == "\nSources:\n"@ + citation_lines(citations@, i as int),
        decreases n - i,
    {
        let c = &citations[i];
        out.append("  [");
        push_u64(&mut out, (i + 1) as u64);
        out.append("] ");
        match &c.title {
            Some(t) => {
                out.append(t.as_str());
                out.append(" — ");
                out.append(c.url.as_str());
            },
            None => {
                out.append(c.url.as_str());
            },
        }
        out.append("\n");
        i = i + 1;
        assert(out@ =~= "\nSources:\n"@ + citation_lines(citations@, i as int));
    }
    out
}

/// Add a citation unless an equal one is already listed.
pub fn push_unique(citations: &mut Vec<Citation>, c: Citation)
    ensures
        (exists|i: int| 0 <= i < old(citations)@.len() && same_citation(old(citations)@[i], c))
            ==> final(citations)@ == old(citations)@,
        !(exists|i: int| 0 <= i < old(citations)@.len() && same_citation(old(citations)@[i], c))
            ==> final(citations)@ == old(citations)@.push(c),
{
    let n = citations.len();
    let mut i: usize = 0;
    while i < n
        invariant
            n == citations@.len(),
            citations@ == old(citations)@,
            i <= n,
            forall|k: int| 0 <= k < i ==> !same_citation(citations@[k], c),
        decreases n - i,
    {
        if eq_citation(&citations[i], &c) {
            return;
        }
        i = i + 1;
    }
    citations.push(c);
}

/// Two citations with the same URL and title.
pub open spec fn same_citation(a: Citation, b: Citation) -> bool {
    a.url@ == b.url@ && crate::text::opt_view(a.title) == crate::text::opt_view(b.title)
}

fn eq_citation(a: &Citation, b: &Citation) -> (r: bool)
    ensures
        r == same_citation(*a, *b),
{
    if !crate::text::str_eq(a.url.as_str(), b.url.as_str()) {
        return false;
    }
    match (&a.title, &b.title) {
        (Some(x), Some(y)) => crate::text::str_eq(x.as_str(), y.as_str()),
        (None, None) => true,
        _ => false,
    }
}

/// Whether `c` is an ASCII digit.
pub open spec fn is_digit(c: char) -> bool {
    '0' <= c && c <= '9'
}

/// The value of a string of ASCII digits.
pub open spec fn digits_value(p: Seq<char>) -> nat
    decreases p.len(),
{
    if p.len() == 0 {
        0
    } else {
        digits_value(p.drop_last()) * 10 + ((p.last() as u32) - ('0' as u32)) as nat
    }
}

/// `p` without the one leading `+` it may have.
pub open spec fn unsigned_digits(p: Seq<char>) -> Seq<char> {
    if p.len() > 0 && p[0] == '+' { p.drop_first() } else { p }
}

/// A non-empty string of ASCII digits.
pub open spec fn all_digits(d: Seq<char>) -> bool {
    d.len() > 0 && forall|i: int| 0 <= i < d.len() ==> is_digit(#[trigger] d[i])
}

/// Whether a date has the ISO 8601 `YYYY-MM-DD` shape: four, two and two
/// ASCII digits separated by dashes.
pub open spec fn date_shape(d: Seq<char>) -> bool {
    &&& d.len() == 10
    &&& d[4] == '-'
    &&& d[7] == '-'
    &&& all_digits(d.subrange(0, 4))
    &&& all_digits(d.subrange(5, 7))
    &&& all_digits(d.subrange(8, 10))
}

/// The error for a date without the expected shape.
pub open spec fn date_format_error(d: Seq<char>) -> Seq<char> {
    "invalid date format: '"@ + d + "' (expected YYYY-MM-DD)"@
}

/// What date validation answers: `None` when valid, else the error.
pub open spec fn spec_validate_date(d: Seq<char>) -> Option<Seq<char>> {
    if !date_shape(d) {
        Some(date_format_error(d))
    } else if !(1 <= digits_value(d.subrange(5, 7)) <= 12) {
        Some("invalid month in date: '"@ + d + "'"@)
    } else if !(1 <= digits_value(d.subrange(8, 10)) <= 31) {
        Some("invalid day in date: '"@ + d + "'"@)
    } else {
        None
    }
}

proof fn lemma_digits_bound(p: Seq<char>)
    requires
        forall|i: int| 0 <= i < p.len() ==> is_digit(#[trigger] p[i]),
        p.len() <= 4,
    ensures
        digits_value(p) < 10000,
        p.len() <= 2 ==> digits_value(p) < 100,
        p.len() <= 3 ==> digits_value(p) < 1000,
        p.len() <= 1 ==> digits_value(p) < 10,
    decreases p.len(),
{
    if p.len() > 0 {
        let q = p.drop_last();
        assert forall|i: int| 0 <= i < q.len() implies is_digit(#[trigger] q[i]) by {
            assert(q[i] == p[i]);
        }
        lemma_digits_bound(q);
        assert(is_digit(p[p.len() - 1]));
        let v = digits_value(q);
        let dv = ((p.last() as u32) - ('0' as u32)) as nat;
        assert(dv < 10);
        assert(digits_value(p) == v * 10 + dv);
        assert(v < 10000 && q.len() <= 3 ==> v < 1000);
        assert(v < 1000 ==> v * 10 + dv < 10000) by (nonlinear_arith)
            requires dv < 10;
        assert(v < 100 ==> v * 10 + dv < 1000) by (nonlinear_arith)
            requires dv < 10;
        assert(v < 10 ==> v * 10 + dv < 100) by (nonlinear_arith)
            requires dv < 10;
        if q.len() == 0 {
            assert(v == 0);
        }
    }
}

/// The value of the characters `lo..hi` of `s` when they are all ASCII
/// digits, else `None`.
fn part_value(s: &str, lo: usize, hi: usize) -> (r: Option<u32>)
    requires
        lo < hi <= s@.len(),
        hi - lo <= 4,
    ensures
        (r is Some) == all_digits(s@.subrange(lo as int, hi as int)),
        r matches Some(v) ==> v == digits_value(s@.subrange(lo as int, hi as int)),
{
    let ghost d = s@.subrange(lo as int, hi as int);
    let mut v: u32 = 0;
    let mut i = lo;
    while i < hi
        invariant
            lo <= i <= hi <= s@.len(),
            hi - lo <= 4,
            d == s@.subrange(lo as int, hi as int),
            forall|k: int| 0 <= k < i - lo ==> is_digit(#[trigger] d[k]),
            v == digits_value(d.subrange(0, i - lo)),
            v < 10000,
        decreases hi - i,
    {
        let c = s.get_char(i);
        if !('0' <= c && c <= '9') {
            assert(d[i - lo] == c);
            assert(!is_digit(d[i - lo]));
            assert(!all_digits(d));
            return None;
        }
        let ghost q = d.subrange(0, i - lo + 1);
        assert(q.drop_last() =~= d.subrange(0, i - lo));
        assert forall|k: int| 0 <= k < q.len() implies is_digit(#[trigger] q[k]) by {
            assert(q[k] == d[k]);
        }
        proof {
            lemma_digits_bound(q);
        }
        v = v * 10 + ((c as u32) - ('0' as u32));
        i = i + 1;
    }
    assert(d.subrange(0, d.len() as int) =~= d);
    Some(v)
}

/// Check that a date is `YYYY-MM-DD` with a month in 1..=12 and a day in
/// 1..=31; otherwise say what is wrong.
pub fn validate_date(date: &str) -> (r: Result<(), String>)
    ensures
        match spec_validate_date(date@) {
            None => r is Ok,
            Some(m) => r matches Err(e) && e@ == m,
        },
{
    let n = date.unicode_len();
    let mut err = owned("invalid date format: '");
    err.append(date);
    err.append("' (expected YYYY-MM-DD)");
    if n != 10 {
        return Err(err);
    }
    if date.get_char(4) != '-' || date.get_char(7) != '-' {
        return Err(err);
    }
    let y = part_value(date, 0, 4);
    let m = part_value(date, 5, 7);
    let d = part_value(date, 8, 10);
    match (y, m, d) {
        (Some(_), Some(month), Some(day)) => {
            if !(1 <= month && month <= 12) {
                let mut e = owned("invalid month in date: '");
                e.append(date);
                e.append("'");
                return Err(e);
            }
            if !(1 <= day && day <= 31) {
                let mut e = owned("invalid day in date: '");
                e.append(date);
                e.append("'");
                return Err(e);
            }
            Ok(())
        },
        _ => Err(err),
    }
}

} // verus!
