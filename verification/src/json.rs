//! JSON documents as the library reads them, and what it reads from API
//! responses: citations, token usage, the response identifier and the
//! encrypted reasoning blobs replayed in the next turn.

use vstd::prelude::*;
use crate::agent::OutputItem;
use crate::repl::TokenUsage;
use crate::search::Citation;
use crate::text::{owned, str_eq};

verus! {

/// A JSON number, by the integer readings the library uses: as an
/// unsigned and as a signed 64-bit integer, when it is one.
#[derive(Debug, Clone, Copy, PartialEq, Eq)]
pub struct JsonNumber {
    pub as_u64: Option<u64>,
    pub as_i64: Option<i64>,
}

/// A JSON value. Object members keep their order; a parsed document has
/// distinct member names.
#[derive(Debug)]
pub enum Json {
    Null,
    Bool(bool),
    Number(JsonNumber),
    Str(String),
    Array(Vec<Json>),
    Object(Vec<(String, Json)>),
}

/// The first member named `k`.
pub open spec fn find_member(m: Seq<(String, Json)>, k: Seq<char>) -> Option<Json>
    decreases m.len(),
{
    if m.len() == 0 {
        None
    } else if m[0].0@ == k {
        Some(m[0].1)
    } else {
        find_member(m.drop_first(), k)
    }
}

/// The member `k` of an object; nothing for any other value.
pub open spec fn json_get(v: Json, k: Seq<char>) -> Option<Json> {
    match v {
        Json::Object(m) => find_member(m@, k),
        _ => None,
    }
}

/// The text of a string value.
pub open spec fn json_str(v: Option<Json>) -> Option<Seq<char>> {
    match v {
        Some(Json::Str(s)) => Some(s@),
        _ => None,
    }
}

/// The unsigned integer of a number value.
pub open spec fn json_u64(v: Option<Json>) -> Option<u64> {
    match v {
        Some(Json::Number(n)) => n.as_u64,
        _ => None,
    }
}

/// The items of an array value.
pub open spec fn json_items(v: Option<Json>) -> Option<Seq<Json>> {
    match v {
        Some(Json::Array(a)) => Some(a@),
        _ => None,
    }
}

proof fn lemma_find_member_skip(m: Seq<(String, Json)>, k: Seq<char>, i: int)
    requires
        0 <= i <= m.len(),
        forall|j: int| 0 <= j < i ==> m[j].0@ != k,
    ensures
        find_member(m, k) == find_member(m.subrange(i, m.len() as int), k),
    decreases i,
{
    if i > 0 {
        let d = m.drop_first();
        assert forall|j: int| 0 <= j < i - 1 implies d[j].0@ != k by {
            assert(d[j] == m[j + 1]);
        }
        lemma_find_member_skip(d, k, i - 1);
        assert(d.subrange(i - 1, d.len() as int) =~= m.subrange(i, m.len() as int));
    } else {
        assert(m.subrange(0, m.len() as int) =~= m);
    }
}

impl Json {
    /// The member `key` of an object.
    pub fn get(&self, key: &str) -> (r: Option<&Json>)
        ensures
            match r {
                Some(x) => json_get(*self, key@) == Some(*x),
                None => json_get(*self, key@) is None,
            },
    {
        match self {
            Json::Object(m) => {
                let n = m.len();
                let mut i: usize = 0;
                while i < n
                    invariant
                        n == m@.len(),
                        i <= n,
                        json_get(*self, key@) == find_member(m@, key@),
                        forall|j: int| 0 <= j < i ==> m@[j].0@ != key@,
                    decreases n - i,
                {
                    if str_eq(m[i].0.as_str(), key) {
                        proof {
                            lemma_find_member_skip(m@, key@, i as int);
                            let sub = m@.subrange(i as int, n as int);
                            assert(sub[0] == m@[i as int]);
                        }
                        return Some(&m[i].1);
                    }
                    i = i + 1;
                }
                proof {
                    lemma_find_member_skip(m@, key@, n as int);
                }
                None
            },
            _ => None,
        }
    }

    /// The text of a string value.
    pub fn as_str(&self) -> (r: Option<&str>)
        ensures
            match r {
                Some(s) => json_str(Some(*self)) == Some(s@),
                None => json_str(Some(*self)) is None,
            },
    {
        match self {
            Json::Str(s) => Some(s.as_str()),
            _ => None,
        }
    }

    /// The unsigned integer of a number value.
    pub fn as_u64(&self) -> (r: Option<u64>)
        ensures
            r == json_u64(Some(*self)),
    {
        match self {
            Json::Number(n) => n.as_u64,
            _ => None,
        }
    }

    /// The items of an array value.
    pub fn as_array(&self) -> (r: Option<&Vec<Json>>)
        ensures
            match r {
                Some(a) => json_items(Some(*self)) == Some(a@),
                None => json_items(Some(*self)) is None,
            },
    {
        match self {
            Json::Array(a) => Some(a),
            _ => None,
        }
    }
}

/// The string member `key` of `v`, if it is a string.
pub fn get_str<'a>(v: &'a Json, key: &str) -> (r: Option<&'a str>)
    ensures
        match r {
            Some(s) => json_str(json_get(*v, key@)) == Some(s@),
            None => json_str(json_get(*v, key@)) is None,
        },
{
    match v.get(key) {
        Some(x) => x.as_str(),
        None => None,
    }
}

/// The array member `key` of `v`, if it is an array.
pub fn get_array<'a>(v: &'a Json, key: &str) -> (r: Option<&'a Vec<Json>>)
    ensures
        match r {
            Some(a) => json_items(json_get(*v, key@)) == Some(a@),
            None => json_items(json_get(*v, key@)) is None,
        },
{
    match v.get(key) {
        Some(x) => x.as_array(),
        None => None,
    }
}

/// A citation as its URL and optional title.
pub open spec fn cite_view(c: Citation) -> (Seq<char>, Option<Seq<char>>) {
    (c.url@, crate::text::opt_view(c.title))
}

/// The citations as values.
pub open spec fn cite_views(cs: Seq<Citation>) -> Seq<(Seq<char>, Option<Seq<char>>)> {
    Seq::new(cs.len(), |i: int| cite_view(cs[i]))
}

/// The citation a search result or citation entry describes: its `url`
/// string with its `title` string, if any.
pub open spec fn citation_in(item: Json) -> Option<(Seq<char>, Option<Seq<char>>)> {
    match json_str(json_get(item, "url"@)) {
        Some(u) => Some((u, json_str(json_get(item, "title"@)))),
        None => None,
    }
}

/// The citations of the entries, appended in order.
pub open spec fn add_all(acc: Seq<(Seq<char>, Option<Seq<char>>)>, items: Seq<Json>) -> Seq<(Seq<char>, Option<Seq<char>>)>
    decreases items.len(),
{
    if items.len() == 0 {
        acc
    } else {
        let a = add_all(acc, items.drop_last());
        match citation_in(items.last()) {
            Some(c) => a.push(c),
            None => a,
        }
    }
}

/// The citations of the entries, appended in order unless already listed.
pub open spec fn add_new(acc: Seq<(Seq<char>, Option<Seq<char>>)>, items: Seq<Json>) -> Seq<(Seq<char>, Option<Seq<char>>)>
    decreases items.len(),
{
    if items.len() == 0 {
        acc
    } else {
        let a = add_new(acc, items.drop_last());
        match citation_in(items.last()) {
            Some(c) => if a.contains(c) {
                a
            } else {
                a.push(c)
            },
            None => a,
        }
    }
}

/// The search results of an output item: its `search_results` array, else
/// its `results` array, else none.
pub open spec fn results_of(item: Json) -> Seq<Json> {
    match json_items(json_get(item, "search_results"@)) {
        Some(r) => r,
        None => match json_items(json_get(item, "results"@)) {
            Some(r) => r,
            None => Seq::empty(),
        },
    }
}

/// The citations of the search results of the output items, appended in
/// order unless already listed.
pub open spec fn add_outputs(acc: Seq<(Seq<char>, Option<Seq<char>>)>, outs: Seq<Json>) -> Seq<(Seq<char>, Option<Seq<char>>)>
    decreases outs.len(),
{
    if outs.len() == 0 {
        acc
    } else {
        add_new(add_outputs(acc, outs.drop_last()), results_of(outs.last()))
    }
}

/// The citations of a completed response: the entries of its top-level
/// `citations` array, then the search results of its output items that
/// are not already listed.
pub open spec fn spec_extract_citations(response: Json) -> Seq<(Seq<char>, Option<Seq<char>>)> {
    let top = match json_items(json_get(response, "citations"@)) {
        Some(items) => add_all(Seq::empty(), items),
        None => Seq::empty(),
    };
    match json_items(json_get(response, "output"@)) {
        Some(outs) => add_outputs(top, outs),
        None => top,
    }
}

/// The citation an entry describes.
fn citation_of(item: &Json) -> (r: Option<Citation>)
    ensures
        match r {
            Some(c) => citation_in(*item) == Some(cite_view(c)),
            None => citation_in(*item) is None,
        },
{
    match get_str(item, "url") {
        Some(u) => {
            let title = match get_str(item, "title") {
                Some(t) => Some(owned(t)),
                None => None,
            };
            Some(Citation { url: owned(u), title })
        },
        None => None,
    }
}

fn push_cite(cs: &mut Vec<Citation>, c: Citation)
    ensures
        cite_views(final(cs)@) == cite_views(old(cs)@).push(cite_view(c)),
{
    let ghost prev = cs@;
    cs.push(c);
    assert(cite_views(cs@) =~= cite_views(prev).push(cite_view(c)));
}

/// Append the citations of the entries.
fn append_all(cs: &mut Vec<Citation>, items: &Vec<Json>)
    ensures
        cite_views(final(cs)@) == add_all(cite_views(old(cs)@), items@),
{
    let ghost start = cite_views(cs@);
    let n = items.len();
    let mut i: usize = 0;
    while i < n
        invariant
            n == items@.len(),
            i <= n,
            cite_views(cs@) == add_all(start, items@.take(i as int)),
        decreases n - i,
    {
        proof {
            assert(items@.take(i + 1).drop_last() =~= items@.take(i as int));
        }
        match citation_of(&items[i]) {
            Some(c) => push_cite(cs, c),
            None => {},
        }
        i = i + 1;
    }
    assert(items@.take(n as int) =~= items@);
}

/// Whether the citation is already listed.
fn listed_citation(cs: &Vec<Citation>, c: &Citation) -> (r: bool)
    ensures
        r == cite_views(cs@).contains(cite_view(*c)),
{
    let n = cs.len();
    let mut i: usize = 0;
    while i < n
        invariant
            n == cs@.len(),
            i <= n,
            forall|j: int| 0 <= j < i ==> cite_views(cs@)[j] != cite_view(*c),
        decreases n - i,
    {
        let same = str_eq(cs[i].url.as_str(), c.url.as_str()) && match (&cs[i].title, &c.title) {
            (Some(x), Some(y)) => str_eq(x.as_str(), y.as_str()),
            (None, None) => true,
            _ => false,
        };
        if same {
            assert(cite_views(cs@)[i as int] == cite_view(*c));
            return true;
        }
        i = i + 1;
    }
    false
}

/// Append the citations of the entries that are not listed yet.
fn append_new(cs: &mut Vec<Citation>, items: &Vec<Json>)
    ensures
        cite_views(final(cs)@) == add_new(cite_views(old(cs)@), items@),
{
    let ghost start = cite_views(cs@);
    let n = items.len();
    let mut i: usize = 0;
    while i < n
        invariant
            n == items@.len(),
            i <= n,
            cite_views(cs@) == add_new(start, items@.take(i as int)),
        decreases n - i,
    {
        proof {
            assert(items@.take(i + 1).drop_last() =~= items@.take(i as int));
        }
        match citation_of(&items[i]) {
            Some(c) => {
                if !listed_citation(cs, &c) {
                    push_cite(cs, c);
                }
            },
            None => {},
        }
        i = i + 1;
    }
    assert(items@.take(n as int) =~= items@);
}

/// The search results of an output item.
fn search_results<'a>(item: &'a Json) -> (r: Option<&'a Vec<Json>>)
    ensures
        match r {
            Some(a) => results_of(*item) == a@,
            None => results_of(*item) == Seq::<Json>::empty(),
        },
{
    match get_array(item, "search_results") {
        Some(a) => Some(a),
        None => get_array(item, "results"),
    }
}

/// Collect the citations of a completed response.
pub fn extract_citations(response: &Json) -> (r: Vec<Citation>)
    ensures
        cite_views(r@) == spec_extract_citations(*response),
{
    let mut cs: Vec<Citation> = Vec::new();
    match get_array(response, "citations") {
        Some(items) => {
            proof {
                assert(cite_views(cs@) =~= Seq::<(Seq<char>, Option<Seq<char>>)>::empty());
            }
            append_all(&mut cs, items);
        },
        None => {
            assert(cite_views(cs@) =~= Seq::<(Seq<char>, Option<Seq<char>>)>::empty());
        },
    }
    match get_array(response, "output") {
        Some(outs) => {
            let ghost top = cite_views(cs@);
            let n = outs.len();
            let mut i: usize = 0;
            while i < n
                invariant
                    n == outs@.len(),
                    i <= n,
                    cite_views(cs@) == add_outputs(top, outs@.take(i as int)),
                decreases n - i,
            {
                proof {
                    assert(outs@.take(i + 1).drop_last() =~= outs@.take(i as int));
                }
                match search_results(&outs[i]) {
                    Some(results) => append_new(&mut cs, results),
                    None => {
                        assert(add_new(cite_views(cs@), Seq::<Json>::empty()) == cite_views(cs@));
                    },
                }
                i = i + 1;
            }
            assert(outs@.take(n as int) =~= outs@);
        },
        None => {},
    }
    cs
}

/// The token usage a completed response reports: its `usage` member's
/// `input_tokens` and `output_tokens` (0 when absent), and the cached
/// count from `prompt_tokens_details`, else from `input_tokens_details`.
/// A response without `usage` reports nothing.
pub open spec fn spec_extract_usage(response: Json) -> (u64, u64, Option<u64>) {
    match json_get(response, "usage"@) {
        None => (0, 0, None),
        Some(u) => (
            match json_u64(json_get(u, "input_tokens"@)) { Some(x) => x, None => 0 },
            match json_u64(json_get(u, "output_tokens"@)) { Some(x) => x, None => 0 },
            match json_get(u, "prompt_tokens_details"@) {
                Some(d) if json_u64(json_get(d, "cached_tokens"@)) is Some => json_u64(json_get(d, "cached_tokens"@)),
                _ => match json_get(u, "input_tokens_details"@) {
                    Some(d) => json_u64(json_get(d, "cached_tokens"@)),
                    None => None,
                },
            },
        ),
    }
}

fn nested_u64(v: &Json, outer: &str, inner: &str) -> (r: Option<u64>)
    ensures
        r == match json_get(*v, outer@) {
            Some(d) => json_u64(json_get(d, inner@)),
            None => None,
        },
{
    match v.get(outer) {
        Some(d) => match d.get(inner) {
            Some(x) => x.as_u64(),
            None => None,
        },
        None => None,
    }
}

/// Read the token usage of a completed response.
pub fn extract_usage(response: &Json) -> (u: TokenUsage)
    ensures
        (u.input_tokens, u.output_tokens, u.cached_tokens) == spec_extract_usage(*response),
{
    match response.get("usage") {
        None => TokenUsage { input_tokens: 0, output_tokens: 0, cached_tokens: None },
        Some(usage) => {
            let input_tokens = match usage.get("input_tokens") {
                Some(x) => match x.as_u64() {
                    Some(n) => n,
                    None => 0,
                },
                None => 0,
            };
            let output_tokens = match usage.get("output_tokens") {
                Some(x) => match x.as_u64() {
                    Some(n) => n,
                    None => 0,
                },
                None => 0,
            };
            let cached_tokens = match nested_u64(usage, "prompt_tokens_details", "cached_tokens") {
                Some(c) => Some(c),
                None => nested_u64(usage, "input_tokens_details", "cached_tokens"),
            };
            TokenUsage { input_tokens, output_tokens, cached_tokens }
        },
    }
}

/// Read the identifier of a completed response.
pub fn extract_response_id(response: &Json) -> (r: Option<String>)
    ensures
        crate::text::opt_view(r) == json_str(json_get(*response, "id"@)),
{
    match get_str(response, "id") {
        Some(s) => Some(owned(s)),
        None => None,
    }
}

/// An encrypted reasoning blob of a response, replayed in the next turn.
#[derive(Debug, Clone, PartialEq, Eq)]
pub struct EncryptedReasoningBlob {
    pub id: Option<String>,
    pub encrypted_content: String,
}

/// The blob an output item carries: a `reasoning` item with an
/// `encrypted_content` string.
pub open spec fn blob_in(item: Json) -> Option<(Option<Seq<char>>, Seq<char>)> {
    if json_str(json_get(item, "type"@)) == Some("reasoning"@) {
        match json_str(json_get(item, "encrypted_content"@)) {
            Some(c) => Some((json_str(json_get(item, "id"@)), c)),
            None => None,
        }
    } else {
        None
    }
}

/// The blobs of the output items, in order.
pub open spec fn blobs_of(items: Seq<Json>) -> Seq<(Option<Seq<char>>, Seq<char>)>
    decreases items.len(),
{
    if items.len() == 0 {
        Seq::empty()
    } else {
        let a = blobs_of(items.drop_last());
        match blob_in(items.last()) {
            Some(b) => a.push(b),
            None => a,
        }
    }
}

/// A blob as its identifier and content.
pub open spec fn blob_view(b: EncryptedReasoningBlob) -> (Option<Seq<char>>, Seq<char>) {
    (crate::text::opt_view(b.id), b.encrypted_content@)
}

/// The encrypted reasoning blobs of a completed response's `output`.
pub open spec fn spec_extract_blobs(response: Json) -> Seq<(Option<Seq<char>>, Seq<char>)> {
    match json_items(json_get(response, "output"@)) {
        Some(items) => blobs_of(items),
        None => Seq::empty(),
    }
}

/// Collect the encrypted reasoning blobs of a completed response.
pub fn extract_encrypted_reasoning(response: &Json) -> (r: Vec<EncryptedReasoningBlob>)
    ensures
        Seq::new(r@.len(), |i: int| blob_view(r@[i])) == spec_extract_blobs(*response),
{
    let mut blobs: Vec<EncryptedReasoningBlob> = Vec::new();
    match get_array(response, "output") {
        Some(items) => {
            let n = items.len();
            let mut i: usize = 0;
            while i < n
                invariant
                    n == items@.len(),
                    i <= n,
                    Seq::new(blobs@.len(), |k: int| blob_view(blobs@[k])) == blobs_of(items@.take(i as int)),
                decreases n - i,
            {
                proof {
                    assert(items@.take(i + 1).drop_last() =~= items@.take(i as int));
                }
                let item = &items[i];
                let is_reasoning = match get_str(item, "type") {
                    Some(t) => str_eq(t, "reasoning"),
                    None => false,
                };
                if is_reasoning {
                    match get_str(item, "encrypted_content") {
                        Some(c) => {
                            let id = match get_str(item, "id") {
                                Some(x) => Some(owned(x)),
                                None => None,
                            };
                            let ghost prev = blobs@;
                            let b = EncryptedReasoningBlob { id, encrypted_content: owned(c) };
                            blobs.push(b);
                            proof {
                                assert(Seq::new(blobs@.len(), |k: int| blob_view(blobs@[k])) =~= Seq::new(
                                    prev.len(),
                                    |k: int| blob_view(prev[k]),
                                ).push(blob_view(b)));
                            }
                        },
                        None => {},
                    }
                }
                i = i + 1;
            }
            assert(items@.take(n as int) =~= items@);
        },
        None => {
            assert(Seq::new(blobs@.len(), |k: int| blob_view(blobs@[k])) =~= Seq::<(Option<Seq<char>>, Seq<char>)>::empty());
        },
    }
    blobs
}

/// The search results an output item carries: those of a web or X
/// search call.
pub open spec fn item_results(item: OutputItem) -> Seq<Json> {
    match item {
        OutputItem::WebSearchCall { search_results: Some(r) } => r@,
        OutputItem::XSearchCall { search_results: Some(r) } => r@,
        _ => Seq::empty(),
    }
}

/// The citations of the search calls among the output items, in order,
/// each listed once.
pub open spec fn citations_of_items(items: Seq<OutputItem>) -> Seq<(Seq<char>, Option<Seq<char>>)>
    decreases items.len(),
{
    if items.len() == 0 {
        Seq::empty()
    } else {
        add_new(citations_of_items(items.drop_last()), item_results(items.last()))
    }
}

/// Collect the citations of the search calls of a response's output.
pub fn extract_citations_from_output(output: &[OutputItem]) -> (r: Vec<Citation>)
    ensures
        cite_views(r@) == citations_of_items(output@),
{
    let mut cs: Vec<Citation> = Vec::new();
    let n = output.len();
    let mut i: usize = 0;
    assert(cite_views(cs@) =~= citations_of_items(output@.take(0)));
    while i < n
        invariant
            n == output@.len(),
            i <= n,
            cite_views(cs@) == citations_of_items(output@.take(i as int)),
        decreases n - i,
    {
        proof {
            assert(output@.take(i + 1).drop_last() =~= output@.take(i as int));
        }
        match &output[i] {
            OutputItem::WebSearchCall { search_results: Some(r) } => append_new(&mut cs, r),
            OutputItem::XSearchCall { search_results: Some(r) } => append_new(&mut cs, r),
            _ => {
                assert(add_new(cite_views(cs@), Seq::<Json>::empty()) == cite_views(cs@));
            },
        }
        i = i + 1;
    }
    assert(output@.take(n as int) =~= output@);
    cs
}

} // verus!

verus! {

/// The line of the `n`-th citation, from its URL and title.
pub open spec fn view_line(n: nat, v: (Seq<char>, Option<Seq<char>>)) -> Seq<char> {
    match v.1 {
        Some(t) => "  ["@ + crate::text::dec(n) + "] "@ + t + " — "@ + v.0 + "\n"@,
        None => "  ["@ + crate::text::dec(n) + "] "@ + v.0 + "\n"@,
    }
}

/// The lines of the first `k` citations, numbered from 1.
pub open spec fn view_lines(vs: Seq<(Seq<char>, Option<Seq<char>>)>, k: int) -> Seq<char>
    decreases k,
{
    if k <= 0 {
        Seq::empty()
    } else {
        view_lines(vs, k - 1) + view_line(k as nat, vs[k - 1])
    }
}

/// The citation block of citations given by URL and title: empty when
/// there are none, else a `Sources:` heading and one numbered line each.
pub open spec fn sources_block(vs: Seq<(Seq<char>, Option<Seq<char>>)>) -> Seq<char> {
    if vs.len() == 0 {
        Seq::empty()
    } else {
        "\nSources:\n"@ + view_lines(vs, vs.len() as int)
    }
}

proof fn lemma_lines_by_views(cs: Seq<Citation>, k: int)
    requires
        0 <= k <= cs.len(),
    ensures
        crate::search::citation_lines(cs, k) == view_lines(cite_views(cs), k),
    decreases k,
{
    if k > 0 {
        lemma_lines_by_views(cs, k - 1);
        assert(cite_views(cs)[k - 1] == cite_view(cs[k - 1]));
    }
}

/// The citation block depends only on the citations' URLs and titles.
pub proof fn lemma_format_by_views(cs: Seq<Citation>)
    ensures
        crate::search::spec_format_citations(cs) == sources_block(cite_views(cs)),
{
    lemma_lines_by_views(cs, cs.len() as int);
}

} // verus!
