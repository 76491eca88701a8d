//! Helpers of `grokrs sessions`: short identifiers, body truncation, the
//! `--older-than` duration, and RFC 3339 rendering of UNIX times.

use vstd::prelude::*;
use vstd::utf8::*;
use vstd::string::StringSliceAdditionalSpecFns;
use crate::calendar::{civil_from_days, days_to_ymd};
use crate::search::{all_digits, digits_value, is_digit, unsigned_digits};
use crate::text::{
    ascii_lowercase, boundary_at_or_before, dec, dec_int, join, lemma_str_decode, opt_str_view,
    opt_view, owned, pad_left, pad_right, push_char, push_i64, push_joined, push_line,
    push_pad_left, push_pad_right, push_u64, spec_starts_with, starts_with, str_eq, str_less,
    text_less, texts, to_ascii_lowercase, trim, trimmed, truncate_utf8, u64_to_string,
    utf8_prefix, zero_pad,
};

verus! {

/// The `grokrs sessions` subcommands.
#[derive(Debug, Clone, PartialEq, Eq)]
pub enum SessionsCommand {
    /// List sessions, optionally only active ones, or those in one state,
    /// at most `limit` rows.
    List { active: bool, state: Option<String>, limit: Option<u32> },
    /// Full detail for a session (ID or unique prefix).
    Show { id: String },
    /// The transcript of a session, bodies cut at `max_body` bytes.
    Transcript { id: String, max_body: usize },
    /// Delete old Closed or Failed sessions.
    Clean { older_than: String, yes: bool },
}

/// The first eight bytes of an identifier, or all of it when shorter.
pub fn short_id(id: &str) -> (r: &str)
    requires
        is_char_boundary(id.spec_bytes(), if id.spec_bytes().len() < 8 { id.spec_bytes().len() as int } else { 8 }),
    ensures
        r.spec_bytes() == id.spec_bytes().subrange(0, if id.spec_bytes().len() < 8 { id.spec_bytes().len() as int } else { 8 }),
        r@ == utf8_prefix(id@, 8),
{
    proof {
        lemma_str_decode(id);
        crate::text::lemma_boundary_at_or_before(id.spec_bytes(), 8);
        if id.spec_bytes().len() >= 8 {
            assert(boundary_at_or_before(id.spec_bytes(), 8) == 8) by {
                reveal_with_fuel(boundary_at_or_before, 2);
            }
        }
    }
    let len = id.as_bytes().len();
    let k = if len < 8 { len } else { 8 };
    let (head, _) = id.split_at(k);
    proof {
        lemma_str_decode(head);
        if len < 8 {
            assert(id.spec_bytes().subrange(0, len as int) =~= id.spec_bytes());
            vstd::utf8::is_char_boundary_start_end_of_seq(id.spec_bytes());
            assert(boundary_at_or_before(id.spec_bytes(), 8) == len) by {
                reveal_with_fuel(boundary_at_or_before, 2);
            }
        }
    }
    head
}

/// The body itself when it has at most `max_bytes` bytes, else its longest
/// prefix within `max_bytes` bytes followed by a note with the full length.
pub open spec fn spec_truncate_body(body: Seq<char>, max_bytes: int) -> Seq<char> {
    if encode_utf8(body).len() <= max_bytes {
        body
    } else {
        utf8_prefix(body, max_bytes) + "... [truncated, "@ + dec(encode_utf8(body).len()) + " total bytes]"@
    }
}

/// Truncate a request or response body for display.
pub fn truncate_body(body: &str, max_bytes: usize) -> (r: String)
    ensures
        r@ == spec_truncate_body(body@, max_bytes as int),
{
    let len = body.as_bytes().len();
    if len <= max_bytes {
        return owned(body);
    }
    let mut s = owned(truncate_utf8(body, max_bytes));
    s.append("... [truncated, ");
    push_u64(&mut s, len as u64);
    s.append(" total bytes]");
    s
}

/// Whether `u64::from_str` accepts `p`: digits, optionally after one `+`,
/// with a value that fits.
pub open spec fn parses_u64(p: Seq<char>) -> bool {
    all_digits(unsigned_digits(p)) && digits_value(unsigned_digits(p)) <= u64::MAX
}

/// The value of the characters of `s` as `u64::from_str` reads them, or
/// `None` when it refuses them.
pub fn parse_u64(s: &str) -> (r: Option<u64>)
    ensures
        (r is Some) == parses_u64(s@),
        r matches Some(v) ==> v == digits_value(unsigned_digits(s@)),
{
    let n = s.unicode_len();
    if n == 0 {
        return None;
    }
    let start: usize = if s.get_char(0) == '+' { 1 } else { 0 };
    let ghost d = unsigned_digits(s@);
    assert(d =~= s@.subrange(start as int, n as int));
    if start == n {
        return None;
    }
    let mut v: u64 = 0;
    let mut i = start;
    while i < n
        invariant
            start <= i <= n,
            n == s@.len(),
            start < n,
            d == s@.subrange(start as int, n as int),
            d == unsigned_digits(s@),
            forall|k: int| 0 <= k < i - start ==> is_digit(#[trigger] d[k]),
            v == digits_value(d.subrange(0, i - start)),
        decreases n - i,
    {
        let c = s.get_char(i);
        if !('0' <= c && c <= '9') {
            assert(d[i - start] == c);
            assert(!is_digit(d[i - start]));
            assert(!all_digits(d));
            return None;
        }
        let ghost q = d.subrange(0, i - start + 1);
        assert(q.drop_last() =~= d.subrange(0, i - start));
        let dv = (c as u32) - ('0' as u32);
        assert(digits_value(q) == v * 10 + dv);
        if v > (u64::MAX - dv as u64) / 10 {
            proof {
                lemma_digits_monotone(d, i - start + 1);
                assert(v * 10 + dv > u64::MAX) by (nonlinear_arith)
                    requires v > (u64::MAX - dv as u64) / 10, dv < 10;
                assert(digits_value(d) >= digits_value(q));
                assert(digits_value(d) > u64::MAX);
            }
            return None;
        }
        v = v * 10 + dv as u64;
        i = i + 1;
    }
    assert(d.subrange(0, d.len() as int) =~= d);
    Some(v)
}

/// The value of a digit string grows with its prefixes.
proof fn lemma_digits_monotone(d: Seq<char>, k: int)
    requires
        0 <= k <= d.len(),
        forall|i: int| 0 <= i < d.len() ==> is_digit(#[trigger] d[i]) || true,
    ensures
        digits_value(d.subrange(0, k)) <= digits_value(d),
        d.len() > 0 ==> true,
    decreases d.len() - k,
{
    if k < d.len() {
        lemma_digits_monotone(d, k + 1);
        let a = d.subrange(0, k + 1);
        assert(a.drop_last() =~= d.subrange(0, k));
        let x = digits_value(d.subrange(0, k));
        let dv = ((a.last() as u32) - ('0' as u32)) as nat;
        assert(x <= x * 10 + dv) by (nonlinear_arith);
    } else {
        assert(d.subrange(0, k) =~= d);
    }
}

/// The RFC 3339 text of a UNIX time, in UTC with second precision.
pub open spec fn spec_rfc3339(secs: nat) -> Seq<char> {
    let (y, m, d) = civil_from_days(secs / 86400);
    let t = secs % 86400;
    zero_pad(dec(y as nat), 4) + "-"@ + zero_pad(dec(m as nat), 2) + "-"@ + zero_pad(dec(d as nat), 2)
        + "T"@ + zero_pad(dec(t / 3600), 2) + ":"@ + zero_pad(dec((t % 3600) / 60), 2) + ":"@
        + zero_pad(dec(t % 60), 2) + "Z"@
}

/// Appends `n` in decimal, left-padded with zeros to `width` characters.
pub fn push_padded(out: &mut String, n: u64, width: usize)
    ensures
        final(out)@ == old(out)@ + zero_pad(dec(n as nat), width as nat),
{
    let digits = crate::text::u64_to_string(n);
    let len = digits.unicode_len();
    let ghost start = out@;
    if len < width {
        let mut i: usize = 0;
        while i < width - len
            invariant
                len < width,
                i <= width - len,
                out@ == start + Seq::new(i as nat, |k: int| '0'),
            decreases width - len - i,
        {
            push_char(out, '0');
            i = i + 1;
            assert(out@ =~= start + Seq::new(i as nat, |k: int| '0'));
        }
    }
    out.append(digits.as_str());
    assert(final(out)@ =~= old(out)@ + zero_pad(dec(n as nat), width as nat));
}

/// The RFC 3339 text of a UNIX time.
pub fn epoch_to_rfc3339(secs: u64) -> (s: String)
    ensures
        s@ == spec_rfc3339(secs as nat),
{
    let days = secs / 86400;
    let time_of_day = secs % 86400;
    let hours = time_of_day / 3600;
    let minutes = (time_of_day % 3600) / 60;
    let seconds = time_of_day % 60;
    let (year, month, day) = days_to_ymd(days);
    let mut s = String::new();
    push_padded(&mut s, year, 4);
    s.append("-");
    push_padded(&mut s, month, 2);
    s.append("-");
    push_padded(&mut s, day, 2);
    s.append("T");
    push_padded(&mut s, hours, 2);
    s.append(":");
    push_padded(&mut s, minutes, 2);
    s.append(":");
    push_padded(&mut s, seconds, 2);
    s.append("Z");
    assert(s@ =~= spec_rfc3339(secs as nat));
    s
}

pub const DURATION_FORMAT_TAIL: &'static str = "'. Expected format: <number><unit> where unit is d (days), h (hours), or m (minutes). Examples: 7d, 24h, 30m";

/// The seconds of a duration unit: days, hours or minutes.
pub open spec fn unit_seconds(u: char) -> int {
    if u == 'd' { 86400 } else if u == 'h' { 3600 } else if u == 'm' { 60 } else { 0 }
}

/// The length of a duration, or the error for it, as `--older-than` reads
/// it: trimmed, a number with a `d`, `h` or `m` suffix.
pub open spec fn spec_duration(text: Seq<char>) -> Result<int, Seq<char>> {
    let t = trimmed(text);
    if t.len() == 0 {
        Err("Empty duration string"@)
    } else if unit_seconds(t.last()) == 0 {
        Err("Invalid duration format '"@ + t + DURATION_FORMAT_TAIL@)
    } else if !parses_u64(t.drop_last()) {
        Err("Invalid number in duration '"@ + t + "'"@)
    } else {
        Ok(digits_value(unsigned_digits(t.drop_last())) * unit_seconds(t.last()))
    }
}

/// The cutoff for cleaning sessions older than `duration_str` at the UNIX
/// time `now`: `now` minus the duration (not below zero) in RFC 3339.
pub open spec fn spec_cutoff(text: Seq<char>, now: nat) -> Result<Seq<char>, Seq<char>> {
    match spec_duration(text) {
        Ok(secs) => Ok(spec_rfc3339(if now >= secs { (now - secs) as nat } else { 0 })),
        Err(e) => Err(e),
    }
}

/// Durations count days of 86400 seconds, hours of 3600 and minutes of
/// 60: for a count `n` written in digits, `<n>d`, `<n>h` and `<n>m` last
/// `86400 * n`, `3600 * n` and `60 * n` seconds, so an hour is sixty
/// minutes and a day twenty-four hours; and the cleaning cutoff of `<n>h`
/// at `now` is the time `3600 * n` seconds before `now` (the epoch when
/// `now` is earlier).
pub proof fn lemma_duration_units(digits: Seq<char>, now: nat)
    requires
        all_digits(digits),
        digits_value(digits) <= u64::MAX,
    ensures
        spec_duration(digits + "d"@) == Ok::<int, Seq<char>>((86400 * digits_value(digits)) as int),
        spec_duration(digits + "h"@) == Ok::<int, Seq<char>>((3600 * digits_value(digits)) as int),
        spec_duration(digits + "m"@) == Ok::<int, Seq<char>>((60 * digits_value(digits)) as int),
        spec_cutoff(digits + "h"@, now) == Ok::<Seq<char>, Seq<char>>(spec_rfc3339(
            if now >= 3600 * digits_value(digits) { (now - 3600 * digits_value(digits)) as nat } else { 0 },
        )),
{
    reveal_strlit("d");
    reveal_strlit("h");
    reveal_strlit("m");
    assert(is_digit(digits[0]));
    assert(unsigned_digits(digits) == digits);
    assert("d"@ =~= seq!['d']);
    assert("h"@ =~= seq!['h']);
    assert("m"@ =~= seq!['m']);
    lemma_duration_unit(digits, 'd', "d"@);
    lemma_duration_unit(digits, 'h', "h"@);
    lemma_duration_unit(digits, 'm', "m"@);
}

proof fn lemma_duration_unit(digits: Seq<char>, u: char, s: Seq<char>)
    requires
        all_digits(digits),
        s == seq![u],
        u == 'd' || u == 'h' || u == 'm',
    ensures
        trimmed(digits + s) == digits + s,
        (digits + s).last() == u,
        (digits + s).drop_last() == digits,
{
    let t = digits + s;
    assert(t[0] == digits[0]);
    assert(is_digit(digits[0]));
    assert(!crate::text::is_ws(t[0]));
    assert(t.last() == u);
    assert(!crate::text::is_ws(u));
    assert(t.drop_last() =~= digits);
}

/// The cutoff timestamp for `duration_str` at the UNIX time `now`.
pub fn compute_cutoff_at(duration_str: &str, now: u64) -> (r: Result<String, String>)
    requires
        spec_duration(duration_str@) matches Ok(secs) ==> secs <= u64::MAX,
    ensures
        match spec_cutoff(duration_str@, now as nat) {
            Ok(t) => r matches Ok(s) && s@ == t,
            Err(e) => r matches Err(m) && m@ == e,
        },
{
    let trimmed_str = trim(duration_str);
    let n = trimmed_str.unicode_len();
    if n == 0 {
        return Err(owned("Empty duration string"));
    }
    let unit = trimmed_str.get_char(n - 1);
    let factor: u64 = if unit == 'd' { 86400 } else if unit == 'h' { 3600 } else if unit == 'm' { 60 } else { 0 };
    if factor == 0 {
        let mut e = owned("Invalid duration format '");
        e.append(trimmed_str);
        e.append(DURATION_FORMAT_TAIL);
        return Err(e);
    }
    let num_str = trimmed_str.substring_char(0, n - 1);
    assert(num_str@ =~= trimmed_str@.drop_last());
    let num = match parse_u64(num_str) {
        Some(v) => v,
        None => {
            let mut e = owned("Invalid number in duration '");
            e.append(trimmed_str);
            e.append("'");
            return Err(e);
        },
    };
    let seconds: u64 = num * factor;
    let cutoff: u64 = if now >= seconds { now - seconds } else { 0 };
    Ok(epoch_to_rfc3339(cutoff))
}

/// The text of a successful result.
pub open spec fn ok_text(r: Result<String, String>) -> Seq<char> {
    match r {
        Ok(s) => s@,
        Err(_) => Seq::empty(),
    }
}

/// The current UNIX time in seconds, read from the system clock; a clock
/// set before 1970 reads as 0. Nothing is stated of the value.
#[verifier::external_body]
fn unix_now() -> (t: u64) {
    std::time::SystemTime::now().duration_since(std::time::UNIX_EPOCH).map_or(0, |d| d.as_secs())
}

/// The cutoff timestamp for cleaning sessions older than `duration_str`,
/// measured from the current time. The current time is read once; whatever
/// it is, the result is the cutoff of `spec_cutoff` at that time.
pub fn compute_cutoff_timestamp(duration_str: &str) -> (r: Result<String, String>)
    requires
        spec_duration(duration_str@) matches Ok(secs) ==> secs <= u64::MAX,
    ensures
        spec_duration(duration_str@) matches Err(e) ==> r matches Err(m) && m@ == e,
        spec_duration(duration_str@) is Ok ==> r is Ok && exists|now: nat| now <= u64::MAX
            && spec_cutoff(duration_str@, now) == Ok::<Seq<char>, Seq<char>>(ok_text(r)),
{
    let now = unix_now();
    let r = compute_cutoff_at(duration_str, now);
    proof {
        if spec_duration(duration_str@) is Ok {
            assert(spec_cutoff(duration_str@, now as nat) == Ok::<Seq<char>, Seq<char>>(ok_text(r)));
        }
    }
    r
}

/// The bytes of a string slice are the UTF-8 encoding of its characters.
pub proof fn lemma_str_bytes(s: &str)
    ensures
        encode_utf8(s@) == s.spec_bytes(),
{
    lemma_str_decode(s);
    broadcast use vstd::utf8::decode_utf8_encode_utf8;
}

/// A stored session as the sessions commands show it.
#[derive(Debug, Clone, PartialEq, Eq)]
pub struct SessionRecord {
    pub id: String,
    pub state: String,
    pub trust_level: String,
    pub created_at: String,
    pub updated_at: String,
}

/// The bytes of a text.
pub open spec fn byte_len(s: Seq<char>) -> int {
    encode_utf8(s).len() as int
}

/// Cutting `s` after `k` bytes (or at its end when shorter) does not split
/// a character.
pub open spec fn cuttable(s: Seq<char>, k: int) -> bool {
    is_char_boundary(encode_utf8(s), if byte_len(s) < k { byte_len(s) } else { k })
}

/// The line for one session among the matches of an ambiguous prefix.
pub open spec fn match_line(r: SessionRecord) -> Seq<char> {
    "  "@ + utf8_prefix(r.id@, 12) + "  state="@ + r.state@ + "  updated="@ + r.updated_at@ + "\n"@
}

/// The lines for the first `k` matches.
pub open spec fn match_lines(ms: Seq<SessionRecord>, k: int) -> Seq<char>
    decreases k,
{
    if k <= 0 {
        Seq::empty()
    } else {
        match_lines(ms, k - 1) + match_line(ms[k - 1])
    }
}

/// The session a prefix names: the exact match if there is one, else the
/// only session whose identifier starts with the prefix; no match and
/// several matches are errors.
pub open spec fn spec_resolve_session(prefix: Seq<char>, exact: Option<SessionRecord>, matches: Seq<SessionRecord>) -> Result<SessionRecord, Seq<char>> {
    match exact {
        Some(r) => Ok(r),
        None => if matches.len() == 0 {
            Err("No session found matching '"@ + prefix + "'."@)
        } else if matches.len() == 1 {
            Ok(matches[0])
        } else {
            Err("Ambiguous session ID prefix '"@ + prefix + "' matches "@ + dec(matches.len())
                + " sessions:\n"@ + match_lines(matches, matches.len() as int)
                + "\nPlease provide a longer prefix to uniquely identify the session."@)
        },
    }
}

/// Resolve a session identifier or prefix from what the store found: the
/// session with exactly that identifier, if any, and the sessions whose
/// identifiers start with it.
pub fn resolve_session_id(prefix: &str, exact: Option<SessionRecord>, matches: Vec<SessionRecord>) -> (r: Result<SessionRecord, String>)
    requires
        forall|i: int| 0 <= i < matches@.len() ==> cuttable(#[trigger] matches@[i].id@, 12),
    ensures
        match spec_resolve_session(prefix@, exact, matches@) {
            Ok(rec) => r == Ok::<SessionRecord, String>(rec),
            Err(e) => r matches Err(m) && m@ == e,
        },
{
    if let Some(rec) = exact {
        return Ok(rec);
    }
    let n = matches.len();
    if n == 0 {
        let mut m = owned("No session found matching '");
        m.append(prefix);
        m.append("'.");
        return Err(m);
    }
    if n == 1 {
        let mut matches = matches;
        let rec = matches.remove(0);
        return Ok(rec);
    }
    let mut m = owned("Ambiguous session ID prefix '");
    m.append(prefix);
    m.append("' matches ");
    push_u64(&mut m, n as u64);
    m.append(" sessions:\n");
    let ghost start = m@;
    let mut i: usize = 0;
    while i < n
        invariant
            n == matches@.len(),
            i <= n,
            m@ == start + match_lines(matches@, i as int),
        decreases n - i,
    {
        let rec = &matches[i];
        m.append("  ");
        m.append(truncate_utf8(rec.id.as_str(), 12));
        m.append("  state=");
        m.append(rec.state.as_str());
        m.append("  updated=");
        m.append(rec.updated_at.as_str());
        m.append("\n");
        i = i + 1;
        assert(m@ =~= start + match_lines(matches@, i as int));
    }
    m.append("\nPlease provide a longer prefix to uniquely identify the session.");
    Err(m)
}

/// A session state as the list shows it: states longer than 16 bytes are
/// cut to 13 bytes and marked with `...`.
pub open spec fn state_display(state: Seq<char>) -> Seq<char> {
    if byte_len(state) > 16 {
        utf8_prefix(state, 13) + "..."@
    } else {
        state
    }
}

/// The column heading of the session list.
pub open spec fn list_header() -> Seq<char> {
    pad_right("ID"@, 10) + " "@ + pad_right("STATE"@, 18) + " "@ + pad_right("TRUST"@, 15) + " "@
        + pad_right("CREATED"@, 22) + " "@ + pad_right("UPDATED"@, 22) + " "@ + pad_left("TURNS"@, 6)
}

/// The list row of a session with `count` transcripts.
pub open spec fn list_row(r: SessionRecord, count: u64) -> Seq<char> {
    pad_right(utf8_prefix(r.id@, 8), 10) + " "@ + pad_right(state_display(r.state@), 18) + " "@
        + pad_right(r.trust_level@, 15) + " "@ + pad_right(r.created_at@, 22) + " "@
        + pad_right(r.updated_at@, 22) + " "@ + pad_left(dec(count as nat), 6)
}

/// A row can be formed without splitting a character.
pub open spec fn row_cuttable(r: SessionRecord) -> bool {
    &&& cuttable(r.id@, 8)
    &&& byte_len(r.state@) > 16 ==> is_char_boundary(encode_utf8(r.state@), 13)
}

/// The sessions the list shows: with `--active` or `--state` the limit is
/// applied here (the store applies it to the full listing itself).
pub open spec fn spec_shown(sessions: Seq<SessionRecord>, filtered: bool, limit: Option<u32>) -> Seq<SessionRecord> {
    match limit {
        Some(n) => if filtered && n < sessions.len() {
            sessions.take(n as int)
        } else {
            sessions
        },
        None => sessions,
    }
}

/// Apply the row limit of a filtered listing.
pub fn limit_sessions(sessions: Vec<SessionRecord>, active: bool, state: Option<&str>, limit: Option<u32>) -> (r: Vec<SessionRecord>)
    ensures
        r@ == spec_shown(sessions@, active || state is Some, limit),
{
    let filtered = active || state.is_some();
    match limit {
        Some(n) => {
            if filtered && (n as usize) < sessions.len() {
                let mut sessions = sessions;
                sessions.truncate(n as usize);
                sessions
            } else {
                sessions
            }
        },
        None => sessions,
    }
}

/// The line printed when the list is empty.
pub open spec fn empty_list_message(active: bool, state: Option<Seq<char>>) -> Seq<char> {
    if active {
        "No active sessions found."@
    } else {
        match state {
            Some(st) => "No sessions found with state '"@ + st + "'."@,
            None => "No sessions found. Run a chat or API command to create one."@,
        }
    }
}

/// The rows of the first `k` sessions.
pub open spec fn list_rows(sessions: Seq<SessionRecord>, counts: Seq<u64>, k: int) -> Seq<Seq<char>> {
    Seq::new(k as nat, |i: int| list_row(sessions[i], counts[i]))
}

/// The lines of `sessions list` for the shown sessions and their
/// transcript counts.
pub open spec fn spec_list_lines(sessions: Seq<SessionRecord>, counts: Seq<u64>, active: bool, state: Option<Seq<char>>) -> Seq<Seq<char>> {
    if sessions.len() == 0 {
        seq![empty_list_message(active, state)]
    } else {
        seq![list_header(), spaces_of('-', 95)] + list_rows(sessions, counts, sessions.len() as int)
            + seq!["\n"@ + dec(sessions.len()) + " session(s) shown."@]
    }
}

/// `n` copies of `c`.
pub open spec fn spaces_of(c: char, n: nat) -> Seq<char> {
    Seq::new(n, |i: int| c)
}

fn state_shown(state: &str) -> (r: String)
    ensures
        r@ == state_display(state@),
{
    proof {
        lemma_str_bytes(state);
    }
    if state.as_bytes().len() > 16 {
        let mut st = owned(truncate_utf8(state, 13));
        st.append("...");
        st
    } else {
        owned(state)
    }
}

fn push_row(out: &mut String, r: &SessionRecord, count: u64)
    ensures
        final(out)@ == old(out)@ + list_row(*r, count),
{
    let ghost start = out@;
    push_pad_right(out, truncate_utf8(r.id.as_str(), 8), 10);
    out.append(" ");
    let st = state_shown(r.state.as_str());
    push_pad_right(out, st.as_str(), 18);
    out.append(" ");
    push_pad_right(out, r.trust_level.as_str(), 15);
    out.append(" ");
    push_pad_right(out, r.created_at.as_str(), 22);
    out.append(" ");
    push_pad_right(out, r.updated_at.as_str(), 22);
    out.append(" ");
    let c = u64_to_string(count);
    push_pad_left(out, c.as_str(), 6);
    assert(out@ =~= start + list_row(*r, count));
}

/// The lines `sessions list` prints for the shown sessions, given the
/// transcript count of each.
pub fn list_lines(sessions: &Vec<SessionRecord>, counts: &Vec<u64>, active: bool, state: Option<&str>) -> (r: Vec<String>)
    requires
        counts@.len() == sessions@.len(),
        forall|i: int| 0 <= i < sessions@.len() ==> row_cuttable(#[trigger] sessions@[i]),
    ensures
        texts(r@) == spec_list_lines(sessions@, counts@, active, opt_str_view(state)),
{
    let mut lines: Vec<String> = Vec::new();
    let n = sessions.len();
    if n == 0 {
        let msg = if active {
            owned("No active sessions found.")
        } else {
            match state {
                Some(st) => {
                    let mut m = owned("No sessions found with state '");
                    m.append(st);
                    m.append("'.");
                    m
                },
                None => owned("No sessions found. Run a chat or API command to create one."),
            }
        };
        lines.push(msg);
        assert(texts(lines@) =~= spec_list_lines(sessions@, counts@, active, opt_str_view(state)));
        return lines;
    }
    let mut header = String::new();
    push_pad_right(&mut header, "ID", 10);
    header.append(" ");
    push_pad_right(&mut header, "STATE", 18);
    header.append(" ");
    push_pad_right(&mut header, "TRUST", 15);
    header.append(" ");
    push_pad_right(&mut header, "CREATED", 22);
    header.append(" ");
    push_pad_right(&mut header, "UPDATED", 22);
    header.append(" ");
    push_pad_left(&mut header, "TURNS", 6);
    lines.push(header);
    let mut dashes = String::new();
    let mut k: usize = 0;
    while k < 95
        invariant
            k <= 95,
            dashes@ == spaces_of('-', k as nat),
        decreases 95 - k,
    {
        push_char(&mut dashes, '-');
        k = k + 1;
        assert(dashes@ =~= spaces_of('-', k as nat));
    }
    lines.push(dashes);
    let mut i: usize = 0;
    while i < n
        invariant
            n == sessions@.len(),
            counts@.len() == n,
            i <= n,
            forall|j: int| 0 <= j < sessions@.len() ==> row_cuttable(#[trigger] sessions@[j]),
            texts(lines@) == seq![list_header(), spaces_of('-', 95)] + list_rows(sessions@, counts@, i as int),
        decreases n - i,
    {
        let mut row = String::new();
        push_row(&mut row, &sessions[i], counts[i]);
        let ghost prev = lines@;
        let ghost line = row@;
        lines.push(row);
        proof {
            let target = seq![list_header(), spaces_of('-', 95)] + list_rows(sessions@, counts@, i + 1);
            assert(line =~= list_row(sessions@[i as int], counts@[i as int]));
            let before = seq![list_header(), spaces_of('-', 95)] + list_rows(sessions@, counts@, i as int);
            assert(texts(prev) == before);
            assert(texts(prev).len() == prev.len());
            assert(list_rows(sessions@, counts@, i as int).len() == i);
            assert(before.len() == i + 2);
            assert(prev.len() == i + 2);
            assert forall|j: int| 0 <= j < target.len() implies #[trigger] texts(lines@)[j] == target[j] by {
                assert(texts(lines@)[j] == lines@[j]@);
                if j < prev.len() {
                    assert(lines@[j] == prev[j]);
                    assert(texts(prev)[j] == prev[j]@);
                    assert(before[j] == target[j]);
                } else {
                    assert(j == i + 2);
                    assert(lines@[j]@ == line);
                    assert(target[j] == list_rows(sessions@, counts@, i + 1)[i as int]);
                }
            }
            assert(texts(lines@) =~= target);
        }
        i = i + 1;
    }
    let mut footer = owned("\n");
    push_u64(&mut footer, n as u64);
    footer.append(" session(s) shown.");
    lines.push(footer);
    assert(texts(lines@) =~= spec_list_lines(sessions@, counts@, active, opt_str_view(state)));
    lines
}

/// A recorded API exchange of a session.
#[derive(Debug, Clone)]
pub struct TranscriptRecord {
    pub request_at: String,
    pub method: String,
    pub endpoint: String,
    pub request_body: Option<String>,
    pub response_at: Option<String>,
    pub status_code: Option<i64>,
    pub response_body: Option<String>,
    pub error: Option<String>,
    pub input_tokens: Option<u64>,
    pub output_tokens: Option<u64>,
    pub reasoning_tokens: Option<u64>,
    pub response_id: Option<String>,
}

/// A labelled line for a value that may be absent.
pub open spec fn opt_line(label: Seq<char>, v: Option<Seq<char>>) -> Seq<Seq<char>> {
    match v {
        Some(x) => seq![label + x],
        None => Seq::empty(),
    }
}

/// A body as the transcript shows it.
pub open spec fn shown_body(b: Option<String>, max: int) -> Option<Seq<char>> {
    match b {
        Some(x) => Some(spec_truncate_body(x@, max)),
        None => None,
    }
}

/// A number as the transcript shows it.
pub open spec fn shown_number(v: Option<i64>) -> Option<Seq<char>> {
    match v {
        Some(x) => Some(dec_int(x as int)),
        None => None,
    }
}

/// A usage figure, if recorded.
pub open spec fn usage_part(label: Seq<char>, v: Option<u64>) -> Seq<Seq<char>> {
    match v {
        Some(x) => seq![label + dec(x as nat)],
        None => Seq::empty(),
    }
}

/// The usage figures of an exchange.
pub open spec fn usage_parts(t: TranscriptRecord) -> Seq<Seq<char>> {
    usage_part("input="@, t.input_tokens) + usage_part("output="@, t.output_tokens)
        + usage_part("reasoning="@, t.reasoning_tokens)
}

/// The usage line of an exchange, when any figure was recorded.
pub open spec fn usage_lines(t: TranscriptRecord) -> Seq<Seq<char>> {
    if usage_parts(t).len() > 0 {
        seq!["  usage:       "@ + join(usage_parts(t), ", "@)]
    } else {
        Seq::empty()
    }
}

/// The first lines of an exchange: its number, time and endpoint.
pub open spec fn turn_head(n: nat, t: TranscriptRecord) -> Seq<Seq<char>> {
    seq!["--- Turn "@ + dec(n) + " ---"@, "  request_at:  "@ + t.request_at@,
        "  endpoint:    "@ + t.method@ + " "@ + t.endpoint@]
}

/// The request, response and error lines of an exchange.
pub open spec fn turn_body(t: TranscriptRecord, max: int) -> Seq<Seq<char>> {
    opt_line("  request:     "@, shown_body(t.request_body, max))
        + opt_line("  response_at: "@, opt_view(t.response_at))
        + opt_line("  status:      "@, shown_number(t.status_code))
        + opt_line("  response:    "@, shown_body(t.response_body, max))
        + opt_line("  error:       "@, opt_view(t.error))
}

/// The last lines of an exchange: usage, response identifier, a blank line.
pub open spec fn turn_tail(t: TranscriptRecord) -> Seq<Seq<char>> {
    usage_lines(t) + opt_line("  response_id: "@, opt_view(t.response_id)) + seq![Seq::<char>::empty()]
}

/// The lines of the `n`-th exchange of a transcript.
pub open spec fn turn_lines(n: nat, t: TranscriptRecord, max: int) -> Seq<Seq<char>> {
    turn_head(n, t) + turn_body(t, max) + turn_tail(t)
}

/// The lines of the first `k` exchanges.
pub open spec fn all_turn_lines(ts: Seq<TranscriptRecord>, k: int, max: int) -> Seq<Seq<char>>
    decreases k,
{
    if k <= 0 {
        Seq::empty()
    } else {
        all_turn_lines(ts, k - 1, max) + turn_lines(k as nat, ts[k - 1], max)
    }
}

/// What `sessions transcript` prints for a session's exchanges, with bodies
/// cut to `max` bytes.
pub open spec fn spec_transcript_lines(id: Seq<char>, ts: Seq<TranscriptRecord>, max: int) -> Seq<Seq<char>> {
    if ts.len() == 0 {
        seq!["No transcripts found for session "@ + utf8_prefix(id, 8) + "."@]
    } else {
        seq!["Transcript for session "@ + utf8_prefix(id, 8) + " ("@ + dec(ts.len()) + " entries):"@,
            Seq::<char>::empty()] + all_turn_lines(ts, ts.len() as int, max)
    }
}

fn push_opt_line(lines: &mut Vec<String>, label: &str, v: Option<String>)
    ensures
        texts(final(lines)@) == texts(old(lines)@) + opt_line(label@, opt_view(v)),
{
    match v {
        Some(x) => {
            let mut l = owned(label);
            l.append(x.as_str());
            push_line(lines, l);
            assert(texts(final(lines)@) =~= texts(old(lines)@) + opt_line(label@, opt_view(v)));
        },
        None => {
            assert(texts(old(lines)@) + opt_line(label@, opt_view(v)) =~= texts(old(lines)@));
        },
    }
}

fn opt_truncated(b: &Option<String>, max: usize) -> (r: Option<String>)
    ensures
        opt_view(r) == shown_body(*b, max as int),
{
    match b {
        Some(x) => Some(truncate_body(x.as_str(), max)),
        None => None,
    }
}

fn opt_number(v: Option<i64>) -> (r: Option<String>)
    ensures
        opt_view(r) == shown_number(v),
{
    match v {
        Some(x) => {
            let mut s = String::new();
            push_i64(&mut s, x);
            Some(s)
        },
        None => None,
    }
}

fn opt_clone(v: &Option<String>) -> (r: Option<String>)
    ensures
        opt_view(r) == opt_view(*v),
{
    match v {
        Some(x) => Some(owned(x.as_str())),
        None => None,
    }
}

fn push_usage_part(parts: &mut Vec<String>, label: &str, v: Option<u64>)
    ensures
        texts(final(parts)@) == texts(old(parts)@) + usage_part(label@, v),
{
    match v {
        Some(x) => {
            let mut p = owned(label);
            push_u64(&mut p, x);
            push_line(parts, p);
            assert(texts(final(parts)@) =~= texts(old(parts)@) + usage_part(label@, v));
        },
        None => {
            assert(texts(old(parts)@) + usage_part(label@, v) =~= texts(old(parts)@));
        },
    }
}

fn push_turn_head(lines: &mut Vec<String>, n: usize, t: &TranscriptRecord)
    ensures
        texts(final(lines)@) == texts(old(lines)@) + turn_head(n as nat, *t),
{
    let mut head = owned("--- Turn ");
    push_u64(&mut head, n as u64);
    head.append(" ---");
    push_line(lines, head);
    let mut l = owned("  request_at:  ");
    l.append(t.request_at.as_str());
    push_line(lines, l);
    let mut l = owned("  endpoint:    ");
    l.append(t.method.as_str());
    l.append(" ");
    l.append(t.endpoint.as_str());
    push_line(lines, l);
    assert(texts(lines@) =~= texts(old(lines)@) + turn_head(n as nat, *t));
}

fn push_turn_body(lines: &mut Vec<String>, t: &TranscriptRecord, max: usize)
    ensures
        texts(final(lines)@) == texts(old(lines)@) + turn_body(*t, max as int),
{
    let ghost start = texts(lines@);
    push_opt_line(lines, "  request:     ", opt_truncated(&t.request_body, max));
    push_opt_line(lines, "  response_at: ", opt_clone(&t.response_at));
    push_opt_line(lines, "  status:      ", opt_number(t.status_code));
    push_opt_line(lines, "  response:    ", opt_truncated(&t.response_body, max));
    push_opt_line(lines, "  error:       ", opt_clone(&t.error));
    assert(texts(lines@) =~= start + turn_body(*t, max as int));
}

fn push_turn_tail(lines: &mut Vec<String>, t: &TranscriptRecord)
    ensures
        texts(final(lines)@) == texts(old(lines)@) + turn_tail(*t),
{
    let ghost start = texts(lines@);
    let mut parts: Vec<String> = Vec::new();
    push_usage_part(&mut parts, "input=", t.input_tokens);
    push_usage_part(&mut parts, "output=", t.output_tokens);
    push_usage_part(&mut parts, "reasoning=", t.reasoning_tokens);
    assert(texts(parts@) =~= usage_parts(*t));
    if parts.len() > 0 {
        let mut l = owned("  usage:       ");
        push_joined(&mut l, &parts, ", ");
        push_line(lines, l);
        assert(texts(lines@) =~= start + usage_lines(*t));
    } else {
        assert(usage_lines(*t) =~= Seq::<Seq<char>>::empty());
        assert(texts(lines@) =~= start + usage_lines(*t));
    }
    push_opt_line(lines, "  response_id: ", opt_clone(&t.response_id));
    push_line(lines, String::new());
    assert(texts(lines@) =~= start + turn_tail(*t));
}

fn push_turn(lines: &mut Vec<String>, n: usize, t: &TranscriptRecord, max: usize)
    ensures
        texts(final(lines)@) == texts(old(lines)@) + turn_lines(n as nat, *t, max as int),
{
    let ghost start = texts(lines@);
    push_turn_head(lines, n, t);
    push_turn_body(lines, t, max);
    push_turn_tail(lines, t);
    assert(texts(lines@) =~= start + turn_lines(n as nat, *t, max as int));
}

/// The lines `sessions transcript` prints for the session `id` and its
/// recorded exchanges, with bodies cut to `max_body` bytes.
pub fn transcript_lines(id: &str, transcripts: &Vec<TranscriptRecord>, max_body: usize) -> (r: Vec<String>)
    requires
        cuttable(id@, 8),
    ensures
        texts(r@) == spec_transcript_lines(id@, transcripts@, max_body as int),
{
    proof {
        lemma_str_bytes(id);
    }
    let short = short_id(id);
    let mut lines: Vec<String> = Vec::new();
    let n = transcripts.len();
    if n == 0 {
        let mut l = owned("No transcripts found for session ");
        l.append(short);
        l.append(".");
        push_line(&mut lines, l);
        assert(texts(lines@) =~= spec_transcript_lines(id@, transcripts@, max_body as int));
        return lines;
    }
    let mut l = owned("Transcript for session ");
    l.append(short);
    l.append(" (");
    push_u64(&mut l, n as u64);
    l.append(" entries):");
    push_line(&mut lines, l);
    push_line(&mut lines, String::new());
    let ghost head = texts(lines@);
    let mut i: usize = 0;
    while i < n
        invariant
            n == transcripts@.len(),
            i <= n,
            texts(lines@) == head + all_turn_lines(transcripts@, i as int, max_body as int),
        decreases n - i,
    {
        push_turn(&mut lines, i + 1, &transcripts[i], max_body);
        i = i + 1;
        assert(texts(lines@) =~= head + all_turn_lines(transcripts@, i as int, max_body as int));
    }
    assert(texts(lines@) =~= spec_transcript_lines(id@, transcripts@, max_body as int));
    lines
}

/// The detail lines `sessions show` prints for a session with `count`
/// transcripts.
pub open spec fn spec_show_lines(r: SessionRecord, count: u64) -> Seq<Seq<char>> {
    seq!["Session detail:"@, "  id:          "@ + r.id@, "  state:       "@ + r.state@,
        "  trust_level: "@ + r.trust_level@, "  created_at:  "@ + r.created_at@,
        "  updated_at:  "@ + r.updated_at@, "  transcripts: "@ + dec(count as nat)]
}

fn labelled(label: &str, value: &str) -> (r: String)
    ensures
        r@ == label@ + value@,
{
    let mut l = owned(label);
    l.append(value);
    l
}

/// The detail lines of `sessions show`.
pub fn show_lines(r: &SessionRecord, count: u64) -> (lines: Vec<String>)
    ensures
        texts(lines@) == spec_show_lines(*r, count),
{
    let mut lines: Vec<String> = Vec::new();
    push_line(&mut lines, owned("Session detail:"));
    push_line(&mut lines, labelled("  id:          ", r.id.as_str()));
    push_line(&mut lines, labelled("  state:       ", r.state.as_str()));
    push_line(&mut lines, labelled("  trust_level: ", r.trust_level.as_str()));
    push_line(&mut lines, labelled("  created_at:  ", r.created_at.as_str()));
    push_line(&mut lines, labelled("  updated_at:  ", r.updated_at.as_str()));
    let c = u64_to_string(count);
    push_line(&mut lines, labelled("  transcripts: ", c.as_str()));
    assert(texts(lines@) =~= spec_show_lines(*r, count));
    lines
}

/// The token lines of a session's usage summary (the cost line, a
/// decimal amount, is printed by the caller).
pub open spec fn spec_usage_summary_lines(requests: i64, input: i64, output: i64, reasoning: i64) -> Seq<Seq<char>> {
    seq![Seq::<char>::empty(), "Usage summary:"@, "  requests:         "@ + dec_int(requests as int),
        "  input_tokens:     "@ + dec_int(input as int), "  output_tokens:    "@ + dec_int(output as int),
        "  reasoning_tokens: "@ + dec_int(reasoning as int)]
}

fn labelled_number(label: &str, v: i64) -> (r: String)
    ensures
        r@ == label@ + dec_int(v as int),
{
    let mut l = owned(label);
    push_i64(&mut l, v);
    l
}

/// The token lines of `sessions show`'s usage summary.
pub fn usage_summary_lines(requests: i64, input: i64, output: i64, reasoning: i64) -> (lines: Vec<String>)
    ensures
        texts(lines@) == spec_usage_summary_lines(requests, input, output, reasoning),
{
    let mut lines: Vec<String> = Vec::new();
    push_line(&mut lines, String::new());
    push_line(&mut lines, owned("Usage summary:"));
    push_line(&mut lines, labelled_number("  requests:         ", requests));
    push_line(&mut lines, labelled_number("  input_tokens:     ", input));
    push_line(&mut lines, labelled_number("  output_tokens:    ", output));
    push_line(&mut lines, labelled_number("  reasoning_tokens: ", reasoning));
    assert(texts(lines@) =~= spec_usage_summary_lines(requests, input, output, reasoning));
    lines
}

/// A session `sessions clean` deletes: closed or failed, and last updated
/// before the cutoff timestamp.
pub open spec fn deletable(r: SessionRecord, cutoff: Seq<char>) -> bool {
    (r.state@ == "Closed"@ || spec_starts_with(r.state@, "Failed"@)) && text_less(r.updated_at@, cutoff)
}

/// The number of deletable sessions among the first `k`.
pub open spec fn deletable_upto(ss: Seq<SessionRecord>, cutoff: Seq<char>, k: int) -> nat
    decreases k,
{
    if k <= 0 {
        0
    } else {
        deletable_upto(ss, cutoff, k - 1) + if deletable(ss[k - 1], cutoff) { 1nat } else { 0nat }
    }
}

/// Whether `sessions clean` deletes a session.
pub fn is_deletable(r: &SessionRecord, cutoff: &str) -> (b: bool)
    ensures
        b == deletable(*r, cutoff@),
{
    (str_eq(r.state.as_str(), "Closed") || starts_with(r.state.as_str(), "Failed"))
        && str_less(r.updated_at.as_str(), cutoff)
}

/// How many of the sessions `sessions clean` deletes.
pub fn count_deletable(sessions: &Vec<SessionRecord>, cutoff: &str) -> (n: usize)
    ensures
        n == deletable_upto(sessions@, cutoff@, sessions@.len() as int),
{
    let len = sessions.len();
    let mut n: usize = 0;
    let mut i: usize = 0;
    while i < len
        invariant
            len == sessions@.len(),
            i <= len,
            n == deletable_upto(sessions@, cutoff@, i as int),
            n <= i,
        decreases len - i,
    {
        if is_deletable(&sessions[i], cutoff) {
            n = n + 1;
        }
        i = i + 1;
    }
    n
}

/// Whether an answer to the confirmation prompt agrees: `y` or `yes`, in
/// any ASCII case, around whitespace.
pub open spec fn spec_confirmed(answer: Seq<char>) -> bool {
    ascii_lowercase(trimmed(answer)) == "y"@ || ascii_lowercase(trimmed(answer)) == "yes"@
}

/// Whether the answer to `Proceed? [y/N]` agrees.
pub fn clean_confirmed(answer: &str) -> (b: bool)
    ensures
        b == spec_confirmed(answer@),
{
    let a = to_ascii_lowercase(trim(answer));
    str_eq(a.as_str(), "y") || str_eq(a.as_str(), "yes")
}

} // verus!
