//! The flags of `grokrs chat` and how they become search settings.

use vstd::prelude::*;
use crate::search::{clone_opt, spec_validate_date, validate_date, SearchConfig};
use crate::agent::{json_member, json_member_text};
use crate::mcp::opt_opt_view;
use crate::repl::{ConversationHistory, ConversationTurn, TokenUsage};
use crate::sessions::TranscriptRecord;
use crate::text::{opt_view, owned};
use crate::config::AppConfig;
use crate::chat_backend::GrokBackendConfig;

verus! {

/// The flags of `grokrs chat`.
#[derive(Debug, Clone)]
pub struct ChatArgs {
    pub model: Option<String>,
    pub system: Option<String>,
    pub stateful: bool,
    pub resume: Option<String>,
    pub search: bool,
    pub x_search: bool,
    pub no_search: bool,
    pub search_from_date: Option<String>,
    pub search_to_date: Option<String>,
    pub search_max_results: Option<u32>,
    pub citations: bool,
    pub cache_key: Option<String>,
}

/// The error of a date flag, if its value is invalid: the flag's prefix
/// followed by the date error.
pub open spec fn date_flag_error(flag: Seq<char>, value: Option<String>) -> Option<Seq<char>> {
    match value {
        Some(d) => match spec_validate_date(d@) {
            Some(e) => Some(flag + e),
            None => None,
        },
        None => None,
    }
}

/// The model of a chat session: the `--model` flag, else the `[chat]`
/// default model, else the `[model]` default model.
pub open spec fn chat_model(args: ChatArgs, c: AppConfig) -> Seq<char> {
    match args.model {
        Some(m) => m@,
        None => match c.chat {
            Some(ch) => match ch.default_model {
                Some(m) => m@,
                None => c.model.default_model@,
            },
            None => c.model.default_model@,
        },
    }
}

/// Whether a chat session chains responses server-side: the `--stateful`
/// flag or the `[chat]` setting.
pub open spec fn chat_stateful(args: ChatArgs, c: AppConfig) -> bool {
    args.stateful || (c.chat matches Some(ch) && ch.stateful)
}

/// The `--stateful` flag alone makes a chat stateful, whatever the
/// configuration holds; without it, the `[chat]` setting decides, and a
/// configuration without `[chat]` is stateless.
pub proof fn lemma_stateful_flag(args: ChatArgs, c: AppConfig)
    ensures
        args.stateful ==> chat_stateful(args, c),
        !args.stateful && c.chat is None ==> !chat_stateful(args, c),
        !args.stateful && c.chat is Some ==> chat_stateful(args, c) == c.chat->0.stateful,
{
}

/// The system instructions of a chat session: the `--system` flag, else the
/// `[chat]` system prompt.
pub open spec fn chat_system(args: ChatArgs, c: AppConfig) -> Option<Seq<char>> {
    match args.system {
        Some(s) => Some(s@),
        None => match c.chat {
            Some(ch) => opt_view(ch.system_prompt),
            None => None,
        },
    }
}

/// The backend settings of a chat session, with its system instructions:
/// flags override the `[chat]` section, which overrides the `[model]` one.
pub fn chat_backend_config(args: &ChatArgs, config: &AppConfig, search: SearchConfig)
    -> (r: (GrokBackendConfig, Option<String>))
    ensures
        r.0.model@ == chat_model(*args, *config),
        r.0.stateful == chat_stateful(*args, *config),
        args.stateful ==> r.0.stateful,
        config.chat is None ==> r.0.stateful == args.stateful,
        config.chat matches Some(ch) ==> r.0.stateful == (args.stateful || ch.stateful),
        r.0.search == search,
        opt_view(r.0.cache_key) == opt_view(args.cache_key),
        opt_view(r.1) == chat_system(*args, *config),
{
    let model = match &args.model {
        Some(m) => m.clone(),
        None => match &config.chat {
            Some(ch) => match &ch.default_model {
                Some(m) => m.clone(),
                None => config.model.default_model.clone(),
            },
            None => config.model.default_model.clone(),
        },
    };
    let stateful = args.stateful || match &config.chat {
        Some(ch) => ch.stateful,
        None => false,
    };
    let system = match &args.system {
        Some(s) => Some(s.clone()),
        None => match &config.chat {
            Some(ch) => clone_opt(&ch.system_prompt),
            None => None,
        },
    };
    (GrokBackendConfig { model, stateful, search, cache_key: clone_opt(&args.cache_key) }, system)
}

/// The search settings of the chat flags: `--no-search` turns everything
/// off; otherwise both dates must be valid and the flags are taken as given.
pub fn resolve_search_config(args: &ChatArgs) -> (r: Result<SearchConfig, String>)
    ensures
        args.no_search ==> (r matches Ok(c) && !c.web_search && !c.x_search && c.from_date is None
            && c.to_date is None && c.max_results is None && !c.citations),
        !args.no_search ==> match date_flag_error("--search-from-date: "@, args.search_from_date) {
            Some(e) => r matches Err(m) && m@ == e,
            None => match date_flag_error("--search-to-date: "@, args.search_to_date) {
                Some(e) => r matches Err(m) && m@ == e,
                None => r matches Ok(c) && c.web_search == args.search && c.x_search == args.x_search
                    && opt_view(c.from_date) == opt_view(args.search_from_date)
                    && opt_view(c.to_date) == opt_view(args.search_to_date)
                    && c.max_results == args.search_max_results && c.citations == args.citations,
            },
        },
{
    if args.no_search {
        return Ok(SearchConfig::default());
    }
    match &args.search_from_date {
        Some(d) => match validate_date(d.as_str()) {
            Err(e) => {
                let mut m = owned("--search-from-date: ");
                m.append(e.as_str());
                return Err(m);
            },
            Ok(()) => {},
        },
        None => {},
    }
    match &args.search_to_date {
        Some(d) => match validate_date(d.as_str()) {
            Err(e) => {
                let mut m = owned("--search-to-date: ");
                m.append(e.as_str());
                return Err(m);
            },
            Ok(()) => {},
        },
        None => {},
    }
    Ok(SearchConfig {
        web_search: args.search,
        x_search: args.x_search,
        from_date: clone_opt(&args.search_from_date),
        to_date: clone_opt(&args.search_to_date),
        max_results: args.search_max_results,
        citations: args.citations,
    })
}

pub const RESUME_NEEDS_STORE: &'static str = "--resume requires a store database. Ensure [store] is configured or a .grokrs/state.db exists.";

/// The user's message of a request body from its looked-up members: the
/// `message` member if there is one (empty when it is not a string), else
/// the `prompt` string, else nothing.
pub open spec fn input_from_members(message: Option<Option<Seq<char>>>, prompt: Option<Option<Seq<char>>>) -> Seq<char> {
    match message {
        Some(Some(t)) => t,
        Some(None) => Seq::empty(),
        None => match prompt {
            Some(Some(t)) => t,
            _ => Seq::empty(),
        },
    }
}

/// The user's message of a request body, from its looked-up members.
pub fn user_input_from_members(message: Option<Option<String>>, prompt: Option<Option<String>>) -> (r: String)
    ensures
        r@ == input_from_members(opt_opt_view(message), opt_opt_view(prompt)),
{
    match message {
        Some(Some(t)) => t,
        Some(None) => String::new(),
        None => match prompt {
            Some(Some(t)) => t,
            _ => String::new(),
        },
    }
}

/// The user's message recorded in a request body, as JSON reads it.
pub open spec fn spec_request_input(body: Option<String>) -> Seq<char> {
    match body {
        Some(b) => input_from_members(json_member(b@, "message"@), json_member(b@, "prompt"@)),
        None => Seq::empty(),
    }
}

/// The user's message recorded in a request body.
pub fn request_user_input(body: &Option<String>) -> (r: String)
    ensures
        r@ == spec_request_input(*body),
{
    match body {
        Some(b) => {
            let message = json_member_text(b.as_str(), "message");
            let prompt = json_member_text(b.as_str(), "prompt");
            user_input_from_members(message, prompt)
        },
        None => String::new(),
    }
}

/// The text of an optional body (empty when absent).
pub open spec fn body_text(b: Option<String>) -> Seq<char> {
    match b {
        Some(x) => x@,
        None => Seq::empty(),
    }
}

/// A recorded exchange becomes a turn unless both sides are empty.
pub open spec fn turn_kept(t: TranscriptRecord, input: Seq<char>) -> bool {
    input.len() > 0 || body_text(t.response_body).len() > 0
}

/// A turn as the texts and token counts it holds.
pub open spec fn turn_value(c: ConversationTurn) -> (Seq<char>, Seq<char>, u64, u64) {
    (c.user_input@, c.assistant_response@, c.usage.input_tokens, c.usage.output_tokens)
}

/// The turns rebuilt from the first `k` exchanges, given the user message
/// of each.
pub open spec fn rebuilt_turns(ts: Seq<TranscriptRecord>, inputs: Seq<Seq<char>>, k: int) -> Seq<(Seq<char>, Seq<char>, u64, u64)>
    decreases k,
{
    if k <= 0 {
        Seq::empty()
    } else {
        let t = ts[k - 1];
        let prev = rebuilt_turns(ts, inputs, k - 1);
        if turn_kept(t, inputs[k - 1]) {
            prev.push((inputs[k - 1], body_text(t.response_body), t.input_tokens.unwrap_or(0),
                t.output_tokens.unwrap_or(0)))
        } else {
            prev
        }
    }
}

/// The input tokens of the turns rebuilt from the first `k` exchanges.
pub open spec fn rebuilt_input(ts: Seq<TranscriptRecord>, inputs: Seq<Seq<char>>, k: int) -> nat
    decreases k,
{
    if k <= 0 {
        0
    } else {
        rebuilt_input(ts, inputs, k - 1) + if turn_kept(ts[k - 1], inputs[k - 1]) {
            ts[k - 1].input_tokens.unwrap_or(0) as nat
        } else {
            0
        }
    }
}

/// The output tokens of the turns rebuilt from the first `k` exchanges.
pub open spec fn rebuilt_output(ts: Seq<TranscriptRecord>, inputs: Seq<Seq<char>>, k: int) -> nat
    decreases k,
{
    if k <= 0 {
        0
    } else {
        rebuilt_output(ts, inputs, k - 1) + if turn_kept(ts[k - 1], inputs[k - 1]) {
            ts[k - 1].output_tokens.unwrap_or(0) as nat
        } else {
            0
        }
    }
}

proof fn lemma_rebuilt_monotone(ts: Seq<TranscriptRecord>, inputs: Seq<Seq<char>>, i: int, j: int)
    requires
        0 <= i <= j,
    ensures
        rebuilt_input(ts, inputs, i) <= rebuilt_input(ts, inputs, j),
        rebuilt_output(ts, inputs, i) <= rebuilt_output(ts, inputs, j),
    decreases j - i,
{
    if i < j {
        lemma_rebuilt_monotone(ts, inputs, i, j - 1);
    }
}

/// The values of a list of turns.
pub open spec fn turn_values(turns: Seq<ConversationTurn>) -> Seq<(Seq<char>, Seq<char>, u64, u64)> {
    Seq::new(turns.len(), |i: int| turn_value(turns[i]))
}

/// Rebuild the conversation of a resumed session from its recorded
/// exchanges, given the user message of each: every exchange with a
/// non-empty message or response becomes a turn, in order, and the last
/// response identifier becomes the chaining identifier.
pub fn rebuild_conversation(
    transcripts: &Vec<TranscriptRecord>,
    inputs: Vec<String>,
    last_response_id: Option<String>,
) -> (h: ConversationHistory)
    requires
        inputs@.len() == transcripts@.len(),
        rebuilt_input(transcripts@, crate::text::texts(inputs@), transcripts@.len() as int) <= u64::MAX,
        rebuilt_output(transcripts@, crate::text::texts(inputs@), transcripts@.len() as int) <= u64::MAX,
    ensures
        h.wf(),
        turn_values(h.view().turns) == rebuilt_turns(transcripts@, crate::text::texts(inputs@), transcripts@.len() as int),
        h.view().total_input == rebuilt_input(transcripts@, crate::text::texts(inputs@), transcripts@.len() as int),
        h.view().total_output == rebuilt_output(transcripts@, crate::text::texts(inputs@), transcripts@.len() as int),
        h.view().last_response_id == opt_view(last_response_id),
{
    let ghost ins = crate::text::texts(inputs@);
    let ghost n0 = transcripts@.len() as int;
    let mut conversation = ConversationHistory::new();
    let mut inputs = inputs;
    let n = transcripts.len();
    let mut i: usize = 0;
    while i < n
        invariant
            n == transcripts@.len(),
            n0 == n,
            i <= n,
            inputs@.len() == n - i,
            forall|j: int| 0 <= j < inputs@.len() ==> #[trigger] inputs@[j]@ == ins[i + j],
            ins.len() == n,
            rebuilt_input(transcripts@, ins, n as int) <= u64::MAX,
            rebuilt_output(transcripts@, ins, n as int) <= u64::MAX,
            conversation.wf(),
            turn_values(conversation.view().turns) == rebuilt_turns(transcripts@, ins, i as int),
            conversation.view().total_input == rebuilt_input(transcripts@, ins, i as int),
            conversation.view().total_output == rebuilt_output(transcripts@, ins, i as int),
        decreases n - i,
    {
        let user_input = inputs.remove(0);
        proof {
            assert(user_input@ == ins[i as int]);
            lemma_rebuilt_monotone(transcripts@, ins, i + 1, n as int);
        }
        let t = &transcripts[i];
        let assistant_response = match &t.response_body {
            Some(b) => owned(b.as_str()),
            None => String::new(),
        };
        let input_tokens = match t.input_tokens {
            Some(v) => v,
            None => 0,
        };
        let output_tokens = match t.output_tokens {
            Some(v) => v,
            None => 0,
        };
        if user_input.unicode_len() > 0 || assistant_response.unicode_len() > 0 {
            let ghost prev = conversation.view().turns;
            let turn = ConversationTurn {
                user_input,
                assistant_response,
                usage: TokenUsage { input_tokens, output_tokens, cached_tokens: None },
            };
            conversation.push(turn);
            proof {
                assert(turn_values(conversation.view().turns) =~= turn_values(prev).push(turn_value(turn)));
            }
        }
        i = i + 1;
        proof {
            assert forall|j: int| 0 <= j < inputs@.len() implies #[trigger] inputs@[j]@ == ins[i + j] by {}
        }
    }
    conversation.set_last_response_id(last_response_id);
    conversation
}

/// The conversation of a resumed session, rebuilt from its recorded
/// exchanges: `None` when its token totals would not fit the counters.
pub fn resume_conversation(transcripts: &Vec<TranscriptRecord>, last_response_id: Option<String>) -> (r: Option<ConversationHistory>)
    ensures
        ({
            let ins = Seq::new(transcripts@.len(), |i: int| spec_request_input(transcripts@[i].request_body));
            let n = transcripts@.len() as int;
            &&& r is None <==> (rebuilt_input(transcripts@, ins, n) > u64::MAX || rebuilt_output(transcripts@, ins, n) > u64::MAX)
            &&& r matches Some(h) ==> h.wf()
                && turn_values(h.view().turns) == rebuilt_turns(transcripts@, ins, n)
                && h.view().last_response_id == opt_view(last_response_id)
        }),
{
    let ghost spec_ins = Seq::new(transcripts@.len(), |i: int| spec_request_input(transcripts@[i].request_body));
    let n = transcripts.len();
    let mut inputs: Vec<String> = Vec::new();
    let mut in_total: u64 = 0;
    let mut out_total: u64 = 0;
    let mut fits = true;
    let mut i: usize = 0;
    while i < n
        invariant
            n == transcripts@.len(),
            i <= n,
            spec_ins.len() == n,
            forall|k: int| 0 <= k < n ==> #[trigger] spec_ins[k] == spec_request_input(transcripts@[k].request_body),
            inputs@.len() == i,
            forall|k: int| 0 <= k < i ==> #[trigger] inputs@[k]@ == spec_ins[k],
            fits ==> in_total == rebuilt_input(transcripts@, spec_ins, i as int),
            fits ==> out_total == rebuilt_output(transcripts@, spec_ins, i as int),
            !fits ==> (rebuilt_input(transcripts@, spec_ins, n as int) > u64::MAX || rebuilt_output(transcripts@, spec_ins, n as int) > u64::MAX),
        decreases n - i,
    {
        let t = &transcripts[i];
        let input = request_user_input(&t.request_body);
        let kept = input.unicode_len() > 0 || match &t.response_body {
            Some(b) => b.unicode_len() > 0,
            None => false,
        };
        if fits && kept {
            let a = match t.input_tokens { Some(v) => v, None => 0 };
            let b = match t.output_tokens { Some(v) => v, None => 0 };
            proof {
                lemma_rebuilt_monotone(transcripts@, spec_ins, i + 1, n as int);
            }
            match (in_total.checked_add(a), out_total.checked_add(b)) {
                (Some(x), Some(y)) => {
                    in_total = x;
                    out_total = y;
                },
                _ => {
                    fits = false;
                },
            }
        }
        inputs.push(input);
        i = i + 1;
    }
    if !fits {
        return None;
    }
    proof {
        assert(crate::text::texts(inputs@) =~= spec_ins);
    }
    Some(rebuild_conversation(transcripts, inputs, last_response_id))
}

} // verus!

verus! {

/// The state a session enters while a chat turn runs.
pub const TURN_RUNNING_STATE: &'static str = "RunningTurn";

/// The state a session returns to once a chat turn is logged.
pub const TURN_DONE_STATE: &'static str = "Ready";

/// The error logged for a chat turn that recorded no reply.
pub const NO_RESPONSE_RECORDED: &'static str = "no response recorded";

/// What the store logs of one chat turn.
#[derive(Debug, Clone, PartialEq, Eq)]
pub enum TurnLog {
    /// The reply: status 200, its text (none when empty), its usage and the
    /// conversation's response identifier.
    Response { status: u16, body: Option<String>, input_tokens: u64, output_tokens: u64, response_id: Option<String> },
    /// No reply was recorded.
    Error { message: String },
}

/// What the store logs of a chat turn, given the conversation after the
/// turn and its turn count before: the new last turn's reply when the turn
/// added one, else an error.
pub fn turn_log(conversation: &ConversationHistory, turns_before: usize) -> (r: TurnLog)
    ensures
        conversation.view().turns.len() > turns_before ==> {
            let last = conversation.view().turns.last();
            r matches TurnLog::Response { status, body, input_tokens, output_tokens, response_id }
            && status == 200
            && opt_view(body) == (if last.assistant_response@.len() == 0 { None } else { Some(last.assistant_response@) })
            && input_tokens == last.usage.input_tokens
            && output_tokens == last.usage.output_tokens
            && opt_view(response_id) == conversation.view().last_response_id
        },
        conversation.view().turns.len() <= turns_before ==> (r matches TurnLog::Error { message }
            && message@ == NO_RESPONSE_RECORDED@),
{
    let turns = conversation.turns();
    let n = turns.len();
    if n > turns_before {
        let last = &turns[n - 1];
        let body = if last.assistant_response.unicode_len() == 0 {
            None
        } else {
            Some(last.assistant_response.clone())
        };
        let response_id = match conversation.last_response_id() {
            Some(id) => Some(owned(id)),
            None => None,
        };
        TurnLog::Response {
            status: 200,
            body,
            input_tokens: last.usage.input_tokens,
            output_tokens: last.usage.output_tokens,
            response_id,
        }
    } else {
        TurnLog::Error { message: owned(NO_RESPONSE_RECORDED) }
    }
}

/// The state a session fails with when reading input breaks.
pub fn readline_failed_state(error: &str) -> (s: String)
    ensures
        s@ == "Failed: readline error: "@ + error@,
{
    let mut s = owned("Failed: readline error: ");
    s.append(error);
    s
}

/// The summary printed when a chat ends, only if turns were added.
pub fn session_summary_line(conversation: &ConversationHistory, turns_before: usize) -> (r: Option<String>)
    requires
        conversation.view().total_input + conversation.view().total_output <= u64::MAX,
    ensures
        conversation.view().turns.len() > turns_before ==> (r matches Some(s)
            && s@ == "Session summary: "@ + crate::repl::history_text(conversation.view())),
        conversation.view().turns.len() <= turns_before ==> r is None,
{
    if conversation.turn_count() > turns_before {
        let mut s = owned("Session summary: ");
        let h = conversation.to_string();
        s.append(h.as_str());
        Some(s)
    } else {
        None
    }
}

} // verus!
