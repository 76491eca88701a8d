//! The `api`, `auth` and `collections` subcommands: their arguments, and
//! what `grokrs api chat` makes of the response stream and writes to the
//! session store. The requests go through the xAI API client; the checks
//! made before them stand in `preflight` and `policy`.

use vstd::prelude::*;
use crate::chat_backend::StreamEvent;
use crate::json::{json_get, json_u64, Json};
use crate::store::UsageTotals;
use crate::text::{dec, dec_int, owned, push_i64, push_u64};

verus! {

/// The `grokrs api` subcommands.
#[derive(Debug, Clone, PartialEq, Eq)]
pub enum ApiCommand {
    /// List the language models with ID and pricing.
    Models,
    /// One-shot prompt via the Responses API (superseded by `grokrs chat`).
    Chat { prompt: String },
    /// Token count and token IDs of a text.
    Tokenize { text: String },
    /// API key metadata.
    KeyInfo,
    /// Speech audio from text.
    Tts { text: String, voice: String, format: String, language: String, output: Option<String> },
    /// The TTS voices.
    Voices,
    /// Search document collections for matching chunks.
    Search { query: String, collection_ids: Vec<String>, filter: Option<String>, limit: Option<u32> },
}

/// The `grokrs auth` subcommands.
#[derive(Debug, Clone, Copy, PartialEq, Eq, Structural)]
pub enum AuthCommand {
    /// Validate the auth resolution and report its source.
    Doctor,
    /// Show the configured auth source without resolving the secret.
    ShowSource,
    /// Resolve the configured auth source and report the outcome.
    Test,
}

/// The `grokrs collections` subcommands.
#[derive(Debug, Clone, PartialEq, Eq)]
pub enum CollectionsCommand {
    /// Create a collection with an embedding model.
    Create { name: String, model: String },
    /// List the collections.
    List,
    /// Add a document, by file ID, to a collection.
    AddDoc { collection_id: String, file_id: String, name: Option<String> },
    /// List the documents of a collection.
    ListDocs { collection_id: String, filter: Option<String> },
    /// Delete a collection.
    Delete { collection_id: String, yes: bool },
}

/// What `grokrs api chat` gathers from the response stream: whether any
/// text came, the token usage, the error that broke the stream, and the
/// text itself.
pub struct OneShotStream {
    pub found_text: bool,
    pub usage_input: u64,
    pub usage_output: u64,
    pub stream_error: Option<String>,
    pub response_body: String,
}

/// What to print for one stream event.
#[derive(Debug, Clone, PartialEq, Eq)]
pub enum StreamOutput {
    /// Text for standard output.
    Text(String),
    /// A line for standard error.
    Diagnostic(String),
    /// Nothing.
    Nothing,
}

/// The usage numbers of a completed response: input and output tokens (0
/// when absent), and the total, which is their sum (modulo 2^64) when the
/// response gives none.
pub open spec fn completed_usage(response: Json) -> Option<(u64, u64, u64)> {
    match json_get(response, "usage"@) {
        Some(u) => {
            let i = match json_u64(json_get(u, "input_tokens"@)) { Some(n) => n, None => 0 };
            let o = match json_u64(json_get(u, "output_tokens"@)) { Some(n) => n, None => 0 };
            let t = match json_u64(json_get(u, "total_tokens"@)) {
                Some(n) => n,
                None => ((i + o) % 0x1_0000_0000_0000_0000) as u64,
            };
            Some((i, o, t))
        },
        None => None,
    }
}

/// The usage line printed when a response completes.
pub open spec fn usage_report(i: u64, o: u64, t: u64) -> Seq<char> {
    "\n[usage] input="@ + dec(i as nat) + " output="@ + dec(o as nat) + " total="@ + dec(t as nat)
}

fn json_u64_or_zero(v: Option<&Json>) -> (n: u64)
    ensures
        n == match json_u64(match v { Some(x) => Some(*x), None => None }) { Some(k) => k, None => 0 },
{
    match v {
        Some(x) => match x.as_u64() {
            Some(k) => k,
            None => 0,
        },
        None => 0,
    }
}

impl OneShotStream {
    /// The state before any event.
    pub fn new() -> (s: Self)
        ensures
            !s.found_text,
            s.usage_input == 0 && s.usage_output == 0,
            s.stream_error is None,
            s.response_body@ == Seq::<char>::empty(),
    {
        OneShotStream {
            found_text: false,
            usage_input: 0,
            usage_output: 0,
            stream_error: None,
            response_body: String::new(),
        }
    }

    /// Take in one event; returns what to print and whether the stream
    /// ends here. Text is echoed and kept; a complete function call is
    /// reported; a completed response with usage sets the token counts and
    /// reports them; a broken stream records its error and ends; other
    /// events change nothing.
    pub fn on_event(&mut self, event: StreamEvent) -> (r: (StreamOutput, bool))
        ensures
            match event {
                StreamEvent::ContentDelta { text: Some(t) } => r.0 == StreamOutput::Text(t) && !r.1
                    && final(self).response_body@ == old(self).response_body@ + t@ && final(self).found_text
                    && final(self).stream_error == old(self).stream_error
                    && final(self).usage_input == old(self).usage_input
                    && final(self).usage_output == old(self).usage_output,
                StreamEvent::OutputTextDelta { delta } => r.0 == StreamOutput::Text(delta) && !r.1
                    && final(self).response_body@ == old(self).response_body@ + delta@ && final(self).found_text
                    && final(self).stream_error == old(self).stream_error
                    && final(self).usage_input == old(self).usage_input
                    && final(self).usage_output == old(self).usage_output,
                StreamEvent::FunctionCallArgumentsDone { arguments } => !r.1
                    && (r.0 matches StreamOutput::Diagnostic(d) && d@ == "[function_call] "@ + arguments@)
                    && *final(self) == *old(self),
                StreamEvent::Completed { response } => !r.1 && match completed_usage(response) {
                    Some((i, o, t)) => (r.0 matches StreamOutput::Diagnostic(d) && d@ == usage_report(i, o, t))
                        && final(self).usage_input == i && final(self).usage_output == o
                        && final(self).found_text == old(self).found_text
                        && final(self).response_body == old(self).response_body
                        && final(self).stream_error == old(self).stream_error,
                    None => r.0 == StreamOutput::Nothing && *final(self) == *old(self),
                },
                StreamEvent::Error(m) => r.0 == StreamOutput::Nothing && r.1
                    && final(self).stream_error == Some(m)
                    && final(self).found_text == old(self).found_text
                    && final(self).response_body == old(self).response_body
                    && final(self).usage_input == old(self).usage_input
                    && final(self).usage_output == old(self).usage_output,
                _ => r.0 == StreamOutput::Nothing && !r.1 && *final(self) == *old(self),
            },
    {
        match event {
            StreamEvent::ContentDelta { text } => match text {
                Some(t) => {
                    self.response_body.append(t.as_str());
                    self.found_text = true;
                    (StreamOutput::Text(t), false)
                },
                None => (StreamOutput::Nothing, false),
            },
            StreamEvent::OutputTextDelta { delta } => {
                self.response_body.append(delta.as_str());
                self.found_text = true;
                (StreamOutput::Text(delta), false)
            },
            StreamEvent::FunctionCallArgumentsDone { arguments } => {
                let mut d = owned("[function_call] ");
                d.append(arguments.as_str());
                (StreamOutput::Diagnostic(d), false)
            },
            StreamEvent::Completed { response } => match response.get("usage") {
                Some(u) => {
                    let i = json_u64_or_zero(u.get("input_tokens"));
                    let o = json_u64_or_zero(u.get("output_tokens"));
                    let t = match u.get("total_tokens") {
                        Some(x) => match x.as_u64() {
                            Some(k) => k,
                            None => i.wrapping_add(o),
                        },
                        None => i.wrapping_add(o),
                    };
                    self.usage_input = i;
                    self.usage_output = o;
                    let mut d = owned("\n[usage] input=");
                    push_u64(&mut d, i);
                    d.append(" output=");
                    push_u64(&mut d, o);
                    d.append(" total=");
                    push_u64(&mut d, t);
                    (StreamOutput::Diagnostic(d), false)
                },
                None => (StreamOutput::Nothing, false),
            },
            StreamEvent::Error(m) => {
                self.stream_error = Some(m);
                (StreamOutput::Nothing, true)
            },
            _ => (StreamOutput::Nothing, false),
        }
    }
}

/// One write to the session store after `grokrs api chat`.
#[derive(Debug, Clone, PartialEq, Eq)]
pub enum StoreAction {
    /// Record the error of a transcript.
    LogError { transcript_id: i64, error: String },
    /// Record the response of a transcript.
    LogResponse { transcript_id: i64, status: u16, body: Option<String>, input_tokens: u64, output_tokens: u64 },
    /// Move the session to a state.
    Transition { state: String },
}

/// The view of a store action.
pub open spec fn action_view(a: StoreAction) -> (int, i64, Seq<char>, Option<Seq<char>>, u64, u64) {
    match a {
        StoreAction::LogError { transcript_id, error } => (0, transcript_id, error@, None, 0, 0),
        StoreAction::LogResponse { transcript_id, status, body, input_tokens, output_tokens } =>
            (1, transcript_id, seq![], match body { Some(b) => Some(b@), None => None }, input_tokens, output_tokens),
        StoreAction::Transition { state } => (2, 0, state@, None, 0, 0),
    }
}

/// The store writes after a one-shot chat: the transcript (if one was
/// opened) gets the stream's error, or its response with status 200, the
/// text (none when empty) and the usage; then the session fails with the
/// error, or goes to `Ready` and then `Closed`.
pub open spec fn spec_chat_store_actions(
    transcript_id: Option<i64>,
    error: Option<Seq<char>>,
    body: Seq<char>,
    input: u64,
    output: u64,
) -> Seq<(int, i64, Seq<char>, Option<Seq<char>>, u64, u64)> {
    let log = match transcript_id {
        Some(tid) => match error {
            Some(e) => seq![(0int, tid, e, None::<Seq<char>>, 0u64, 0u64)],
            None => seq![(1int, tid, seq![], if body.len() == 0 { None } else { Some(body) }, input, output)],
        },
        None => seq![],
    };
    log + match error {
        Some(e) => seq![(2int, 0i64, "Failed: "@ + e, None::<Seq<char>>, 0u64, 0u64)],
        None => seq![(2int, 0i64, "Ready"@, None::<Seq<char>>, 0u64, 0u64), (2int, 0i64, "Closed"@, None::<Seq<char>>, 0u64, 0u64)],
    }
}

/// The store writes after a one-shot chat, in order.
pub fn chat_store_actions(transcript_id: Option<i64>, stream: &OneShotStream) -> (r: Vec<StoreAction>)
    ensures
        r@.map_values(|a: StoreAction| action_view(a)) == spec_chat_store_actions(
            transcript_id,
            match stream.stream_error { Some(e) => Some(e@), None => None },
            stream.response_body@,
            stream.usage_input,
            stream.usage_output,
        ),
{
    let mut r: Vec<StoreAction> = Vec::new();
    if let Some(tid) = transcript_id {
        match &stream.stream_error {
            Some(e) => r.push(StoreAction::LogError { transcript_id: tid, error: e.clone() }),
            None => {
                let body = if stream.response_body.unicode_len() == 0 {
                    None
                } else {
                    Some(stream.response_body.clone())
                };
                r.push(StoreAction::LogResponse {
                    transcript_id: tid,
                    status: 200,
                    body,
                    input_tokens: stream.usage_input,
                    output_tokens: stream.usage_output,
                });
            },
        }
    }
    match &stream.stream_error {
        Some(e) => {
            let mut state = owned("Failed: ");
            state.append(e.as_str());
            r.push(StoreAction::Transition { state });
        },
        None => {
            r.push(StoreAction::Transition { state: owned("Ready") });
            r.push(StoreAction::Transition { state: owned("Closed") });
        },
    }
    assert(r@.map_values(|a: StoreAction| action_view(a)) =~= spec_chat_store_actions(
        transcript_id,
        match stream.stream_error { Some(e) => Some(e@), None => None },
        stream.response_body@,
        stream.usage_input,
        stream.usage_output,
    ));
    r
}

/// The usage line printed for a session with requests: the first eight
/// characters of its ID, the request count and the token totals.
pub open spec fn spec_session_totals_line(session_id: Seq<char>, t: UsageTotals) -> Option<Seq<char>> {
    if t.request_count > 0 {
        Some("[session "@ + session_id.take(if session_id.len() < 8 { session_id.len() as int } else { 8 })
            + "] requests="@ + dec_int(t.request_count as int) + " input_tokens="@
            + dec_int(t.total_input_tokens as int) + " output_tokens="@ + dec_int(t.total_output_tokens as int)
            + " reasoning_tokens="@ + dec_int(t.total_reasoning_tokens as int))
    } else {
        None
    }
}

/// The usage line printed for a session, if it made any request.
pub fn session_totals_line(session_id: &str, totals: &UsageTotals) -> (r: Option<String>)
    ensures
        match (r, spec_session_totals_line(session_id@, *totals)) {
            (Some(a), Some(b)) => a@ == b,
            (None, None) => true,
            _ => false,
        },
{
    if totals.request_count <= 0 {
        return None;
    }
    let n = session_id.unicode_len();
    let k: usize = if n < 8 { n } else { 8 };
    let mut s = owned("[session ");
    s.append(session_id.substring_char(0, k));
    s.append("] requests=");
    push_i64(&mut s, totals.request_count);
    s.append(" input_tokens=");
    push_i64(&mut s, totals.total_input_tokens);
    s.append(" output_tokens=");
    push_i64(&mut s, totals.total_output_tokens);
    s.append(" reasoning_tokens=");
    push_i64(&mut s, totals.total_reasoning_tokens);
    Some(s)
}

} // verus!
