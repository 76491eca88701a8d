//! The chat backend of the REPL: the conversation state it keeps between
//! turns, the request it sends for a message, and how it folds the events
//! of a streamed response into the reply. Sending the request and reading
//! the stream are the caller's; each event is handed to `StreamTurn`.

use vstd::prelude::*;
use crate::json::{
    blob_view, cite_views, extract_citations, extract_encrypted_reasoning, extract_response_id,
    extract_usage, json_get, json_str, json_u64, spec_extract_blobs, spec_extract_citations,
    spec_extract_usage, EncryptedReasoningBlob, Json,
};
use crate::repl::{ChatBackend, TokenUsage};
use crate::search::{
    format_citations, spec_builtin_tools, spec_format_citations, BuiltinTool, Citation,
    SearchConfig, SearchParameters,
};
use crate::text::{opt_view, owned, push_u64};

verus! {

/// How the REPL's backend is set up.
#[derive(Debug)]
pub struct GrokBackendConfig {
    pub model: String,
    pub stateful: bool,
    pub search: SearchConfig,
    pub cache_key: Option<String>,
}

/// The reply to one message.
#[derive(Debug)]
pub struct ChatResponse {
    pub text: String,
    pub usage: TokenUsage,
    pub previous_response_id: Option<String>,
    pub citations: Vec<Citation>,
}

/// Why a turn failed.
#[derive(Debug, Clone, PartialEq, Eq)]
pub enum BackendError {
    Transport(String),
    Api { status: u16, message: String },
    Cancelled,
    Other(String),
}

/// The message of a backend error.
pub open spec fn backend_error_text(e: BackendError) -> Seq<char> {
    match e {
        BackendError::Transport(m) => "transport error: "@ + m@,
        BackendError::Api { status, message } => "API error ("@ + crate::text::dec(status as nat) + "): "@ + message@,
        BackendError::Cancelled => "request cancelled"@,
        BackendError::Other(m) => m@,
    }
}

impl BackendError {
    /// The message of the error.
    pub fn to_string(&self) -> (s: String)
        ensures
            s@ == backend_error_text(*self),
    {
        match self {
            BackendError::Transport(m) => {
                let mut s = owned("transport error: ");
                s.append(m.as_str());
                s
            },
            BackendError::Api { status, message } => {
                let mut s = owned("API error (");
                push_u64(&mut s, *status as u64);
                s.append("): ");
                s.append(message.as_str());
                s
            },
            BackendError::Cancelled => owned("request cancelled"),
            BackendError::Other(m) => owned(m.as_str()),
        }
    }
}

/// The input of a request: the message as plain text, or, when chaining a
/// stateful conversation, the reasoning blobs of the previous turn followed
/// by the message.
#[derive(Debug)]
pub enum RequestInput {
    Text(String),
    Items { reasoning: Vec<EncryptedReasoningBlob>, message: String },
}

/// A streamed Responses API request.
#[derive(Debug)]
pub struct ChatRequest {
    pub model: String,
    pub input: RequestInput,
    pub stream: bool,
    pub included: Option<Vec<String>>,
    pub instructions: Option<String>,
    pub tools: Option<Vec<BuiltinTool>>,
    pub search_parameters: Option<SearchParameters>,
    pub store: bool,
    pub previous_response_id: Option<String>,
    pub prompt_cache_key: Option<String>,
}

/// The state of the backend as a value.
pub struct BackendView {
    pub model: Seq<char>,
    pub system_instructions: Option<Seq<char>>,
    pub previous_response_id: Option<Seq<char>>,
    pub reasoning: Seq<(Option<Seq<char>>, Seq<char>)>,
    pub stateful: bool,
    pub cache_key: Option<Seq<char>>,
}

/// The blobs as values.
pub open spec fn blob_views(bs: Seq<EncryptedReasoningBlob>) -> Seq<(Option<Seq<char>>, Seq<char>)> {
    Seq::new(bs.len(), |i: int| blob_view(bs[i]))
}

/// The conversation state the REPL's backend keeps between turns.
#[derive(Debug)]
pub struct GrokChatBackend {
    model: String,
    system_instructions: Option<String>,
    previous_response_id: Option<String>,
    encrypted_reasoning: Vec<EncryptedReasoningBlob>,
    stateful: bool,
    search: SearchConfig,
    cache_key: Option<String>,
}

pub const REASONING_INCLUDE: &'static str = "reasoning.encrypted_content";

fn copy_blobs(bs: &Vec<EncryptedReasoningBlob>) -> (r: Vec<EncryptedReasoningBlob>)
    ensures
        blob_views(r@) == blob_views(bs@),
{
    let mut out: Vec<EncryptedReasoningBlob> = Vec::new();
    let n = bs.len();
    let mut i: usize = 0;
    while i < n
        invariant
            n == bs@.len(),
            i <= n,
            blob_views(out@) == blob_views(bs@).take(i as int),
        decreases n - i,
    {
        let b = &bs[i];
        let id = match &b.id {
            Some(x) => Some(owned(x.as_str())),
            None => None,
        };
        let c = EncryptedReasoningBlob { id, encrypted_content: owned(b.encrypted_content.as_str()) };
        let ghost prev = out@;
        out.push(c);
        proof {
            assert(blob_views(out@) =~= blob_views(prev).push(blob_view(c)));
        }
        i = i + 1;
        assert(blob_views(out@) =~= blob_views(bs@).take(i as int));
    }
    assert(blob_views(bs@).take(n as int) =~= blob_views(bs@));
    out
}

impl GrokChatBackend {
    /// The state as a value.
    pub closed spec fn view(&self) -> BackendView {
        BackendView {
            model: self.model@,
            system_instructions: opt_view(self.system_instructions),
            previous_response_id: opt_view(self.previous_response_id),
            reasoning: blob_views(self.encrypted_reasoning@),
            stateful: self.stateful,
            cache_key: opt_view(self.cache_key),
        }
    }

    /// The search settings of the backend.
    pub closed spec fn search_config(&self) -> SearchConfig {
        self.search
    }

    /// A backend for a new conversation.
    pub fn new(config: GrokBackendConfig) -> (b: Self)
        ensures
            b.view() == (BackendView {
                model: config.model@,
                system_instructions: None,
                previous_response_id: None,
                reasoning: Seq::empty(),
                stateful: config.stateful,
                cache_key: opt_view(config.cache_key),
            }),
            b.search_config() == config.search,
    {
        let b = GrokChatBackend {
            model: config.model,
            system_instructions: None,
            previous_response_id: None,
            encrypted_reasoning: Vec::new(),
            stateful: config.stateful,
            search: config.search,
            cache_key: config.cache_key,
        };
        assert(blob_views(b.encrypted_reasoning@) =~= Seq::<(Option<Seq<char>>, Seq<char>)>::empty());
        b
    }

    /// Restore the chaining identifier of a resumed conversation.
    pub fn set_previous_response_id(&mut self, id: &str)
        ensures
            final(self).view() == (BackendView { previous_response_id: Some(id@), ..old(self).view() }),
            final(self).search_config() == old(self).search_config(),
    {
        self.previous_response_id = Some(owned(id));
    }

    /// Whether the backend chains turns on the server.
    pub fn is_stateful(&self) -> (r: bool)
        ensures
            r == self.view().stateful,
    {
        self.stateful
    }

    /// The chaining identifier, if any.
    pub fn previous_response_id(&self) -> (r: Option<&str>)
        ensures
            match r {
                Some(s) => self.view().previous_response_id == Some(s@),
                None => self.view().previous_response_id is None,
            },
    {
        match &self.previous_response_id {
            Some(s) => Some(s.as_str()),
            None => None,
        }
    }

    /// The system instructions, if any.
    pub fn system_instructions(&self) -> (r: Option<&str>)
        ensures
            match r {
                Some(s) => self.view().system_instructions == Some(s@),
                None => self.view().system_instructions is None,
            },
    {
        match &self.system_instructions {
            Some(s) => Some(s.as_str()),
            None => None,
        }
    }

    /// The prompt cache key, if any.
    pub fn cache_key(&self) -> (r: Option<&str>)
        ensures
            match r {
                Some(s) => self.view().cache_key == Some(s@),
                None => self.view().cache_key is None,
            },
    {
        match &self.cache_key {
            Some(s) => Some(s.as_str()),
            None => None,
        }
    }

    /// The request for a message. A stateful conversation with a previous
    /// response sends the reasoning blobs of that response followed by the
    /// message and chains on its identifier; otherwise the message is sent
    /// as text. Stateful requests ask for encrypted reasoning and are
    /// stored on the server; stateless ones are not.
    pub fn build_request(&self, message: &str) -> (req: ChatRequest)
        ensures
            req.model@ == self.view().model,
            req.stream,
            (self.view().stateful && self.view().previous_response_id is Some) ==> (req.input matches RequestInput::Items { reasoning, message: m }
                && blob_views(reasoning@) == self.view().reasoning && m@ == message@),
            !(self.view().stateful && self.view().previous_response_id is Some) ==> (req.input matches RequestInput::Text(t) && t@ == message@),
            self.view().stateful ==> (req.included matches Some(v) && v@.len() == 1 && v@[0]@ == REASONING_INCLUDE@),
            !self.view().stateful ==> req.included is None,
            opt_view(req.instructions) == self.view().system_instructions,
            self.search_config().is_empty_spec() ==> req.tools is None,
            !self.search_config().is_empty_spec() ==> (req.tools matches Some(t) && t@ == spec_builtin_tools(self.search_config())),
            (req.search_parameters is Some) <==> (!self.search_config().is_empty_spec() && crate::search::has_params(self.search_config())),
            req.search_parameters matches Some(q) ==> crate::search::params_of(q, self.search_config()),
            req.store == self.view().stateful,
            self.view().stateful ==> opt_view(req.previous_response_id) == self.view().previous_response_id,
            !self.view().stateful ==> req.previous_response_id is None,
            opt_view(req.prompt_cache_key) == self.view().cache_key,
    {
        let chained = self.stateful && self.previous_response_id.is_some();
        let input = if chained {
            RequestInput::Items { reasoning: copy_blobs(&self.encrypted_reasoning), message: owned(message) }
        } else {
            RequestInput::Text(owned(message))
        };
        let included = if self.stateful {
            let mut v: Vec<String> = Vec::new();
            v.push(owned(REASONING_INCLUDE));
            Some(v)
        } else {
            None
        };
        let instructions = match &self.system_instructions {
            Some(s) => Some(owned(s.as_str())),
            None => None,
        };
        let tools = if self.search.is_empty() {
            None
        } else {
            Some(self.search.builtin_tools())
        };
        let previous_response_id = if self.stateful {
            match &self.previous_response_id {
                Some(s) => Some(owned(s.as_str())),
                None => None,
            }
        } else {
            None
        };
        let prompt_cache_key = match &self.cache_key {
            Some(k) => Some(owned(k.as_str())),
            None => None,
        };
        ChatRequest {
            model: owned(self.model.as_str()),
            input,
            stream: true,
            included,
            instructions,
            tools,
            search_parameters: self.search.search_parameters(),
            store: self.stateful,
            previous_response_id,
            prompt_cache_key,
        }
    }
}

impl ChatBackend for GrokChatBackend {
    open spec fn spec_model(&self) -> Seq<char> {
        self.view().model
    }

    open spec fn spec_system(&self) -> Option<Seq<char>> {
        self.view().system_instructions
    }

    open spec fn spec_chain_id(&self) -> Option<Seq<char>> {
        self.view().previous_response_id
    }

    fn model(&self) -> (r: &str)
        ensures
            r@ == self.view().model,
    {
        self.model.as_str()
    }

    fn set_model(&mut self, model: &str)
        ensures
            final(self).view() == (BackendView { model: model@, ..old(self).view() }),
    {
        self.model = owned(model);
    }

    fn set_system(&mut self, instructions: &str)
        ensures
            final(self).view() == (BackendView { system_instructions: Some(instructions@), ..old(self).view() }),
    {
        self.system_instructions = Some(owned(instructions));
    }

    fn clear(&mut self)
        ensures
            final(self).view() == (BackendView {
                previous_response_id: None,
                system_instructions: None,
                reasoning: Seq::empty(),
                ..old(self).view()
            }),
    {
        self.previous_response_id = None;
        self.system_instructions = None;
        self.encrypted_reasoning = Vec::new();
        assert(blob_views(self.encrypted_reasoning@) =~= Seq::<(Option<Seq<char>>, Seq<char>)>::empty());
    }
}

/// An event of a streamed response.
#[derive(Debug)]
pub enum StreamEvent {
    /// A content delta, with text when it carries some.
    ContentDelta { text: Option<String> },
    /// A delta of the output text.
    OutputTextDelta { delta: String },
    /// The arguments of a function call, complete.
    FunctionCallArgumentsDone { arguments: String },
    /// The response completed; the completed response.
    Completed { response: Json },
    /// The response failed; the failed response.
    Failed { response: Json },
    /// Any other event.
    Other,
    /// The stream broke.
    Error(String),
}

/// The error a failed response reports: its `error.message` (or a fixed
/// note) and its `error.code` as a status (500 when absent).
pub open spec fn failure_message(response: Json) -> Seq<char> {
    match json_get(response, "error"@) {
        Some(e) => match json_str(json_get(e, "message"@)) {
            Some(m) => m,
            None => "unknown API error"@,
        },
        None => "unknown API error"@,
    }
}

/// The numeric code a failed response reports, if any.
pub open spec fn failure_code(response: Json) -> Option<u64> {
    match json_get(response, "error"@) {
        Some(e) => json_u64(json_get(e, "code"@)),
        None => None,
    }
}

/// A turn being streamed: the text so far and, once the response
/// completed, its usage, identifier and citations.
pub struct StreamTurn {
    pub text: String,
    pub usage: TokenUsage,
    pub response_id: Option<String>,
    pub citations: Vec<Citation>,
}

impl StreamTurn {
    /// A turn before any event.
    pub fn new() -> (t: Self)
        ensures
            t.text@ == Seq::<char>::empty(),
            t.usage.input_tokens == 0 && t.usage.output_tokens == 0 && t.usage.cached_tokens is None,
            t.response_id is None,
            t.citations@.len() == 0,
    {
        StreamTurn {
            text: String::new(),
            usage: TokenUsage { input_tokens: 0, output_tokens: 0, cached_tokens: None },
            response_id: None,
            citations: Vec::new(),
        }
    }

    /// Take in one event. Text deltas are appended and returned for
    /// display; a completed response sets the usage, identifier and
    /// citations (and, in a stateful conversation, the reasoning blobs kept
    /// for the next turn); a failed response or a broken stream ends the
    /// turn with an error; other events change nothing.
    pub fn on_event(&mut self, backend: &mut GrokChatBackend, event: StreamEvent) -> (r: Result<Option<String>, BackendError>)
        ensures
            match event {
                StreamEvent::ContentDelta { text: Some(t) } => r matches Ok(Some(s)) && s@ == t@
                    && final(self).text@ == old(self).text@ + t@,
                StreamEvent::OutputTextDelta { delta } => r matches Ok(Some(s)) && s@ == delta@
                    && final(self).text@ == old(self).text@ + delta@,
                StreamEvent::Completed { response } => r matches Ok(None)
                    && (final(self).usage.input_tokens, final(self).usage.output_tokens, final(self).usage.cached_tokens) == spec_extract_usage(response)
                    && opt_view(final(self).response_id) == json_str(json_get(response, "id"@))
                    && cite_views(final(self).citations@) == spec_extract_citations(response)
                    && final(self).text@ == old(self).text@,
                StreamEvent::Failed { response } => r matches Err(BackendError::Api { status, message })
                    && message@ == failure_message(response)
                    && status == match failure_code(response) { Some(c) => c as u16, None => 500u16 },
                StreamEvent::Error(m) => r matches Err(BackendError::Transport(e)) && e@ == m@,
                _ => r matches Ok(None) && final(self).text@ == old(self).text@,
            },
            (event is Completed && final(backend).view().stateful) ==> final(backend).view() == (BackendView {
                reasoning: match event { StreamEvent::Completed { response } => spec_extract_blobs(response), _ => Seq::empty() },
                ..old(backend).view()
            }),
            !(event is Completed && final(backend).view().stateful) ==> final(backend).view() == old(backend).view(),
            final(backend).search_config() == old(backend).search_config(),
    {
        match event {
            StreamEvent::ContentDelta { text } => match text {
                Some(t) => {
                    self.text.append(t.as_str());
                    Ok(Some(t))
                },
                None => Ok(None),
            },
            StreamEvent::OutputTextDelta { delta } => {
                self.text.append(delta.as_str());
                Ok(Some(delta))
            },
            StreamEvent::Completed { response } => {
                self.usage = extract_usage(&response);
                self.response_id = extract_response_id(&response);
                self.citations = extract_citations(&response);
                if backend.stateful {
                    let blobs = extract_encrypted_reasoning(&response);
                    backend.encrypted_reasoning = blobs;
                    proof {
                        assert(blob_views(backend.encrypted_reasoning@) =~= spec_extract_blobs(response));
                    }
                }
                Ok(None)
            },
            StreamEvent::Failed { response } => {
                let (message, code) = match response.get("error") {
                    Some(e) => {
                        let m = match e.get("message") {
                            Some(x) => match x.as_str() {
                                Some(s) => owned(s),
                                None => owned("unknown API error"),
                            },
                            None => owned("unknown API error"),
                        };
                        let c = match e.get("code") {
                            Some(x) => x.as_u64(),
                            None => None,
                        };
                        (m, c)
                    },
                    None => (owned("unknown API error"), None),
                };
                let status: u16 = match code {
                    Some(c) => #[verifier::truncate] (c as u16),
                    None => 500,
                };
                Err(BackendError::Api { status, message })
            },
            StreamEvent::FunctionCallArgumentsDone { .. } => Ok(None),
            StreamEvent::Other => Ok(None),
            StreamEvent::Error(m) => Err(BackendError::Transport(m)),
        }
    }

    /// End the turn once the stream is over: in a stateful conversation the
    /// response identifier becomes the chaining identifier. Returns the
    /// reply and what to print after the streamed text: a newline if text
    /// was streamed, then the citations.
    pub fn finish(self, backend: &mut GrokChatBackend) -> (r: (ChatResponse, String))
        ensures
            r.0.text@ == self.text@,
            r.0.usage == self.usage,
            opt_view(r.0.previous_response_id) == opt_view(self.response_id),
            cite_views(r.0.citations@) == cite_views(self.citations@),
            r.1@ == (if self.text@.len() > 0 { "\n"@ } else { Seq::empty() }) + spec_format_citations(self.citations@),
            final(backend).view().stateful ==> final(backend).view() == (BackendView {
                previous_response_id: opt_view(self.response_id),
                ..old(backend).view()
            }),
            !final(backend).view().stateful ==> final(backend).view() == old(backend).view(),
            final(backend).search_config() == old(backend).search_config(),
    {
        let mut tail = String::new();
        if self.text.unicode_len() > 0 {
            tail.append("\n");
        }
        let cites = format_citations(self.citations.as_slice());
        tail.append(cites.as_str());
        if backend.stateful {
            backend.previous_response_id = match &self.response_id {
                Some(s) => Some(owned(s.as_str())),
                None => None,
            };
        }
        let reply = ChatResponse {
            text: self.text,
            usage: self.usage,
            previous_response_id: self.response_id,
            citations: self.citations,
        };
        (reply, tail)
    }
}

} // verus!
