//! The interactive chat loop's verified core: token accounting, the
//! conversation history, slash-command parsing and the handling of parsed
//! commands. Reading lines and talking to the API stay with the caller.

use vstd::prelude::*;
use crate::config::{join_path, path_join};
use crate::text::{
    ascii_lowercase, dec, find_ws, first_ws, owned, push_u64, str_eq, to_ascii_lowercase, trim,
    trimmed,
};

verus! {

/// Token counts of one turn. `cached_tokens` is what the server reported as
/// served from its prompt cache, when it reported anything.
#[derive(Debug, Clone, PartialEq, Eq)]
pub struct TokenUsage {
    pub input_tokens: u64,
    pub output_tokens: u64,
    pub cached_tokens: Option<u64>,
}

/// The display of a turn's usage; the cache note appears only for a
/// positive cached count.
pub open spec fn usage_text(u: TokenUsage) -> Seq<char> {
    let total = dec((u.input_tokens + u.output_tokens) as nat);
    match u.cached_tokens {
        Some(c) if c > 0 => "input="@ + dec(u.input_tokens as nat) + " ("@ + dec(c as nat)
            + " cached), output="@ + dec(u.output_tokens as nat) + ", total="@ + total,
        _ => "input="@ + dec(u.input_tokens as nat) + ", output="@ + dec(u.output_tokens as nat)
            + ", total="@ + total,
    }
}

impl Default for TokenUsage {
    fn default() -> (u: TokenUsage)
        ensures
            u.input_tokens == 0,
            u.output_tokens == 0,
            u.cached_tokens is None,
    {
        TokenUsage { input_tokens: 0, output_tokens: 0, cached_tokens: None }
    }
}

impl TokenUsage {
    /// Total tokens of the turn.
    pub fn total(&self) -> (t: u64)
        requires
            self.input_tokens + self.output_tokens <= u64::MAX,
        ensures
            t == self.input_tokens + self.output_tokens,
    {
        self.input_tokens + self.output_tokens
    }

    /// The usage line shown after each turn.
    pub fn to_string(&self) -> (s: String)
        requires
            self.input_tokens + self.output_tokens <= u64::MAX,
        ensures
            s@ == usage_text(*self),
    {
        let mut s = owned("input=");
        push_u64(&mut s, self.input_tokens);
        match self.cached_tokens {
            Some(c) if c > 0 => {
                s.append(" (");
                push_u64(&mut s, c);
                s.append(" cached), output=");
            },
            _ => {
                s.append(", output=");
            },
        }
        push_u64(&mut s, self.output_tokens);
        s.append(", total=");
        push_u64(&mut s, self.total());
        assert(s@ =~= usage_text(*self));
        s
    }
}

/// One exchange: what the user typed and what the assistant answered.
#[derive(Debug, Clone)]
pub struct ConversationTurn {
    pub user_input: String,
    pub assistant_response: String,
    pub usage: TokenUsage,
}

/// Sum of the input tokens of the turns.
pub open spec fn sum_input(turns: Seq<ConversationTurn>) -> nat
    decreases turns.len(),
{
    if turns.len() == 0 {
        0
    } else {
        sum_input(turns.drop_last()) + turns.last().usage.input_tokens as nat
    }
}

/// Sum of the output tokens of the turns.
pub open spec fn sum_output(turns: Seq<ConversationTurn>) -> nat
    decreases turns.len(),
{
    if turns.len() == 0 {
        0
    } else {
        sum_output(turns.drop_last()) + turns.last().usage.output_tokens as nat
    }
}

/// The conversation as a value.
pub struct HistoryView {
    pub turns: Seq<ConversationTurn>,
    pub total_input: nat,
    pub total_output: nat,
    pub last_response_id: Option<Seq<char>>,
}

/// The turns of a conversation in order, with running token totals and the
/// response identifier used for server-side chaining.
#[derive(Debug)]
pub struct ConversationHistory {
    turns: Vec<ConversationTurn>,
    total_input_tokens: u64,
    total_output_tokens: u64,
    last_response_id: Option<String>,
}

impl ConversationHistory {
    /// The conversation as a value.
    pub closed spec fn view(&self) -> HistoryView {
        HistoryView {
            turns: self.turns@,
            total_input: self.total_input_tokens as nat,
            total_output: self.total_output_tokens as nat,
            last_response_id: match self.last_response_id {
                Some(s) => Some(s@),
                None => None,
            },
        }
    }

    /// The running totals are the sums over the recorded turns.
    pub open spec fn wf(&self) -> bool {
        &&& self.view().total_input == sum_input(self.view().turns)
        &&& self.view().total_output == sum_output(self.view().turns)
    }

    /// An empty conversation.
    pub fn new() -> (h: Self)
        ensures
            h.wf(),
            h.view().turns.len() == 0,
            h.view().total_input == 0,
            h.view().total_output == 0,
            h.view().last_response_id is None,
    {
        ConversationHistory {
            turns: Vec::new(),
            total_input_tokens: 0,
            total_output_tokens: 0,
            last_response_id: None,
        }
    }

    /// Record a completed turn, adding its usage to the totals.
    pub fn push(&mut self, turn: ConversationTurn)
        requires
            old(self).wf(),
            old(self).view().total_input + turn.usage.input_tokens <= u64::MAX,
            old(self).view().total_output + turn.usage.output_tokens <= u64::MAX,
        ensures
            final(self).wf(),
            final(self).view().turns == old(self).view().turns.push(turn),
            final(self).view().total_input == old(self).view().total_input + turn.usage.input_tokens,
            final(self).view().total_output == old(self).view().total_output + turn.usage.output_tokens,
            final(self).view().last_response_id == old(self).view().last_response_id,
    {
        self.total_input_tokens = self.total_input_tokens + turn.usage.input_tokens;
        self.total_output_tokens = self.total_output_tokens + turn.usage.output_tokens;
        let ghost before = self.turns@;
        self.turns.push(turn);
        assert(self.turns@.drop_last() =~= before);
    }

    /// Set the response identifier for stateful chaining.
    pub fn set_last_response_id(&mut self, id: Option<String>)
        requires
            old(self).wf(),
        ensures
            final(self).wf(),
            final(self).view().turns == old(self).view().turns,
            final(self).view().total_input == old(self).view().total_input,
            final(self).view().total_output == old(self).view().total_output,
            final(self).view().last_response_id == crate::text::opt_view(id),
    {
        self.last_response_id = id;
    }

    /// The response identifier for stateful chaining.
    pub fn last_response_id(&self) -> (r: Option<&str>)
        ensures
            crate::text::opt_str_view(r) == self.view().last_response_id,
    {
        match &self.last_response_id {
            Some(s) => Some(s.as_str()),
            None => None,
        }
    }

    /// The number of recorded turns.
    pub fn turn_count(&self) -> (n: usize)
        ensures
            n == self.view().turns.len(),
    {
        self.turns.len()
    }

    /// Input tokens over all turns.
    pub fn total_input_tokens(&self) -> (n: u64)
        ensures
            n == self.view().total_input,
    {
        self.total_input_tokens
    }

    /// Output tokens over all turns.
    pub fn total_output_tokens(&self) -> (n: u64)
        ensures
            n == self.view().total_output,
    {
        self.total_output_tokens
    }

    /// All tokens over all turns.
    pub fn total_tokens(&self) -> (n: u64)
        requires
            self.view().total_input + self.view().total_output <= u64::MAX,
        ensures
            n == self.view().total_input + self.view().total_output,
    {
        self.total_input_tokens + self.total_output_tokens
    }

    /// The recorded turns, oldest first.
    pub fn turns(&self) -> (t: &[ConversationTurn])
        ensures
            t@ == self.view().turns,
    {
        self.turns.as_slice()
    }

    /// Forget every turn, the totals and the response identifier.
    pub fn clear(&mut self)
        ensures
            final(self).wf(),
            final(self).view().turns.len() == 0,
            final(self).view().total_input == 0,
            final(self).view().total_output == 0,
            final(self).view().last_response_id is None,
    {
        self.turns.clear();
        self.total_input_tokens = 0;
        self.total_output_tokens = 0;
        self.last_response_id = None;
    }

    /// The `/history` line: turn count and token totals.
    pub fn to_string(&self) -> (s: String)
        requires
            self.view().total_input + self.view().total_output <= u64::MAX,
        ensures
            s@ == history_text(self.view()),
    {
        let mut s = owned("turns=");
        push_u64(&mut s, self.turns.len() as u64);
        s.append(", input_tokens=");
        push_u64(&mut s, self.total_input_tokens);
        s.append(", output_tokens=");
        push_u64(&mut s, self.total_output_tokens);
        s.append(", total_tokens=");
        push_u64(&mut s, self.total_tokens());
        assert(s@ =~= history_text(self.view()));
        s
    }
}

/// The `/history` line of a conversation.
pub open spec fn history_text(v: HistoryView) -> Seq<char> {
    "turns="@ + dec(v.turns.len()) + ", input_tokens="@ + dec(v.total_input) + ", output_tokens="@
        + dec(v.total_output) + ", total_tokens="@ + dec(v.total_input + v.total_output)
}

/// The totals of a well-formed conversation are the sums over its turns,
/// whatever sequence of pushes, clears and identifier updates produced it;
/// pushing a turn adds exactly its usage.
pub proof fn lemma_push_adds_usage(turns: Seq<ConversationTurn>, t: ConversationTurn)
    ensures
        sum_input(turns.push(t)) == sum_input(turns) + t.usage.input_tokens,
        sum_output(turns.push(t)) == sum_output(turns) + t.usage.output_tokens,
{
    assert(turns.push(t).drop_last() =~= turns);
}

/// A slash command typed at the prompt.
#[derive(Debug, Clone, PartialEq, Eq)]
pub enum SlashCommand {
    Exit,
    Clear,
    Model(String),
    System(String),
    Help,
    History,
    Unknown(String),
}

/// A slash command as a value.
pub enum Slash {
    Exit,
    Clear,
    Model(Seq<char>),
    System(Seq<char>),
    Help,
    History,
    Unknown(Seq<char>),
}

/// The value of a slash command.
pub open spec fn slash_of(c: SlashCommand) -> Slash {
    match c {
        SlashCommand::Exit => Slash::Exit,
        SlashCommand::Clear => Slash::Clear,
        SlashCommand::Model(m) => Slash::Model(m@),
        SlashCommand::System(p) => Slash::System(p@),
        SlashCommand::Help => Slash::Help,
        SlashCommand::History => Slash::History,
        SlashCommand::Unknown(u) => Slash::Unknown(u@),
    }
}

pub const MISSING_MODEL: &'static str = " (missing model name; usage: /model <name>)";
pub const MISSING_PROMPT: &'static str = " (missing prompt; usage: /system <prompt>)";

/// The command an input line denotes, if it is one: after trimming, a line
/// starting with `/` is split at its first whitespace into a command name
/// (matched without regard to ASCII case) and the trimmed rest. `/model`
/// takes the first word of the rest, `/system` all of it; without an
/// argument both are reported as unknown with a usage note.
pub open spec fn spec_parse(input: Seq<char>) -> Option<Slash> {
    let t = trimmed(input);
    if !(t.len() > 0 && t[0] == '/') {
        None
    } else {
        let k = first_ws(t);
        let cmd = t.subrange(0, k);
        let rest = trimmed(t.subrange(k, t.len() as int));
        let lower = ascii_lowercase(cmd);
        Some(
            if lower == "/exit"@ || lower == "/quit"@ {
                Slash::Exit
            } else if lower == "/clear"@ {
                Slash::Clear
            } else if lower == "/model"@ {
                if rest.len() == 0 {
                    Slash::Unknown(cmd + MISSING_MODEL@)
                } else {
                    Slash::Model(rest.subrange(0, first_ws(rest)))
                }
            } else if lower == "/system"@ {
                if rest.len() == 0 {
                    Slash::Unknown(cmd + MISSING_PROMPT@)
                } else {
                    Slash::System(rest)
                }
            } else if lower == "/help"@ {
                Slash::Help
            } else if lower == "/history"@ {
                Slash::History
            } else {
                Slash::Unknown(cmd)
            },
        )
    }
}

/// The value of an optional command.
pub open spec fn opt_slash(c: Option<SlashCommand>) -> Option<Slash> {
    match c {
        Some(c) => Some(slash_of(c)),
        None => None,
    }
}

/// Parse a line as a slash command; `None` means it is a message.
pub fn parse(input: &str) -> (r: Option<SlashCommand>)
    ensures
        opt_slash(r) == spec_parse(input@),
{
    let t = trim(input);
    let n = t.unicode_len();
    if n == 0 || t.get_char(0) != '/' {
        return None;
    }
    let k = find_ws(t);
    let cmd = t.substring_char(0, k);
    let rest = trim(t.substring_char(k, n));
    let lower = to_ascii_lowercase(cmd);
    let l = lower.as_str();
    let c = if str_eq(l, "/exit") || str_eq(l, "/quit") {
        SlashCommand::Exit
    } else if str_eq(l, "/clear") {
        SlashCommand::Clear
    } else if str_eq(l, "/model") {
        if rest.unicode_len() == 0 {
            let mut u = owned(cmd);
            u.append(MISSING_MODEL);
            SlashCommand::Unknown(u)
        } else {
            let w = find_ws(rest);
            SlashCommand::Model(owned(rest.substring_char(0, w)))
        }
    } else if str_eq(l, "/system") {
        if rest.unicode_len() == 0 {
            let mut u = owned(cmd);
            u.append(MISSING_PROMPT);
            SlashCommand::Unknown(u)
        } else {
            SlashCommand::System(owned(rest))
        }
    } else if str_eq(l, "/help") {
        SlashCommand::Help
    } else if str_eq(l, "/history") {
        SlashCommand::History
    } else {
        SlashCommand::Unknown(owned(cmd))
    };
    Some(c)
}

pub const HELP_TEXT: &'static str = "\
Available commands:
  /help              Show this help message
  /exit, /quit       Exit the REPL
  /clear             Clear conversation history
  /model <name>      Switch model for subsequent turns
  /system <prompt>   Set system instructions
  /history           Show turn count and cumulative token usage";

/// The `/help` listing of the slash commands.
pub fn help_text() -> (s: &'static str)
    ensures
        s@ == HELP_TEXT@,
{
    HELP_TEXT
}

/// Where the REPL keeps its state: the directory that holds `.grokrs/`.
#[derive(Debug, Clone)]
pub struct ReplConfig {
    pub state_dir: String,
}

pub const HISTORY_DIR: &'static str = ".grokrs";
pub const HISTORY_FILENAME: &'static str = "chat_history.txt";

impl ReplConfig {
    /// The line-history file: `<state_dir>/.grokrs/chat_history.txt`.
    pub fn history_path(&self) -> (p: String)
        ensures
            p@ == path_join(path_join(self.state_dir@, HISTORY_DIR@), HISTORY_FILENAME@),
    {
        let dir = join_path(self.state_dir.as_str(), HISTORY_DIR);
        join_path(dir.as_str(), HISTORY_FILENAME)
    }
}

/// Whether the loop goes on after a line.
#[derive(Debug, PartialEq, Eq)]
pub enum LineOutcome {
    Continue,
    Exit,
}

/// What to do with a line read at the prompt.
#[derive(Debug, PartialEq, Eq)]
pub enum LineAction {
    /// The line is blank.
    Ignore,
    /// The line is a slash command.
    Command(SlashCommand),
    /// The line, trimmed, is a message for the model.
    Send(String),
}

/// Classify a line: blank lines are ignored, slash commands are parsed, and
/// anything else is sent trimmed.
pub fn classify_line(line: &str) -> (a: LineAction)
    ensures
        trimmed(line@).len() == 0 ==> a is Ignore,
        trimmed(line@).len() > 0 ==> match spec_parse(trimmed(line@)) {
            Some(c) => a matches LineAction::Command(cmd) && slash_of(cmd) == c,
            None => a matches LineAction::Send(m) && m@ == trimmed(line@),
        },
{
    let t = trim(line);
    if t.unicode_len() == 0 {
        return LineAction::Ignore;
    }
    match parse(t) {
        Some(cmd) => LineAction::Command(cmd),
        None => LineAction::Send(owned(t)),
    }
}

/// The controls of a chat backend that slash commands use. Sending messages
/// is asynchronous and stays with the caller.
pub trait ChatBackend {
    /// The model subsequent turns use.
    spec fn spec_model(&self) -> Seq<char>;

    /// The system instructions subsequent turns carry, if any.
    spec fn spec_system(&self) -> Option<Seq<char>>;

    /// The server-side reference that chains the next turn to the
    /// conversation, if any.
    spec fn spec_chain_id(&self) -> Option<Seq<char>>;

    /// The model subsequent turns use.
    fn model(&self) -> (r: &str)
        ensures
            r@ == self.spec_model();

    /// Switch the model for subsequent turns.
    fn set_model(&mut self, model: &str)
        ensures
            final(self).spec_model() == model@,
            final(self).spec_system() == old(self).spec_system(),
            final(self).spec_chain_id() == old(self).spec_chain_id();

    /// Set the system instructions for subsequent turns.
    fn set_system(&mut self, instructions: &str)
        ensures
            final(self).spec_system() == Some(instructions@),
            final(self).spec_model() == old(self).spec_model(),
            final(self).spec_chain_id() == old(self).spec_chain_id();

    /// Forget the conversation and any server-side state reference.
    fn clear(&mut self)
        ensures
            final(self).spec_chain_id() is None,
            final(self).spec_model() == old(self).spec_model();
}

/// The text a slash command prints, if any.
pub open spec fn slash_reply(c: Slash, h: HistoryView) -> Option<Seq<char>> {
    match c {
        Slash::Exit => None,
        Slash::Clear => Some("Conversation cleared."@),
        Slash::Model(name) => Some("Model switched to: "@ + name),
        Slash::System(_) => Some("System instructions updated."@),
        Slash::Help => Some(HELP_TEXT@),
        Slash::History => Some(history_text(h)),
        Slash::Unknown(name) => Some("Unknown command: "@ + name + ". Type /help for available commands."@),
    }
}

/// Carry out a slash command against the backend and the conversation and
/// return whether to go on, with the line to print. `/clear` empties the
/// conversation; no other command changes it.
pub fn handle_slash_command<B: ChatBackend>(
    cmd: SlashCommand,
    backend: &mut B,
    conversation: &mut ConversationHistory,
) -> (r: (LineOutcome, Option<String>))
    requires
        old(conversation).wf(),
        old(conversation).view().total_input + old(conversation).view().total_output <= u64::MAX,
    ensures
        final(conversation).wf(),
        (r.0 is Exit) <==> (cmd is Exit),
        opt_view_string(r.1) == slash_reply(slash_of(cmd), old(conversation).view()),
        cmd is Clear ==> final(conversation).view().turns.len() == 0
            && final(conversation).view().total_input == 0
            && final(conversation).view().total_output == 0
            && final(conversation).view().last_response_id is None,
        !(cmd is Clear) ==> final(conversation).view() == old(conversation).view(),
        cmd matches SlashCommand::Model(n) ==> final(backend).spec_model() == n@
            && final(backend).spec_system() == old(backend).spec_system()
            && final(backend).spec_chain_id() == old(backend).spec_chain_id(),
        cmd matches SlashCommand::System(t) ==> final(backend).spec_system() == Some(t@)
            && final(backend).spec_model() == old(backend).spec_model()
            && final(backend).spec_chain_id() == old(backend).spec_chain_id(),
        cmd is Clear ==> final(backend).spec_chain_id() is None
            && final(backend).spec_model() == old(backend).spec_model(),
        !(cmd is Clear || cmd is Model || cmd is System) ==> *final(backend) == *old(backend),
{
    match cmd {
        SlashCommand::Exit => (LineOutcome::Exit, None),
        SlashCommand::Clear => {
            backend.clear();
            conversation.clear();
            (LineOutcome::Continue, Some(owned("Conversation cleared.")))
        },
        SlashCommand::Model(name) => {
            backend.set_model(name.as_str());
            let mut s = owned("Model switched to: ");
            s.append(name.as_str());
            (LineOutcome::Continue, Some(s))
        },
        SlashCommand::System(instructions) => {
            backend.set_system(instructions.as_str());
            (LineOutcome::Continue, Some(owned("System instructions updated.")))
        },
        SlashCommand::Help => (LineOutcome::Continue, Some(owned(help_text()))),
        SlashCommand::History => (LineOutcome::Continue, Some(conversation.to_string())),
        SlashCommand::Unknown(name) => {
            let mut s = owned("Unknown command: ");
            s.append(name.as_str());
            s.append(". Type /help for available commands.");
            (LineOutcome::Continue, Some(s))
        },
    }
}

/// The text of an optional owned string.
pub open spec fn opt_view_string(o: Option<String>) -> Option<Seq<char>> {
    crate::text::opt_view(o)
}

/// Record a model reply: the turn joins the conversation and the reply's
/// response identifier becomes the chaining identifier.
pub fn record_reply(
    conversation: &mut ConversationHistory,
    user_input: String,
    reply_text: String,
    usage: TokenUsage,
    response_id: Option<String>,
)
    requires
        old(conversation).wf(),
        old(conversation).view().total_input + usage.input_tokens <= u64::MAX,
        old(conversation).view().total_output + usage.output_tokens <= u64::MAX,
    ensures
        final(conversation).wf(),
        final(conversation).view().turns == old(conversation).view().turns.push(
            ConversationTurn { user_input, assistant_response: reply_text, usage },
        ),
        final(conversation).view().total_input == old(conversation).view().total_input + usage.input_tokens,
        final(conversation).view().total_output == old(conversation).view().total_output + usage.output_tokens,
        final(conversation).view().last_response_id == crate::text::opt_view(response_id),
{
    let turn = ConversationTurn { user_input, assistant_response: reply_text, usage };
    conversation.push(turn);
    conversation.set_last_response_id(response_id);
}

} // verus!
